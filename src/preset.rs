use vstd::prelude::*;

verus! {

/// How an output file is encoded.
#[derive(Clone, Copy, Debug, PartialEq, Eq, Structural)]
pub enum Format {
    Ico,
    Png,
}

/// One desired output: a file name, a pixel size and an encoding.
#[derive(Clone, Debug)]
pub struct Preset {
    pub name: String,
    pub format: Format,
    pub height: u32,
    pub width: u32,
}

impl Preset {
    pub fn new(name: &str, format: Format, height: u32, width: u32) -> (r: Preset)
        ensures
            r.name@ == name@,
            r.format == format,
            r.height == height,
            r.width == width,
    {
        Preset { name: name.to_string(), format, height, width }
    }

    /// This preset holds exactly the record of a catalog entry.
    pub open spec fn stands_for(self, id: PresetId) -> bool {
        (self.name@, self.format, self.height, self.width) == id.entry()
    }

    /// A PNG preset.
    pub fn new_static(name: &str, height: u32, width: u32) -> (r: Preset)
        ensures
            r.name@ == name@,
            r.format == Format::Png,
            r.height == height,
            r.width == width,
    {
        Preset::new(name, Format::Png, height, width)
    }
}

impl PartialEq for Preset {
    fn eq(&self, o: &Preset) -> (r: bool) {
        self.name == o.name && self.format == o.format && self.height == o.height
            && self.width == o.width
    }
}

impl vstd::std_specs::cmp::PartialEqSpecImpl for Preset {
    open spec fn obeys_eq_spec() -> bool {
        true
    }

    open spec fn eq_spec(&self, o: &Preset) -> bool {
        self.name@ == o.name@ && self.format == o.format && self.height == o.height
            && self.width == o.width
    }
}

/// The fixed catalog of presets shipped with the library.
#[derive(Clone, Copy, Debug, PartialEq, Eq, Structural)]
pub enum PresetId {
    AppleTouchIcon57,
    AppleTouchIcon60,
    AppleTouchIcon72,
    AppleTouchIcon76,
    AppleTouchIcon114,
    AppleTouchIcon120,
    AppleTouchIcon144,
    AppleTouchIcon152,
    Favicon,
    Favicon16,
    Favicon32,
    Favicon96,
    Favicon128,
    Favicon196,
    MsTile70,
    MsTile144,
    MsTile150,
    MsTile310x150,
    MsTile310,
}

impl PresetId {
    /// Name, format, height and width of a catalog entry.
    pub open spec fn entry(self) -> (Seq<char>, Format, u32, u32) {
        match self {
            PresetId::AppleTouchIcon57 => ("apple_touch_icon-57.png"@, Format::Png, 57, 57),
            PresetId::AppleTouchIcon60 => ("apple_touch_icon-60.png"@, Format::Png, 60, 60),
            PresetId::AppleTouchIcon72 => ("apple_touch_icon-72.png"@, Format::Png, 70, 70),
            PresetId::AppleTouchIcon76 => ("apple_touch_icon-76.png"@, Format::Png, 76, 76),
            PresetId::AppleTouchIcon114 => ("apple_touch_icon-114.png"@, Format::Png, 114, 114),
            PresetId::AppleTouchIcon120 => ("apple_touch_icon-120.png"@, Format::Png, 120, 120),
            PresetId::AppleTouchIcon144 => ("apple_touch_icon-144.png"@, Format::Png, 144, 144),
            PresetId::AppleTouchIcon152 => ("apple_touch_icon-152.png"@, Format::Png, 152, 152),
            PresetId::Favicon => ("favicon.ico"@, Format::Ico, 64, 64),
            PresetId::Favicon16 => ("favicon-16.png"@, Format::Png, 16, 16),
            PresetId::Favicon32 => ("favicon-32.png"@, Format::Png, 32, 32),
            PresetId::Favicon96 => ("favicon-96.png"@, Format::Png, 96, 96),
            PresetId::Favicon128 => ("favicon-128.png"@, Format::Png, 128, 128),
            PresetId::Favicon196 => ("favicon-32.png"@, Format::Png, 196, 196),
            PresetId::MsTile70 => ("mstile-70.png"@, Format::Png, 70, 70),
            PresetId::MsTile144 => ("mstile-144.png"@, Format::Png, 144, 144),
            PresetId::MsTile150 => ("mstile-150.png"@, Format::Png, 150, 150),
            PresetId::MsTile310x150 => ("mstile-310x150.png"@, Format::Png, 310, 150),
            PresetId::MsTile310 => ("mstile-310.png"@, Format::Png, 310, 310),
        }
    }

    /// The preset that this catalog entry stands for.
    pub fn preset(self) -> (r: Preset)
        ensures
            r.stands_for(self),
    {
        match self {
            PresetId::AppleTouchIcon57 => Preset::new("apple_touch_icon-57.png", Format::Png, 57, 57),
            PresetId::AppleTouchIcon60 => Preset::new("apple_touch_icon-60.png", Format::Png, 60, 60),
            PresetId::AppleTouchIcon72 => Preset::new("apple_touch_icon-72.png", Format::Png, 70, 70),
            PresetId::AppleTouchIcon76 => Preset::new("apple_touch_icon-76.png", Format::Png, 76, 76),
            PresetId::AppleTouchIcon114 => Preset::new("apple_touch_icon-114.png", Format::Png, 114, 114),
            PresetId::AppleTouchIcon120 => Preset::new("apple_touch_icon-120.png", Format::Png, 120, 120),
            PresetId::AppleTouchIcon144 => Preset::new("apple_touch_icon-144.png", Format::Png, 144, 144),
            PresetId::AppleTouchIcon152 => Preset::new("apple_touch_icon-152.png", Format::Png, 152, 152),
            PresetId::Favicon => Preset::new("favicon.ico", Format::Ico, 64, 64),
            PresetId::Favicon16 => Preset::new("favicon-16.png", Format::Png, 16, 16),
            PresetId::Favicon32 => Preset::new("favicon-32.png", Format::Png, 32, 32),
            PresetId::Favicon96 => Preset::new("favicon-96.png", Format::Png, 96, 96),
            PresetId::Favicon128 => Preset::new("favicon-128.png", Format::Png, 128, 128),
            PresetId::Favicon196 => Preset::new("favicon-32.png", Format::Png, 196, 196),
            PresetId::MsTile70 => Preset::new("mstile-70.png", Format::Png, 70, 70),
            PresetId::MsTile144 => Preset::new("mstile-144.png", Format::Png, 144, 144),
            PresetId::MsTile150 => Preset::new("mstile-150.png", Format::Png, 150, 150),
            PresetId::MsTile310x150 => Preset::new("mstile-310x150.png", Format::Png, 310, 150),
            PresetId::MsTile310 => Preset::new("mstile-310.png", Format::Png, 310, 310),
        }
    }
}

/// A named bundle of catalog entries.
#[derive(Clone, Copy, Debug, PartialEq, Eq, Structural)]
pub enum Bundle {
    /// The two web favicons, 16x16 and 32x32.
    Small,
    /// A favicon for each client: touch icons, favicons and tiles.
    Full,
}

impl Bundle {
    /// The entries of the bundle, in the order they are queued.
    pub open spec fn members(self) -> Seq<PresetId> {
        match self {
            Bundle::Small => seq![PresetId::Favicon16, PresetId::Favicon32],
            Bundle::Full => seq![
                PresetId::AppleTouchIcon114,
                PresetId::AppleTouchIcon120,
                PresetId::AppleTouchIcon144,
                PresetId::AppleTouchIcon152,
                PresetId::AppleTouchIcon57,
                PresetId::AppleTouchIcon60,
                PresetId::AppleTouchIcon72,
                PresetId::AppleTouchIcon76,
                PresetId::Favicon,
                PresetId::Favicon16,
                PresetId::Favicon96,
                PresetId::Favicon128,
                PresetId::Favicon196,
                PresetId::MsTile144,
                PresetId::MsTile310,
                PresetId::MsTile310x150,
                PresetId::MsTile70,
                PresetId::MsTile150,
            ],
        }
    }

    /// The entries of the bundle.
    pub fn ids(self) -> (r: Vec<PresetId>)
        ensures
            r@ == self.members(),
    {
        match self {
            Bundle::Small => vec![PresetId::Favicon16, PresetId::Favicon32],
            Bundle::Full => vec![
                PresetId::AppleTouchIcon114,
                PresetId::AppleTouchIcon120,
                PresetId::AppleTouchIcon144,
                PresetId::AppleTouchIcon152,
                PresetId::AppleTouchIcon57,
                PresetId::AppleTouchIcon60,
                PresetId::AppleTouchIcon72,
                PresetId::AppleTouchIcon76,
                PresetId::Favicon,
                PresetId::Favicon16,
                PresetId::Favicon96,
                PresetId::Favicon128,
                PresetId::Favicon196,
                PresetId::MsTile144,
                PresetId::MsTile310,
                PresetId::MsTile310x150,
                PresetId::MsTile70,
                PresetId::MsTile150,
            ],
        }
    }

    /// The presets of the bundle, in the order they are queued.
    pub fn presets(self) -> (r: Vec<Preset>)
        ensures
            r@.len() == self.members().len(),
            forall|i: int|
                0 <= i < r@.len() ==> (#[trigger] r@[i]).stands_for(self.members()[i]),
    {
        let ids = self.ids();
        let mut r: Vec<Preset> = Vec::new();
        let mut i: usize = 0;
        while i < ids.len()
            invariant
                i <= ids@.len(),
                ids@ == self.members(),
                r@.len() == i,
                forall|j: int|
                    0 <= j < i ==> (#[trigger] r@[j]).stands_for(self.members()[j]),
            decreases ids@.len() - i,
        {
            r.push(ids[i].preset());
            i = i + 1;
        }
        r
    }
}

} // verus!
