use std::io::Cursor;

use favicon::{Action, Bundle, Event, Favicon, FaviconError, Format, Preset, PresetId};

fn png_source(width: u32, height: u32) -> Vec<u8> {
    let img = image::RgbaImage::from_fn(width, height, |x, y| {
        image::Rgba([(x % 256) as u8, (y % 256) as u8, 128, 255])
    });
    let mut out = Cursor::new(Vec::new());
    image::DynamicImage::ImageRgba8(img)
        .write_to(&mut out, image::ImageOutputFormat::Png)
        .unwrap();
    out.into_inner()
}

fn dimensions(bytes: &[u8]) -> (u32, u32) {
    let img = image::load_from_memory(bytes).unwrap();
    (img.width(), img.height())
}

/// Runs every step of a run, with each write reported as the given events
/// say, and returns the files asked to be written and the final action.
fn run(favicon: &Favicon, fail_at: Option<usize>) -> (Vec<(String, Vec<u8>)>, Action) {
    let mut written: usize = 0;
    let mut event = Event::Start;
    let mut files = Vec::new();
    loop {
        match favicon.process(written, event) {
            Action::Write(file) => {
                if fail_at == Some(written) {
                    event = Event::WriteFailed;
                } else {
                    event = Event::Written;
                    written += 1;
                }
                files.push((file.name, file.bytes));
            }
            other => return (files, other),
        }
    }
}

#[test]
fn stores_presets_in_job_queue() {
    let mut favicon = Favicon::new(&png_source(512, 512)).unwrap();

    favicon.queue(Preset::new("favicon-16x16.png", Format::Png, 16, 16));
    favicon.queue(Preset::new("favicon-32x32.png", Format::Png, 32, 32));

    assert_eq!(favicon.job_queue().len(), 2);
    assert_eq!(
        favicon.job_queue()[0],
        Preset::new("favicon-16x16.png", Format::Png, 16, 16)
    );
    assert_eq!(
        favicon.job_queue()[1],
        Preset::new("favicon-32x32.png", Format::Png, 32, 32)
    );
}

#[test]
fn refuses_non_square_source() {
    assert_eq!(Favicon::new(&png_source(100, 50)).err(), Some(FaviconError::Shape));
}

#[test]
fn refuses_bytes_that_are_no_image() {
    assert_eq!(Favicon::new(b"not an image").err(), Some(FaviconError::Decode));
    assert_eq!(Favicon::new(&[]).err(), Some(FaviconError::Decode));
}

#[test]
fn new_runner_has_empty_queue() {
    let favicon = Favicon::new(&png_source(64, 64)).unwrap();
    assert!(favicon.job_queue().is_empty());
    let (files, end) = run(&favicon, None);
    assert!(files.is_empty());
    assert!(matches!(end, Action::Done));
}

#[test]
fn queue_twice_equals_queue_many() {
    let p1 = Preset::new("a.png", Format::Png, 16, 16);
    let p2 = Preset::new("b.png", Format::Png, 32, 32);
    let mut one_by_one = Favicon::new(&png_source(64, 64)).unwrap();
    one_by_one.queue(p1.clone());
    one_by_one.queue(p2.clone());
    let mut at_once = Favicon::new(&png_source(64, 64)).unwrap();
    at_once.queue_many(vec![p1, p2]);
    assert_eq!(one_by_one.job_queue(), at_once.job_queue());
    assert_eq!(run(&one_by_one, None).0, run(&at_once, None).0);
}

#[test]
fn writes_two_favicons_of_preset_size() {
    let mut favicon = Favicon::new(&png_source(512, 512)).unwrap();
    favicon.queue(Preset::new("favicon-16x16.png", Format::Png, 16, 16));
    favicon.queue(Preset::new("favicon-32x32.png", Format::Png, 32, 32));
    let (files, end) = run(&favicon, None);
    assert!(matches!(end, Action::Done));
    assert_eq!(files.len(), 2);
    assert_eq!(files[0].0, "favicon-16x16.png");
    assert_eq!(dimensions(&files[0].1), (16, 16));
    assert_eq!(files[1].0, "favicon-32x32.png");
    assert_eq!(dimensions(&files[1].1), (32, 32));
}

#[test]
fn render_reports_preset_size() {
    let mut favicon = Favicon::new(&png_source(128, 128)).unwrap();
    favicon.queue(Preset::new("icon.png", Format::Png, 57, 57));
    let file = favicon.render(0).unwrap();
    assert_eq!(file.name, "icon.png");
    assert_eq!((file.width, file.height), (57, 57));
    assert_eq!(dimensions(&file.bytes), (57, 57));
}

#[test]
fn same_preset_twice_is_written_twice() {
    let mut favicon = Favicon::new(&png_source(64, 64)).unwrap();
    favicon.queue(PresetId::Favicon16.preset());
    favicon.queue(PresetId::Favicon16.preset());
    let (files, end) = run(&favicon, None);
    assert!(matches!(end, Action::Done));
    assert_eq!(files.len(), 2);
    assert_eq!(files[0], files[1]);
    assert_eq!(files[0].0, "favicon-16.png");
}

#[test]
fn failed_write_stops_the_run() {
    let mut favicon = Favicon::new(&png_source(64, 64)).unwrap();
    favicon.queue(PresetId::Favicon16.preset());
    favicon.queue(PresetId::Favicon32.preset());
    let (files, end) = run(&favicon, Some(0));
    assert_eq!(files.len(), 1);
    assert!(matches!(end, Action::Fail(FaviconError::FileSystem)));
}

#[test]
fn failed_write_later_in_queue_keeps_earlier_files() {
    let mut favicon = Favicon::new(&png_source(64, 64)).unwrap();
    favicon.queue_many(Bundle::Small.presets());
    favicon.queue(PresetId::Favicon96.preset());
    let (files, end) = run(&favicon, Some(1));
    assert_eq!(files.len(), 2);
    assert_eq!(files[1].0, "favicon-32.png");
    assert!(matches!(end, Action::Fail(FaviconError::FileSystem)));
}

#[test]
fn oversized_ico_fails_to_encode() {
    let mut favicon = Favicon::new(&png_source(64, 64)).unwrap();
    favicon.queue(Preset::new("big.ico", Format::Ico, 300, 300));
    favicon.queue(PresetId::Favicon16.preset());
    assert_eq!(favicon.render(0).err(), Some(FaviconError::Encode));
    let (files, end) = run(&favicon, None);
    assert!(files.is_empty());
    assert!(matches!(end, Action::Fail(FaviconError::Encode)));
}

#[test]
fn zero_sized_preset_fails_to_encode() {
    let mut favicon = Favicon::new(&png_source(64, 64)).unwrap();
    favicon.queue(Preset::new("empty.png", Format::Png, 0, 16));
    assert_eq!(favicon.render(0).err(), Some(FaviconError::Encode));
}

#[test]
fn ico_favicon_is_an_ico_of_preset_size() {
    let mut favicon = Favicon::new(&png_source(256, 256)).unwrap();
    favicon.queue(PresetId::Favicon.preset());
    let file = favicon.render(0).unwrap();
    assert_eq!(file.name, "favicon.ico");
    assert_eq!(&file.bytes[0..4], &[0, 0, 1, 0]);
    assert_eq!(dimensions(&file.bytes), (64, 64));
}

#[test]
fn non_square_preset_gets_its_declared_size() {
    let mut favicon = Favicon::new(&png_source(512, 512)).unwrap();
    favicon.queue(PresetId::MsTile310x150.preset());
    let file = favicon.render(0).unwrap();
    assert_eq!((file.width, file.height), (150, 310));
    assert_eq!(dimensions(&file.bytes), (150, 310));
}

#[test]
fn output_does_not_depend_on_other_presets() {
    let mut alone = Favicon::new(&png_source(96, 96)).unwrap();
    alone.queue(PresetId::Favicon32.preset());
    let mut after_another = Favicon::new(&png_source(96, 96)).unwrap();
    after_another.queue(PresetId::AppleTouchIcon57.preset());
    after_another.queue(PresetId::Favicon32.preset());
    assert_eq!(alone.render(0).unwrap().bytes, after_another.render(1).unwrap().bytes);
}

#[test]
fn catalog_entries() {
    assert_eq!(
        PresetId::AppleTouchIcon152.preset(),
        Preset::new("apple_touch_icon-152.png", Format::Png, 152, 152)
    );
    assert_eq!(PresetId::Favicon.preset(), Preset::new("favicon.ico", Format::Ico, 64, 64));
    assert_eq!(
        PresetId::MsTile310x150.preset(),
        Preset::new("mstile-310x150.png", Format::Png, 310, 150)
    );
}

#[test]
fn bundles() {
    let small = Bundle::Small.presets();
    assert_eq!(
        small,
        vec![PresetId::Favicon16.preset(), PresetId::Favicon32.preset()]
    );
    let full = Bundle::Full.presets();
    assert_eq!(full.len(), 18);
    assert_eq!(full[0].name, "apple_touch_icon-114.png");
    assert_eq!(full[8], PresetId::Favicon.preset());
    assert_eq!(full[17].name, "mstile-150.png");
    assert_eq!(Bundle::Full.ids()[15], PresetId::MsTile310x150);
}

#[test]
fn static_preset_is_png() {
    assert_eq!(
        Preset::new_static("apple_touch_icon-57.png", 57, 57),
        Preset::new("apple_touch_icon-57.png", Format::Png, 57, 57)
    );
}
