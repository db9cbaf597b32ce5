//! The job runner: one decoded square source and an ordered queue of presets.
use crate::preset::Preset;
use crate::raster::{decode, decoded, encode_pixels, fits, output_bytes, resize_pixels, rgba_len};
use vstd::prelude::*;

verus! {

/// Why a run failed.
#[derive(Clone, Copy, Debug, PartialEq, Eq, Structural)]
pub enum FaviconError {
    /// The source could not be read or parsed as an image.
    Decode,
    /// The source is not square.
    Shape,
    /// An output file could not be created or written.
    FileSystem,
    /// A resized image could not be encoded in its preset's format.
    Encode,
}

/// One output file, ready to be written under `name` in the output directory.
#[derive(Debug)]
pub struct OutputFile {
    pub name: String,
    pub width: u32,
    pub height: u32,
    pub bytes: Vec<u8>,
}

/// What happened since the previous step of a run.
#[derive(Clone, Copy, Debug, PartialEq, Eq, Structural)]
pub enum Event {
    /// Nothing has been attempted yet.
    Start,
    /// The file of the previous `Action::Write` was written.
    Written,
    /// The file of the previous `Action::Write` could not be created or written.
    WriteFailed,
}

/// What a run does next.
#[derive(Debug)]
pub enum Action {
    /// Write this file, then report how it went.
    Write(OutputFile),
    /// Every queued preset has been written.
    Done,
    /// Stop: the run has failed.
    Fail(FaviconError),
}

/// A decoded square image, never changed once loaded.
struct Source {
    side: u32,
    rgba: Vec<u8>,
}

impl Source {
    #[verifier::type_invariant]
    spec fn square(&self) -> bool {
        self.side > 0 && self.rgba@.len() == rgba_len(self.side, self.side)
    }
}

/// A decoded square source image and the presets queued against it.
pub struct Favicon {
    source: Source,
    job_queue: Vec<Preset>,
}

impl Favicon {
    /// Width and height of the source, in pixels.
    pub closed spec fn side(&self) -> u32 {
        self.source.side
    }

    /// RGBA8 pixels of the source.
    pub closed spec fn pixels(&self) -> Seq<u8> {
        self.source.rgba@
    }

    /// The presets queued so far, in queue order.
    pub closed spec fn queued(&self) -> Seq<Preset> {
        self.job_queue@
    }

    /// The file that the queued preset at `i` yields, if it can be encoded.
    pub open spec fn job_output(&self, i: int) -> Option<Seq<u8>> {
        output_bytes(self.side(), self.pixels(), self.queued()[i])
    }

    /// Decodes the bytes of a source file. A non-square image is refused, and
    /// an image without pixels counts as undecodable.
    pub fn new(bytes: &[u8]) -> (r: Result<Favicon, FaviconError>)
        ensures
            match decoded(bytes@) {
                None => r == Err::<Favicon, FaviconError>(FaviconError::Decode),
                Some((w, h, px)) => if w != h {
                    r == Err::<Favicon, FaviconError>(FaviconError::Shape)
                } else if w == 0 {
                    r == Err::<Favicon, FaviconError>(FaviconError::Decode)
                } else {
                    &&& r is Ok
                    &&& r->Ok_0.side() == w
                    &&& r->Ok_0.pixels() == px
                    &&& r->Ok_0.queued() == Seq::<Preset>::empty()
                },
            },
    {
        match decode(bytes) {
            Err(_) => Err(FaviconError::Decode),
            Ok((w, h, rgba)) => {
                if w != h {
                    Err(FaviconError::Shape)
                } else if w == 0 {
                    Err(FaviconError::Decode)
                } else {
                    Ok(Favicon { source: Source { side: w, rgba }, job_queue: Vec::new() })
                }
            },
        }
    }

    /// Appends one preset to the queue.
    pub fn queue(&mut self, preset: Preset)
        ensures
            final(self).side() == old(self).side(),
            final(self).pixels() == old(self).pixels(),
            final(self).queued() == old(self).queued().push(preset),
    {
        self.job_queue.push(preset);
    }

    /// Appends presets to the queue, keeping their order.
    pub fn queue_many(&mut self, presets: Vec<Preset>)
        ensures
            final(self).side() == old(self).side(),
            final(self).pixels() == old(self).pixels(),
            final(self).queued() == old(self).queued() + presets@,
    {
        let mut presets = presets;
        self.job_queue.append(&mut presets);
    }

    /// The presets queued so far.
    pub fn job_queue(&self) -> (r: &Vec<Preset>)
        ensures
            r@ == self.queued(),
    {
        &self.job_queue
    }

    /// Resizes the source to the size of the queued preset at `index` and
    /// encodes it in that preset's format.
    pub fn render(&self, index: usize) -> (r: Result<OutputFile, FaviconError>)
        requires
            index < self.queued().len(),
        ensures
            match r {
                Ok(f) => {
                    let p = self.queued()[index as int];
                    &&& f.name@ == p.name@
                    &&& f.width == p.width
                    &&& f.height == p.height
                    &&& self.job_output(index as int) == Some(f.bytes@)
                },
                Err(e) => e == FaviconError::Encode && self.job_output(index as int) is None,
            },
    {
        proof {
            use_type_invariant(&self.source);
        }
        let p = &self.job_queue[index];
        let w = p.width;
        let h = p.height;
        proof {
            assert(4 * (w as int) * (h as int) <= 4 * 0xffff_ffff * 0xffff_ffff) by (nonlinear_arith)
                requires
                    w <= 0xffff_ffff,
                    h <= 0xffff_ffff,
            ;
        }
        if w == 0 || h == 0 || 4 * (w as u128) * (h as u128) > usize::MAX as u128 {
            return Err(FaviconError::Encode);
        }
        assert(fits(w, h));
        let px = resize_pixels(self.source.side, self.source.side, &self.source.rgba, w, h);
        match encode_pixels(p.format, w, h, &px) {
            Ok(bytes) => Ok(OutputFile { name: p.name.clone(), width: w, height: h, bytes }),
            Err(_) => Err(FaviconError::Encode),
        }
    }

    /// Decides the next step of a run that has written the first `written`
    /// queued presets: presets are written in queue order, and the first
    /// failure ends the run.
    pub fn process(&self, written: usize, event: Event) -> (r: Action)
        requires
            written <= self.queued().len(),
        ensures
            event == Event::WriteFailed ==> r == Action::Fail(FaviconError::FileSystem),
            event != Event::WriteFailed && written == self.queued().len() ==> r is Done,
            event != Event::WriteFailed && written < self.queued().len() ==> match self.job_output(
                written as int,
            ) {
                Some(b) => {
                    let p = self.queued()[written as int];
                    &&& r is Write
                    &&& r->Write_0.name@ == p.name@
                    &&& r->Write_0.width == p.width
                    &&& r->Write_0.height == p.height
                    &&& r->Write_0.bytes@ == b
                },
                None => r == Action::Fail(FaviconError::Encode),
            },
    {
        if event == Event::WriteFailed {
            Action::Fail(FaviconError::FileSystem)
        } else if written == self.job_queue.len() {
            Action::Done
        } else {
            match self.render(written) {
                Ok(f) => Action::Write(f),
                Err(e) => Action::Fail(e),
            }
        }
    }
}

/// Queueing `p1` and then `p2` leaves the same queue, and so the same files,
/// as queueing `[p1, p2]` in one call.
pub proof fn queue_twice_is_queue_many(f: Favicon, a: Favicon, b: Favicon, p1: Preset, p2: Preset)
    requires
        a.side() == f.side(),
        a.pixels() == f.pixels(),
        a.queued() == f.queued().push(p1).push(p2),
        b.side() == f.side(),
        b.pixels() == f.pixels(),
        b.queued() == f.queued() + seq![p1, p2],
    ensures
        a.queued() == b.queued(),
        forall|i: int| 0 <= i < a.queued().len() ==> a.job_output(i) == b.job_output(i),
{
    assert(a.queued() =~= b.queued());
}

/// The file that a queued preset yields depends on the source and on that
/// preset alone: neither its place in the queue nor the other queued presets
/// change it.
pub proof fn output_independent_of_queue(a: Favicon, b: Favicon, i: int, j: int)
    requires
        a.side() == b.side(),
        a.pixels() == b.pixels(),
        0 <= i < a.queued().len(),
        0 <= j < b.queued().len(),
        a.queued()[i] == b.queued()[j],
    ensures
        a.job_output(i) == b.job_output(j),
{
}

} // verus!
