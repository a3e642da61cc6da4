//! The gallery: every loaded entry in load order, and the mode that decides
//! whether a parameter change applies to one entry or to all of them.
use vstd::prelude::*;

use crate::blend::Color;
use crate::codec::{decoded_rgba, load_image};
use crate::entry::{ExportFailure, ExportedImage, ImageData};
use crate::raster::{recolored_pixels, rgba_bytes};

verus! {

/// The loaded entries, in load order, and the batch-mode flag.
#[derive(Debug)]
pub struct ImageApp {
    pub images: Vec<ImageData>,
    pub apply_to_all: bool,
}

/// A file that could not be loaded, with the reason.
#[derive(Debug)]
pub struct LoadFailure {
    pub path: String,
    pub message: String,
}

/// The bytes decode to a well-formed image.
pub open spec fn decodes(bytes: Seq<u8>) -> bool {
    decoded_rgba(bytes) matches Some((w, h, data)) && data.len() == 4 * (w as int * h as int)
}

/// The sources that decode, as path and bytes, in order.
pub open spec fn accepted_sources(sources: Seq<(String, Vec<u8>)>) -> Seq<(Seq<char>, Seq<u8>)>
    decreases sources.len(),
{
    if sources.len() == 0 {
        Seq::empty()
    } else {
        let rest = accepted_sources(sources.drop_last());
        if decodes(sources.last().1@) {
            rest.push((sources.last().0@, sources.last().1@))
        } else {
            rest
        }
    }
}

/// The paths of the sources that do not decode, in order.
pub open spec fn rejected_paths(sources: Seq<(String, Vec<u8>)>) -> Seq<Seq<char>>
    decreases sources.len(),
{
    if sources.len() == 0 {
        Seq::empty()
    } else {
        let rest = rejected_paths(sources.drop_last());
        if decodes(sources.last().1@) {
            rest
        } else {
            rest.push(sources.last().0@)
        }
    }
}

/// `e` is a fresh entry for `path` whose original image is what `bytes`
/// decode to.
pub open spec fn fresh_entry(e: ImageData, path: Seq<char>, bytes: Seq<u8>) -> bool {
    &&& e.wf()
    &&& e.path@ == path
    &&& decoded_rgba(bytes) == Some(
        (e.original.width, e.original.height, rgba_bytes(e.original.pixels@)),
    )
    &&& e.recolored.pixels@ == e.original.pixels@
    &&& e.color == (Color { r: 255, g: 0, b: 0 })
    &&& e.blend == crate::entry::DEFAULT_BLEND
    &&& e.stale
}

/// `after` is `before` with `color` and `blend` written in and then
/// recomputed.
pub open spec fn batch_applied(after: ImageData, before: ImageData, color: Color, blend: u32) -> bool {
    &&& after.wf()
    &&& after.path@ == before.path@
    &&& after.original.width == before.original.width
    &&& after.original.height == before.original.height
    &&& after.original.pixels@ == before.original.pixels@
    &&& after.color == color
    &&& after.blend == blend
    &&& !after.stale
    &&& after.recolored.pixels@ == recolored_pixels(before.original.pixels@, color, blend)
}

impl ImageApp {
    pub open spec fn wf(&self) -> bool {
        forall|i: int| 0 <= i < self.images@.len() ==> (#[trigger] self.images@[i]).wf()
    }

    /// An empty gallery, not in batch mode.
    pub fn new() -> (r: ImageApp)
        ensures
            r.wf(),
            r.images@.len() == 0,
            !r.apply_to_all,
    {
        ImageApp { images: Vec::new(), apply_to_all: false }
    }

    pub fn len(&self) -> (r: usize)
        ensures
            r == self.images@.len(),
    {
        self.images.len()
    }

    pub fn set_apply_to_all(&mut self, on: bool)
        ensures
            final(self).apply_to_all == on,
            final(self).images@ == old(self).images@,
    {
        self.apply_to_all = on;
    }

    /// Decodes `bytes` and appends an entry for `path`, returning its index;
    /// on a decode failure the gallery is left as it was.
    pub fn load(&mut self, path: String, bytes: &[u8]) -> (r: Result<usize, LoadFailure>)
        requires
            old(self).wf(),
        ensures
            final(self).wf(),
            final(self).apply_to_all == old(self).apply_to_all,
            r is Ok <==> decodes(bytes@),
            r matches Ok(i) ==> i == old(self).images@.len() && final(self).images@.len() == i + 1
                && final(self).images@.subrange(0, i as int) == old(self).images@ && fresh_entry(
                final(self).images@[i as int],
                path@,
                bytes@,
            ),
            r matches Err(f) ==> f.path@ == path@ && final(self).images@ == old(self).images@,
    {
        match load_image(bytes) {
            Ok(image) => {
                let entry = ImageData::new(path, image);
                let i = self.images.len();
                self.images.push(entry);
                assert(self.images@.subrange(0, i as int) =~= old(self).images@);
                Ok(i)
            },
            Err(e) => Err(LoadFailure { path, message: e.message }),
        }
    }

    /// Loads every source in order. Each one that decodes becomes an entry;
    /// each one that does not is reported, and the others load all the same.
    pub fn load_all(&mut self, sources: Vec<(String, Vec<u8>)>) -> (r: Vec<LoadFailure>)
        requires
            old(self).wf(),
        ensures
            final(self).wf(),
            final(self).apply_to_all == old(self).apply_to_all,
            final(self).images@.len() == old(self).images@.len() + accepted_sources(sources@).len(),
            final(self).images@.subrange(0, old(self).images@.len() as int) == old(self).images@,
            forall|k: int|
                0 <= k < accepted_sources(sources@).len() ==> fresh_entry(
                    #[trigger] final(self).images@[old(self).images@.len() + k],
                    accepted_sources(sources@)[k].0,
                    accepted_sources(sources@)[k].1,
                ),
            r@.len() == rejected_paths(sources@).len(),
            forall|k: int| 0 <= k < r@.len() ==> (#[trigger] r@[k]).path@ == rejected_paths(sources@)[k],
    {
        let mut failures: Vec<LoadFailure> = Vec::new();
        let n0: usize = self.images.len();
        let mut i: usize = 0;
        while i < sources.len()
            invariant
                i <= sources@.len(),
                n0 == old(self).images@.len(),
                self.wf(),
                self.apply_to_all == old(self).apply_to_all,
                self.images@.len() == n0 + accepted_sources(sources@.subrange(0, i as int)).len(),
                self.images@.subrange(0, n0 as int) == old(self).images@,
                forall|k: int|
                    0 <= k < accepted_sources(sources@.subrange(0, i as int)).len() ==> fresh_entry(
                        #[trigger] self.images@[n0 + k],
                        accepted_sources(sources@.subrange(0, i as int))[k].0,
                        accepted_sources(sources@.subrange(0, i as int))[k].1,
                    ),
                failures@.len() == rejected_paths(sources@.subrange(0, i as int)).len(),
                forall|k: int|
                    0 <= k < failures@.len() ==> (#[trigger] failures@[k]).path@ == rejected_paths(
                        sources@.subrange(0, i as int),
                    )[k],
            decreases sources@.len() - i,
        {
            let ghost prefix = sources@.subrange(0, i as int);
            let ghost next = sources@.subrange(0, i as int + 1);
            assert(next.drop_last() =~= prefix);
            assert(next.last() == sources@[i as int]);
            let ghost before = self.images@;
            let path = sources[i].0.clone();
            let r = self.load(path, sources[i].1.as_slice());
            match r {
                Ok(_) => {
                    assert(self.images@.subrange(0, n0 as int) =~= before.subrange(0, n0 as int));
                    assert forall|k: int|
                        0 <= k < accepted_sources(next).len() implies fresh_entry(
                        #[trigger] self.images@[n0 + k],
                        accepted_sources(next)[k].0,
                        accepted_sources(next)[k].1,
                    ) by {
                        if k < accepted_sources(prefix).len() {
                            assert(self.images@[n0 + k] == before[n0 + k]);
                        }
                    }
                },
                Err(f) => {
                    failures.push(f);
                },
            }
            i = i + 1;
        }
        assert(sources@.subrange(0, sources@.len() as int) =~= sources@);
        failures
    }

    /// Recomputes exactly the entry at `index`; the others are untouched.
    pub fn apply_single(&mut self, index: usize)
        requires
            old(self).wf(),
            index < old(self).images@.len(),
        ensures
            final(self).wf(),
            final(self).apply_to_all == old(self).apply_to_all,
            final(self).images@.len() == old(self).images@.len(),
            ImageData::recomputed_from(final(self).images@[index as int], old(self).images@[index as int]),
            forall|j: int|
                0 <= j < old(self).images@.len() && j != index ==> #[trigger] final(self).images@[j]
                    == old(self).images@[j],
    {
        self.images[index].recompute();
    }

    /// Copies the color and blend factor of the entry at `source` to every
    /// entry, then recomputes every entry in order. The copy reaches all
    /// entries before any recompute starts.
    pub fn apply_batch(&mut self, source: usize)
        requires
            old(self).wf(),
            source < old(self).images@.len(),
        ensures
            final(self).wf(),
            final(self).apply_to_all == old(self).apply_to_all,
            final(self).images@.len() == old(self).images@.len(),
            forall|j: int|
                0 <= j < old(self).images@.len() ==> batch_applied(
                    #[trigger] final(self).images@[j],
                    old(self).images@[j],
                    old(self).images@[source as int].color,
                    old(self).images@[source as int].blend,
                ),
    {
        let color = self.images[source].color;
        let blend = self.images[source].blend;
        apply_to_all_images(&mut self.images, color, blend);
    }

    /// Hands the change to the entry at `index` on as the mode asks: to that
    /// entry alone, or from it to every entry.
    pub fn apply_changes(&mut self, index: usize)
        requires
            old(self).wf(),
            index < old(self).images@.len(),
        ensures
            final(self).wf(),
            final(self).images@.len() == old(self).images@.len(),
            !old(self).apply_to_all ==> ImageData::recomputed_from(
                final(self).images@[index as int],
                old(self).images@[index as int],
            ) && forall|j: int|
                0 <= j < old(self).images@.len() && j != index ==> #[trigger] final(self).images@[j]
                    == old(self).images@[j],
            old(self).apply_to_all ==> forall|j: int|
                0 <= j < old(self).images@.len() ==> batch_applied(
                    #[trigger] final(self).images@[j],
                    old(self).images@[j],
                    old(self).images@[index as int].color,
                    old(self).images@[index as int].blend,
                ),
    {
        if self.apply_to_all {
            self.apply_batch(index);
        } else {
            self.apply_single(index);
        }
    }

    /// Encodes every entry's recolored image, in order. One entry that
    /// fails does not stop the others: there is one result per entry.
    pub fn save_all(&self) -> (r: Vec<Result<ExportedImage, ExportFailure>>)
        requires
            self.wf(),
        ensures
            r@.len() == self.images@.len(),
            forall|j: int|
                0 <= j < r@.len() ==> self.images@[j].exported_as(#[trigger] r@[j]),
    {
        let mut out: Vec<Result<ExportedImage, ExportFailure>> = Vec::new();
        let mut i: usize = 0;
        while i < self.images.len()
            invariant
                i <= self.images@.len(),
                self.wf(),
                out@.len() == i,
                forall|j: int|
                    0 <= j < i ==> self.images@[j].exported_as(#[trigger] out@[j]),
            decreases self.images@.len() - i,
        {
            let r = self.images[i].export();
            out.push(r);
            i = i + 1;
        }
        out
    }
}

impl Default for ImageApp {
    fn default() -> (r: ImageApp)
        ensures
            r.wf(),
            r.images@.len() == 0,
            !r.apply_to_all,
    {
        ImageApp::new()
    }
}

/// Writes `color` and `blend` into every entry, then recomputes every entry
/// in order.
pub fn apply_to_all_images(images: &mut Vec<ImageData>, color: Color, blend: u32)
    requires
        forall|j: int| 0 <= j < old(images)@.len() ==> (#[trigger] old(images)@[j]).wf(),
    ensures
        final(images)@.len() == old(images)@.len(),
        forall|j: int|
            0 <= j < old(images)@.len() ==> batch_applied(
                #[trigger] final(images)@[j],
                old(images)@[j],
                color,
                blend,
            ),
{
    let n: usize = images.len();
    let mut i: usize = 0;
    while i < n
        invariant
            i <= n,
            n == old(images)@.len(),
            images@.len() == n,
            forall|j: int| 0 <= j < n ==> (#[trigger] images@[j]).wf(),
            forall|j: int|
                0 <= j < i ==> ImageData::reparametrized(
                    #[trigger] images@[j],
                    old(images)@[j],
                    color,
                    blend,
                ),
            forall|j: int| i <= j < n ==> #[trigger] images@[j] == old(images)@[j],
        decreases n - i,
    {
        images[i].set_params(color, blend);
        i = i + 1;
    }
    let mut i: usize = 0;
    while i < n
        invariant
            i <= n,
            n == old(images)@.len(),
            images@.len() == n,
            forall|j: int| 0 <= j < n ==> (#[trigger] images@[j]).wf(),
            forall|j: int|
                0 <= j < i ==> batch_applied(#[trigger] images@[j], old(images)@[j], color, blend),
            forall|j: int|
                i <= j < n ==> ImageData::reparametrized(
                    #[trigger] images@[j],
                    old(images)@[j],
                    color,
                    blend,
                ),
        decreases n - i,
    {
        images[i].recompute();
        i = i + 1;
    }
}

/// What a batch apply leaves in an entry is what a single apply gives on
/// that entry once the same parameters are written into it.
pub proof fn lemma_batch_matches_single(
    before: ImageData,
    written: ImageData,
    single: ImageData,
    batch: ImageData,
    color: Color,
    blend: u32,
)
    requires
        before.wf(),
        ImageData::reparametrized(written, before, color, blend),
        ImageData::recomputed_from(single, written),
        batch_applied(batch, before, color, blend),
    ensures
        batch.color == single.color,
        batch.blend == single.blend,
        batch.recolored.pixels@ == single.recolored.pixels@,
        batch.recolored.width == single.recolored.width,
        batch.recolored.height == single.recolored.height,
{
    assert(batch.recolored.width == batch.original.width);
}

} // verus!
