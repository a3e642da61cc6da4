//! One loaded image: its original pixels, the recolor parameters, and the
//! recolored pixels derived from both.
use vstd::prelude::*;

use crate::blend::{Color, BLEND_SCALE};
use crate::codec::{
    encode_image, encoded_rgba, output_file_name, output_format, output_format_spec,
    output_name_spec, OutputFormat,
};
use crate::raster::{recolor, recolored_pixels, rgba_bytes, PixelBuffer};

verus! {

/// The blend factor a fresh entry starts with, in thousandths.
pub const DEFAULT_BLEND: u32 = 700;

/// An image entry. `original` is never written after construction; while
/// `stale` is false, `recolored` is exactly `original` blended with the
/// current `color` and `blend`.
#[derive(Debug)]
pub struct ImageData {
    pub path: String,
    pub original: PixelBuffer,
    pub recolored: PixelBuffer,
    pub color: Color,
    pub blend: u32,
    pub stale: bool,
}

/// An encoded recolored image, ready to be written under `file_name`.
#[derive(Debug)]
pub struct ExportedImage {
    pub file_name: String,
    pub format: OutputFormat,
    pub bytes: Vec<u8>,
}

/// An entry whose recolored image could not be encoded.
#[derive(Debug)]
pub struct ExportFailure {
    pub file_name: String,
    pub message: String,
}

impl ImageData {
    pub open spec fn wf(&self) -> bool {
        &&& self.original.wf()
        &&& self.recolored.same_size(&self.original)
        &&& self.recolored.pixels@.len() == self.original.pixels@.len()
        &&& !self.stale ==> self.recolored.pixels@ == recolored_pixels(
            self.original.pixels@,
            self.color,
            self.blend,
        )
    }

    /// `after` is `before` recomputed: same identity, original and
    /// parameters, recolored pixels derived from them, and clean.
    pub open spec fn recomputed_from(after: ImageData, before: ImageData) -> bool {
        &&& after.path@ == before.path@
        &&& after.original.width == before.original.width
        &&& after.original.height == before.original.height
        &&& after.original.pixels@ == before.original.pixels@
        &&& after.color == before.color
        &&& after.blend == before.blend
        &&& !after.stale
        &&& after.recolored.width == before.original.width
        &&& after.recolored.height == before.original.height
        &&& after.recolored.pixels@ == recolored_pixels(
            before.original.pixels@,
            before.color,
            before.blend,
        )
    }

    /// `after` is `before` with new parameters, marked stale; nothing else
    /// changes.
    pub open spec fn reparametrized(after: ImageData, before: ImageData, color: Color, blend: u32) -> bool {
        &&& after.path@ == before.path@
        &&& after.original == before.original
        &&& after.recolored == before.recolored
        &&& after.color == color
        &&& after.blend == blend
        &&& after.stale
    }

    /// `r` is what exporting this entry gives: the file name from `path`,
    /// the format from that name, and the encoder's bytes or its failure.
    pub open spec fn exported_as(&self, r: Result<ExportedImage, ExportFailure>) -> bool {
        &&& r is Ok <==> 4 * self.recolored.pixels@.len() <= usize::MAX && encoded_rgba(
            rgba_bytes(self.recolored.pixels@),
            self.recolored.width,
            self.recolored.height,
            output_format_spec(output_name_spec(self.path@)),
        ) is Some
        &&& r matches Ok(e) ==> e.file_name@ == output_name_spec(self.path@) && e.format
            == output_format_spec(e.file_name@) && encoded_rgba(
            rgba_bytes(self.recolored.pixels@),
            self.recolored.width,
            self.recolored.height,
            e.format,
        ) == Some(e.bytes@)
        &&& r matches Err(f) ==> f.file_name@ == output_name_spec(self.path@)
    }

    /// A fresh entry: both buffers equal to `image`, pure red at the default
    /// factor, stale until the first recompute.
    pub fn new(path: String, image: PixelBuffer) -> (r: ImageData)
        requires
            image.wf(),
        ensures
            r.wf(),
            r.path@ == path@,
            r.original == image,
            r.recolored.width == image.width,
            r.recolored.height == image.height,
            r.recolored.pixels@ == image.pixels@,
            r.color == (Color { r: 255, g: 0, b: 0 }),
            r.blend == DEFAULT_BLEND,
            r.stale,
    {
        let recolored = image.duplicate();
        ImageData {
            path,
            original: image,
            recolored,
            color: Color::red(),
            blend: DEFAULT_BLEND,
            stale: true,
        }
    }

    pub fn is_stale(&self) -> (r: bool)
        ensures
            r == self.stale,
    {
        self.stale
    }

    pub fn set_color(&mut self, color: Color)
        requires
            old(self).wf(),
        ensures
            final(self).wf(),
            Self::reparametrized(*final(self), *old(self), color, old(self).blend),
    {
        self.color = color;
        self.stale = true;
    }

    /// Sets the blend factor, in thousandths; a value above the scale is
    /// taken as the full scale.
    pub fn set_blend(&mut self, blend: u32)
        requires
            old(self).wf(),
        ensures
            final(self).wf(),
            Self::reparametrized(
                *final(self),
                *old(self),
                old(self).color,
                if blend > BLEND_SCALE {
                    BLEND_SCALE
                } else {
                    blend
                },
            ),
    {
        self.blend = if blend > BLEND_SCALE {
            BLEND_SCALE
        } else {
            blend
        };
        self.stale = true;
    }

    /// Sets both parameters at once, as a batch apply does.
    pub fn set_params(&mut self, color: Color, blend: u32)
        requires
            old(self).wf(),
        ensures
            final(self).wf(),
            Self::reparametrized(*final(self), *old(self), color, blend),
    {
        self.color = color;
        self.blend = blend;
        self.stale = true;
    }

    /// Rebuilds `recolored` from `original` with the current parameters.
    pub fn recompute(&mut self)
        requires
            old(self).wf(),
        ensures
            final(self).wf(),
            Self::recomputed_from(*final(self), *old(self)),
    {
        let mut fresh = self.original.duplicate();
        recolor(&mut fresh, self.color, self.blend);
        self.recolored = fresh;
        self.stale = false;
    }

    /// The recolored image encoded for saving: named after the file name of
    /// `path` (or `output.png`), in the format that name's extension gives
    /// (PNG by default).
    pub fn export(&self) -> (r: Result<ExportedImage, ExportFailure>)
        requires
            self.wf(),
        ensures
            self.exported_as(r),
    {
        let file_name = output_file_name(self.path.as_str());
        let format = output_format(file_name.as_str());
        match encode_image(&self.recolored, format) {
            Ok(bytes) => Ok(ExportedImage { file_name, format, bytes }),
            Err(message) => Err(ExportFailure { file_name, message }),
        }
    }
}

/// Recomputing an entry a second time, with its parameters unchanged,
/// leaves the recolored pixels exactly as the first recompute made them.
pub proof fn lemma_recompute_idempotent(e0: ImageData, e1: ImageData, e2: ImageData)
    requires
        e0.wf(),
        ImageData::recomputed_from(e1, e0),
        ImageData::recomputed_from(e2, e1),
    ensures
        e2.recolored.width == e1.recolored.width,
        e2.recolored.height == e1.recolored.height,
        e2.recolored.pixels@ == e1.recolored.pixels@,
        e2.color == e1.color && e2.blend == e1.blend,
        e2.original.pixels@ == e0.original.pixels@,
{
}

} // verus!
