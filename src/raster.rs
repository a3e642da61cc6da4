//! Pixel buffers: a width, a height and the pixels in row-major order.
use vstd::prelude::*;

use crate::blend::{blend, blend_spec, Color, Pixel};

verus! {

/// A rectangular grid of RGBA pixels, row by row.
#[derive(Debug)]
pub struct PixelBuffer {
    pub width: u32,
    pub height: u32,
    pub pixels: Vec<Pixel>,
}

/// The pixels of `src` each blended toward `target` by `factor`.
pub open spec fn recolored_pixels(src: Seq<Pixel>, target: Color, factor: u32) -> Seq<Pixel> {
    Seq::new(src.len(), |i: int| blend_spec(src[i], target, factor))
}

/// The RGBA bytes of `pixels`, four per pixel.
pub open spec fn rgba_bytes(pixels: Seq<Pixel>) -> Seq<u8>
    decreases pixels.len(),
{
    if pixels.len() == 0 {
        Seq::empty()
    } else {
        let p = pixels.last();
        rgba_bytes(pixels.drop_last()).add(seq![p.r, p.g, p.b, p.a])
    }
}

/// The pixel that starts at byte `4 * i` of an RGBA byte sequence.
pub open spec fn pixel_at(bytes: Seq<u8>, i: int) -> Pixel {
    Pixel { r: bytes[4 * i], g: bytes[4 * i + 1], b: bytes[4 * i + 2], a: bytes[4 * i + 3] }
}

impl PixelBuffer {
    /// The pixel count matches the dimensions.
    pub open spec fn wf(&self) -> bool {
        self.pixels@.len() == self.width as int * self.height as int
    }

    pub open spec fn same_size(&self, other: &PixelBuffer) -> bool {
        self.width == other.width && self.height == other.height
    }

    /// A buffer of the given dimensions, or `None` when the pixel count does
    /// not match them.
    pub fn new(width: u32, height: u32, pixels: Vec<Pixel>) -> (r: Option<PixelBuffer>)
        ensures
            r is Some <==> pixels@.len() == width as int * height as int,
            r matches Some(b) ==> b.width == width && b.height == height && b.pixels@ == pixels@
                && b.wf(),
    {
        proof {
            lemma_dimensions_fit(width, height);
        }
        let n: u64 = width as u64 * height as u64;
        if pixels.len() as u64 == n {
            Some(PixelBuffer { width, height, pixels })
        } else {
            None
        }
    }

    /// A buffer read from RGBA bytes, four per pixel, or `None` when their
    /// number does not match the dimensions.
    pub fn from_rgba(width: u32, height: u32, bytes: &[u8]) -> (r: Option<PixelBuffer>)
        ensures
            r is Some <==> bytes@.len() == 4 * (width as int * height as int),
            r matches Some(b) ==> b.width == width && b.height == height && b.wf()
                && rgba_bytes(b.pixels@) == bytes@,
    {
        proof {
            lemma_dimensions_fit(width, height);
        }
        let n: u64 = width as u64 * height as u64;
        let len: usize = bytes.len();
        if n > (usize::MAX / 4) as u64 || len != 4 * (n as usize) {
            return None;
        }
        let count: usize = n as usize;
        let mut pixels: Vec<Pixel> = Vec::new();
        let mut i: usize = 0;
        while i < count
            invariant
                i <= count,
                bytes@.len() == 4 * count,
                bytes@.len() <= usize::MAX,
                pixels@.len() == i,
                rgba_bytes(pixels@) == bytes@.subrange(0, 4 * i as int),
            decreases count - i,
        {
            let p = Pixel { r: bytes[4 * i], g: bytes[4 * i + 1], b: bytes[4 * i + 2], a: bytes[4 * i + 3] };
            proof {
                let old_pixels = pixels@;
                assert(old_pixels.push(p).drop_last() == old_pixels);
                assert(bytes@.subrange(0, 4 * i as int + 4) =~= bytes@.subrange(0, 4 * i as int).add(
                    seq![p.r, p.g, p.b, p.a],
                ));
            }
            pixels.push(p);
            i = i + 1;
        }
        assert(bytes@.subrange(0, 4 * count as int) =~= bytes@);
        Some(PixelBuffer { width, height, pixels })
    }

    /// The pixels as RGBA bytes, four per pixel.
    pub fn to_rgba(&self) -> (r: Vec<u8>)
        requires
            self.pixels@.len() * 4 <= usize::MAX,
        ensures
            r@ == rgba_bytes(self.pixels@),
            r@.len() == 4 * self.pixels@.len(),
    {
        let mut out: Vec<u8> = Vec::new();
        let mut i: usize = 0;
        while i < self.pixels.len()
            invariant
                i <= self.pixels@.len(),
                out@ == rgba_bytes(self.pixels@.subrange(0, i as int)),
                out@.len() == 4 * i,
            decreases self.pixels@.len() - i,
        {
            let p = self.pixels[i];
            assert(self.pixels@.subrange(0, i as int + 1).drop_last() =~= self.pixels@.subrange(
                0,
                i as int,
            ));
            out.push(p.r);
            out.push(p.g);
            out.push(p.b);
            out.push(p.a);
            assert(out@ =~= rgba_bytes(self.pixels@.subrange(0, i as int)).add(
                seq![p.r, p.g, p.b, p.a],
            ));
            i = i + 1;
        }
        assert(self.pixels@.subrange(0, self.pixels@.len() as int) =~= self.pixels@);
        out
    }

    /// An independent copy of the buffer.
    pub fn duplicate(&self) -> (r: PixelBuffer)
        ensures
            r.width == self.width,
            r.height == self.height,
            r.pixels@ == self.pixels@,
    {
        let mut pixels: Vec<Pixel> = Vec::new();
        let mut i: usize = 0;
        while i < self.pixels.len()
            invariant
                i <= self.pixels@.len(),
                pixels@ == self.pixels@.subrange(0, i as int),
            decreases self.pixels@.len() - i,
        {
            pixels.push(self.pixels[i]);
            i = i + 1;
            assert(pixels@ =~= self.pixels@.subrange(0, i as int));
        }
        assert(pixels@ =~= self.pixels@);
        PixelBuffer { width: self.width, height: self.height, pixels }
    }
}

proof fn lemma_dimensions_fit(width: u32, height: u32)
    ensures
        width as int * height as int <= u64::MAX,
        0 <= width as int * height as int,
{
    assert(width as int * height as int <= 0xFFFF_FFFFint * 0xFFFF_FFFFint) by (nonlinear_arith)
        requires width <= 0xFFFF_FFFFint, height <= 0xFFFF_FFFFint;
    assert(0 <= width as int * height as int) by (nonlinear_arith);
}

/// Replaces every pixel of `image` by its blend toward `target` by `blend`
/// thousandths. The dimensions stay as they were.
pub fn recolor(image: &mut PixelBuffer, target: Color, blend: u32)
    ensures
        final(image).width == old(image).width,
        final(image).height == old(image).height,
        final(image).pixels@ == recolored_pixels(old(image).pixels@, target, blend),
{
    let n: usize = image.pixels.len();
    let mut i: usize = 0;
    while i < n
        invariant
            i <= n,
            n == old(image).pixels@.len(),
            image.width == old(image).width,
            image.height == old(image).height,
            image.pixels@.len() == n,
            forall|j: int| 0 <= j < i ==> image.pixels@[j] == blend_spec(old(image).pixels@[j], target, blend),
            forall|j: int| i <= j < n ==> image.pixels@[j] == old(image).pixels@[j],
        decreases n - i,
    {
        let p = image.pixels[i];
        let q = crate::blend::blend(p, target, blend);
        image.pixels.set(i, q);
        i = i + 1;
    }
    assert(image.pixels@ =~= recolored_pixels(old(image).pixels@, target, blend));
}

} // verus!
