//! Per-pixel sample storage for a render, and the packing of a finished
//! 8-bit raster into an RGB image.
//!
//! The buffer is generic in the sample type: radiance samples are linear
//! RGB triples of floats, which stay with the driver; the buffer itself
//! only arranges them.  Pixel `(x, y)` of a `width` by `height` buffer is
//! slot `y * width + x`, rows top to bottom.

use vstd::prelude::*;
use vstd::pervasive::unreached;

verus! {

/// Accumulates the rendered samples of every pixel of an image.
pub struct Buffer<T> {
    width: u32,
    height: u32,
    samples: Vec<Vec<T>>,
}

impl<T> View for Buffer<T> {
    type V = Seq<Seq<T>>;

    closed spec fn view(&self) -> Seq<Seq<T>> {
        self.samples@.map_values(|v: Vec<T>| v@)
    }
}

impl<T> Buffer<T> {
    /// The store holds exactly one slot of samples for every pixel.
    pub closed spec fn wf(&self) -> bool {
        self.samples@.len() == (self.width as int) * (self.height as int)
    }

    /// The width of the image.
    pub closed spec fn spec_width(&self) -> u32 {
        self.width
    }

    /// The height of the image.
    pub closed spec fn spec_height(&self) -> u32 {
        self.height
    }

    /// The slot of pixel `(x, y)`.
    pub open spec fn slot(&self, x: int, y: int) -> int {
        y * (self.spec_width() as int) + x
    }

    /// Create an empty buffer with one slot per pixel.
    pub fn new(width: u32, height: u32) -> (r: Self)
        requires
            (width as int) * (height as int) <= usize::MAX as int,
        ensures
            r.wf(),
            r.spec_width() == width,
            r.spec_height() == height,
            r@.len() == (width as int) * (height as int),
            forall|i: int| 0 <= i < r@.len() ==> r@[i].len() == 0,
    {
        let total: usize = (width as usize) * (height as usize);
        let mut samples: Vec<Vec<T>> = Vec::new();
        let mut k: usize = 0;
        while k < total
            invariant
                k <= total,
                samples@.len() == k,
                forall|i: int| 0 <= i < k ==> samples@[i]@.len() == 0,
            decreases total - k,
        {
            samples.push(Vec::new());
            k = k + 1;
        }
        Buffer { width, height, samples }
    }

    /// The width of the image.
    pub fn width(&self) -> (r: u32)
        ensures
            r == self.spec_width(),
    {
        self.width
    }

    /// The height of the image.
    pub fn height(&self) -> (r: u32)
        ensures
            r == self.spec_height(),
    {
        self.height
    }

    /// Append one sample to pixel `(x, y)`.
    pub fn push(&mut self, x: u32, y: u32, color: T)
        requires
            old(self).wf(),
            x < old(self).spec_width(),
            y < old(self).spec_height(),
        ensures
            final(self).wf(),
            final(self).spec_width() == old(self).spec_width(),
            final(self).spec_height() == old(self).spec_height(),
            final(self)@ == old(self)@.update(
                old(self).slot(x as int, y as int),
                old(self)@[old(self).slot(x as int, y as int)].push(color),
            ),
    {
        proof {
            assert((y as int) * (self.width as int) + (x as int)
                < (self.width as int) * (self.height as int)) by (nonlinear_arith)
                requires
                    x < self.width,
                    y < self.height,
            ;
        }
        let n_slots: usize = self.samples.len();
        let index: usize = (y as usize) * (self.width as usize) + (x as usize);
        assert(index < n_slots);
        self.samples[index].push(color);
        proof {
            assert(final(self)@ =~= old(self)@.update(
                old(self).slot(x as int, y as int),
                old(self)@[old(self).slot(x as int, y as int)].push(color),
            ));
        }
    }

    /// Load a complete batch of samples, one entry per pixel in row-major
    /// order; whatever was accumulated before is dropped.
    pub fn extend(&mut self, colors: Vec<Vec<T>>)
        requires
            old(self).wf(),
            colors@.len() == (old(self).spec_width() as int) * (old(self).spec_height() as int),
        ensures
            final(self).wf(),
            final(self).spec_width() == old(self).spec_width(),
            final(self).spec_height() == old(self).spec_height(),
            final(self)@ == colors@.map_values(|v: Vec<T>| v@),
    {
        self.samples = colors;
    }

    /// The samples accumulated for pixel `(x, y)`.
    pub fn pixel(&self, x: u32, y: u32) -> (r: &Vec<T>)
        requires
            self.wf(),
            x < self.spec_width(),
            y < self.spec_height(),
        ensures
            r@ == self@[self.slot(x as int, y as int)],
    {
        proof {
            assert((y as int) * (self.width as int) + (x as int)
                < (self.width as int) * (self.height as int)) by (nonlinear_arith)
                requires
                    x < self.width,
                    y < self.height,
            ;
        }
        let n_slots: usize = self.samples.len();
        let index: usize = (y as usize) * (self.width as usize) + (x as usize);
        assert(index < n_slots);
        &self.samples[index]
    }
}

/// The flat RGB bytes of a sequence of row-major pixel triples: pixel `i`
/// lands at offset `3 * i`, channels in r, g, b order.
pub open spec fn raster_spec(triples: Seq<(u8, u8, u8)>) -> Seq<u8>
    decreases triples.len(),
{
    if triples.len() == 0 {
        Seq::empty()
    } else {
        raster_spec(triples.drop_last())
            + seq![triples.last().0, triples.last().1, triples.last().2]
    }
}

/// Flatten row-major pixel triples into the flat RGB byte raster.
pub fn raster_bytes(triples: &Vec<(u8, u8, u8)>) -> (out: Vec<u8>)
    ensures
        out@ == raster_spec(triples@),
        out@.len() == 3 * triples@.len(),
        forall|i: int|
            0 <= i < triples@.len() ==> {
                &&& out@[3 * i] == triples@[i].0
                &&& out@[3 * i + 1] == triples@[i].1
                &&& out@[3 * i + 2] == triples@[i].2
            },
{
    let mut out: Vec<u8> = Vec::new();
    let mut i: usize = 0;
    while i < triples.len()
        invariant
            i <= triples@.len(),
            out@ == raster_spec(triples@.take(i as int)),
            out@.len() == 3 * i,
            forall|j: int|
                0 <= j < i ==> {
                    &&& out@[3 * j] == triples@[j].0
                    &&& out@[3 * j + 1] == triples@[j].1
                    &&& out@[3 * j + 2] == triples@[j].2
                },
        decreases triples@.len() - i,
    {
        let (r, g, b) = triples[i];
        out.push(r);
        out.push(g);
        out.push(b);
        proof {
            assert(triples@.take(i + 1).drop_last() =~= triples@.take(i as int));
            assert(triples@.take(i + 1).last() == triples@[i as int]);
            assert(out@ =~= raster_spec(triples@.take(i + 1)));
        }
        i = i + 1;
    }
    proof {
        assert(triples@.take(triples@.len() as int) =~= triples@);
    }
    out
}

/// An 8-bit RGB image as the image crate packs it.  Its contents are opaque
/// to the proofs; it only carries the finished picture out to a writer.
/// (`image::ImageBuffer` itself cannot be declared to the verifier: its type
/// parameters carry an outside trait bound.)
#[verifier::external_body]
pub struct RgbRaster {
    /// The packed image.
    pub img: image::RgbImage,
}

/// Relies on image::ImageBuffer::from_raw: it returns Some exactly when the
/// container holds at least width * height * 3 subpixels (8-bit RGB has 3
/// channels; an overlong container is accepted, an overflowing size is not).
#[verifier::external_body]
fn rgb_raster_from_raw(width: u32, height: u32, data: Vec<u8>) -> (r: Option<RgbRaster>)
    ensures
        r is Some <==> data@.len() >= 3 * (width as int) * (height as int),
{
    image::RgbImage::from_raw(width, height, data).map(|img| RgbRaster { img })
}

/// Pack a row-major raster of flat RGB bytes into an 8-bit RGB image.
pub fn rgb_image(width: u32, height: u32, data: Vec<u8>) -> (img: RgbRaster)
    requires
        data@.len() == 3 * (width as int) * (height as int),
{
    match rgb_raster_from_raw(width, height, data) {
        Some(img) => img,
        None => unreached(),
    }
}

/// Pack the row-major pixel triples of a `width` by `height` image into an
/// 8-bit RGB image.
pub fn render_image(width: u32, height: u32, triples: &Vec<(u8, u8, u8)>) -> (img: RgbRaster)
    requires
        triples@.len() == (width as int) * (height as int),
{
    let bytes = raster_bytes(triples);
    proof {
        assert(3 * ((width as int) * (height as int)) == 3 * (width as int) * (height as int))
            by (nonlinear_arith);
    }
    rgb_image(width, height, bytes)
}

/// Distinct pixels of one image never share a slot: the store is indexed by
/// row and column, so samples can land in any order without mixing pixels.
pub proof fn lemma_slot_injective<T>(b: Buffer<T>, x1: int, y1: int, x2: int, y2: int)
    requires
        0 <= x1 < b.spec_width(),
        0 <= y1 < b.spec_height(),
        0 <= x2 < b.spec_width(),
        0 <= y2 < b.spec_height(),
        b.slot(x1, y1) == b.slot(x2, y2),
    ensures
        x1 == x2,
        y1 == y2,
{
    let w = b.spec_width() as int;
    assert(x1 == x2 && y1 == y2) by (nonlinear_arith)
        requires
            0 <= x1 < w,
            0 <= x2 < w,
            y1 * w + x1 == y2 * w + x2,
    ;
}

} // verus!
