//! Plain-text PPM (P3) encoding of an 8-bit RGB raster.
//!
//! The renderer's output side frames the tone-mapped raster as a P3 stream:
//! the header `P3\n{width} {height}\n255\n` followed by one ASCII line
//! `{r} {g} {b}\n` per pixel, pixels in row-major order.  The functions here
//! produce exactly that byte sequence; writing it anywhere is the caller's
//! business.

use vstd::prelude::*;

use crate::buffer::raster_bytes;
use crate::buffer::raster_spec;

verus! {

/// The ASCII code of the decimal digit `d`.
pub open spec fn digit_ascii(d: int) -> u8
    recommends
        0 <= d < 10,
{
    (48 + d) as u8
}

/// The ASCII decimal digits of `n`, most significant first, no sign and no
/// leading zeros (a single `0` for zero).
pub open spec fn decimal(n: int) -> Seq<u8>
    decreases n,
{
    if n < 10 {
        seq![digit_ascii(n)]
    } else {
        decimal(n / 10).push(digit_ascii(n % 10))
    }
}

/// The number a sequence of ASCII decimal digits denotes.
pub open spec fn decimal_value(s: Seq<u8>) -> int
    decreases s.len(),
{
    if s.len() == 0 {
        0
    } else {
        decimal_value(s.drop_last()) * 10 + (s.last() - 48)
    }
}

/// Every byte of `decimal(n)` is an ASCII digit.
pub proof fn lemma_decimal_digits(n: int)
    requires
        0 <= n,
    ensures
        forall|i: int| 0 <= i < decimal(n).len() ==> 48 <= #[trigger] decimal(n)[i] <= 57,
    decreases n,
{
    if n >= 10 {
        lemma_decimal_digits(n / 10);
        assert forall|i: int| 0 <= i < decimal(n).len() implies 48 <= #[trigger] decimal(n)[i]
            <= 57 by {
            if i < decimal(n / 10).len() {
                assert(decimal(n)[i] == decimal(n / 10)[i]);
            }
        }
    }
}

/// The digits of `decimal(n)` denote `n` itself: the encoding loses
/// nothing.
pub proof fn lemma_decimal_value(n: int)
    requires
        0 <= n,
    ensures
        decimal_value(decimal(n)) == n,
    decreases n,
{
    if n < 10 {
        assert(decimal(n) =~= seq![digit_ascii(n)]);
        assert(seq![digit_ascii(n)].drop_last() =~= Seq::<u8>::empty());
        assert(decimal_value(Seq::<u8>::empty()) == 0);
        assert(digit_ascii(n) == 48 + n);
        assert(decimal_value(seq![digit_ascii(n)]) == n);
    } else {
        lemma_decimal_value(n / 10);
        assert(decimal(n).drop_last() =~= decimal(n / 10));
        assert(decimal_value(decimal(n)) == decimal_value(decimal(n / 10)) * 10 + (n % 10));
    }
}

/// The PPM header `P3\n{w} {h}\n255\n`.
pub open spec fn header(w: int, h: int) -> Seq<u8> {
    seq![0x50u8, 0x33u8, 0x0au8] + decimal(w) + seq![0x20u8] + decimal(h)
        + seq![0x0au8, 0x32u8, 0x35u8, 0x35u8, 0x0au8]
}

/// One pixel as the line `{r} {g} {b}\n`.
pub open spec fn pixel_line(r: u8, g: u8, b: u8) -> Seq<u8> {
    decimal(r as int) + seq![0x20u8] + decimal(g as int) + seq![0x20u8] + decimal(b as int)
        + seq![0x0au8]
}

/// The pixel lines of the first `k` pixels of a flat RGB byte sequence
/// (pixel `i` is the triple at offset `3 * i`).
pub open spec fn body(data: Seq<u8>, k: int) -> Seq<u8>
    decreases k,
{
    if k <= 0 {
        Seq::empty()
    } else {
        body(data, k - 1) + pixel_line(data[3 * (k - 1)], data[3 * (k - 1) + 1], data[3 * (k - 1) + 2])
    }
}

/// The whole P3 text of a `w` by `h` image over its flat RGB bytes.
pub open spec fn ppm(w: int, h: int, data: Seq<u8>) -> Seq<u8> {
    header(w, h) + body(data, w * h)
}

/// Append the decimal digits of `n` to `out`.
pub fn push_decimal(out: &mut Vec<u8>, n: u32)
    ensures
        final(out)@ == old(out)@ + decimal(n as int),
    decreases n,
{
    if n >= 10 {
        push_decimal(out, n / 10);
        out.push(48 + (n % 10) as u8);
        proof {
            assert(final(out)@ =~= old(out)@ + decimal(n as int));
        }
    } else {
        out.push(48 + n as u8);
        proof {
            assert(final(out)@ =~= old(out)@ + decimal(n as int));
        }
    }
}

/// Append the line `{r} {g} {b}\n` for one pixel to `out`.
pub fn push_pixel(out: &mut Vec<u8>, r: u8, g: u8, b: u8)
    ensures
        final(out)@ == old(out)@ + pixel_line(r, g, b),
{
    push_decimal(out, r as u32);
    out.push(0x20);
    push_decimal(out, g as u32);
    out.push(0x20);
    push_decimal(out, b as u32);
    out.push(0x0a);
    proof {
        assert(final(out)@ =~= old(out)@ + pixel_line(r, g, b));
    }
}

/// Encode a `width` by `height` raster of flat RGB bytes as a P3 stream.
pub fn encode(width: u32, height: u32, data: &Vec<u8>) -> (out: Vec<u8>)
    requires
        data@.len() == 3 * (width as int) * (height as int),
    ensures
        out@ == ppm(width as int, height as int, data@),
{
    let ghost wh: int = (width as int) * (height as int);
    proof {
        assert(3 * (width as int) * (height as int) == 3 * wh) by (nonlinear_arith)
            requires
                wh == (width as int) * (height as int),
        ;
    }

    let mut out: Vec<u8> = Vec::new();
    out.push(0x50);
    out.push(0x33);
    out.push(0x0a);
    push_decimal(&mut out, width);
    out.push(0x20);
    push_decimal(&mut out, height);
    out.push(0x0a);
    out.push(0x32);
    out.push(0x35);
    out.push(0x35);
    out.push(0x0a);
    proof {
        assert(out@ =~= header(width as int, height as int));
    }

    let len: usize = data.len();
    let n_px: usize = len / 3;
    let mut i: usize = 0;
    while i < n_px
        invariant
            n_px == wh,
            len == data@.len(),
            len == 3 * wh,
            i <= n_px,
            out@ == header(width as int, height as int) + body(data@, i as int),
        decreases n_px - i,
    {
        assert(3 * i + 2 < len);
        push_pixel(&mut out, data[3 * i], data[3 * i + 1], data[3 * i + 2]);
        proof {
            assert(out@ =~= header(width as int, height as int) + body(data@, i + 1));
        }
        i = i + 1;
    }
    proof {
        assert(out@ =~= ppm(width as int, height as int, data@));
    }
    out
}

/// Encode a `width` by `height` image given as row-major tone-mapped pixel
/// triples: the whole P3 stream, exactly.
pub fn encode_pixels(width: u32, height: u32, triples: &Vec<(u8, u8, u8)>) -> (out: Vec<u8>)
    requires
        triples@.len() == (width as int) * (height as int),
    ensures
        out@ == ppm(width as int, height as int, raster_spec(triples@)),
{
    let bytes = raster_bytes(triples);
    proof {
        assert(3 * ((width as int) * (height as int)) == 3 * (width as int) * (height as int))
            by (nonlinear_arith);
    }
    encode(width, height, &bytes)
}

} // verus!
