//! Bookkeeping for stratified pixel sampling.
//!
//! A pixel's sample budget `n` is spread over a square grid of strata whose
//! side is `⌊√n⌋`; the accumulated radiance is later divided by `n` itself,
//! not by the square, so an imperfect-square budget stays unbiased.

use vstd::prelude::*;

verus! {

/// The side of the stratification grid for a budget of `samples` per pixel:
/// the integer square root `⌊√samples⌋`.
pub fn strata_side(samples: u32) -> (m: u32)
    ensures
        (m as int) * (m as int) <= samples as int,
        (samples as int) < ((m as int) + 1) * ((m as int) + 1),
{
    let s: u64 = samples as u64;
    let mut m: u64 = 0;
    loop
        invariant
            s == samples as int,
            m * m <= s,
            m <= 0x10000,
        ensures
            m * m <= s,
            s < (m + 1) * (m + 1),
        decreases 0x20000 - m,
    {
        proof {
            assert(((m + 1) as int) * ((m + 1) as int) <= 0x1_0002_0001) by (nonlinear_arith)
                requires
                    m <= 0x10000u64,
            ;
        }
        let next: u64 = (m + 1) * (m + 1);
        if next > s {
            break;
        }
        m = m + 1;
        proof {
            assert(m <= 0x10000) by (nonlinear_arith)
                requires
                    (m as int) * (m as int) <= s as int,
                    s <= 0xffff_ffffu64,
            ;
        }
    }
    proof {
        assert(m <= 0xffff) by (nonlinear_arith)
            requires
                (m as int) * (m as int) <= s as int,
                s <= 0xffff_ffffu64,
        ;
    }
    m as u32
}

} // verus!
