//! The fidelity metric between an original and a reconstructed buffer.
//!
//! The sum of squared sample differences is exact integer arithmetic and is
//! computed here with its contract; the division by the pixel count and the
//! logarithm that turn it into MSE and PSNR are real-number arithmetic and
//! belong to the caller.  A sum of zero — a lossless round trip — is a
//! distinct outcome, so that no caller divides by zero or reports an
//! infinity as if it were a number.

use crate::buffer::SampleBuffer;
use vstd::prelude::*;

verus! {

/// The sum over all positions of the squared difference of two sample
/// sequences.
pub open spec fn sse_spec(a: Seq<u8>, b: Seq<u8>) -> int
    recommends
        a.len() == b.len(),
    decreases a.len(),
{
    if a.len() == 0 {
        0
    } else {
        sse_spec(a.drop_last(), b.drop_last()) + (a.last() - b.last()) * (a.last() - b.last())
    }
}

/// A squared-difference sum is never negative.
pub proof fn lemma_sse_nonneg(a: Seq<u8>, b: Seq<u8>)
    ensures
        sse_spec(a, b) >= 0,
    decreases a.len(),
{
    if a.len() > 0 {
        lemma_sse_nonneg(a.drop_last(), b.drop_last());
        let d = a.last() - b.last();
        assert(d * d >= 0) by (nonlinear_arith);
    }
}

/// Law: the squared-difference sum of two equally long sample sequences is
/// zero exactly when they are equal — the degenerate "no distortion"
/// outcome happens only on a lossless round trip.
pub proof fn lemma_sse_zero_iff_equal(a: Seq<u8>, b: Seq<u8>)
    requires
        a.len() == b.len(),
    ensures
        sse_spec(a, b) == 0 <==> a == b,
    decreases a.len(),
{
    if a.len() == 0 {
        assert(a =~= b);
    } else {
        let da = a.drop_last();
        let db = b.drop_last();
        lemma_sse_zero_iff_equal(da, db);
        lemma_sse_nonneg(da, db);
        let d = a.last() - b.last();
        assert(d * d >= 0) by (nonlinear_arith);
        assert(d * d == 0 <==> d == 0) by (nonlinear_arith);
        if sse_spec(a, b) == 0 {
            assert(da == db && a.last() == b.last());
            assert(a =~= da.push(a.last()));
            assert(b =~= db.push(b.last()));
        } else {
            if a == b {
                assert(da =~= db);
                assert(a.last() == b.last());
            }
        }
    }
}

/// The distortion between an original and a reconstructed buffer: either
/// exactly none, or the positive sum of squared sample differences, from
/// which the caller derives MSE and PSNR.
#[derive(Clone, Copy, PartialEq, Eq, Structural, Debug)]
pub enum Distortion {
    /// The buffers are identical: MSE is zero and PSNR is undefined.
    NoDistortion,
    /// The sum of squared differences over all pixel pairs.
    Lossy { sse: u128 },
}

/// Compares two equally sized buffers pixel by pixel and reports either
/// the distinct lossless outcome or the exact squared-difference sum.
pub fn distortion(a: &SampleBuffer, b: &SampleBuffer) -> (r: Distortion)
    requires
        a.wf(),
        b.wf(),
        a.spec_width() == b.spec_width(),
        a.spec_height() == b.spec_height(),
    ensures
        r == Distortion::NoDistortion <==> a@ == b@,
        a@ != b@ ==> r == (Distortion::Lossy { sse: sse_spec(a@, b@) as u128 }),
        sse_spec(a@, b@) <= u128::MAX,
{
    let av = a.samples();
    let bv = b.samples();
    let n = av.len();
    proof {
        assert(bv@.len() == n);
    }
    let mut sum: u128 = 0;
    let mut i: usize = 0;
    while i < n
        invariant
            i <= n,
            av@.len() == n,
            bv@.len() == n,
            av@ == a@,
            bv@ == b@,
            sum == sse_spec(av@.take(i as int), bv@.take(i as int)),
            sum <= 65025 * (i as int),
        decreases n - i,
    {
        let x = av[i];
        let y = bv[i];
        let d: u16 = if x >= y {
            (x - y) as u16
        } else {
            (y - x) as u16
        };
        proof {
            assert((d as int) * (d as int) <= 65025) by (nonlinear_arith)
                requires
                    0 <= d <= 255,
            ;
        }
        let dd: u128 = (d as u128) * (d as u128);
        proof {
            let ta = av@.take(i as int + 1);
            let tb = bv@.take(i as int + 1);
            assert(ta.drop_last() =~= av@.take(i as int));
            assert(tb.drop_last() =~= bv@.take(i as int));
            assert(dd == (ta.last() - tb.last()) * (ta.last() - tb.last())) by (nonlinear_arith)
                requires
                    dd == d as int * (d as int),
                    d == if av@[i as int] >= bv@[i as int] {
                        av@[i as int] - bv@[i as int]
                    } else {
                        bv@[i as int] - av@[i as int]
                    },
                    ta.last() == av@[i as int],
                    tb.last() == bv@[i as int],
            ;
        }
        sum = sum + dd;
        i = i + 1;
    }
    proof {
        assert(av@.take(n as int) =~= av@);
        assert(bv@.take(n as int) =~= bv@);
        lemma_sse_zero_iff_equal(a@, b@);
    }
    if sum == 0 {
        Distortion::NoDistortion
    } else {
        Distortion::Lossy { sse: sum }
    }
}

} // verus!
