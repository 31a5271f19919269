//! Flat row-major grayscale sample storage, and its partition into 8x8
//! blocks.
//!
//! A buffer is valid only when both dimensions are exact multiples of the
//! block size; the constructors reject anything else before a single block
//! is processed.  Reading and writing one block at a time is what the
//! pipeline is built from: the surrounding stages transform the 64 samples
//! of a block and put them back, and the contracts here say exactly which
//! pixel every block position names.

use crate::FilterError;
use vstd::prelude::*;

verus! {

/// A grayscale image: width, height, and one 8-bit sample per pixel, row
/// by row.
pub struct SampleBuffer {
    width: usize,
    height: usize,
    samples: Vec<u8>,
}

impl View for SampleBuffer {
    type V = Seq<u8>;

    closed spec fn view(&self) -> Seq<u8> {
        self.samples@
    }
}

/// The flat row-major index of in-block position `p` of the block at block
/// row `br` and block column `bc`.
pub open spec fn pixel_index(width: int, br: int, bc: int, p: int) -> int {
    (br * 8 + p / 8) * width + bc * 8 + p % 8
}

/// Whether the flat index `k` names a pixel of the block at block row `br`
/// and block column `bc`.
pub open spec fn block_covers(width: int, br: int, bc: int, k: int) -> bool {
    &&& br * 8 <= k / width < br * 8 + 8
    &&& bc * 8 <= k % width < bc * 8 + 8
}

/// Row-major pixel coordinates name distinct flat indices.
proof fn lemma_row_major_injective(w: int, x1: int, y1: int, x2: int, y2: int)
    requires
        0 <= x1 < w,
        0 <= x2 < w,
        y1 * w + x1 == y2 * w + x2,
    ensures
        x1 == x2 && y1 == y2,
{
    assert(x1 == x2 && y1 == y2) by (nonlinear_arith)
        requires
            0 <= x1 < w,
            0 <= x2 < w,
            y1 * w + x1 == y2 * w + x2,
    ;
}

impl SampleBuffer {
    /// The buffer's width in pixels.
    pub closed spec fn spec_width(&self) -> usize {
        self.width
    }

    /// The buffer's height in pixels.
    pub closed spec fn spec_height(&self) -> usize {
        self.height
    }

    /// Both dimensions are multiples of the block size and the storage
    /// holds exactly one sample per pixel.
    pub open spec fn wf(&self) -> bool {
        &&& self.spec_width() % 8 == 0
        &&& self.spec_height() % 8 == 0
        &&& self@.len() == self.spec_width() * self.spec_height()
    }

    /// Builds an all-zero buffer, rejecting dimensions that are not
    /// multiples of the block size, or that overflow the address space,
    /// before anything is processed.
    pub fn new(width: usize, height: usize) -> (r: Result<SampleBuffer, FilterError>)
        ensures
            r is Ok <==> (width % 8 == 0 && height % 8 == 0 && width * height <= usize::MAX),
            r is Ok ==> {
                let b = r->Ok_0;
                &&& b.wf()
                &&& b.spec_width() == width
                &&& b.spec_height() == height
                &&& b@ =~= Seq::new((width * height) as nat, |i: int| 0u8)
            },
            r is Err ==> r->Err_0 == FilterError::InvalidDimensions,
    {
        if width % 8 != 0 || height % 8 != 0 {
            return Err(FilterError::InvalidDimensions);
        }
        match width.checked_mul(height) {
            None => Err(FilterError::InvalidDimensions),
            Some(n) => {
                let mut samples: Vec<u8> = Vec::new();
                let mut i: usize = 0;
                while i < n
                    invariant
                        samples@.len() == i,
                        i <= n,
                        forall|k: int| 0 <= k < i ==> samples@[k] == 0u8,
                    decreases n - i,
                {
                    samples.push(0u8);
                    i = i + 1;
                }
                Ok(SampleBuffer { width, height, samples })
            },
        }
    }

    /// Wraps existing samples, rejecting dimensions that are not multiples
    /// of the block size or that do not match the storage.
    pub fn from_samples(width: usize, height: usize, samples: Vec<u8>) -> (r: Result<
        SampleBuffer,
        FilterError,
    >)
        ensures
            r is Ok <==> (width % 8 == 0 && height % 8 == 0 && samples@.len() == width * height),
            r is Ok ==> {
                let b = r->Ok_0;
                &&& b.wf()
                &&& b.spec_width() == width
                &&& b.spec_height() == height
                &&& b@ == samples@
            },
            r is Err ==> r->Err_0 == FilterError::InvalidDimensions,
    {
        if width % 8 != 0 || height % 8 != 0 {
            return Err(FilterError::InvalidDimensions);
        }
        let len = samples.len();
        match width.checked_mul(height) {
            None => Err(FilterError::InvalidDimensions),
            Some(n) => {
                if len != n {
                    Err(FilterError::InvalidDimensions)
                } else {
                    Ok(SampleBuffer { width, height, samples })
                }
            },
        }
    }

    /// The buffer's width in pixels.
    pub fn width(&self) -> (r: usize)
        ensures
            r == self.spec_width(),
    {
        self.width
    }

    /// The buffer's height in pixels.
    pub fn height(&self) -> (r: usize)
        ensures
            r == self.spec_height(),
    {
        self.height
    }

    /// The flat row-major samples, one byte per pixel.
    pub fn samples(&self) -> (r: &Vec<u8>)
        ensures
            r@ == self@,
    {
        &self.samples
    }

    /// Reads the sample at column `x` of row `y`.
    pub fn get(&self, x: usize, y: usize) -> (r: u8)
        requires
            self.wf(),
            x < self.spec_width(),
            y < self.spec_height(),
        ensures
            r == self@[y * self.spec_width() + x],
    {
        let n = self.samples.len();
        proof {
            lemma_flat_index_in_range(
                self.spec_width() as int,
                self.spec_height() as int,
                x as int,
                y as int,
            );
            assert(y * self.spec_width() + x < n);
        }
        self.samples[y * self.width + x]
    }

    /// Writes the sample at column `x` of row `y`; every other pixel is
    /// untouched.
    pub fn set(&mut self, x: usize, y: usize, value: u8)
        requires
            old(self).wf(),
            x < old(self).spec_width(),
            y < old(self).spec_height(),
        ensures
            final(self).wf(),
            final(self).spec_width() == old(self).spec_width(),
            final(self).spec_height() == old(self).spec_height(),
            final(self)@ == old(self)@.update(y * old(self).spec_width() + x, value),
    {
        let n = self.samples.len();
        proof {
            lemma_flat_index_in_range(
                self.spec_width() as int,
                self.spec_height() as int,
                x as int,
                y as int,
            );
            assert(y * self.spec_width() + x < n);
        }
        let i = y * self.width + x;
        self.samples[i] = value;
    }
}

impl SampleBuffer {
    /// Reads the 64 samples of the block at block row `br` and block
    /// column `bc`, row by row.
    pub fn get_block(&self, br: usize, bc: usize) -> (r: Vec<u8>)
        requires
            self.wf(),
            br < self.spec_height() / 8,
            bc < self.spec_width() / 8,
        ensures
            r@.len() == 64,
            forall|p: int|
                0 <= p < 64 ==> r@[p] == self@[pixel_index(
                    self.spec_width() as int,
                    br as int,
                    bc as int,
                    p,
                )],
    {
        let mut r: Vec<u8> = Vec::new();
        let mut p: usize = 0;
        while p < 64
            invariant
                self.wf(),
                br < self.spec_height() / 8,
                bc < self.spec_width() / 8,
                p <= 64,
                r@.len() == p,
                forall|m: int|
                    0 <= m < p ==> r@[m] == self@[pixel_index(
                        self.spec_width() as int,
                        br as int,
                        bc as int,
                        m,
                    )],
            decreases 64 - p,
        {
            let y = br * 8 + p / 8;
            let x = bc * 8 + p % 8;
            r.push(self.get(x, y));
            p = p + 1;
        }
        r
    }

    /// Writes 64 samples as the block at block row `br` and block column
    /// `bc`; every pixel outside that block is untouched.
    pub fn set_block(&mut self, br: usize, bc: usize, block: &Vec<u8>)
        requires
            old(self).wf(),
            br < old(self).spec_height() / 8,
            bc < old(self).spec_width() / 8,
            block@.len() == 64,
        ensures
            final(self).wf(),
            final(self).spec_width() == old(self).spec_width(),
            final(self).spec_height() == old(self).spec_height(),
            forall|p: int|
                0 <= p < 64 ==> final(self)@[pixel_index(
                    old(self).spec_width() as int,
                    br as int,
                    bc as int,
                    p,
                )] == block@[p],
            forall|k: int|
                0 <= k < old(self)@.len() && !block_covers(
                    old(self).spec_width() as int,
                    br as int,
                    bc as int,
                    k,
                ) ==> final(self)@[k] == old(self)@[k],
    {
        let ghost w = self.spec_width() as int;
        let mut p: usize = 0;
        while p < 64
            invariant
                self.wf(),
                old(self).wf(),
                self@.len() == old(self)@.len(),
                self.spec_width() == old(self).spec_width(),
                self.spec_height() == old(self).spec_height(),
                w == self.spec_width() as int,
                br < self.spec_height() / 8,
                bc < self.spec_width() / 8,
                block@.len() == 64,
                p <= 64,
                forall|m: int|
                    0 <= m < p ==> self@[pixel_index(w, br as int, bc as int, m)] == block@[m],
                forall|k: int|
                    0 <= k < old(self)@.len() && !block_covers(w, br as int, bc as int, k)
                        ==> self@[k] == old(self)@[k],
            decreases 64 - p,
        {
            let y = br * 8 + p / 8;
            let x = bc * 8 + p % 8;
            let ghost pre = self@;
            self.set(x, y, block[p]);
            proof {
                lemma_flat_index_in_range(w, self.spec_height() as int, x as int, y as int);
                let idx = y as int * w + x as int;
                assert(0 <= idx < pre.len());
                assert(self@ == pre.update(y as int * w + x as int, block@[p as int]));
                assert forall|m: int|
                    0 <= m < p + 1 implies self@[pixel_index(w, br as int, bc as int, m)]
                    == block@[m] by {
                    let ym = br as int * 8 + m / 8;
                    let xm = bc as int * 8 + m % 8;
                    assert(0 <= m / 8 < 8);
                    assert(0 <= m % 8 < 8);
                    assert(pixel_index(w, br as int, bc as int, m) == ym * w + xm);
                    assert(0 <= xm < w);
                    assert(0 <= ym < self.spec_height() as int);
                    lemma_flat_index_in_range(w, self.spec_height() as int, xm, ym);
                    assert(0 <= ym * w + xm < pre.len());
                    if m < p {
                        if ym * w + xm == y as int * w + x as int {
                            lemma_row_major_injective(w, xm, ym, x as int, y as int);
                            assert(m == p as int);  // contradicts m < p
                        }
                        assert(pre[pixel_index(w, br as int, bc as int, m)] == block@[m]);
                        assert(self@[pixel_index(w, br as int, bc as int, m)] == pre[pixel_index(
                            w,
                            br as int,
                            bc as int,
                            m,
                        )]);
                    } else {
                        assert(ym == y as int);
                        assert(xm == x as int);
                        assert(self@[ym * w + xm] == block@[m]);
                    }
                }
                assert forall|k: int|
                    0 <= k < old(self)@.len() && !block_covers(w, br as int, bc as int, k) implies
                    self@[k] == old(self)@[k] by {
                    if k == y as int * w + x as int {
                        // the touched index lies inside the block
                        vstd::arithmetic::div_mod::lemma_fundamental_div_mod_converse_div(
                            k,
                            w,
                            y as int,
                            x as int,
                        );
                        vstd::arithmetic::div_mod::lemma_fundamental_div_mod_converse_mod(
                            k,
                            w,
                            y as int,
                            x as int,
                        );
                        assert(block_covers(w, br as int, bc as int, k));
                    }
                }
            }
            p = p + 1;
        }
    }
}

/// A pixel coordinate's flat index lies inside the storage.
proof fn lemma_flat_index_in_range(w: int, h: int, x: int, y: int)
    requires
        0 <= x < w,
        0 <= y < h,
    ensures
        0 <= y * w + x < w * h,
{
    assert(0 <= y * w + x < w * h) by (nonlinear_arith)
        requires
            0 <= x < w,
            0 <= y < h,
    ;
}

} // verus!
