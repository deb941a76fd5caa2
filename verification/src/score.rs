//! Frame scoring by population variance, and best-frame selection.
//!
//! The score of a frame is the population variance of its effective bytes
//! (padding is never read): the mean of squared deviations from the mean.
//! For a sample set of `n` bytes with sum `S` and sum of squares `Q`, that
//! variance is the exact rational `(n * Q - S * S) / (n * n)`; a score
//! stores the numerator and `n`, so comparisons are exact and the ordering
//! does not depend on floating-point rounding.

use vstd::prelude::*;

verus! {

use crate::arith::{lemma_mul_bound, lemma_row_col};
use crate::frame::tight_bytes;
use vstd::arithmetic::div_mod::{lemma_fundamental_div_mod, lemma_multiply_divide_lt};

/// Sum of the bytes of a sequence.
pub open spec fn sum_bytes(s: Seq<u8>) -> int
    decreases s.len(),
{
    if s.len() == 0 {
        0
    } else {
        sum_bytes(s.drop_last()) + s.last()
    }
}

/// Sum of the squared bytes of a sequence.
pub open spec fn sum_sq_bytes(s: Seq<u8>) -> int
    decreases s.len(),
{
    if s.len() == 0 {
        0
    } else {
        sum_sq_bytes(s.drop_last()) + s.last() * s.last()
    }
}

/// The numerator of the population variance of a byte sample set, over the
/// implicit denominator `len * len`.
pub open spec fn variance_num(s: Seq<u8>) -> int {
    s.len() * sum_sq_bytes(s) - sum_bytes(s) * sum_bytes(s)
}

/// A frame's score: the population variance of its `count` effective
/// bytes, as the exact rational `num / (count * count)`.
#[derive(Clone, Copy, Debug, PartialEq, Eq, Structural)]
pub struct FrameScore {
    pub num: u128,
    pub count: u32,
}

/// A score describes a non-empty sample set.
pub open spec fn score_wf(s: FrameScore) -> bool {
    s.count >= 1
}

/// The denominator of a score's rational value.
pub open spec fn score_den(s: FrameScore) -> int {
    s.count * s.count
}

/// Exact comparison of two scores as rationals, by cross multiplication.
pub open spec fn score_le(a: FrameScore, b: FrameScore) -> bool {
    a.num * score_den(b) <= b.num * score_den(a)
}

/// Strictly-less on scores; the ordering is total, so this is the negation
/// of `score_le` the other way around.
pub open spec fn score_lt(a: FrameScore, b: FrameScore) -> bool {
    !score_le(b, a)
}

/// Byte sums are bounded by 255 per byte, squared sums by 255 * 255.
proof fn lemma_sum_bounds(s: Seq<u8>)
    ensures
        0 <= sum_bytes(s) <= 255 * s.len(),
        0 <= sum_sq_bytes(s) <= 65025 * s.len(),
    decreases s.len(),
{
    if s.len() > 0 {
        lemma_sum_bounds(s.drop_last());
        assert(s.last() * s.last() <= 65025) by (nonlinear_arith)
            requires 0 <= s.last() <= 255;
    }
}

/// The variance numerator is never negative: `n * Q >= S * S`
/// (an instance of the Cauchy-Schwarz inequality).
pub proof fn lemma_variance_num_nonneg(s: Seq<u8>)
    ensures
        variance_num(s) >= 0,
    decreases s.len(),
{
    if s.len() == 0 {
    } else {
        let t = s.drop_last();
        let x = s.last() as int;
        let n = t.len() as int;
        let q = sum_sq_bytes(t);
        let ss = sum_bytes(t);
        lemma_variance_num_nonneg(t);
        lemma_sum_bounds(t);
        // From n * q >= ss * ss: q + n * x * x >= 2 * ss * x, since
        // n * (q + n * x * x - 2 * ss * x) >= (ss - n * x)^2 >= 0.
        assert((n + 1) * (q + x * x) - (ss + x) * (ss + x) >= 0) by (nonlinear_arith)
            requires
                n * q - ss * ss >= 0,
                n == t.len(),
                0 <= ss,
                q >= 0,
                0 <= x;
        assert(s.len() * sum_sq_bytes(s) == (n + 1) * (q + x * x));
        assert(sum_bytes(s) == ss + x);
    }
}

/// Sums of a constant sequence: every byte equal to `v` gives sum
/// `len * v` and squared sum `len * v * v`.
proof fn lemma_constant_sums(s: Seq<u8>, v: u8)
    requires
        forall|i: int| 0 <= i < s.len() ==> s[i] == v,
    ensures
        sum_bytes(s) == s.len() * v,
        sum_sq_bytes(s) == s.len() * (v * v),
    decreases s.len(),
{
    if s.len() == 0 {
    } else {
        lemma_constant_sums(s.drop_last(), v);
        assert(s.len() * v == (s.len() - 1) * v + v) by (nonlinear_arith);
        assert(s.len() * (v * v) == (s.len() - 1) * (v * v) + v * v) by (nonlinear_arith);
    }
}

/// A constant sample set has variance zero: if every byte of the set
/// equals the same value, the variance numerator vanishes, whatever the
/// value and however many bytes there are.
pub proof fn lemma_constant_bytes_zero_variance(s: Seq<u8>, v: u8)
    requires
        forall|i: int| 0 <= i < s.len() ==> s[i] == v,
    ensures
        variance_num(s) == 0,
{
    lemma_constant_sums(s, v);
    assert(s.len() * (s.len() * (v * v)) - (s.len() * v) * (s.len() * v) == 0) by (nonlinear_arith);
}

/// The effective byte at `row`/`col` of a strided buffer.
pub open spec fn row_byte(data: Seq<u8>, stride: int, row: int, col: int) -> u8 {
    data[row * stride + col]
}

/// A frame whose effective bytes all carry one value scores a variance of
/// zero, whatever the value and whatever the width, height and stride.
pub proof fn lemma_constant_frame_zero_variance(
    data: Seq<u8>,
    width: int,
    height: int,
    stride: int,
    v: u8,
)
    requires
        width >= 1,
        height >= 0,
        forall|row: int, col: int|
            0 <= row < height && 0 <= col < 3 * width
            ==> #[trigger] row_byte(data, stride, row, col) == v,
    ensures
        variance_num(tight_bytes(data, width, height, stride)) == 0,
{
    let tight = tight_bytes(data, width, height, stride);
    assert forall|k: int| 0 <= k < tight.len() implies tight[k] == v by {
        let row = k / (3 * width);
        let col = k % (3 * width);
        lemma_fundamental_div_mod(k, 3 * width);
        assert(tight.len() == 3 * width * height);
        assert((3 * width) * height == 3 * width * height) by (nonlinear_arith);
        lemma_multiply_divide_lt(k, 3 * width, height);
        assert(tight[k] == row_byte(data, stride, row, col));
    }
    lemma_constant_bytes_zero_variance(tight, v);
}

/// Computes the variance score of a strided frame buffer: only the first
/// `width * 3` bytes of each of the `height` rows of `stride` bytes are
/// read; padding beyond them is never touched.
pub fn variance(xs: &[u8], width: u32, stride: u32, height: u32) -> (r: FrameScore)
    requires
        width >= 1,
        height >= 1,
        stride >= 3 * width,
        xs@.len() >= stride * height,
        3 * width * height <= u32::MAX,
    ensures
        score_wf(r),
        r.count == 3 * width * height,
        r.num == variance_num(tight_bytes(xs@, width as int, height as int, stride as int)),
{
    let ghost tight = tight_bytes(xs@, width as int, height as int, stride as int);
    let w3: usize = (width as usize) * 3;
    let h: usize = height as usize;
    let strd: usize = stride as usize;
    let dlen: usize = xs.len();
    let ghost n: int = 3 * width as int * height as int;
    proof {
        lemma_mul_bound(3 * width as int, u32::MAX as int, height as int, u32::MAX as int);
        lemma_mul_bound(stride as int, u32::MAX as int, height as int, u32::MAX as int);
        assert(3 * width <= 3 * width * height) by (nonlinear_arith)
            requires height >= 1, width >= 0;
    }
    let mut sum: u64 = 0;
    let mut sq: u64 = 0;
    let mut row: usize = 0;
    let ghost mut idx: int = 0;
    while row < h
        invariant
            row <= h,
            h == height,
            w3 == 3 * width,
            strd == stride,
            dlen == xs@.len(),
            width >= 1,
            height >= 1,
            stride >= 3 * width,
            xs@.len() >= stride * height,
            n == 3 * width as int * height as int,
            n <= u32::MAX,
            tight == tight_bytes(xs@, width as int, height as int, stride as int),
            tight.len() == n,
            idx == row * w3,
            idx <= n,
            sum == sum_bytes(tight.subrange(0, idx)),
            sq == sum_sq_bytes(tight.subrange(0, idx)),
            sum <= 255 * idx,
            sq <= 65025 * idx,
        decreases h - row,
    {
        proof {
            assert((row + 1) * strd <= height * stride && height * stride == stride * height)
                by (nonlinear_arith)
                requires row + 1 <= height, strd == stride, 0 <= stride;
            assert((row + 1) * w3 <= n) by (nonlinear_arith)
                requires row + 1 <= height, w3 == 3 * width, 0 <= w3, n == 3 * width as int * height as int;
            assert((row + 1) * strd == row * strd + strd) by (nonlinear_arith);
            assert((row + 1) * w3 == row * w3 + w3) by (nonlinear_arith);
        }
        let mut col: usize = 0;
        while col < w3
            invariant
                col <= w3,
                row < h,
                h == height,
                w3 == 3 * width,
                strd == stride,
                dlen == xs@.len(),
                width >= 1,
                tight == tight_bytes(xs@, width as int, height as int, stride as int),
                tight.len() == n,
                n <= u32::MAX,
                (row + 1) * strd <= dlen,
                (row + 1) * w3 <= n,
                (row * w3 + w3) == (row + 1) * w3,
                (row * strd + w3) <= (row + 1) * strd,
                idx == row * w3 + col,
                idx <= n,
                sum == sum_bytes(tight.subrange(0, idx)),
                sq == sum_sq_bytes(tight.subrange(0, idx)),
                sum <= 255 * idx,
                sq <= 65025 * idx,
            decreases w3 - col,
        {
            proof {
                lemma_row_col(row as int, col as int, w3 as int);
                assert(row * strd + strd == (row + 1) * strd) by (nonlinear_arith);
                assert(row * strd + col < dlen);
                assert(tight[idx] == xs@[row as int * strd as int + col as int]);
            }
            let b = xs[row * strd + col];
            let bw = b as u64;
            proof {
                assert(tight.subrange(0, idx + 1).drop_last() =~= tight.subrange(0, idx));
                assert(tight.subrange(0, idx + 1).last() == tight[idx]);
                assert(bw * bw <= 65025) by (nonlinear_arith)
                    requires 0 <= bw <= 255;
            }
            sum = sum + bw;
            sq = sq + bw * bw;
            proof {
                idx = idx + 1;
            }
            col = col + 1;
        }
        row = row + 1;
    }
    proof {
        assert(idx == h * w3 == n) by (nonlinear_arith)
            requires idx == h * w3, h == height, w3 == 3 * width, n == 3 * width as int * height as int;
        assert(tight.subrange(0, idx) =~= tight);
        lemma_sum_bounds(tight);
        lemma_variance_num_nonneg(tight);
        lemma_mul_bound(n, u32::MAX as int, sq as int, 65025 * (u32::MAX as int));
        lemma_mul_bound(sum as int, 255 * (u32::MAX as int), sum as int, 255 * (u32::MAX as int));
        assert(3 * width * height >= 1) by (nonlinear_arith)
            requires width >= 1, height >= 1;
    }
    let count64: u64 = 3 * (width as u64) * (height as u64);
    let count: u32 = count64 as u32;
    let num: u128 = (count64 as u128) * (sq as u128) - (sum as u128) * (sum as u128);
    FrameScore { num, count }
}

/// `score_le` really is the rational comparison computed from quotients
/// and remainders of the two numerators by their denominators.
proof fn lemma_cross_cmp(anum: int, da: int, qa: int, ra: int, bnum: int, db: int, qb: int, rb: int)
    requires
        da >= 1,
        db >= 1,
        anum == da * qa + ra,
        0 <= ra < da,
        bnum == db * qb + rb,
        0 <= rb < db,
        0 <= qa,
        0 <= qb,
    ensures
        (anum * db <= bnum * da) <==> (qa < qb || (qa == qb && ra * db <= rb * da)),
{
    let den = da * db;
    assert(anum * db == qa * den + ra * db) by (nonlinear_arith)
        requires anum == da * qa + ra, den == da * db;
    assert(bnum * da == qb * den + rb * da) by (nonlinear_arith)
        requires bnum == db * qb + rb, den == da * db;
    assert(0 <= ra * db < den && 0 <= rb * da < den) by (nonlinear_arith)
        requires 0 <= ra < da, 0 <= rb < db, den == da * db, da >= 1, db >= 1;
    if qa < qb {
        assert(qa * den + ra * db < qb * den + rb * da) by (nonlinear_arith)
            requires qa < qb, 0 <= ra * db < den, 0 <= rb * da, den >= 1;
    } else if qa > qb {
        assert(qa * den + ra * db > qb * den + rb * da) by (nonlinear_arith)
            requires qa > qb, 0 <= rb * da < den, 0 <= ra * db, den >= 1;
    }
}

/// Exact rational comparison of two scores. Quotient and remainder by the
/// denominators keep every intermediate product within machine range.
pub fn score_le_exec(a: &FrameScore, b: &FrameScore) -> (r: bool)
    requires
        score_wf(*a),
        score_wf(*b),
    ensures
        r == score_le(*a, *b),
{
    proof {
        lemma_mul_bound(a.count as int, u32::MAX as int, a.count as int, u32::MAX as int);
        lemma_mul_bound(b.count as int, u32::MAX as int, b.count as int, u32::MAX as int);
    }
    let da: u128 = (a.count as u128) * (a.count as u128);
    let db: u128 = (b.count as u128) * (b.count as u128);
    proof {
        assert(da >= 1 && db >= 1) by (nonlinear_arith)
            requires a.count >= 1, b.count >= 1, da == a.count * a.count, db == b.count * b.count;
    }
    let qa = a.num / da;
    let ra = a.num % da;
    let qb = b.num / db;
    let rb = b.num % db;
    proof {
        lemma_fundamental_div_mod(a.num as int, da as int);
        lemma_fundamental_div_mod(b.num as int, db as int);
        lemma_mul_bound(ra as int, 0xffff_ffff_ffff_ffff, db as int, 0x1_0000_0000_0000_0000);
        lemma_mul_bound(rb as int, 0xffff_ffff_ffff_ffff, da as int, 0x1_0000_0000_0000_0000);
        lemma_cross_cmp(
            a.num as int, da as int, qa as int, ra as int,
            b.num as int, db as int, qb as int, rb as int);
    }
    if qa != qb {
        qa < qb
    } else {
        ra * db <= rb * da
    }
}

/// The score ordering is transitive.
pub proof fn lemma_score_le_trans(a: FrameScore, b: FrameScore, c: FrameScore)
    requires
        score_wf(a),
        score_wf(b),
        score_wf(c),
        score_le(a, b),
        score_le(b, c),
    ensures
        score_le(a, c),
{
    let da = score_den(a);
    let db = score_den(b);
    let dc = score_den(c);
    assert(da >= 1 && db >= 1 && dc >= 1) by (nonlinear_arith)
        requires a.count >= 1, b.count >= 1, c.count >= 1,
            da == a.count * a.count, db == b.count * b.count, dc == c.count * c.count;
    assert(a.num * dc * db <= c.num * da * db) by (nonlinear_arith)
        requires
            a.num * db <= b.num * da,
            b.num * dc <= c.num * db,
            da >= 1, db >= 1, dc >= 1,
            0 <= a.num, 0 <= b.num, 0 <= c.num;
    assert(a.num * dc <= c.num * da) by (nonlinear_arith)
        requires a.num * dc * db <= c.num * da * db, db >= 1;
}

/// A score at most a second one, itself strictly below a third, is
/// strictly below the third.
pub proof fn lemma_score_le_lt_trans(a: FrameScore, b: FrameScore, c: FrameScore)
    requires
        score_wf(a),
        score_wf(b),
        score_wf(c),
        score_le(a, b),
        score_lt(b, c),
    ensures
        score_lt(a, c),
{
    if score_le(c, a) {
        lemma_score_le_trans(c, a, b);
    }
}

/// Picks the index of the best-scored frame: the highest score wins, and
/// on an exact tie the earliest index wins. Returns nothing only for an
/// empty input.
pub fn select_best(scores: &Vec<FrameScore>) -> (r: Option<usize>)
    requires
        forall|i: int| 0 <= i < scores@.len() ==> score_wf(#[trigger] scores@[i]),
    ensures
        (r is Some) <==> scores@.len() > 0,
        r matches Some(best) ==> {
            &&& (best as int) < scores@.len()
            &&& forall|j: int| 0 <= j < scores@.len()
                ==> score_le(#[trigger] scores@[j], scores@[best as int])
            &&& forall|j: int| 0 <= j < best as int
                ==> score_lt(#[trigger] scores@[j], scores@[best as int])
        },
{
    if scores.len() == 0 {
        return None;
    }
    let mut best: usize = 0;
    let mut i: usize = 1;
    while i < scores.len()
        invariant
            1 <= i <= scores@.len(),
            best < i,
            forall|k: int| 0 <= k < scores@.len() ==> score_wf(#[trigger] scores@[k]),
            forall|j: int| 0 <= j < i ==> score_le(#[trigger] scores@[j], scores@[best as int]),
            forall|j: int| 0 <= j < best as int
                ==> score_lt(#[trigger] scores@[j], scores@[best as int]),
        decreases scores@.len() - i,
    {
        if !score_le_exec(&scores[i], &scores[best]) {
            proof {
                assert forall|j: int| 0 <= j < i implies
                    score_lt(#[trigger] scores@[j], scores@[i as int]) by {
                    lemma_score_le_lt_trans(scores@[j], scores@[best as int], scores@[i as int]);
                }
                assert forall|j: int| 0 <= j <= i implies
                    score_le(#[trigger] scores@[j], scores@[i as int]) by {
                    if j < i {
                        assert(score_lt(scores@[j], scores@[i as int]));
                    }
                }
            }
            best = i;
        }
        i = i + 1;
    }
    Some(best)
}

} // verus!
