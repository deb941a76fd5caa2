//! Aspect-preserving, never-upscaling computation of thumbnail dimensions.
//!
//! The source width is weighed by the pixel-aspect-ratio numerator and
//! denominator, so the effective width is the rational `w * pn / pd`. All
//! arithmetic is exact rational arithmetic; results are rounded half-up.

use vstd::prelude::*;

verus! {

use vstd::arithmetic::div_mod::{lemma_div_multiples_vanish_fancy, lemma_fundamental_div_mod};
use crate::arith::lemma_mul_bound;

/// `num / den` rounded half-up, for `den > 0` and `num >= 0`.
pub open spec fn rnd(num: int, den: int) -> int {
    (2 * num + den) / (2 * den)
}

/// The scaled dimensions for an effective source width `w * pn / pd`,
/// a source height `h`, and a maximum dimension `t`:
/// - both axes strictly below `t`: unchanged (no upscaling);
/// - effective width at least the height: width becomes `t`, height is
///   scaled by `t / (w * pn / pd)`;
/// - otherwise: height becomes `t`, width is scaled by `t / h`.
pub open spec fn scaled_dims(w: int, h: int, pn: int, pd: int, t: int) -> (int, int) {
    if w * pn < t * pd && h < t {
        (rnd(w * pn, pd), h)
    } else if w * pn >= h * pd {
        (t, rnd(h * t * pd, w * pn))
    } else {
        (rnd(w * pn * t, pd * h), t)
    }
}

/// `a / da <= b / db` follows from `a * db <= b * da` (cross multiplication).
proof fn lemma_div_le_div(a: int, da: int, b: int, db: int)
    requires
        da > 0,
        db > 0,
        0 <= a,
        a * db <= b * da,
    ensures
        a / da <= b / db,
{
    let q = a / da;
    lemma_fundamental_div_mod(a, da);
    assert(q * da <= a);
    assert(q * da * db <= a * db) by (nonlinear_arith)
        requires q * da <= a, db > 0;
    assert(q * da * db == (q * db) * da) by (nonlinear_arith);
    assert((q * db) * da <= b * da);
    assert(q * db <= b) by (nonlinear_arith)
        requires (q * db) * da <= b * da, da > 0;
    lemma_fundamental_div_mod(b, db);
    let qb = b / db;
    assert(b < (qb + 1) * db) by (nonlinear_arith)
        requires b == db * qb + b % db, b % db < db;
    assert(q * db <= b);
    assert(q < qb + 1) by (nonlinear_arith)
        requires q * db < (qb + 1) * db, db > 0;
}

/// Rounding half-up is monotone: a smaller rational rounds to a smaller value.
proof fn lemma_rnd_le_rnd(n1: int, d1: int, n2: int, d2: int)
    requires
        d1 > 0,
        d2 > 0,
        0 <= n1,
        n1 * d2 <= n2 * d1,
    ensures
        rnd(n1, d1) <= rnd(n2, d2),
{
    assert((2 * n1 + d1) * (2 * d2) <= (2 * n2 + d2) * (2 * d1)) by (nonlinear_arith)
        requires n1 * d2 <= n2 * d1, d1 > 0, d2 > 0;
    lemma_div_le_div(2 * n1 + d1, 2 * d1, 2 * n2 + d2, 2 * d2);
}

/// A whole number is a fixed point of rounding: `rnd(b * d, d) == b`.
proof fn lemma_rnd_exact(b: int, d: int)
    requires
        d > 0,
        0 <= b,
    ensures
        rnd(b * d, d) == b,
{
    assert(2 * (b * d) + d == (2 * d) * b + d) by (nonlinear_arith);
    lemma_div_multiples_vanish_fancy(b, d, 2 * d);
}

/// `rnd(n, d) <= b` whenever `n <= b * d`.
proof fn lemma_rnd_le(n: int, d: int, b: int)
    requires
        d > 0,
        0 <= n,
        0 <= b,
        n <= b * d,
    ensures
        rnd(n, d) <= b,
{
    assert(n * d <= (b * d) * d) by (nonlinear_arith)
        requires n <= b * d, d > 0;
    lemma_rnd_le_rnd(n, d, b * d, d);
    lemma_rnd_exact(b, d);
}

/// `num / den` rounded half-up, on machine integers.
fn rnd_exec(num: u128, den: u128) -> (r: u128)
    requires
        den > 0,
        2 * num + den <= u128::MAX,
        2 * den <= u128::MAX,
    ensures
        r == rnd(num as int, den as int),
{
    (2 * num + den) / (2 * den)
}

/// Computes the thumbnail dimensions for a source of `width` x `height`
/// pixels with pixel aspect ratio `par_num / par_den`, under a maximum
/// dimension of `thumbnail_size` on either axis. Never upscales; otherwise
/// the larger effective axis is scaled to exactly `thumbnail_size` and the
/// other axis keeps the aspect ratio, rounded half-up.
pub fn scale_thumbnail_dimensions(
    width: u32,
    height: u32,
    par_num: u32,
    par_den: u32,
    thumbnail_size: u16,
) -> (r: (u32, u32))
    requires
        par_den >= 1,
        thumbnail_size >= 1,
    ensures
        (r.0 as int, r.1 as int) == scaled_dims(
            width as int, height as int, par_num as int, par_den as int, thumbnail_size as int),
        r.0 <= thumbnail_size,
        r.1 <= thumbnail_size,
        r.0 <= rnd(width as int * par_num as int, par_den as int),
        r.1 <= height,
{
    proof {
        lemma_mul_bound(width as int, 0xffff_ffff, par_num as int, 0xffff_ffff);
        lemma_mul_bound(thumbnail_size as int, 0xffff, par_den as int, 0xffff_ffff);
        lemma_mul_bound(height as int, 0xffff_ffff, par_den as int, 0xffff_ffff);
    }
    let w: u128 = (width as u128) * (par_num as u128);
    let h: u128 = height as u128;
    let pd: u128 = par_den as u128;
    let t: u128 = thumbnail_size as u128;
    if w < t * pd && h < t {
        let nw = rnd_exec(w, pd);
        proof {
            assert(w <= t * pd) by (nonlinear_arith)
                requires w < t * pd;
            lemma_rnd_le(w as int, pd as int, t as int);
        }
        (nw as u32, height)
    } else if w >= h * pd {
        // The effective width is the larger axis; it cannot be zero here:
        // were w == 0, then h * pd <= 0 forces h == 0, and both axes would
        // be strictly below t, taking the first branch.
        proof {
            assert(h * pd <= 0 && pd >= 1 ==> h <= 0) by (nonlinear_arith);
            assert(t >= 1 && pd >= 1 ==> t * pd >= 1) by (nonlinear_arith);
            assert(w >= 1);
            lemma_mul_bound(h as int, 0xffff_ffff, t as int, 0xffff);
            lemma_mul_bound((h * t) as int, 0xffff_ffffint * 0xffffint, pd as int, 0xffff_ffff);
        }
        let nh = rnd_exec(h * t * pd, w);
        proof {
            // t * pd <= w: the first guard failed, so either w >= t * pd
            // directly, or h >= t, and then t * pd <= h * pd <= w.
            assert(t * pd <= w) by (nonlinear_arith)
                requires h < t ==> w >= t * pd, h * pd <= w, t >= 1, pd >= 1;
            // nh <= t: h * t * pd <= t * w since h * pd <= w
            assert(h * t * pd <= t * w) by (nonlinear_arith)
                requires h * pd <= w, t >= 0;
            lemma_rnd_le((h * t * pd) as int, w as int, t as int);
            // nh <= h: h * t * pd <= h * w since t * pd <= w
            assert(h * t * pd <= h * w) by (nonlinear_arith)
                requires t * pd <= w, h >= 0;
            lemma_rnd_le((h * t * pd) as int, w as int, h as int);
            // t <= rnd(w, pd), since t * pd <= w
            lemma_rnd_exact(t as int, pd as int);
            assert((t * pd) * pd <= w * pd) by (nonlinear_arith)
                requires t * pd <= w, pd >= 1;
            lemma_rnd_le_rnd((t * pd) as int, pd as int, w as int, pd as int);
        }
        (thumbnail_size as u32, nh as u32)
    } else {
        // The height is the larger axis; it cannot be zero here.
        proof {
            assert(w < h * pd && pd >= 1 && w >= 0 ==> h >= 1) by (nonlinear_arith);
            lemma_mul_bound(w as int, 0xffff_ffffint * 0xffff_ffffint, t as int, 0xffff);
            lemma_mul_bound(pd as int, 0xffff_ffff, h as int, 0xffff_ffff);
        }
        let nw = rnd_exec(w * t, pd * h);
        proof {
            // h >= t: the first guard failed, and w < h * pd rules out
            // w >= t * pd when h < t.
            assert(h >= t) by (nonlinear_arith)
                requires h < t ==> w >= t * pd, w < h * pd, pd >= 1, t >= 1;
            // nw <= t: w * t <= t * (pd * h) since w <= h * pd
            assert(w * t <= t * (pd * h)) by (nonlinear_arith)
                requires w <= h * pd, t >= 0;
            lemma_rnd_le((w * t) as int, (pd * h) as int, t as int);
            // nw <= rnd(w, pd): (w * t) * pd <= w * (pd * h) since t <= h
            assert((w * t) * pd <= w * (pd * h)) by (nonlinear_arith)
                requires t <= h, w >= 0, pd >= 1;
            lemma_rnd_le_rnd((w * t) as int, (pd * h) as int, w as int, pd as int);
        }
        (nw as u32, thumbnail_size as u32)
    }
}

} // verus!
