//! Shared arithmetic lemmas on products and row/column index math.

use vstd::prelude::*;

verus! {

use vstd::arithmetic::div_mod::lemma_fundamental_div_mod_converse;

/// Product bounds, for ruling out overflow of machine arithmetic.
pub proof fn lemma_mul_bound(x: int, xb: int, y: int, yb: int)
    by (nonlinear_arith)
    requires
        0 <= x <= xb,
        0 <= y <= yb,
    ensures
        0 <= x * y <= xb * yb,
{
}

/// A flat index `r * w + c` with `c < w` decomposes uniquely into its row
/// `r` and column `c`.
pub proof fn lemma_row_col(r: int, c: int, w: int)
    requires
        w > 0,
        0 <= r,
        0 <= c < w,
    ensures
        (r * w + c) / w == r,
        (r * w + c) % w == c,
{
    lemma_fundamental_div_mod_converse(r * w + c, w, r, c);
}

} // verus!
