use vstd::prelude::*;

verus! {

/// The number of columns in which `n` tips are shown: two for more than
/// three tips, one otherwise.
pub open spec fn tip_cols(n: nat) -> nat {
    if n > 3 {
        2
    } else {
        1
    }
}

/// How many tips a column holds: the tips shared out over the columns,
/// rounded up.
pub open spec fn tips_per_col(n: nat) -> nat {
    ((n + tip_cols(n) - 1) as nat) / tip_cols(n)
}

/// The column layout of `n` tips: the number of columns and the number of
/// tips per column.
pub fn tip_columns(n: usize) -> (r: (usize, usize))
    requires
        n + tip_cols(n as nat) <= usize::MAX,
    ensures
        r.0 == tip_cols(n as nat),
        r.1 == tips_per_col(n as nat),
{
    let cols: usize = if n > 3 {
        2
    } else {
        1
    };
    let per_col = (n + cols - 1) / cols;
    (cols, per_col)
}

/// Every tip lands in one of the columns: the tip at index `i`, shown in
/// column `i / per_col`, has a column below the number of columns, and the
/// columns together hold room for all tips.
pub proof fn lemma_every_tip_shown(n: nat, i: nat)
    requires
        i < n,
    ensures
        tips_per_col(n) > 0,
        i / tips_per_col(n) < tip_cols(n),
        tips_per_col(n) * tip_cols(n) >= n,
        (tips_per_col(n) - 1) * tip_cols(n) < n,
        tip_cols(n) == 2 <==> n > 3,
        tip_cols(n) == 1 <==> n <= 3,
{
    let c = tip_cols(n);
    let p = tips_per_col(n);
    assert(p > 0 && p * c >= n) by (nonlinear_arith)
        requires
            c == 1 || c == 2,
            p == ((n + c - 1) as nat) / c,
            n > 0,
    ;
    assert((p - 1) * c < n) by (nonlinear_arith)
        requires
            c == 1 || c == 2,
            p == ((n + c - 1) as nat) / c,
            n > 0,
    ;
    assert(i / p < c) by (nonlinear_arith)
        requires
            p > 0,
            p * c >= n,
            i < n,
            c > 0,
    ;
}

} // verus!
