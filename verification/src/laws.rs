//! Laws of the table blueprint.
//!
//! The transform's numeric identities (round-trips within tolerance,
//! agreement with the direct-summation oracle) are floating-point facts
//! and live outside this crate; what is provable here is the integer
//! structure they rest on: a square plan drives its row and column passes
//! with identical tables, the separable two-dimensional plan is exactly
//! two one-dimensional plans, the DC column of the basis has angle zero,
//! and the size-1 transform degenerates to a pure scaling.

use vstd::prelude::*;
use crate::plan::Plan1d;
use crate::plan::Plan2d;
use crate::shape::lemma_flat_index;
use crate::tables::angle_index;
use crate::tables::is_angle_table;

verus! {

/// A square plan's row pass and column pass share one set of tables: the
/// fixed-size square specialization may therefore store a single cosine
/// table and use it for both passes.
pub proof fn lemma_square_plan_shares_tables(p: Plan2d)
    requires
        p.wf(),
        p.rows == p.cols,
    ensures
        p.row_angles@ == p.col_angles@,
        p.row_angles_t@ == p.col_angles_t@,
        p.row_alpha@ == p.col_alpha@,
{
    assert(p.row_angles@ =~= p.col_angles@);
    assert(p.row_angles_t@ =~= p.col_angles_t@);
    assert(p.row_alpha@ =~= p.col_alpha@);
}

/// The separable two-dimensional transform is two one-dimensional
/// transforms: the row pass of a `rows`-by-`cols` plan uses exactly the
/// tables of the one-dimensional plan of size `cols`, and the column pass
/// those of the one-dimensional plan of size `rows`.
pub proof fn lemma_separable_passes(p2: Plan2d, pr: Plan1d, pc: Plan1d)
    requires
        p2.wf(),
        pr.wf(),
        pc.wf(),
        pr.n == p2.cols,
        pc.n == p2.rows,
    ensures
        p2.row_angles@ == pr.angles@,
        p2.row_angles_t@ == pr.angles_t@,
        p2.row_alpha@ == pr.alpha@,
        p2.col_angles@ == pc.angles@,
        p2.col_angles_t@ == pc.angles_t@,
        p2.col_alpha@ == pc.alpha@,
{
    assert(p2.row_angles@ =~= pr.angles@);
    assert(p2.row_angles_t@ =~= pr.angles_t@);
    assert(p2.row_alpha@ =~= pr.alpha@);
    assert(p2.col_angles@ =~= pc.angles@);
    assert(p2.col_angles_t@ =~= pc.angles_t@);
    assert(p2.col_alpha@ =~= pc.alpha@);
}

/// The DC column of the basis matrix has angle zero for every sample:
/// entry `(x, 0)` is `cos(0) = 1`, which is why the DC frequency alone
/// carries the distinct normalization numerator 1.
pub proof fn lemma_dc_angles_zero(t: Seq<u64>, n: int, x: int)
    requires
        0 < n,
        is_angle_table(t, n),
        0 <= x < n,
    ensures
        t[x * n] == 0,
{
    lemma_flat_index(n, x, 0);
    assert(t[x * n + 0] == angle_index(x, 0));
    assert(angle_index(x, 0) == 0) by (nonlinear_arith);
}

/// The size-1 transform is a pure scaling: its basis matrix is the single
/// entry with angle 0 (cosine 1) and its normalization numerator is 1, so
/// forward and inverse both reduce to multiplication by `alpha(0)`.
pub proof fn lemma_unit_plan_is_scaling(p: Plan1d)
    requires
        p.wf(),
        p.n == 1,
    ensures
        p.angles@ == seq![0u64],
        p.angles_t@ == seq![0u64],
        p.alpha@ == seq![1u64],
{
    assert(p.angles@.len() == 1);
    assert(p.angles@[0] == angle_index(0, 0));
    assert(p.angles_t@.len() == 1);
    assert(p.angles_t@[0] == angle_index(0, 0));
    assert(angle_index(0, 0) == 0) by (nonlinear_arith);
    assert(p.angles@ =~= seq![0u64]);
    assert(p.angles_t@ =~= seq![0u64]);
    assert(p.alpha@ =~= seq![1u64]);
}

} // verus!
