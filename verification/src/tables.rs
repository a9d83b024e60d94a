//! Integer blueprint of the cosine and normalization tables.
//!
//! The cosine basis matrix of the size-`N` DCT-II is
//! `C[x][u] = cos(pi * (2*x + 1) * u / (2*N))`. The integer angle index
//! `(2*x + 1) * u` determines every entry exactly; mapping the cosine over
//! it is left to unverified callers. Likewise the normalization vector is
//! `alpha(u) = sqrt(alpha_numerator(u) / N)`, so the integer numerator
//! (1 for the DC frequency, 2 otherwise) determines it exactly.

use vstd::prelude::*;
use crate::shape::flat_transposed;
use crate::shape::lemma_flat_index;
use crate::shape::lemma_flat_split;

verus! {

/// Angle index of entry `(x, u)` of the cosine basis matrix: the entry is
/// `cos(pi * angle_index(x, u) / (2*N))`.
pub open spec fn angle_index(x: int, u: int) -> int {
    (2 * x + 1) * u
}

/// Numerator of the squared normalization coefficient: `alpha(u)` is
/// `sqrt(alpha_numerator(u) / N)`.
pub open spec fn alpha_numerator(u: int) -> int {
    if u == 0 {
        1
    } else {
        2
    }
}

/// A flat, row-major angle table for size `n`: entry `k` stands for row
/// `k / n` and column `k % n` of the basis matrix.
pub open spec fn is_angle_table(t: Seq<u64>, n: int) -> bool {
    &&& t.len() == n * n
    &&& forall|k: int| 0 <= k < n * n ==> #[trigger] t[k] == angle_index(k / n, k % n)
}

/// A flat, row-major table holding the transpose of the size-`n` angle
/// table: entry `k` (row `k / n`, column `k % n`) holds the angle of the
/// basis entry at row `k % n`, column `k / n`.
pub open spec fn is_transposed_angle_table(t: Seq<u64>, n: int) -> bool {
    &&& t.len() == n * n
    &&& forall|k: int| 0 <= k < n * n ==> #[trigger] t[k] == angle_index(k % n, k / n)
}

/// A normalization numerator table for size `n`.
pub open spec fn is_alpha_table(a: Seq<u64>, n: int) -> bool {
    &&& a.len() == n
    &&& forall|u: int| 0 <= u < n ==> #[trigger] a[u] == alpha_numerator(u)
}

/// Builds the flat, row-major angle table of the size-`n` cosine basis
/// matrix. The bound on `n` keeps the flat index of the `n * n` entries
/// within `usize` on every machine.
pub fn cosine_angle_table(n: usize) -> (t: Vec<u64>)
    requires
        1 <= n,
        n <= 0xFFFF,
    ensures
        is_angle_table(t@, n as int),
{
    let mut t: Vec<u64> = Vec::new();
    let mut x: usize = 0;
    while x < n
        invariant
            x <= n,
            n <= 0xFFFF,
            t@.len() == x * n,
            forall|k: int| 0 <= k < x * n ==> t@[k] == angle_index(k / (n as int), k % (n as int)),
        decreases n - x,
    {
        let mut u: usize = 0;
        while u < n
            invariant
                x < n,
                u <= n,
                n <= 0xFFFF,
                t@.len() == x * n + u,
                forall|k: int| 0 <= k < x * n + u ==> t@[k] == angle_index(
                    k / (n as int),
                    k % (n as int),
                ),
            decreases n - u,
        {
            proof {
                assert((2 * (x as int) + 1) * (u as int) <= 0xFFFF_FFFF_FFFF) by (nonlinear_arith)
                    requires
                        0 <= x < 0x10000,
                        0 <= u < 0x10000,
                ;
            }
            let angle: u64 = (2 * (x as u64) + 1) * (u as u64);
            proof {
                vstd::arithmetic::div_mod::lemma_fundamental_div_mod_converse(
                    (x as int) * (n as int) + (u as int),
                    n as int,
                    x as int,
                    u as int,
                );
            }
            t.push(angle);
            u += 1;
        }
        proof {
            assert((x as int + 1) * (n as int) == (x as int) * (n as int) + n) by (nonlinear_arith);
        }
        x += 1;
    }
    proof {
        assert((x as int) * (n as int) == (n as int) * (n as int)) by (nonlinear_arith)
            requires
                x == n,
        ;
    }
    t
}

/// Transposing an angle table gives exactly the transposed angle table:
/// the engine may therefore precompute the transpose once and use it for
/// the inverse passes.
pub proof fn lemma_transposed_angle_table(t: Seq<u64>, n: int)
    requires
        0 < n,
        is_angle_table(t, n),
    ensures
        is_transposed_angle_table(flat_transposed(t, n), n),
{
    let r = flat_transposed(t, n);
    assert forall|k: int| 0 <= k < n * n implies r[k] == angle_index(k % n, k / n) by {
        lemma_flat_split(n, k);
        let i = k / n;
        let j = k % n;
        lemma_flat_index(n, j, i);
        assert(r[k] == t[j * n + i]);
    }
}

/// Builds the length-`n` table of normalization numerators: entry `u` is
/// the numerator of `alpha(u)` squared, over the common denominator `n`.
pub fn alpha_numerators(n: usize) -> (a: Vec<u64>)
    requires
        1 <= n,
    ensures
        is_alpha_table(a@, n as int),
{
    let mut a: Vec<u64> = Vec::new();
    let mut u: usize = 0;
    while u < n
        invariant
            u <= n,
            a@.len() == u,
            forall|k: int| 0 <= k < u ==> a@[k] == alpha_numerator(k),
        decreases n - u,
    {
        if u == 0 {
            a.push(1);
        } else {
            a.push(2);
        }
        u += 1;
    }
    a
}

} // verus!
