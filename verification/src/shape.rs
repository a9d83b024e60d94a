//! Flat row-major matrix layout and its transposition.
//!
//! Every table of the engine is stored as one flat vector in row-major
//! order: entry `(i, j)` of an `n`-by-`n` matrix sits at flat index
//! `i * n + j`. This module proves the two facts the rest of the crate
//! leans on — that a flat index splits uniquely into a row and a column,
//! and that transposing twice gives the original matrix back — and
//! provides the verified transposition, broadcast and column-extraction
//! helpers that the engines' precomputation and the separable
//! two-dimensional passes use.

use vstd::prelude::*;

verus! {

/// The transpose of the flat row-major `n`-by-`n` matrix `m`: entry
/// `(i, j)` of the result is entry `(j, i)` of `m`.
pub open spec fn flat_transposed<T>(m: Seq<T>, n: int) -> Seq<T> {
    Seq::new((n * n) as nat, |k: int| m[(k % n) * n + k / n])
}

/// A flat index below `n * n` splits uniquely into the row `k / n` and
/// the column `k % n`, which recombine to `k`.
pub proof fn lemma_flat_split(n: int, k: int)
    requires
        0 < n,
        0 <= k < n * n,
    ensures
        0 <= k / n < n,
        0 <= k % n < n,
        (k / n) * n + (k % n) == k,
{
    vstd::arithmetic::div_mod::lemma_fundamental_div_mod(k, n);
    vstd::arithmetic::div_mod::lemma_mod_division_less_than_divisor(k, n);
    vstd::arithmetic::div_mod::lemma_div_pos_is_pos(k, n);
    vstd::arithmetic::div_mod::lemma_multiply_divide_lt(k, n, n);
    assert(n * (k / n) == (k / n) * n) by (nonlinear_arith);
}

/// Row `i` and column `j` name the flat index `i * n + j`, which lies
/// below `n * n` and splits back into `i` and `j`.
pub proof fn lemma_flat_index(n: int, i: int, j: int)
    requires
        0 < n,
        0 <= i < n,
        0 <= j < n,
    ensures
        0 <= i * n + j < n * n,
        (i * n + j) / n == i,
        (i * n + j) % n == j,
{
    assert(0 <= i * n + j < n * n) by (nonlinear_arith)
        requires
            0 < n,
            0 <= i < n,
            0 <= j < n,
    ;
    vstd::arithmetic::div_mod::lemma_fundamental_div_mod_converse(i * n + j, n, i, j);
}

/// Transposing a flat row-major square matrix twice gives the matrix
/// back.
pub proof fn lemma_transpose_involution<T>(m: Seq<T>, n: int)
    requires
        0 < n,
        m.len() == n * n,
    ensures
        flat_transposed(flat_transposed(m, n), n) == m,
{
    let t = flat_transposed(m, n);
    let b = flat_transposed(t, n);
    assert forall|k: int| 0 <= k < n * n implies b[k] == m[k] by {
        lemma_flat_split(n, k);
        let i = k % n;
        let j = k / n;
        lemma_flat_index(n, i, j);
        assert(b[k] == t[i * n + j]);
        assert(t[i * n + j] == m[j * n + i]);
    }
    assert(b =~= m);
}

/// Transposes a flat row-major `n`-by-`n` matrix.
pub fn transpose_flat<T: Copy>(m: &Vec<T>, n: usize) -> (r: Vec<T>)
    requires
        n <= 0xFFFF,
        m@.len() == n * n,
    ensures
        r@ == flat_transposed(m@, n as int),
{
    let mut r: Vec<T> = Vec::new();
    let mut a: usize = 0;
    while a < n
        invariant
            a <= n,
            n <= 0xFFFF,
            m@.len() == n * n,
            r@.len() == a * n,
            forall|k: int| 0 <= k < a * n ==> r@[k] == m@[(k % (n as int)) * n + k / (n as int)],
        decreases n - a,
    {
        let mut b: usize = 0;
        while b < n
            invariant
                a < n,
                b <= n,
                n <= 0xFFFF,
                m@.len() == n * n,
                r@.len() == a * n + b,
                forall|k: int| 0 <= k < a * n + b ==> r@[k] == m@[
                    (k % (n as int)) * n + k / (n as int)
                ],
            decreases n - b,
        {
            proof {
                lemma_flat_index(n as int, b as int, a as int);
                lemma_flat_index(n as int, a as int, b as int);
                assert((n as int) * (n as int) < 0xFFFF_FFFF) by (nonlinear_arith)
                    requires
                        0 < n <= 0xFFFF,
                ;
            }
            let v: T = m[b * n + a];
            r.push(v);
            b += 1;
        }
        proof {
            assert((a as int + 1) * (n as int) == (a as int) * (n as int) + n) by (nonlinear_arith);
        }
        a += 1;
    }
    proof {
        assert((a as int) * (n as int) == (n as int) * (n as int)) by (nonlinear_arith)
            requires
                a == n,
        ;
        assert(r@ =~= flat_transposed(m@, n as int));
    }
    r
}

/// Builds the flat `copies`-by-`v.len()` matrix whose every row is `v`:
/// the broadcast of a coefficient row over a whole block. Entry `k` (row
/// `k / v.len()`, column `k % v.len()`) is `v[k % v.len()]`.
pub fn broadcast_rows(v: &Vec<u64>, copies: usize) -> (r: Vec<u64>)
    requires
        1 <= v@.len() <= 0xFFFF,
        copies <= 0xFFFF,
    ensures
        r@.len() == copies * v@.len(),
        forall|k: int| 0 <= k < copies * v@.len() ==> #[trigger] r@[k] == v@[
            k % (v@.len() as int)
        ],
{
    let len: usize = v.len();
    let mut r: Vec<u64> = Vec::new();
    let mut i: usize = 0;
    while i < copies
        invariant
            i <= copies,
            copies <= 0xFFFF,
            1 <= len <= 0xFFFF,
            len == v@.len(),
            r@.len() == i * len,
            forall|k: int| 0 <= k < i * len ==> #[trigger] r@[k] == v@[k % (len as int)],
        decreases copies - i,
    {
        let mut j: usize = 0;
        while j < len
            invariant
                i < copies,
                j <= len,
                copies <= 0xFFFF,
                1 <= len <= 0xFFFF,
                len == v@.len(),
                r@.len() == i * len + j,
                forall|k: int| 0 <= k < i * len + j ==> #[trigger] r@[k] == v@[k % (len as int)],
            decreases len - j,
        {
            proof {
                vstd::arithmetic::div_mod::lemma_fundamental_div_mod_converse(
                    (i as int) * (len as int) + (j as int),
                    len as int,
                    i as int,
                    j as int,
                );
            }
            let value: u64 = v[j];
            r.push(value);
            j += 1;
        }
        proof {
            assert((i as int + 1) * (len as int) == (i as int) * (len as int) + len)
                by (nonlinear_arith);
        }
        i += 1;
    }
    r
}

/// Builds the flat `v.len()`-by-`width` matrix whose every column is `v`:
/// the broadcast of a coefficient column over a whole block. Entry `k`
/// (row `k / width`, column `k % width`) is `v[k / width]`.
pub fn broadcast_cols(v: &Vec<u64>, width: usize) -> (r: Vec<u64>)
    requires
        v@.len() <= 0xFFFF,
        1 <= width <= 0xFFFF,
    ensures
        r@.len() == v@.len() * width,
        forall|k: int| 0 <= k < v@.len() * width ==> #[trigger] r@[k] == v@[k / (width as int)],
{
    let len: usize = v.len();
    let mut r: Vec<u64> = Vec::new();
    let mut i: usize = 0;
    while i < len
        invariant
            i <= len,
            len <= 0xFFFF,
            1 <= width <= 0xFFFF,
            len == v@.len(),
            r@.len() == i * width,
            forall|k: int| 0 <= k < i * width ==> #[trigger] r@[k] == v@[k / (width as int)],
        decreases len - i,
    {
        let mut j: usize = 0;
        while j < width
            invariant
                i < len,
                j <= width,
                len <= 0xFFFF,
                1 <= width <= 0xFFFF,
                len == v@.len(),
                r@.len() == i * width + j,
                forall|k: int| 0 <= k < i * width + j ==> #[trigger] r@[k] == v@[
                    k / (width as int)
                ],
            decreases width - j,
        {
            proof {
                vstd::arithmetic::div_mod::lemma_fundamental_div_mod_converse(
                    (i as int) * (width as int) + (j as int),
                    width as int,
                    i as int,
                    j as int,
                );
            }
            let value: u64 = v[i];
            r.push(value);
            j += 1;
        }
        proof {
            assert((i as int + 1) * (width as int) == (i as int) * (width as int) + width)
                by (nonlinear_arith);
        }
        i += 1;
    }
    proof {
        assert((i as int) * (width as int) == (len as int) * (width as int)) by (nonlinear_arith)
            requires
                i == len,
        ;
    }
    r
}

/// Extracts column `j` of a matrix held as a vector of rows.
pub fn extract_column<T: Copy>(m: &Vec<Vec<T>>, j: usize) -> (c: Vec<T>)
    requires
        forall|i: int| 0 <= i < m@.len() ==> j < m@[i]@.len(),
    ensures
        c@.len() == m@.len(),
        forall|i: int| 0 <= i < m@.len() ==> c@[i] == m@[i]@[j as int],
{
    let mut c: Vec<T> = Vec::new();
    let mut i: usize = 0;
    while i < m.len()
        invariant
            i <= m@.len(),
            forall|t: int| 0 <= t < m@.len() ==> j < m@[t]@.len(),
            c@.len() == i,
            forall|t: int| 0 <= t < i ==> c@[t] == m@[t]@[j as int],
        decreases m@.len() - i,
    {
        let v: T = m[i][j];
        c.push(v);
        i += 1;
    }
    c
}

} // verus!
