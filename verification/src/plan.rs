//! Precomputed transform plans and the shape checks around them.
//!
//! A plan owns, for one configured size, the integer blueprint of every
//! table the engine needs: the angle table of the cosine basis matrix,
//! its transpose, and the normalization numerators. It is built once at
//! construction — a zero size is refused there — and is read-only
//! afterwards; the checks that reject a vector or block whose shape does
//! not match the configured size live beside it.

use vstd::prelude::*;
use crate::shape::transpose_flat;
use crate::tables::alpha_numerators;
use crate::tables::cosine_angle_table;
use crate::tables::is_alpha_table;
use crate::tables::is_angle_table;
use crate::tables::is_transposed_angle_table;
use crate::tables::lemma_transposed_angle_table;

verus! {

/// What can go wrong around a transform: a zero configured size at
/// construction, or an input whose shape does not match the configured
/// size.
#[derive(Clone, Copy, Debug, PartialEq, Eq, Structural)]
pub enum DctError {
    ZeroSize,
    DimMismatch,
}

/// The precomputed tables of a one-dimensional transform of size `n`:
/// the angle table of the `n`-by-`n` cosine basis matrix, its transpose
/// (used by the inverse pass), and the normalization numerators.
pub struct Plan1d {
    pub n: usize,
    pub angles: Vec<u64>,
    pub angles_t: Vec<u64>,
    pub alpha: Vec<u64>,
}

impl Plan1d {
    /// The tables hold exactly the blueprint of the size-`n` transform.
    pub open spec fn wf(self) -> bool {
        &&& 1 <= self.n <= 0xFFFF
        &&& is_angle_table(self.angles@, self.n as int)
        &&& is_transposed_angle_table(self.angles_t@, self.n as int)
        &&& is_alpha_table(self.alpha@, self.n as int)
    }

    /// Precomputes the tables for size `n`; a zero size is refused. The
    /// upper bound on `n` keeps the flat table index within `usize` on
    /// every machine.
    pub fn new(n: usize) -> (r: Result<Plan1d, DctError>)
        requires
            n <= 0xFFFF,
        ensures
            r is Ok <==> 1 <= n,
            r matches Ok(p) ==> p.wf() && p.n == n,
            r matches Err(e) ==> e == DctError::ZeroSize,
    {
        if n == 0 {
            return Err(DctError::ZeroSize);
        }
        let angles = cosine_angle_table(n);
        let angles_t = transpose_flat(&angles, n);
        proof {
            lemma_transposed_angle_table(angles@, n as int);
        }
        let alpha = alpha_numerators(n);
        Ok(Plan1d { n, angles, angles_t, alpha })
    }

    /// Accepts a vector exactly when its length matches the configured
    /// size; anything else is a dimension mismatch.
    pub fn check_vector(&self, len: usize) -> (r: Result<(), DctError>)
        ensures
            r is Ok <==> len == self.n,
            r matches Err(e) ==> e == DctError::DimMismatch,
    {
        if len == self.n {
            Ok(())
        } else {
            Err(DctError::DimMismatch)
        }
    }
}

/// The precomputed tables of a two-dimensional transform of a
/// `rows`-by-`cols` block. The row pass transforms each row, so its
/// tables have size `cols`; the column pass transforms each column, so
/// its tables have size `rows`. Both passes keep the angle table, its
/// transpose, and the normalization numerators.
pub struct Plan2d {
    pub rows: usize,
    pub cols: usize,
    pub row_angles: Vec<u64>,
    pub row_angles_t: Vec<u64>,
    pub row_alpha: Vec<u64>,
    pub col_angles: Vec<u64>,
    pub col_angles_t: Vec<u64>,
    pub col_alpha: Vec<u64>,
}

impl Plan2d {
    /// The tables hold exactly the blueprint of the `rows`-by-`cols`
    /// transform.
    pub open spec fn wf(self) -> bool {
        &&& 1 <= self.rows <= 0xFFFF
        &&& 1 <= self.cols <= 0xFFFF
        &&& is_angle_table(self.row_angles@, self.cols as int)
        &&& is_transposed_angle_table(self.row_angles_t@, self.cols as int)
        &&& is_alpha_table(self.row_alpha@, self.cols as int)
        &&& is_angle_table(self.col_angles@, self.rows as int)
        &&& is_transposed_angle_table(self.col_angles_t@, self.rows as int)
        &&& is_alpha_table(self.col_alpha@, self.rows as int)
    }

    /// Precomputes all tables for a `rows`-by-`cols` block; a zero row
    /// or column count is refused. The upper bounds keep the flat table
    /// indices within `usize` on every machine.
    pub fn new(rows: usize, cols: usize) -> (r: Result<Plan2d, DctError>)
        requires
            rows <= 0xFFFF,
            cols <= 0xFFFF,
        ensures
            r is Ok <==> (1 <= rows && 1 <= cols),
            r matches Ok(p) ==> p.wf() && p.rows == rows && p.cols == cols,
            r matches Err(e) ==> e == DctError::ZeroSize,
    {
        if rows == 0 || cols == 0 {
            return Err(DctError::ZeroSize);
        }
        let row_angles = cosine_angle_table(cols);
        let row_angles_t = transpose_flat(&row_angles, cols);
        let col_angles = cosine_angle_table(rows);
        let col_angles_t = transpose_flat(&col_angles, rows);
        proof {
            lemma_transposed_angle_table(row_angles@, cols as int);
            lemma_transposed_angle_table(col_angles@, rows as int);
        }
        let row_alpha = alpha_numerators(cols);
        let col_alpha = alpha_numerators(rows);
        Ok(
            Plan2d {
                rows,
                cols,
                row_angles,
                row_angles_t,
                row_alpha,
                col_angles,
                col_angles_t,
                col_alpha,
            },
        )
    }

    /// Accepts a block exactly when its shape matches the configured
    /// size; anything else is a dimension mismatch.
    pub fn check_block(&self, rows: usize, cols: usize) -> (r: Result<(), DctError>)
        ensures
            r is Ok <==> (rows == self.rows && cols == self.cols),
            r matches Err(e) ==> e == DctError::DimMismatch,
    {
        if rows == self.rows && cols == self.cols {
            Ok(())
        } else {
            Err(DctError::DimMismatch)
        }
    }
}

} // verus!
