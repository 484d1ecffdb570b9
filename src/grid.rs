//! Grid dimensions, their validation, and the row-major enumeration of the
//! grid's vertices.

use vstd::arithmetic::div_mod::lemma_fundamental_div_mod_converse;
use vstd::prelude::*;

verus! {

/// What can go wrong while building a terrain mesh.
#[derive(Debug, Clone, Copy, PartialEq, Eq)]
pub enum TerrainError {
    /// A grid side is zero, or the resolution is zero.
    InvalidGridDimensions,
    /// Attribute arrays disagree in length, or an index names no vertex.
    MeshAssemblyMismatch,
    /// A configured seed cannot initialise a noise source.
    NoiseSourceUnavailable,
}

/// Bit pattern of an IEEE-754 single with every bit but the sign cleared.
pub const MAGNITUDE_MASK: u32 = 0x7fff_ffff;

/// The largest number of vertices that `u32` indices can address.
pub const MAX_VERTICES: u64 = 0x1_0000_0000;

/// Number of cells along each axis, and the world-space scale divisor.
///
/// The resolution is kept as the bit pattern of the `f32` it stands for:
/// the library only asks whether it is zero, and the caller divides by it.
#[derive(Debug, Clone, Copy, PartialEq, Eq)]
pub struct GridDimensions {
    pub width: u32,
    pub depth: u32,
    pub resolution_bits: u32,
}

/// A fraction `num / den`; the grid's texture coordinates are of this form.
#[derive(Debug, Clone, Copy, PartialEq, Eq)]
pub struct UnitFraction {
    pub num: u32,
    pub den: u32,
}

impl UnitFraction {
    /// The fraction is defined and lies in `[0, 1]`.
    pub open spec fn in_unit_interval(self) -> bool {
        self.den > 0 && self.num <= self.den
    }

    pub open spec fn is_zero(self) -> bool {
        self.num == 0
    }

    pub open spec fn is_one(self) -> bool {
        self.num == self.den
    }
}

/// One grid vertex: where it stands in the grid, its offset from the grid's
/// centre in half grid steps, and its texture coordinates.
///
/// The world-space position is `(x_half_steps / 2 / resolution, height,
/// z_half_steps / 2 / resolution)`; the texture coordinates are `(u, v)`.
#[derive(Debug, Clone, Copy, PartialEq, Eq)]
pub struct GridSample {
    pub column: u32,
    pub row: u32,
    pub x_half_steps: i64,
    pub z_half_steps: i64,
    pub u: UnitFraction,
    pub v: UnitFraction,
}

/// Flattened position of grid vertex `(row, column)` in a grid `width` cells wide.
pub open spec fn vertex_index(width: int, row: int, column: int) -> int {
    row * (width + 1) + column
}

/// Is `bits` the pattern of a zero `f32` (either sign)?
pub open spec fn is_zero_bits(bits: u32) -> bool {
    bits == 0 || bits == 0x8000_0000
}

/// Number of vertices of a grid of `width` by `depth` cells.
pub open spec fn vertex_count(width: nat, depth: nat) -> nat {
    (width + 1) * (depth + 1)
}

/// Number of triangle indices of a grid of `width` by `depth` cells.
pub open spec fn index_count(width: nat, depth: nat) -> nat {
    width * depth * 6
}

/// Every vertex of the grid can be named by a `u32`, and both buffers fit
/// in memory.
pub open spec fn fits_index_range(width: nat, depth: nat) -> bool {
    &&& vertex_count(width, depth) <= MAX_VERTICES
    &&& vertex_count(width, depth) <= usize::MAX
    &&& index_count(width, depth) <= usize::MAX
}

impl GridDimensions {
    pub open spec fn is_valid(self) -> bool {
        self.width > 0 && self.depth > 0 && !is_zero_bits(self.resolution_bits)
    }

    pub open spec fn vertex_count(self) -> nat {
        vertex_count(self.width as nat, self.depth as nat)
    }

    pub open spec fn index_count(self) -> nat {
        index_count(self.width as nat, self.depth as nat)
    }

    pub open spec fn fits_index_range(self) -> bool {
        fits_index_range(self.width as nat, self.depth as nat)
    }

    /// The sample of grid vertex `(row, column)`.
    pub open spec fn sample_for(self, row: int, column: int) -> GridSample {
        GridSample {
            column: column as u32,
            row: row as u32,
            x_half_steps: (2 * column - self.width) as i64,
            z_half_steps: (2 * row - self.depth) as i64,
            u: UnitFraction { num: column as u32, den: self.width },
            v: UnitFraction { num: row as u32, den: self.depth },
        }
    }

    /// The sample at position `k` of the row-major enumeration.
    pub open spec fn sample_at(self, k: int) -> GridSample {
        self.sample_for(k / (self.width + 1), k % (self.width + 1))
    }

    /// All samples, in row-major order.
    pub open spec fn samples(self) -> Seq<GridSample> {
        Seq::new(self.vertex_count(), |k: int| self.sample_at(k))
    }

    pub fn new(width: u32, depth: u32, resolution_bits: u32) -> (r: Self)
        ensures
            r.width == width,
            r.depth == depth,
            r.resolution_bits == resolution_bits,
    {
        GridDimensions { width, depth, resolution_bits }
    }

    /// Fails with `InvalidGridDimensions` exactly when a side or the
    /// resolution is zero.
    pub fn validate(&self) -> (r: Result<(), TerrainError>)
        ensures
            r is Ok <==> self.is_valid(),
            r is Err ==> r == Err::<(), TerrainError>(TerrainError::InvalidGridDimensions),
    {
        let bits = self.resolution_bits;
        let zero_resolution = bits & MAGNITUDE_MASK == 0;
        assert(zero_resolution <==> (bits == 0 || bits == 0x8000_0000)) by (bit_vector)
            requires
                zero_resolution == (bits & 0x7fff_ffff == 0),
        ;
        if self.width == 0 || self.depth == 0 || zero_resolution {
            Err(TerrainError::InvalidGridDimensions)
        } else {
            Ok(())
        }
    }

    /// Decides `fits_index_range`.
    pub fn is_within_index_range(&self) -> (r: bool)
        ensures
            r == self.fits_index_range(),
    {
        let w = self.width as u128;
        let d = self.depth as u128;
        assert((w + 1) * (d + 1) <= 0x1_0000_0000u128 * 0x1_0000_0000u128) by (nonlinear_arith)
            requires
                w <= 0xffff_ffff,
                d <= 0xffff_ffff,
        ;
        assert(w * d * 6 <= 6 * 0x1_0000_0000u128 * 0x1_0000_0000u128) by (nonlinear_arith)
            requires
                w <= 0xffff_ffff,
                d <= 0xffff_ffff,
        ;
        let vertices = (w + 1) * (d + 1);
        let indices = w * d * 6;
        vertices <= MAX_VERTICES as u128 && vertices <= usize::MAX as u128 && indices
            <= usize::MAX as u128
    }
}

proof fn lemma_row_major(width: int, row: int, column: int)
    requires
        width >= 0,
        0 <= column <= width,
    ensures
        vertex_index(width, row, column) / (width + 1) == row,
        vertex_index(width, row, column) % (width + 1) == column,
{
    lemma_fundamental_div_mod_converse(vertex_index(width, row, column), width + 1, row, column);
}

/// Position `row * (width + 1) + column` of the enumeration holds grid
/// vertex `(row, column)`: the order is row-major.
pub proof fn lemma_sample_position(dims: GridDimensions, row: int, column: int)
    requires
        0 <= row <= dims.depth,
        0 <= column <= dims.width,
    ensures
        0 <= vertex_index(dims.width as int, row, column) < dims.vertex_count(),
        dims.sample_at(vertex_index(dims.width as int, row, column)) == dims.sample_for(row, column),
{
    lemma_row_major(dims.width as int, row, column);
    let w = dims.width as int;
    let d = dims.depth as int;
    assert(0 <= row * (w + 1) + column < (w + 1) * (d + 1)) by (nonlinear_arith)
        requires
            0 <= row <= d,
            0 <= column <= w,
    ;
}

/// Every texture coordinate of a valid grid lies in `[0, 1]`, and the four
/// corners of the grid get `(0, 0)`, `(1, 0)`, `(0, 1)` and `(1, 1)`.
pub proof fn lemma_uv_range(dims: GridDimensions)
    requires
        dims.is_valid(),
    ensures
        forall|k: int|
            0 <= k < dims.vertex_count() ==> {
                &&& (#[trigger] dims.sample_at(k)).u.in_unit_interval()
                &&& dims.sample_at(k).v.in_unit_interval()
            },
        dims.sample_at(0).u.is_zero() && dims.sample_at(0).v.is_zero(),
        dims.sample_at(dims.width as int).u.is_one() && dims.sample_at(dims.width as int).v.is_zero(),
        dims.sample_at(vertex_index(dims.width as int, dims.depth as int, 0)).u.is_zero()
            && dims.sample_at(vertex_index(dims.width as int, dims.depth as int, 0)).v.is_one(),
        dims.sample_at(dims.vertex_count() - 1).u.is_one() && dims.sample_at(
            dims.vertex_count() - 1,
        ).v.is_one(),
{
    let w = dims.width as int;
    let d = dims.depth as int;
    assert forall|k: int| 0 <= k < dims.vertex_count() implies {
        &&& (#[trigger] dims.sample_at(k)).u.in_unit_interval()
        &&& dims.sample_at(k).v.in_unit_interval()
    } by {
        let row = k / (w + 1);
        let column = k % (w + 1);
        vstd::arithmetic::div_mod::lemma_fundamental_div_mod(k, w + 1);
        vstd::arithmetic::div_mod::lemma_mod_pos_bound(k, w + 1);
        vstd::arithmetic::div_mod::lemma_div_pos_is_pos(k, w + 1);
        assert(row <= d) by (nonlinear_arith)
            requires
                k == (w + 1) * row + column,
                0 <= column,
                k < (w + 1) * (d + 1),
                w >= 0,
        ;
    }
    lemma_sample_position(dims, 0, 0);
    lemma_sample_position(dims, 0, w);
    lemma_sample_position(dims, d, 0);
    lemma_sample_position(dims, d, w);
    assert(vertex_index(w, d, w) == dims.vertex_count() - 1) by (nonlinear_arith)
        requires
            w == dims.width,
            d == dims.depth,
    ;
}

/// Enumerates the grid's vertices row by row, each row from column 0 to
/// `width`.
pub fn sample_grid(dims: &GridDimensions) -> (r: Vec<GridSample>)
    requires
        dims.fits_index_range(),
    ensures
        r@ == dims.samples(),
{
    let width = dims.width as u64;
    let depth = dims.depth as u64;
    let mut r: Vec<GridSample> = Vec::new();
    let mut row: u64 = 0;
    while row <= depth
        invariant
            width == dims.width,
            depth == dims.depth,
            dims.fits_index_range(),
            row <= depth + 1,
            r.len() == row * (width + 1),
            forall|k: int| 0 <= k < r.len() ==> r[k] == dims.sample_at(k),
        decreases depth + 1 - row,
    {
        let mut column: u64 = 0;
        while column <= width
            invariant
                width == dims.width,
                depth == dims.depth,
                dims.fits_index_range(),
                row <= depth,
                column <= width + 1,
                r.len() == row * (width + 1) + column,
                forall|k: int| 0 <= k < r.len() ==> r[k] == dims.sample_at(k),
            decreases width + 1 - column,
        {
            proof {
                lemma_row_major(width as int, row as int, column as int);
                assert(row * (width + 1) + column < (depth + 1) * (width + 1)) by (nonlinear_arith)
                    requires
                        row <= depth,
                        column <= width,
                ;
            }
            let sample = GridSample {
                column: column as u32,
                row: row as u32,
                x_half_steps: 2 * (column as i64) - width as i64,
                z_half_steps: 2 * (row as i64) - depth as i64,
                u: UnitFraction { num: column as u32, den: dims.width },
                v: UnitFraction { num: row as u32, den: dims.depth },
            };
            r.push(sample);
            column = column + 1;
        }
        proof {
            assert(r.len() == (row + 1) * (width + 1)) by (nonlinear_arith)
                requires
                    r.len() == row * (width + 1) + width + 1,
            ;
        }
        row = row + 1;
    }
    proof {
        assert(r.len() == dims.vertex_count()) by (nonlinear_arith)
            requires
                r.len() == (depth + 1) * (width + 1),
                width == dims.width,
                depth == dims.depth,
        ;
    }
    assert(r@ =~= dims.samples());
    r
}

} // verus!
