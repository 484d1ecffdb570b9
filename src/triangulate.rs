//! Splitting the grid's cells into triangles.

use crate::grid::{fits_index_range, index_count, vertex_count, vertex_index, MAX_VERTICES};
use vstd::arithmetic::div_mod::lemma_fundamental_div_mod_converse;
use vstd::prelude::*;

verus! {

/// Corner `corner` (0 to 5) of the two triangles that cover cell
/// `(row, column)`: first `(r, c), (r+1, c), (r+1, c+1)`, then
/// `(r, c), (r+1, c+1), (r, c+1)`.
pub open spec fn cell_corner(width: int, row: int, column: int, corner: int) -> int {
    if corner == 0 || corner == 3 {
        vertex_index(width, row, column)
    } else if corner == 1 {
        vertex_index(width, row + 1, column)
    } else if corner == 2 || corner == 4 {
        vertex_index(width, row + 1, column + 1)
    } else {
        vertex_index(width, row, column + 1)
    }
}

/// Entry `k` of the index buffer of a grid `width` cells wide: cells are
/// taken row by row, six entries each.
pub open spec fn triangle_index_at(width: int, k: int) -> int {
    let cell = k / 6;
    cell_corner(width, cell / width, cell % width, k % 6)
}

/// The whole index buffer of a grid of `width` by `depth` cells.
pub open spec fn triangle_indices(width: nat, depth: nat) -> Seq<int> {
    Seq::new(index_count(width, depth), |k: int| triangle_index_at(width as int, k))
}

proof fn lemma_cell_entry(width: int, row: int, column: int, j: int)
    requires
        0 <= row,
        0 <= column < width,
        0 <= j < 6,
    ensures
        triangle_index_at(width, 6 * (row * width + column) + j) == cell_corner(
            width,
            row,
            column,
            j,
        ),
{
    let cell = row * width + column;
    lemma_fundamental_div_mod_converse(6 * cell + j, 6, cell, j);
    lemma_fundamental_div_mod_converse(cell, width, row, column);
}

/// Every entry of the index buffer names a vertex of the grid.
pub proof fn lemma_index_in_range(width: nat, depth: nat, k: int)
    requires
        0 <= k < index_count(width, depth),
    ensures
        0 <= triangle_index_at(width as int, k) < vertex_count(width, depth),
{
    let w = width as int;
    let d = depth as int;
    let cell = k / 6;
    assert(0 <= cell < w * d) by {
        vstd::arithmetic::div_mod::lemma_div_pos_is_pos(k, 6);
        vstd::arithmetic::mul::lemma_mul_is_associative(w, d, 6);
    }
    assert(w > 0) by (nonlinear_arith)
        requires
            0 <= cell < w * d,
            d >= 0,
    ;
    let row = cell / w;
    let column = cell % w;
    vstd::arithmetic::div_mod::lemma_div_pos_is_pos(cell, w);
    vstd::arithmetic::div_mod::lemma_mod_pos_bound(cell, w);
    vstd::arithmetic::div_mod::lemma_fundamental_div_mod(cell, w);
    assert(row < d) by (nonlinear_arith)
        requires
            cell == w * row + column,
            0 <= column,
            cell < w * d,
            w > 0,
    ;
    vstd::arithmetic::div_mod::lemma_mod_pos_bound(k, 6);
    let n = (w + 1) * (d + 1);
    assert(0 <= vertex_index(w, row, column) < n && 0 <= vertex_index(w, row + 1, column) < n && 0
        <= vertex_index(w, row, column + 1) < n && 0 <= vertex_index(w, row + 1, column + 1) < n)
        by (nonlinear_arith)
        requires
            0 <= row < d,
            0 <= column < w,
            n == (w + 1) * (d + 1),
    ;
}

/// The index buffer of a grid of `width` by `depth` cells, in cell order,
/// two triangles per cell.
pub fn triangulate(width: u32, depth: u32) -> (r: Vec<u32>)
    requires
        fits_index_range(width as nat, depth as nat),
    ensures
        r@.map_values(|i: u32| i as int) == triangle_indices(width as nat, depth as nat),
        forall|k: int| 0 <= k < r.len() ==> r[k] < vertex_count(width as nat, depth as nat),
{
    let w = width as u64;
    let d = depth as u64;
    let mut r: Vec<u32> = Vec::new();
    let mut row: u64 = 0;
    while row < d
        invariant
            w == width,
            d == depth,
            fits_index_range(width as nat, depth as nat),
            row <= d,
            r.len() == 6 * (row * w),
            forall|k: int| 0 <= k < r.len() ==> r[k] as int == triangle_index_at(w as int, k),
        decreases d - row,
    {
        let mut column: u64 = 0;
        while column < w
            invariant
                w == width,
                d == depth,
                fits_index_range(width as nat, depth as nat),
                row < d,
                column <= w,
                r.len() == 6 * (row * w + column),
                forall|k: int| 0 <= k < r.len() ==> r[k] as int == triangle_index_at(w as int, k),
            decreases w - column,
        {
            proof {
                assert((row + 1) * (w + 1) + column + 1 < (d + 1) * (w + 1)) by (nonlinear_arith)
                    requires
                        row < d,
                        column < w,
                ;
                assert(6 * (row * w + column) + 6 <= 6 * (w * d)) by (nonlinear_arith)
                    requires
                        row < d,
                        column < w,
                ;
                assert((row + 1) * (w + 1) == row * (w + 1) + w + 1) by (nonlinear_arith);
                assert((w + 1) * (d + 1) == (d + 1) * (w + 1)) by (nonlinear_arith);
                assert(MAX_VERTICES == 0x1_0000_0000);
            }
            let here = row * (w + 1) + column;
            let below = (row + 1) * (w + 1) + column;
            let corners: [u32; 6] = [
                here as u32,
                below as u32,
                (below + 1) as u32,
                here as u32,
                (below + 1) as u32,
                (here + 1) as u32,
            ];
            let ghost start = r.len() as int;
            let mut j: usize = 0;
            while j < 6
                invariant
                    0 <= row < d,
                    0 <= column < w,
                    j <= 6,
                    start == 6 * (row * w + column),
                    r.len() == start + j,
                    corners@ == seq![
                        vertex_index(w as int, row as int, column as int) as u32,
                        vertex_index(w as int, row + 1, column as int) as u32,
                        vertex_index(w as int, row + 1, column + 1) as u32,
                        vertex_index(w as int, row as int, column as int) as u32,
                        vertex_index(w as int, row + 1, column + 1) as u32,
                        vertex_index(w as int, row as int, column + 1) as u32,
                    ],
                    vertex_index(w as int, row + 1, column + 1) < 0x1_0000_0000,
                    (row + 1) * (w + 1) == row * (w + 1) + w + 1,
                    forall|k: int| 0 <= k < r.len() ==> r[k] as int == triangle_index_at(w as int, k),
                decreases 6 - j,
            {
                proof {
                    lemma_cell_entry(w as int, row as int, column as int, j as int);
                }
                r.push(corners[j]);
                j = j + 1;
            }
            column = column + 1;
        }
        proof {
            assert(6 * (row * w + w) == 6 * ((row + 1) * w)) by (nonlinear_arith);
        }
        row = row + 1;
    }
    proof {
        assert(r.len() == index_count(width as nat, depth as nat)) by (nonlinear_arith)
            requires
                r.len() == 6 * (d * w),
                w == width,
                d == depth,
        ;
        assert forall|k: int| 0 <= k < r.len() implies r[k] < vertex_count(width as nat, depth as nat) by {
            lemma_index_in_range(width as nat, depth as nat, k);
        }
    }
    assert(r@.map_values(|i: u32| i as int) =~= triangle_indices(width as nat, depth as nat));
    r
}

} // verus!
