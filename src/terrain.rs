//! The generation pipeline: validate the grid, enumerate its vertices,
//! triangulate it, and assemble the mesh.

use crate::grid::{sample_grid, GridDimensions, GridSample, TerrainError};
use crate::mesh::{assemble, Mesh};
use crate::triangulate::{lemma_index_in_range, triangle_index_at, triangle_indices, triangulate};
use vstd::prelude::*;

verus! {

/// The grid's vertices and its index buffer, before any attribute is
/// computed.
pub struct TerrainLayout {
    pub samples: Vec<GridSample>,
    pub indices: Vec<u32>,
}

/// Every entry of a grid's index buffer names one of its vertices.
pub proof fn lemma_indices_name_vertices(dims: GridDimensions, indices: Seq<u32>)
    requires
        indices.map_values(|i: u32| i as int) == triangle_indices(
            dims.width as nat,
            dims.depth as nat,
        ),
    ensures
        indices.len() == dims.index_count(),
        forall|k: int| 0 <= k < indices.len() ==> indices[k] < dims.vertex_count(),
{
    let ints = indices.map_values(|i: u32| i as int);
    assert(ints.len() == indices.len());
    assert forall|k: int| 0 <= k < indices.len() implies indices[k] < dims.vertex_count() by {
        assert(ints[k] == indices[k] as int);
        assert(ints[k] == triangle_index_at(dims.width as int, k));
        lemma_index_in_range(dims.width as nat, dims.depth as nat, k);
    }
}

impl TerrainLayout {
    /// The layout is the one of the grid `dims`.
    pub open spec fn describes(&self, dims: GridDimensions) -> bool {
        &&& self.samples@ == dims.samples()
        &&& self.indices@.map_values(|i: u32| i as int) == triangle_indices(
            dims.width as nat,
            dims.depth as nat,
        )
    }
}

/// A layout has one sample per grid vertex and six indices per cell.
pub proof fn lemma_layout_sizes(dims: GridDimensions, layout: &TerrainLayout)
    requires
        layout.describes(dims),
    ensures
        layout.samples.len() == (dims.width + 1) * (dims.depth + 1),
        layout.indices.len() == dims.width * dims.depth * 6,
{
    lemma_indices_name_vertices(dims, layout.indices@);
}

/// Two layouts of the same grid are identical: planning is deterministic.
pub proof fn lemma_layout_deterministic(dims: GridDimensions, a: &TerrainLayout, b: &TerrainLayout)
    requires
        a.describes(dims),
        b.describes(dims),
    ensures
        a.samples@ == b.samples@,
        a.indices@ == b.indices@,
{
    lemma_indices_name_vertices(dims, a.indices@);
    lemma_indices_name_vertices(dims, b.indices@);
    let ia = a.indices@.map_values(|i: u32| i as int);
    let ib = b.indices@.map_values(|i: u32| i as int);
    assert forall|k: int| 0 <= k < a.indices.len() implies a.indices[k] == b.indices[k] by {
        assert(ia[k] == ib[k]);
    }
    assert(a.indices@ =~= b.indices@);
}

/// Validates `dims`, then enumerates and triangulates the grid.
///
/// Fails with `InvalidGridDimensions`, before any sampling, exactly when a
/// side or the resolution is zero.
pub fn plan_terrain(dims: &GridDimensions) -> (r: Result<TerrainLayout, TerrainError>)
    requires
        dims.fits_index_range(),
    ensures
        r is Ok <==> dims.is_valid(),
        r matches Err(e) ==> e == TerrainError::InvalidGridDimensions,
        r matches Ok(l) ==> l.describes(*dims),
{
    match dims.validate() {
        Err(e) => Err(e),
        Ok(()) => {
            let samples = sample_grid(dims);
            let indices = triangulate(dims.width, dims.depth);
            Ok(TerrainLayout { samples, indices })
        },
    }
}

/// Builds the terrain mesh of `dims`.
///
/// Vertex `k` of the mesh is grid sample `dims.sample_at(k)`; its position
/// is what `position_of` gives for that sample, its texture coordinates what
/// `uv_of` gives, and its normal is `normal`. Fails with
/// `InvalidGridDimensions` exactly when a side or the resolution is zero;
/// the assembled arrays always agree with each other.
pub fn build_mesh<P, N: Copy, U, FP, FU>(
    dims: &GridDimensions,
    position_of: FP,
    normal: N,
    uv_of: FU,
) -> (r: Result<Mesh<P, N, U>, TerrainError>) where FP: Fn(GridSample) -> P, FU: Fn(GridSample) -> U
    requires
        dims.fits_index_range(),
        forall|s: GridSample| position_of.requires((s,)),
        forall|s: GridSample| uv_of.requires((s,)),
    ensures
        r is Ok <==> dims.is_valid(),
        r matches Err(e) ==> e == TerrainError::InvalidGridDimensions,
        r matches Ok(m) ==> {
            &&& m.positions_view().len() == dims.vertex_count()
            &&& m.uvs_view().len() == dims.vertex_count()
            &&& m.indices_view().len() == dims.index_count()
            &&& m.normals_view() == Seq::new(dims.vertex_count(), |k: int| normal)
            &&& forall|k: int|
                0 <= k < dims.vertex_count() ==> position_of.ensures(
                    (dims.sample_at(k),),
                    #[trigger] m.positions_view()[k],
                )
            &&& forall|k: int|
                0 <= k < dims.vertex_count() ==> uv_of.ensures(
                    (dims.sample_at(k),),
                    #[trigger] m.uvs_view()[k],
                )
            &&& m.indices_view().map_values(|i: u32| i as int) == triangle_indices(
                dims.width as nat,
                dims.depth as nat,
            )
        },
{
    let layout = match plan_terrain(dims) {
        Err(e) => {
            return Err(e);
        },
        Ok(l) => l,
    };
    let TerrainLayout { samples, indices } = layout;
    let mut positions: Vec<P> = Vec::new();
    let mut normals: Vec<N> = Vec::new();
    let mut uvs: Vec<U> = Vec::new();
    let mut k: usize = 0;
    while k < samples.len()
        invariant
            samples@ == dims.samples(),
            indices@.map_values(|i: u32| i as int) == triangle_indices(
                dims.width as nat,
                dims.depth as nat,
            ),
            forall|s: GridSample| position_of.requires((s,)),
            forall|s: GridSample| uv_of.requires((s,)),
            k <= samples.len(),
            positions.len() == k,
            uvs.len() == k,
            normals@ == Seq::new(k as nat, |i: int| normal),
            forall|i: int|
                0 <= i < k ==> position_of.ensures((samples[i],), #[trigger] positions[i]),
            forall|i: int| 0 <= i < k ==> uv_of.ensures((samples[i],), #[trigger] uvs[i]),
        decreases samples.len() - k,
    {
        let s = samples[k];
        let p = position_of(s);
        let t = uv_of(s);
        positions.push(p);
        normals.push(normal);
        uvs.push(t);
        assert(normals@ =~= Seq::new((k + 1) as nat, |i: int| normal));
        k = k + 1;
    }
    proof {
        lemma_indices_name_vertices(*dims, indices@);
    }
    match assemble(positions, normals, uvs, indices) {
        Ok(m) => Ok(m),
        Err(e) => Err(e),
    }
}

/// Turns a configured seed into the seed of a noise source, which takes
/// 32 bits: a larger seed fails with `NoiseSourceUnavailable`.
pub fn noise_seed(seed: u64) -> (r: Result<u32, TerrainError>)
    ensures
        seed <= u32::MAX ==> r == Ok::<u32, TerrainError>(seed as u32),
        seed > u32::MAX ==> r == Err::<u32, TerrainError>(TerrainError::NoiseSourceUnavailable),
{
    if seed <= u32::MAX as u64 {
        Ok(seed as u32)
    } else {
        Err(TerrainError::NoiseSourceUnavailable)
    }
}

} // verus!
