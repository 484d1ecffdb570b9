//! The assembled mesh: vertex attributes and a triangle index buffer, checked
//! against each other once.

use crate::grid::TerrainError;
use vstd::prelude::*;

verus! {

/// How consecutive indices form primitives.
#[derive(Debug, Clone, Copy, PartialEq, Eq)]
pub enum Topology {
    /// Every three consecutive indices form one triangle.
    TriangleList,
}

/// A triangle-list mesh with positions of type `P`, normals of type `N` and
/// texture coordinates of type `U`.
///
/// Once built it is never changed: the attribute arrays have one entry per
/// vertex and every index names a vertex.
pub struct Mesh<P, N, U> {
    positions: Vec<P>,
    normals: Vec<N>,
    uvs: Vec<U>,
    indices: Vec<u32>,
}

/// The arrays can form a mesh: one entry per vertex in each attribute
/// array, and every index names a vertex.
pub open spec fn is_consistent<P, N, U>(
    positions: Seq<P>,
    normals: Seq<N>,
    uvs: Seq<U>,
    indices: Seq<u32>,
) -> bool {
    &&& positions.len() == normals.len()
    &&& positions.len() == uvs.len()
    &&& forall|k: int| 0 <= k < indices.len() ==> indices[k] < positions.len()
}

impl<P, N, U> Mesh<P, N, U> {
    pub closed spec fn positions_view(&self) -> Seq<P> {
        self.positions@
    }

    pub closed spec fn normals_view(&self) -> Seq<N> {
        self.normals@
    }

    pub closed spec fn uvs_view(&self) -> Seq<U> {
        self.uvs@
    }

    pub closed spec fn indices_view(&self) -> Seq<u32> {
        self.indices@
    }

    pub closed spec fn wf(&self) -> bool {
        is_consistent(self.positions@, self.normals@, self.uvs@, self.indices@)
    }

    /// Every mesh that exists is consistent.
    pub proof fn lemma_wf(&self)
        requires
            self.wf(),
        ensures
            is_consistent(
                self.positions_view(),
                self.normals_view(),
                self.uvs_view(),
                self.indices_view(),
            ),
    {
    }

    pub fn positions(&self) -> (r: &[P])
        ensures
            r@ == self.positions_view(),
    {
        self.positions.as_slice()
    }

    pub fn normals(&self) -> (r: &[N])
        ensures
            r@ == self.normals_view(),
    {
        self.normals.as_slice()
    }

    pub fn uvs(&self) -> (r: &[U])
        ensures
            r@ == self.uvs_view(),
    {
        self.uvs.as_slice()
    }

    pub fn indices(&self) -> (r: &[u32])
        ensures
            r@ == self.indices_view(),
    {
        self.indices.as_slice()
    }

    pub fn topology(&self) -> (r: Topology)
        ensures
            r == Topology::TriangleList,
    {
        Topology::TriangleList
    }

    pub fn vertex_count(&self) -> (r: usize)
        ensures
            r == self.positions_view().len(),
    {
        self.positions.len()
    }
}

/// Packages the arrays into a mesh, or fails with `MeshAssemblyMismatch`
/// when the attribute arrays differ in length or an index names no vertex.
pub fn assemble<P, N, U>(positions: Vec<P>, normals: Vec<N>, uvs: Vec<U>, indices: Vec<u32>) -> (r:
    Result<Mesh<P, N, U>, TerrainError>)
    ensures
        r is Ok <==> is_consistent(positions@, normals@, uvs@, indices@),
        r matches Err(e) ==> e == TerrainError::MeshAssemblyMismatch,
        r matches Ok(m) ==> {
            &&& m.wf()
            &&& m.positions_view() == positions@
            &&& m.normals_view() == normals@
            &&& m.uvs_view() == uvs@
            &&& m.indices_view() == indices@
        },
{
    let n = positions.len();
    if normals.len() != n || uvs.len() != n {
        return Err(TerrainError::MeshAssemblyMismatch);
    }
    let mut k: usize = 0;
    while k < indices.len()
        invariant
            n == positions@.len(),
            k <= indices.len(),
            forall|i: int| 0 <= i < k ==> indices[i] < n,
        decreases indices.len() - k,
    {
        if indices[k] as usize >= n {
            return Err(TerrainError::MeshAssemblyMismatch);
        }
        k = k + 1;
    }
    Ok(Mesh { positions, normals, uvs, indices })
}

} // verus!
