use terrain_mesh::{
    assemble, build_mesh, noise_seed, plan_terrain, sample_grid, triangulate, GridDimensions,
    GridSample, TerrainError, Topology, UnitFraction,
};

fn dims(width: u32, depth: u32, resolution: f32) -> GridDimensions {
    GridDimensions::new(width, depth, resolution.to_bits())
}

fn position(s: GridSample) -> (i64, i64) {
    (s.x_half_steps, s.z_half_steps)
}

fn uv(s: GridSample) -> (UnitFraction, UnitFraction) {
    (s.u, s.v)
}

#[test]
fn counts_match_grid_size() {
    for &(w, d) in &[(1u32, 1u32), (2, 3), (5, 1), (7, 4)] {
        let layout = plan_terrain(&dims(w, d, 5.0)).unwrap();
        assert_eq!(layout.samples.len(), ((w + 1) * (d + 1)) as usize);
        assert_eq!(layout.indices.len(), (w * d * 6) as usize);
    }
}

#[test]
fn every_index_names_a_vertex() {
    let layout = plan_terrain(&dims(4, 3, 2.0)).unwrap();
    let n = layout.samples.len() as u32;
    assert!(layout.indices.iter().all(|&i| i < n));
}

#[test]
fn planning_twice_gives_identical_layouts() {
    let a = plan_terrain(&dims(6, 5, 5.0)).unwrap();
    let b = plan_terrain(&dims(6, 5, 5.0)).unwrap();
    assert_eq!(a.samples, b.samples);
    assert_eq!(a.indices, b.indices);
}

#[test]
fn single_cell_is_one_quad() {
    let layout = plan_terrain(&dims(1, 1, 1.0)).unwrap();
    assert_eq!(layout.samples.len(), 4);
    assert_eq!(layout.indices, vec![0, 2, 3, 0, 3, 1]);
    let mesh = build_mesh(&dims(1, 1, 1.0), position, [0u8, 1, 0], uv).unwrap();
    assert_eq!(mesh.vertex_count(), 4);
    assert_eq!(mesh.indices().len() / 3, 2);
    assert_eq!(mesh.topology(), Topology::TriangleList);
}

#[test]
fn zero_width_is_rejected() {
    assert_eq!(
        plan_terrain(&dims(0, 4, 5.0)).err(),
        Some(TerrainError::InvalidGridDimensions)
    );
    assert!(build_mesh(&dims(0, 4, 5.0), position, 0u8, uv).is_err());
}

#[test]
fn zero_depth_is_rejected() {
    assert_eq!(
        plan_terrain(&dims(4, 0, 5.0)).err(),
        Some(TerrainError::InvalidGridDimensions)
    );
}

#[test]
fn zero_resolution_is_rejected() {
    assert_eq!(
        plan_terrain(&dims(4, 4, 0.0)).err(),
        Some(TerrainError::InvalidGridDimensions)
    );
    assert_eq!(
        plan_terrain(&dims(4, 4, -0.0)).err(),
        Some(TerrainError::InvalidGridDimensions)
    );
    assert!(dims(4, 4, 0.25).validate().is_ok());
}

#[test]
fn uvs_lie_in_unit_square_with_corners() {
    let d = dims(3, 2, 5.0);
    let samples = sample_grid(&d);
    for s in &samples {
        assert!(s.u.den > 0 && s.u.num <= s.u.den);
        assert!(s.v.den > 0 && s.v.num <= s.v.den);
        let (u, v) = (s.u.num as f32 / s.u.den as f32, s.v.num as f32 / s.v.den as f32);
        assert!((0.0..=1.0).contains(&u) && (0.0..=1.0).contains(&v));
    }
    let corner = |k: usize| {
        let s = samples[k];
        (s.u.num as f32 / s.u.den as f32, s.v.num as f32 / s.v.den as f32)
    };
    assert_eq!(corner(0), (0.0, 0.0));
    assert_eq!(corner(3), (1.0, 0.0));
    assert_eq!(corner(8), (0.0, 1.0));
    assert_eq!(corner(11), (1.0, 1.0));
}

#[test]
fn samples_are_row_major_and_centred() {
    let samples = sample_grid(&dims(4, 2, 1.0));
    assert_eq!(samples.len(), 15);
    let s = samples[7];
    assert_eq!((s.row, s.column), (1, 2));
    assert_eq!((s.x_half_steps, s.z_half_steps), (0, 0));
    assert_eq!((samples[0].x_half_steps, samples[0].z_half_steps), (-4, -2));
    assert_eq!((samples[14].x_half_steps, samples[14].z_half_steps), (4, 2));
    assert_eq!(samples[5].u, UnitFraction { num: 0, den: 4 });
    assert_eq!(samples[5].v, UnitFraction { num: 1, den: 2 });
}

#[test]
fn triangulation_winding_of_two_by_two() {
    assert_eq!(
        triangulate(2, 2),
        vec![
            0, 3, 4, 0, 4, 1, //
            1, 4, 5, 1, 5, 2, //
            3, 6, 7, 3, 7, 4, //
            4, 7, 8, 4, 8, 5,
        ]
    );
}

#[test]
fn wide_grid_triangulation_uses_width_stride() {
    let idx = triangulate(3, 1);
    assert_eq!(idx.len(), 18);
    assert_eq!(&idx[12..18], &[2, 6, 7, 2, 7, 3]);
}

#[test]
fn assemble_rejects_length_mismatch() {
    let r = assemble(vec![1u8, 2, 3], vec![0u8, 0], vec![0u8, 0, 0], vec![0, 1, 2]);
    assert_eq!(r.err(), Some(TerrainError::MeshAssemblyMismatch));
}

#[test]
fn assemble_rejects_out_of_range_index() {
    let r = assemble(vec![1u8, 2, 3], vec![0u8; 3], vec![0u8; 3], vec![0, 1, 3]);
    assert_eq!(r.err(), Some(TerrainError::MeshAssemblyMismatch));
}

#[test]
fn assemble_keeps_arrays() {
    let m = assemble(vec![1u8, 2, 3], vec![4u8; 3], vec![5u8; 3], vec![2, 1, 0]).unwrap();
    assert_eq!(m.positions(), &[1, 2, 3]);
    assert_eq!(m.normals(), &[4, 4, 4]);
    assert_eq!(m.uvs(), &[5, 5, 5]);
    assert_eq!(m.indices(), &[2, 1, 0]);
}

#[test]
fn build_mesh_applies_attribute_functions() {
    let m = build_mesh(&dims(2, 1, 5.0), position, 9u8, uv).unwrap();
    assert_eq!(m.positions().len(), 6);
    assert_eq!(m.positions()[0], (-2, -1));
    assert_eq!(m.positions()[5], (2, 1));
    assert!(m.normals().iter().all(|&n| n == 9));
    assert_eq!(m.uvs()[4].0, UnitFraction { num: 1, den: 2 });
    assert_eq!(m.indices(), triangulate(2, 1).as_slice());
}

#[test]
fn seeds_beyond_32_bits_are_unavailable() {
    assert_eq!(noise_seed(891273), Ok(891273));
    assert_eq!(noise_seed(u32::MAX as u64), Ok(u32::MAX));
    assert_eq!(
        noise_seed(u32::MAX as u64 + 1),
        Err(TerrainError::NoiseSourceUnavailable)
    );
}

#[test]
fn index_range_check() {
    assert!(dims(250, 250, 5.0).is_within_index_range());
    assert!(!dims(u32::MAX, u32::MAX, 5.0).is_within_index_range());
    assert!(!dims(65536, 65536, 1.0).is_within_index_range());
    assert!(dims(65535, 65535, 1.0).is_within_index_range());
}
