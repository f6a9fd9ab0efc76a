use bevy_step_loader::error::StepLoaderError;
use bevy_step_loader::loader::{Backend, StepAsset, StepLoader, StepPlugin};
use bevy_step_loader::mesh::{assemble, Mesh, RawGeometry, RawIndices};
use bevy_step_loader::optimize::optimise_mesh;
use bevy_step_loader::simplify::{target_for, Ratio};

fn pos(x: f32, y: f32, z: f32) -> [u32; 3] {
    [x.to_bits(), y.to_bits(), z.to_bits()]
}

/// A flat grid of `w` by `h` quads, two triangles each.
fn grid(w: u32, h: u32) -> Mesh {
    let mut positions = Vec::new();
    for y in 0..=h {
        for x in 0..=w {
            positions.push(pos(x as f32, y as f32, 0.0));
        }
    }
    let mut indices = Vec::new();
    for y in 0..h {
        for x in 0..w {
            let a = y * (w + 1) + x;
            let b = a + 1;
            let c = a + w + 1;
            let d = c + 1;
            indices.extend_from_slice(&[a, b, c, b, d, c]);
        }
    }
    Mesh { positions, indices }
}

fn sorted_triangles(indices: &[u32]) -> Vec<[u32; 3]> {
    let mut t: Vec<[u32; 3]> = indices.chunks(3).map(|c| [c[0], c[1], c[2]]).collect();
    t.sort();
    t
}

fn referenced(indices: &[u32]) -> Vec<u32> {
    let mut v = indices.to_vec();
    v.sort();
    v.dedup();
    v
}

fn cache_misses(indices: &[u32], size: usize) -> usize {
    let mut cache: Vec<u32> = Vec::new();
    let mut misses = 0;
    for &i in indices {
        if !cache.contains(&i) {
            misses += 1;
            cache.push(i);
            if cache.len() > size {
                cache.remove(0);
            }
        }
    }
    misses
}

fn cube_positions() -> Vec<[u32; 3]> {
    let mut p = Vec::new();
    for &x in &[0.0f32, 2.0] {
        for &y in &[0.0f32, 1.0] {
            for &z in &[0.0f32, 3.0] {
                p.push(pos(x, y, z));
            }
        }
    }
    p
}

#[test]
fn assemble_widens_sixteen_bit_indices() {
    let raw = RawGeometry {
        positions: cube_positions(),
        indices: RawIndices::U16(vec![0, 1, 2, 5, 6, 7]),
    };
    let m = assemble(raw).unwrap();
    assert_eq!(m.indices, vec![0u32, 1, 2, 5, 6, 7]);
    assert_eq!(m.positions, cube_positions());
    assert_eq!(m.triangle_count(), 2);
    assert_eq!(m.vertex_count(), 8);
    assert!(m.is_well_formed());
}

#[test]
fn assemble_keeps_wide_indices_that_fit() {
    let raw = RawGeometry {
        positions: cube_positions(),
        indices: RawIndices::Wide(vec![7, 3, 1]),
    };
    let m = assemble(raw).unwrap();
    assert_eq!(m.indices, vec![7u32, 3, 1]);
}

#[test]
fn assemble_accepts_zero_triangles() {
    let raw = RawGeometry { positions: cube_positions(), indices: RawIndices::U32(vec![]) };
    let m = assemble(raw).unwrap();
    assert_eq!(m.triangle_count(), 0);
    assert_eq!(m.vertex_count(), 8);
}

#[test]
fn assemble_rejects_partial_triangle() {
    let raw = RawGeometry {
        positions: cube_positions(),
        indices: RawIndices::U32(vec![0, 1, 2, 3]),
    };
    assert!(matches!(assemble(raw), Err(StepLoaderError::ParseError(_))));
}

#[test]
fn assemble_rejects_missing_vertex() {
    let raw = RawGeometry {
        positions: cube_positions(),
        indices: RawIndices::U32(vec![0, 1, 8]),
    };
    assert!(matches!(assemble(raw), Err(StepLoaderError::ParseError(_))));
    let raw = RawGeometry {
        positions: cube_positions(),
        indices: RawIndices::Wide(vec![0, 1, 1usize << 40]),
    };
    assert!(matches!(assemble(raw), Err(StepLoaderError::ParseError(_))));
}

#[test]
fn assembled_mesh_is_a_triangle_list() {
    let g = grid(6, 5);
    let raw = RawGeometry { positions: g.positions.clone(), indices: RawIndices::U32(g.indices.clone()) };
    let m = assemble(raw).unwrap();
    assert_eq!(m.indices.len() % 3, 0);
    assert!(m.indices.iter().all(|&i| (i as usize) < m.positions.len()));
}

#[test]
fn optimise_keeps_triangles_and_vertices() {
    let g = grid(20, 20);
    // Scatter the triangles so the cache has work to do.
    let tris: Vec<[u32; 3]> = g.indices.chunks(3).map(|c| [c[0], c[1], c[2]]).collect();
    let n = tris.len();
    let mut scattered = Vec::new();
    for k in 0..n {
        let t = tris[(k * 389) % n];
        scattered.extend_from_slice(&t);
    }
    let m = Mesh { positions: g.positions.clone(), indices: scattered };
    let o = optimise_mesh(&m);
    assert_eq!(o.positions, m.positions);
    assert_eq!(o.triangle_count(), m.triangle_count());
    assert_eq!(sorted_triangles(&o.indices), sorted_triangles(&m.indices));
    assert_eq!(referenced(&o.indices), referenced(&m.indices));
    assert_ne!(o.indices, m.indices);
    assert!(cache_misses(&o.indices, 16) < cache_misses(&m.indices, 16));
}

#[test]
fn optimise_leaves_empty_mesh() {
    let m = Mesh { positions: cube_positions(), indices: vec![] };
    let o = optimise_mesh(&m);
    assert!(o.indices.is_empty());
    assert_eq!(o.positions, m.positions);
}

#[test]
fn check_input_rejects_empty() {
    let loader = StepLoader::default();
    assert!(matches!(loader.check_input(&[]), Err(StepLoaderError::ParseError(_))));
}

#[test]
fn check_input_rejects_other_content() {
    let loader = StepLoader::default();
    assert!(matches!(loader.check_input(b"solid cube\nendsolid"), Err(StepLoaderError::ParseError(_))));
    assert!(matches!(loader.check_input(b"ISO-10303-2"), Err(StepLoaderError::ParseError(_))));
    assert!(matches!(loader.check_input(b"x ISO-10303-21;"), Err(StepLoaderError::ParseError(_))));
}

#[test]
fn check_input_accepts_header() {
    let loader = StepLoader::default();
    assert!(loader.check_input(b"ISO-10303-21;\nHEADER;").is_ok());
    assert!(loader.check_input(b" \r\n\tISO-10303-21;").is_ok());
}

#[test]
fn backend_failures_keep_their_message() {
    let occt = StepLoader { backend: Backend::Occt, optimise: false };
    match occt.finish_load(Err("no shape".to_string())) {
        Err(StepLoaderError::OcctError(m)) => assert_eq!(m, "no shape"),
        _ => panic!("expected an OpenCASCADE error"),
    }
    let foxtrot = StepLoader { backend: Backend::Foxtrot, optimise: true };
    match foxtrot.finish_load(Err("bad entity".to_string())) {
        Err(StepLoaderError::FoxtrotError(m)) => assert_eq!(m, "bad entity"),
        _ => panic!("expected a Foxtrot error"),
    }
}

#[test]
fn finish_load_assembles_geometry() {
    let loader = StepLoader::default();
    let raw = RawGeometry {
        positions: cube_positions(),
        indices: RawIndices::Wide(vec![0, 1, 2, 2, 1, 3]),
    };
    let asset = loader.finish_load(Ok(raw)).unwrap();
    assert_eq!(asset.mesh.indices, vec![0u32, 1, 2, 2, 1, 3]);
    assert_eq!(asset.mesh.positions, cube_positions());
}

#[test]
fn finish_load_reports_bad_geometry() {
    let loader = StepLoader { backend: Backend::Occt, optimise: true };
    let raw = RawGeometry { positions: cube_positions(), indices: RawIndices::U16(vec![0, 1, 9]) };
    assert!(matches!(loader.finish_load(Ok(raw)), Err(StepLoaderError::ParseError(_))));
}

#[test]
fn finish_load_optimises_when_asked() {
    let loader = StepLoader { backend: Backend::Foxtrot, optimise: true };
    let g = grid(8, 8);
    let raw = RawGeometry { positions: g.positions.clone(), indices: RawIndices::U32(g.indices.clone()) };
    let asset = loader.finish_load(Ok(raw)).unwrap();
    assert_eq!(sorted_triangles(&asset.mesh.indices), sorted_triangles(&g.indices));
    assert_eq!(asset.mesh.positions, g.positions);
}

#[test]
fn plugin_registers_default_loader() {
    let plugin = StepPlugin::default();
    let loader = plugin.loader();
    assert_eq!(loader.backend, Backend::Foxtrot);
    assert!(!loader.optimise);
}

#[test]
fn error_messages() {
    assert_eq!(StepLoaderError::OcctError("x".to_string()).message(), "OpenCASCADE error: x");
    assert_eq!(
        StepLoaderError::FoxtrotError("y".to_string()).message(),
        "Foxtrot triangulation error: y"
    );
    assert_eq!(StepLoaderError::ParseError("z".to_string()).message(), "Parse error: z");
    let io = StepLoaderError::IoError(std::io::Error::new(std::io::ErrorKind::Other, "disk"));
    assert_eq!(io.message(), "IO error: disk");
}

#[test]
fn target_rounds_to_nearest() {
    assert_eq!(target_for(3000, Ratio { num: 1, den: 2 }), 1500);
    assert_eq!(target_for(3, Ratio { num: 1, den: 2 }), 2);
    assert_eq!(target_for(10, Ratio { num: 1, den: 3 }), 3);
    assert_eq!(target_for(11, Ratio { num: 1, den: 3 }), 4);
    assert_eq!(target_for(7, Ratio { num: 1, den: 1 }), 7);
    assert_eq!(target_for(usize::MAX, Ratio { num: u32::MAX, den: u32::MAX }), usize::MAX);
}

fn decimate(mesh: &Mesh, target: usize, error: f32) -> Vec<u32> {
    let adapter =
        meshopt::VertexDataAdapter::new(bytemuck::cast_slice(&mesh.positions), 12, 0).unwrap();
    let mut achieved = 0.0f32;
    meshopt::simplify(
        &mesh.indices,
        &adapter,
        target,
        error,
        meshopt::SimplifyOptions::LockBorder,
        Some(&mut achieved),
    )
}

#[test]
fn simplify_half_of_thousand_triangles() {
    let g = grid(25, 20);
    assert_eq!(g.triangle_count(), 1000);
    let held = StepAsset { mesh: g.clone() };
    let mut asset = held.clone();
    let ratio = Ratio { num: 1, den: 2 };
    let target = asset.simplification_target(ratio);
    assert_eq!(target, 1500);
    let simplified = decimate(&asset.mesh, target, 0.01);
    let report = asset.simplify_mesh(ratio, simplified).unwrap();
    let tris = asset.mesh.triangle_count();
    assert!((450..=550).contains(&tris), "{} triangles", tris);
    assert_eq!(report.original_index_count, 3000);
    assert_eq!(report.target_index_count, 1500);
    assert_eq!(report.index_count, tris * 3);
    assert_eq!(report.reached_target, report.index_count <= 1500);
    assert_eq!(held.mesh.positions, g.positions);
    assert_eq!(held.mesh.indices, g.indices);
    assert_eq!(asset.mesh.positions, g.positions);
}

#[test]
fn simplify_full_ratio_never_grows() {
    let g = grid(10, 10);
    let mut asset = StepAsset { mesh: g.clone() };
    let ratio = Ratio { num: 1, den: 1 };
    let target = asset.simplification_target(ratio);
    let simplified = decimate(&asset.mesh, target, 0.01);
    let report = asset.simplify_mesh(ratio, simplified).unwrap();
    assert!(asset.mesh.triangle_count() <= g.triangle_count());
    assert!(report.reached_target);
}

#[test]
fn simplify_flags_shortfall() {
    let g = grid(4, 4);
    let mut asset = StepAsset { mesh: g.clone() };
    let ratio = Ratio { num: 1, den: 10 };
    let report = asset.simplify_mesh(ratio, g.indices.clone()).unwrap();
    assert_eq!(report.target_index_count, 10);
    assert!(!report.reached_target);
    assert_eq!(asset.mesh.indices, g.indices);
}

#[test]
fn simplify_rejects_malformed_input() {
    let g = grid(2, 2);
    let mut broken = StepAsset { mesh: Mesh { positions: g.positions.clone(), indices: vec![0, 1] } };
    let r = broken.simplify_mesh(Ratio { num: 1, den: 2 }, vec![]);
    assert!(matches!(r, Err(StepLoaderError::ParseError(_))));
    assert_eq!(broken.mesh.indices, vec![0u32, 1]);

    let mut asset = StepAsset { mesh: g.clone() };
    let longer: Vec<u32> = g.indices.iter().chain(g.indices[..3].iter()).copied().collect();
    let r = asset.simplify_mesh(Ratio { num: 1, den: 2 }, longer);
    assert!(matches!(r, Err(StepLoaderError::ParseError(_))));
    let r = asset.simplify_mesh(Ratio { num: 1, den: 2 }, vec![0, 1, 99]);
    assert!(matches!(r, Err(StepLoaderError::ParseError(_))));
    assert_eq!(asset.mesh.indices, g.indices);
}

#[test]
fn io_errors_convert() {
    let e = StepLoaderError::from(std::io::Error::new(std::io::ErrorKind::NotFound, "gone"));
    assert!(matches!(e, StepLoaderError::IoError(_)));
}

#[test]
fn rejections_carry_fixed_messages() {
    let loader = StepLoader::default();
    for _ in 0..2 {
        match loader.check_input(&[]) {
            Err(StepLoaderError::ParseError(m)) => {
                assert_eq!(m, "input does not start with a STEP header")
            }
            _ => panic!("expected a parse error"),
        }
    }
    let raw = RawGeometry { positions: cube_positions(), indices: RawIndices::U32(vec![0, 1]) };
    match assemble(raw) {
        Err(StepLoaderError::ParseError(m)) => assert_eq!(m, "index count is not a multiple of three"),
        _ => panic!("expected a parse error"),
    }
    let raw = RawGeometry { positions: cube_positions(), indices: RawIndices::U32(vec![0, 1, 8]) };
    match assemble(raw) {
        Err(StepLoaderError::ParseError(m)) => {
            assert_eq!(m, "an index refers to a vertex that does not exist")
        }
        _ => panic!("expected a parse error"),
    }
}

#[test]
fn optimise_is_deterministic() {
    let g = grid(12, 9);
    let a = optimise_mesh(&g);
    let b = optimise_mesh(&g.clone());
    assert_eq!(a.indices, b.indices);
    assert_eq!(a.positions, b.positions);
}
