use wave_sim::dispatch::{dispatch_for, workgroups_for, WorkgroupCount};
use wave_sim::frame::{first_step, next_step, FrameStep};
use wave_sim::simulation::{grid_extent, Grid, TickDispatch, WaveSimulation};
use wave_sim::surface::{SurfaceMesh, SurfaceVertex};

#[test]
fn roles_alternate_with_tick_count() {
    let mut sim = WaveSimulation::new(50, "a_read_b_write", "b_read_a_write");
    for n in 0..20u32 {
        let expected = if n % 2 == 0 { Grid::A } else { Grid::B };
        assert_eq!(sim.active_grid(), expected);
        let dispatch = sim.tick();
        assert_eq!(dispatch.read, expected);
        assert_ne!(sim.active_grid(), expected);
    }
}

#[test]
fn active_texture_follows_parity() {
    let mut sim = WaveSimulation::new(8, 10u8, 20u8);
    assert_eq!(*sim.get_active_texture(), 10);
    sim.tick();
    assert_eq!(*sim.get_active_texture(), 20);
    sim.tick();
    assert_eq!(*sim.get_active_texture(), 10);
    assert_eq!(*sim.bind_group(Grid::A), 10);
    assert_eq!(*sim.bind_group(Grid::B), 20);
}

#[test]
fn n_ticks_match_n_mod_two() {
    for n in 0..9u32 {
        let mut sim = WaveSimulation::new(3, 0u8, 1u8);
        for _ in 0..n {
            sim.tick();
        }
        let expected = if n % 2 == 0 { Grid::A } else { Grid::B };
        assert_eq!(sim.active_grid(), expected);
        assert_eq!(*sim.get_active_texture(), (n % 2) as u8);
    }
}

#[test]
fn write_grid_is_never_the_read_grid() {
    assert_eq!(Grid::A.other(), Grid::B);
    assert_eq!(Grid::B.other(), Grid::A);
}

#[test]
fn dispatch_for_500_grid() {
    assert_eq!(dispatch_for(500, 500), WorkgroupCount { x: 32, y: 32, z: 1 });
}

#[test]
fn workgroups_round_up() {
    assert_eq!(workgroups_for(0), 0);
    assert_eq!(workgroups_for(1), 1);
    assert_eq!(workgroups_for(16), 1);
    assert_eq!(workgroups_for(17), 2);
    assert_eq!(workgroups_for(2500), 157);
    assert_eq!(workgroups_for(u32::MAX), 268_435_456);
    assert_eq!(dispatch_for(33, 16), WorkgroupCount { x: 3, y: 1, z: 1 });
}

#[test]
fn tick_dispatch_covers_grid() {
    let mut sim = WaveSimulation::new(2500, (), ());
    let d = sim.tick();
    assert_eq!(
        d,
        TickDispatch { read: Grid::A, groups: WorkgroupCount { x: 157, y: 157, z: 1 } }
    );
    let d = sim.tick();
    assert_eq!(d.read, Grid::B);
    assert_eq!(sim.size(), 2500);
}

#[test]
fn grid_extent_rounds_to_nearest() {
    assert_eq!(grid_extent(5000, 10), Some(50));
    assert_eq!(grid_extent(5000, 500), Some(2500));
    assert_eq!(grid_extent(1250, 1), Some(1));
    assert_eq!(grid_extent(1500, 1), Some(2));
    assert_eq!(grid_extent(1499, 1), Some(1));
    assert_eq!(grid_extent(333, 10), Some(3));
    assert_eq!(grid_extent(335, 10), Some(3));
    assert_eq!(grid_extent(350, 10), Some(4));
}

#[test]
fn grid_extent_is_at_least_one() {
    assert_eq!(grid_extent(0, 10), Some(1));
    assert_eq!(grid_extent(5000, 0), Some(1));
    assert_eq!(grid_extent(499, 1), Some(1));
}

#[test]
fn grid_extent_too_large() {
    assert_eq!(grid_extent(u32::MAX, u32::MAX), None);
    assert_eq!(grid_extent(4_294_967_295, 1000), Some(u32::MAX));
    assert_eq!(grid_extent(u32::MAX, 1001), None);
}

#[test]
fn mesh_counts() {
    for r in 1..12u32 {
        let mesh = SurfaceMesh::new(r);
        assert_eq!(mesh.vertex_count(), (r * r) as usize);
        assert_eq!(mesh.index_count(), (6 * (r - 1) * (r - 1)) as usize);
        assert!(mesh.indices.iter().all(|&i| i < r * r));
    }
}

#[test]
fn mesh_of_three_winding() {
    let mesh = SurfaceMesh::new(3);
    assert_eq!(
        mesh.indices,
        vec![
            0, 1, 3, 1, 4, 3, //
            1, 2, 4, 2, 5, 4, //
            3, 4, 6, 4, 7, 6, //
            4, 5, 7, 5, 8, 7,
        ]
    );
    assert_eq!(mesh.vertices[5], SurfaceVertex { row: 1, col: 2 });
}

#[test]
fn mesh_of_one_has_no_triangles() {
    let mesh = SurfaceMesh::new(1);
    assert_eq!(mesh.vertices, vec![SurfaceVertex { row: 0, col: 0 }]);
    assert!(mesh.indices.is_empty());
}

#[test]
fn mesh_uv_corners() {
    let r = 10u32;
    let mesh = SurfaceMesh::new(r);
    let uv = |v: &SurfaceVertex| (v.row as f32 / r as f32, v.col as f32 / r as f32);
    assert_eq!(uv(&mesh.vertices[0]), (0.0, 0.0));
    let last = uv(&mesh.vertices[(r * r - 1) as usize]);
    assert!((last.0 - 0.9).abs() < 1e-6 && (last.1 - 0.9).abs() < 1e-6);
    assert!(mesh.vertices.iter().all(|v| uv(v).0 < 1.0 && uv(v).1 < 1.0));
}

#[test]
fn mesh_generation_is_deterministic() {
    let first = SurfaceMesh::new(7);
    let second = SurfaceMesh::new(7);
    assert_eq!(first.vertices, second.vertices);
    assert_eq!(first.indices, second.indices);
}

#[test]
fn end_to_end_resolution_ten() {
    let size = grid_extent(5000, 10).unwrap();
    assert_eq!(size, 50);
    let mut sim = WaveSimulation::new(size, "a", "b");
    for _ in 0..3 {
        sim.tick();
    }
    assert_eq!(sim.active_grid(), Grid::B);
    assert_eq!(*sim.get_active_texture(), "b");
    let mesh = SurfaceMesh::new(10);
    assert_eq!(mesh.vertex_count(), 100);
    assert_eq!(mesh.index_count(), 486);
}

#[test]
fn frame_steps_in_order() {
    let mut steps = vec![first_step()];
    while let Some(next) = next_step(*steps.last().unwrap()) {
        steps.push(next);
    }
    assert_eq!(
        steps,
        vec![
            FrameStep::TickSimulation,
            FrameStep::UpdateCamera,
            FrameStep::DrawScene,
            FrameStep::DrawUi,
            FrameStep::Submit,
            FrameStep::Present,
        ]
    );
}

#[test]
fn mesh_triangles_wind_the_same_way() {
    for r in 2..9u32 {
        let mesh = SurfaceMesh::new(r);
        for tri in mesh.indices.chunks(3) {
            let a = mesh.vertices[tri[0] as usize];
            let b = mesh.vertices[tri[1] as usize];
            let c = mesh.vertices[tri[2] as usize];
            let (ax, ay) = (a.row as i64, a.col as i64);
            let cross = (b.row as i64 - ax) * (c.col as i64 - ay)
                - (b.col as i64 - ay) * (c.row as i64 - ax);
            assert_eq!(cross, -1);
        }
    }
}
