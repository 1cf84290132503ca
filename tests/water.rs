use three_d::skybox_material::{SkyboxMaterial, TextureCubeMap};
use three_d::water::{indices, positions, Point2, Point3, Water, WaterPatch, WaveParameters, UNIT};

fn params(amplitudes: [i64; 4]) -> [WaveParameters; 4] {
    let mut p = [WaveParameters::default(); 4];
    for i in 0..4 {
        p[i].amplitude = amplitudes[i];
    }
    p
}

fn sky() -> SkyboxMaterial {
    SkyboxMaterial { texture: TextureCubeMap { id: 3, is_hdr: false } }
}

#[test]
fn default_wave_parameters() {
    let p = WaveParameters::default();
    assert_eq!(p.wavelength, 1_000_000);
    assert_eq!(p.amplitude, 10_000);
    assert_eq!(p.speed, 500_000);
}

#[test]
fn patch_count_rounds_up() {
    // patch size 32 * UNIT; a side of 100 units needs 4 patches per side
    let water = Water::new(sky(), 0, Point2 { x: 0, y: 0 }, 100 * UNIT, UNIT, params([0; 4]));
    assert_eq!(water.patches().len(), 16);
    // exactly two patches
    let water = Water::new(sky(), 0, Point2 { x: 0, y: 0 }, 64 * UNIT, UNIT, params([0; 4]));
    assert_eq!(water.patches().len(), 4);
}

#[test]
fn patch_count_is_at_least_one() {
    let water = Water::new(sky(), 0, Point2 { x: 0, y: 0 }, 0, UNIT, params([0; 4]));
    assert_eq!(water.patches().len(), 1);
    let water = Water::new(sky(), 0, Point2 { x: 0, y: 0 }, -5, UNIT, params([0; 4]));
    assert_eq!(water.patches().len(), 1);
}

#[test]
fn tile_offsets_are_symmetric() {
    let d = 10;
    let water = Water::new(sky(), 7, Point2 { x: 100, y: 200 }, 900, d, params([0; 4]));
    // patch size 320, three patches per side, half side 480
    let patches = water.patches();
    assert_eq!(patches.len(), 9);
    let offsets: Vec<i64> = vec![-480, -160, 160];
    for ix in 0..3 {
        for iy in 0..3 {
            let p = patches[ix * 3 + iy];
            assert_eq!(p.offset, Point2 { x: offsets[ix], y: offsets[iy] });
            assert_eq!(p.size, Point2 { x: 320, y: 320 });
            assert_eq!(p.center, Point3 { x: 100, y: 7, z: 200 });
            assert_eq!(p.time, 0);
        }
    }
}

#[test]
fn set_height_and_center() {
    let mut water = Water::new(sky(), 7, Point2 { x: 100, y: 200 }, 900, 10, params([0; 4]));
    let offsets: Vec<Point2> = water.patches().iter().map(|p| p.offset).collect();
    water.set_height(-3);
    for p in water.patches() {
        assert_eq!(p.center, Point3 { x: 100, y: -3, z: 200 });
    }
    water.set_center(Point2 { x: 5, y: 6 });
    for (i, p) in water.patches().iter().enumerate() {
        assert_eq!(p.center, Point3 { x: 5, y: -3, z: 6 });
        assert_eq!(p.offset, offsets[i]);
    }
}

#[test]
fn set_parameters_and_time() {
    let mut water = Water::new(sky(), 0, Point2 { x: 0, y: 0 }, 900, 10, params([0; 4]));
    water.set_parameters(params([1, 2, 3, 4]));
    water.update_animation(1234);
    for p in water.patches() {
        assert_eq!(p.parameters[3].amplitude, 4);
        assert_eq!(p.time, 1234);
    }
}

#[test]
fn aabb_half_extent_is_max_amplitude() {
    let p = WaterPatch::new(
        Point3 { x: 0, y: 0, z: 0 },
        params([100_000, 50_000, 200_000, 10_000]),
        Point2 { x: -10, y: -20 },
        Point2 { x: 30, y: 40 },
    );
    let b = p.aabb();
    assert_eq!(b.max.y, 200_000);
    assert_eq!(b.min.y, -200_000);
    assert_eq!(b.min.x, -10);
    assert_eq!(b.min.z, -20);
    assert_eq!(b.max.x, 20);
    assert_eq!(b.max.z, 20);
    assert_eq!(p.max_amplitude(), 200_000);
}

#[test]
fn aabb_follows_center() {
    let p = WaterPatch::new(
        Point3 { x: 1, y: 50, z: 2 },
        params([5, 9, 1, 2]),
        Point2 { x: 0, y: 0 },
        Point2 { x: 3, y: 3 },
    );
    let b = p.aabb();
    assert_eq!(b.min, Point3 { x: 1, y: 41, z: 2 });
    assert_eq!(b.max, Point3 { x: 4, y: 59, z: 5 });
}

#[test]
fn index_buffer_of_grid() {
    let idx = indices();
    assert_eq!(idx.len(), 6144);
    assert_eq!(&idx[0..6], &[0, 1, 33, 33, 1, 34]);
    // cell (r = 1, c = 2)
    let k = (1 * 32 + 2) * 6;
    assert_eq!(&idx[k..k + 6], &[67, 68, 100, 100, 68, 101]);
    assert!(idx.iter().all(|&i| i < 33 * 33));
    assert_eq!(*idx.last().unwrap(), 32 + 32 * 33);
}

#[test]
fn vertex_grid_positions() {
    let p = positions(5);
    assert_eq!(p.len(), 1089);
    assert_eq!(p[0], Point3 { x: 0, y: 0, z: 0 });
    assert_eq!(p[34], Point3 { x: 5, y: 0, z: 5 });
    assert_eq!(p[1088], Point3 { x: 160, y: 0, z: 160 });
}

#[test]
fn water_shares_one_mesh() {
    let water = Water::new(sky(), 0, Point2 { x: 0, y: 0 }, 900, 10, params([0; 4]));
    assert_eq!(water.mesh().indices.len(), 6144);
    assert_eq!(water.mesh().positions.len(), 1089);
    assert_eq!(water.mesh().positions[1], Point3 { x: 0, y: 0, z: 10 });
    assert_eq!(water.material().texture.id, 3);
}

#[test]
fn uniforms_of_patch() {
    let mut p = WaterPatch::new(
        Point3 { x: 1, y: 2, z: 3 },
        params([5, 6, 7, 8]),
        Point2 { x: 10, y: 20 },
        Point2 { x: 3, y: 3 },
    );
    p.time = 99;
    let u = p.uniforms();
    assert_eq!(u.offset, Point3 { x: 11, y: 2, z: 23 });
    assert_eq!(u.time, 99);
    assert_eq!(u.amplitudes, [5, 6, 7, 8]);
    assert_eq!(u.wavelengths, [UNIT; 4]);
    assert_eq!(u.speeds, [UNIT / 2; 4]);
}
