use tiled_parallax::{ParallaxLayer, ParallaxSystem, TiledImageParallax, Vec2Fixed, Vec3Fixed, SCALE};
use tiled_parallax::parallax::parallax_translation;

fn layer(px: i64, py: i64, bx: i64, by: i64, t: Vec3Fixed) -> ParallaxLayer {
    ParallaxLayer {
        parallax: TiledImageParallax {
            parallax_x: px,
            parallax_y: py,
            base_position: Vec2Fixed { x: bx, y: by },
        },
        transform: t,
    }
}

#[test]
fn scenario_two_layers() {
    // Camera at (100, 50) world units; layer A scrolls at half speed from the
    // origin, layer B is background on x and camera-locked on y.
    let mut sys = ParallaxSystem::new();
    let cameras = vec![Vec3Fixed { x: 100 * SCALE, y: 50 * SCALE, z: 0 }];
    let mut layers = vec![
        layer(500, 500, 0, 0, Vec3Fixed { x: 1, y: 2, z: 3 }),
        layer(0, 1000, 10 * SCALE, 10 * SCALE, Vec3Fixed { x: 4, y: 5, z: 6 }),
    ];
    sys.update_image_parallax(&cameras, &mut layers);
    assert_eq!(layers[0].transform, Vec3Fixed { x: 50 * SCALE, y: 25 * SCALE, z: 3 });
    assert_eq!(layers[1].transform, Vec3Fixed { x: 110 * SCALE, y: 10 * SCALE, z: 6 });
}

#[test]
fn no_camera_is_a_no_op() {
    let mut sys = ParallaxSystem::new();
    let cameras: Vec<Vec3Fixed> = Vec::new();
    let before = Vec3Fixed { x: 11, y: 22, z: 33 };
    let mut layers = vec![layer(500, 500, 100, 200, before)];
    sys.update_image_parallax(&cameras, &mut layers);
    assert_eq!(layers[0].transform, before);
}

#[test]
fn several_cameras_are_a_no_op() {
    let mut sys = ParallaxSystem::new();
    let cameras = vec![
        Vec3Fixed { x: 1000, y: 0, z: 0 },
        Vec3Fixed { x: 2000, y: 0, z: 0 },
    ];
    let before = Vec3Fixed { x: 11, y: 22, z: 33 };
    let mut layers = vec![layer(500, 500, 100, 200, before)];
    sys.update_image_parallax(&cameras, &mut layers);
    assert_eq!(layers[0].transform, before);
}

#[test]
fn unchanged_camera_skips_the_pass() {
    let mut sys = ParallaxSystem::new();
    let cameras = vec![Vec3Fixed { x: 5 * SCALE, y: 5 * SCALE, z: 0 }];
    let mut layers = vec![layer(0, 0, 0, 0, Vec3Fixed { x: 0, y: 0, z: 9 })];
    sys.update_image_parallax(&cameras, &mut layers);
    assert_eq!(layers[0].transform, Vec3Fixed { x: 5 * SCALE, y: 5 * SCALE, z: 9 });

    // Another system perturbs the layer; with the camera unmoved the second
    // pass must not write it back.
    layers[0].transform = Vec3Fixed { x: 777, y: 888, z: 9 };
    sys.update_image_parallax(&cameras, &mut layers);
    assert_eq!(layers[0].transform, Vec3Fixed { x: 777, y: 888, z: 9 });

    // Once the camera moves, the pass runs again.
    let moved = vec![Vec3Fixed { x: 6 * SCALE, y: 5 * SCALE, z: 0 }];
    sys.update_image_parallax(&moved, &mut layers);
    assert_eq!(layers[0].transform, Vec3Fixed { x: 6 * SCALE, y: 5 * SCALE, z: 9 });
}

#[test]
fn first_sighting_counts_as_a_change() {
    // Even a camera resting at the origin fires the first pass.
    let mut sys = ParallaxSystem::new();
    let cameras = vec![Vec3Fixed { x: 0, y: 0, z: 0 }];
    let mut layers = vec![layer(250, 250, 4000, 5000, Vec3Fixed { x: 1, y: 1, z: 1 })];
    sys.update_image_parallax(&cameras, &mut layers);
    assert_eq!(layers[0].transform, Vec3Fixed { x: 4000, y: 5000, z: 1 });
}

#[test]
fn zero_factor_gives_fixed_background() {
    let cfg = TiledImageParallax {
        parallax_x: 0,
        parallax_y: 0,
        base_position: Vec2Fixed { x: 3000, y: -4000 },
    };
    let cam = Vec3Fixed { x: 12_345, y: -6789, z: 0 };
    let r = parallax_translation(&cfg, &cam, &Vec3Fixed { x: 0, y: 0, z: 42 });
    assert_eq!(r, Vec3Fixed { x: 3000 + 12_345, y: -4000 - 6789, z: 42 });
}

#[test]
fn unit_factor_locks_to_base() {
    let cfg = TiledImageParallax {
        parallax_x: SCALE,
        parallax_y: SCALE,
        base_position: Vec2Fixed { x: -1234, y: 5678 },
    };
    for cam in [
        Vec3Fixed { x: 0, y: 0, z: 0 },
        Vec3Fixed { x: 999_999, y: -999_999, z: 3 },
    ] {
        let r = parallax_translation(&cfg, &cam, &Vec3Fixed { x: 7, y: 8, z: 9 });
        assert_eq!(r, Vec3Fixed { x: -1234, y: 5678, z: 9 });
    }
}

#[test]
fn doubling_the_camera_doubles_the_offset() {
    let cfg = TiledImageParallax {
        parallax_x: 750,
        parallax_y: 750,
        base_position: Vec2Fixed { x: 0, y: 0 },
    };
    let cam = Vec3Fixed { x: 8 * SCALE, y: -8 * SCALE, z: 0 };
    let twice = Vec3Fixed { x: 16 * SCALE, y: -16 * SCALE, z: 0 };
    let cur = Vec3Fixed { x: 0, y: 0, z: 0 };
    let once = parallax_translation(&cfg, &cam, &cur);
    let doubled = parallax_translation(&cfg, &twice, &cur);
    assert_eq!(once, Vec3Fixed { x: 2 * SCALE, y: -2 * SCALE, z: 0 });
    assert_eq!(doubled, Vec3Fixed { x: 4 * SCALE, y: -4 * SCALE, z: 0 });
}

#[test]
fn depth_is_preserved() {
    let cfg = TiledImageParallax {
        parallax_x: 100,
        parallax_y: 900,
        base_position: Vec2Fixed { x: 1, y: 2 },
    };
    let cam = Vec3Fixed { x: 31_415, y: -27_182, z: -555 };
    let r = parallax_translation(&cfg, &cam, &Vec3Fixed { x: 0, y: 0, z: -123_456 });
    assert_eq!(r.z, -123_456);
}

#[test]
fn negative_factor_exaggerates_the_scroll() {
    // A factor of -1.0 scrolls twice as fast as the camera.
    let cfg = TiledImageParallax {
        parallax_x: -SCALE,
        parallax_y: -SCALE,
        base_position: Vec2Fixed { x: 0, y: 0 },
    };
    let cam = Vec3Fixed { x: 7 * SCALE, y: -3 * SCALE, z: 0 };
    let r = parallax_translation(&cfg, &cam, &Vec3Fixed { x: 0, y: 0, z: 0 });
    assert_eq!(r, Vec3Fixed { x: 14 * SCALE, y: -6 * SCALE, z: 0 });
}

#[test]
fn offsets_truncate_toward_zero() {
    // One sub-unit of camera movement at half speed is below the resolution
    // of the fixed-point grid, from either side of zero.
    let cfg = TiledImageParallax {
        parallax_x: 500,
        parallax_y: 500,
        base_position: Vec2Fixed { x: 0, y: 0 },
    };
    let cam = Vec3Fixed { x: 1, y: -1, z: 0 };
    let r = parallax_translation(&cfg, &cam, &Vec3Fixed { x: 0, y: 0, z: 0 });
    assert_eq!(r, Vec3Fixed { x: 0, y: 0, z: 0 });
}

#[test]
fn range_checks_accept_and_reject() {
    let good = TiledImageParallax {
        parallax_x: 1_000_000,
        parallax_y: -1_000_000,
        base_position: Vec2Fixed { x: 1_000_000_000_000, y: -1_000_000_000_000 },
    };
    assert!(good.check_valid());
    let bad_factor = TiledImageParallax { parallax_x: 1_000_001, ..good };
    assert!(!bad_factor.check_valid());
    let bad_base = TiledImageParallax {
        base_position: Vec2Fixed { x: 1_000_000_000_001, y: 0 },
        ..good
    };
    assert!(!bad_base.check_valid());

    assert!(Vec3Fixed { x: 1_000_000_000_000, y: 0, z: i64::MAX }.check_xy_in_range());
    assert!(!Vec3Fixed { x: 0, y: -1_000_000_000_001, z: 0 }.check_xy_in_range());
}
