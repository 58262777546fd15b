use bevy::math::{vec3, vec4, Vec3, Vec4};
use noisy_bevy::hash::{euclid_rem, permute, RING};
use noisy_bevy::simplex::{
    corner_hashes_2d, corner_hashes_3d, corner_offsets_3d, gradient_bin_3d, middle_corner_2d,
};

fn float_permute_3(x: Vec3) -> Vec3 {
    (((x * 34.) + 1.) * x) % Vec3::splat(289.)
}

fn float_permute_4(x: Vec4) -> Vec4 {
    ((x * 34. + 1.) * x) % Vec4::splat(289.)
}

#[test]
fn permute_exact_values() {
    assert_eq!(permute(0), 0);
    assert_eq!(permute(1), 35);
    assert_eq!(permute(-1), 33);
    assert_eq!(permute(10), 231);
}

#[test]
fn permute_is_periodic_and_total() {
    assert_eq!(permute(289), 0);
    assert_eq!(permute(290), 35);
    assert_eq!(permute(i64::MAX), 161);
    assert_eq!(permute(i64::MIN), 144);
}

#[test]
fn permute_stays_in_ring() {
    for x in -1000i64..1000 {
        let r = permute(x);
        assert!(0 <= r && r < RING);
    }
}

#[test]
fn permute_matches_float_polynomial() {
    // every value a hash chain can hand to the polynomial
    for x in -288i64..=578 {
        let f = x as f32;
        let v3 = float_permute_3(Vec3::splat(f));
        let v4 = float_permute_4(Vec4::splat(f));
        assert_eq!(v3.x, permute(x) as f32, "x = {}", x);
        assert_eq!(v4.x, permute(x) as f32, "x = {}", x);
    }
}

#[test]
fn euclid_rem_is_non_negative() {
    assert_eq!(euclid_rem(-1, 289), 288);
    assert_eq!(euclid_rem(-289, 289), 0);
    assert_eq!(euclid_rem(300, 289), 11);
    assert_eq!(euclid_rem(i64::MIN, 7), 6);
}

#[test]
fn middle_corner_ties_go_to_y() {
    assert_eq!(middle_corner_2d(true), (1, 0));
    assert_eq!(middle_corner_2d(false), (0, 1));
}

#[test]
fn corner_hashes_2d_exact_values() {
    assert_eq!(corner_hashes_2d(3, -5, true), [117, 16, 255]);
    let lower = corner_hashes_2d(3, -5, false);
    assert_eq!(lower[0], 117);
    assert_eq!(lower[2], 255);
}

#[test]
fn corner_hashes_2d_repeat_every_ring() {
    for (ix, iy) in [(0i64, 0i64), (3, -5), (-100, 77)] {
        for b in [false, true] {
            let h = corner_hashes_2d(ix, iy, b);
            assert_eq!(corner_hashes_2d(ix + 289, iy, b), h);
            assert_eq!(corner_hashes_2d(ix, iy - 578, b), h);
        }
    }
}

#[test]
fn corner_hashes_2d_match_float_chain() {
    for ix in -300i64..300 {
        for iy in [-290i64, -17, -1, 0, 1, 5, 288, 289, 1000] {
            for b in [false, true] {
                let (ox, oy) = middle_corner_2d(b);
                let i = vec3(ix as f32, iy as f32, 0.) % Vec3::splat(289.);
                let p = float_permute_3(
                    float_permute_3(i.y + vec3(0., oy as f32, 1.)) + i.x + vec3(0., ox as f32, 1.),
                );
                let h = corner_hashes_2d(ix, iy, b);
                assert_eq!([p.x, p.y, p.z], [h[0] as f32, h[1] as f32, h[2] as f32]);
            }
        }
    }
}

#[test]
fn corner_offsets_3d_follow_component_order() {
    // x >= y >= z, x > z
    assert_eq!(corner_offsets_3d(true, true, false), ([1, 0, 0], [1, 1, 0]));
    // z > y > x
    assert_eq!(corner_offsets_3d(false, false, true), ([0, 0, 1], [0, 1, 1]));
    // y > x > z
    assert_eq!(corner_offsets_3d(false, true, false), ([0, 1, 0], [1, 1, 0]));
    // all equal
    assert_eq!(corner_offsets_3d(true, true, true), ([0, 0, 0], [1, 1, 1]));
}

#[test]
fn corner_offsets_3d_match_float_steps() {
    let samples = [-0.5f32, 0.0, 0.25, 0.5];
    for x in samples {
        for y in samples {
            for z in samples {
                let x0 = vec3(x, y, z);
                let g = Vec3::select(
                    Vec3::cmple(vec3(x0.y, x0.z, x0.x), x0),
                    Vec3::ONE,
                    Vec3::ZERO,
                );
                let l = 1. - g;
                let i1 = Vec3::min(g, vec3(l.z, l.x, l.y));
                let i2 = Vec3::max(g, vec3(l.z, l.x, l.y));
                let (a, b) = corner_offsets_3d(x >= y, y >= z, z >= x);
                assert_eq!([i1.x, i1.y, i1.z], [a[0] as f32, a[1] as f32, a[2] as f32]);
                assert_eq!([i2.x, i2.y, i2.z], [b[0] as f32, b[1] as f32, b[2] as f32]);
            }
        }
    }
}

#[test]
fn corner_hashes_3d_exact_values() {
    assert_eq!(corner_hashes_3d(1, 2, 3, true, true, false), [74, 228, 246, 60]);
}

#[test]
fn corner_hashes_3d_match_float_chain() {
    let coords = [-300i64, -289, -2, 0, 1, 7, 288, 500];
    let orders = [
        (true, true, false),
        (false, true, false),
        (false, false, true),
        (true, false, true),
        (true, true, true),
    ];
    for ix in coords {
        for iy in coords {
            for iz in coords {
                for (gx, gy, gz) in orders {
                    let (a, b) = corner_offsets_3d(gx, gy, gz);
                    let i = vec3(ix as f32, iy as f32, iz as f32) % Vec3::splat(289.);
                    let p = float_permute_4(
                        float_permute_4(
                            float_permute_4(i.z + vec4(0., a[2] as f32, b[2] as f32, 1.))
                                + i.y
                                + vec4(0., a[1] as f32, b[1] as f32, 1.),
                        ) + i.x
                            + vec4(0., a[0] as f32, b[0] as f32, 1.),
                    );
                    let h = corner_hashes_3d(ix, iy, iz, gx, gy, gz);
                    assert_eq!(
                        p.to_array(),
                        [h[0] as f32, h[1] as f32, h[2] as f32, h[3] as f32]
                    );
                }
            }
        }
    }
}

#[test]
fn gradient_bins_exact_values() {
    assert_eq!(gradient_bin_3d(0), (0, 0));
    assert_eq!(gradient_bin_3d(100), (0, 2));
    assert_eq!(gradient_bin_3d(48), (6, 6));
    assert_eq!(gradient_bin_3d(-1), (6, 6));
}

#[test]
fn gradient_bins_match_float_folding() {
    let n_ = 1. / 7.;
    let d = vec4(0., 0.5, 1., 2.);
    let ns = n_ * vec3(d.w, d.y, d.z) - vec3(d.x, d.z, d.x);
    for p in 0i64..289 {
        let pv = Vec4::splat(p as f32);
        let j = pv - 49. * (pv * ns.z * ns.z).floor();
        let x_ = (j * ns.z).floor();
        let y_ = (j - 7. * x_).floor();
        let (gx, gy) = gradient_bin_3d(p);
        assert_eq!((x_.x, y_.x), (gx as f32, gy as f32), "p = {}", p);
    }
}

#[test]
fn corner_hashes_are_deterministic() {
    assert_eq!(corner_hashes_2d(12, -40, true), corner_hashes_2d(12, -40, true));
    assert_eq!(
        corner_hashes_3d(-3, 9, 250, false, true, false),
        corner_hashes_3d(-3, 9, 250, false, true, false)
    );
}
