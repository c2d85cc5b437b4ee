//! Ray, sphere-intersection and scene nearest-hit behaviour.

use raytracing::material::Material;
use raytracing::object::Object;
use raytracing::ray::{hit, Ray, T_MIN_EPS};
use raytracing::sphere::{random_in_unit_sphere, Sphere};
use raytracing::rng::Rng;
use raytracing::vec3::Vec3;

const ONE: i64 = 65536;
const T_MAX: i64 = 0x4000_0000_0000_0000;

fn grey() -> Material {
    Material::Lambertian(Vec3::new(32768, 32768, 32768))
}

#[test]
fn point_at_parameter_walks_the_ray() {
    let r = Ray::new(Vec3::new(ONE, 0, 0), Vec3::new(ONE, 2 * ONE, 0));
    assert_eq!(r.point_at_parameter(0), Vec3::new(ONE, 0, 0));
    assert_eq!(r.point_at_parameter(2 * ONE), Vec3::new(3 * ONE, 4 * ONE, 0));
    assert_eq!(r.point_at_parameter(-ONE), Vec3::new(0, -2 * ONE, 0));
}

#[test]
fn ray_at_sphere_hits_nearest_surface_with_opposing_normal() {
    let s = Sphere { center: Vec3::new(5 * ONE, 0, 0), radius: ONE, material: grey() };
    let r = Ray::new(Vec3::zeros(), Vec3::new(ONE, 0, 0));
    let h = s.hit(&r, T_MIN_EPS, T_MAX).expect("head-on ray must hit");
    assert_eq!(h.t, 4 * ONE);
    assert_eq!(h.p, Vec3::new(4 * ONE, 0, 0));
    // The normal at the near surface opposes the ray direction.
    assert_eq!(h.norm, Vec3::new(-ONE, 0, 0));
    assert!(h.norm.dot(&r.dire) < 0);
    assert_eq!(h.material, grey());
}

#[test]
fn ray_aimed_away_reports_no_hit() {
    let s = Sphere { center: Vec3::new(5 * ONE, 0, 0), radius: ONE, material: grey() };
    let r = Ray::new(Vec3::zeros(), Vec3::new(-ONE, 0, 0));
    assert!(s.hit(&r, T_MIN_EPS, T_MAX).is_none());
}

#[test]
fn ray_from_inside_takes_the_far_root() {
    let s = Sphere { center: Vec3::zeros(), radius: 2 * ONE, material: grey() };
    let r = Ray::new(Vec3::zeros(), Vec3::new(ONE, 0, 0));
    let h = s.hit(&r, T_MIN_EPS, T_MAX).expect("ray from the centre must exit");
    assert_eq!(h.t, 2 * ONE);
    assert_eq!(h.p, Vec3::new(2 * ONE, 0, 0));
    assert_eq!(h.norm, Vec3::new(ONE, 0, 0));
}

#[test]
fn negative_radius_flips_the_normal_inward() {
    let s = Sphere { center: Vec3::zeros(), radius: -2 * ONE, material: grey() };
    let r = Ray::new(Vec3::zeros(), Vec3::new(ONE, 0, 0));
    let h = s.hit(&r, T_MIN_EPS, T_MAX).expect("hollow shell must be hit from inside");
    assert_eq!(h.t, 2 * ONE);
    assert_eq!(h.p, Vec3::new(2 * ONE, 0, 0));
    // The normal points back toward the centre: inward.
    assert_eq!(h.norm, Vec3::new(-ONE, 0, 0));
    assert!(h.norm.dot(&h.p) < 0);
}

#[test]
fn scene_hit_returns_nearest_of_overlapping_spheres() {
    let front = Sphere { center: Vec3::new(5 * ONE, 0, 0), radius: ONE, material: grey() };
    let back = Sphere {
        center: Vec3::new(8 * ONE, 0, 0),
        radius: ONE,
        material: Material::Dielectric(98304),
    };
    let r = Ray::new(Vec3::zeros(), Vec3::new(ONE, 0, 0));
    let h = hit(&vec![front, back], &r, T_MIN_EPS, T_MAX).expect("scene must be hit");
    assert_eq!(h.t, 4 * ONE);
    assert_eq!(h.material, grey());
    // The scan order must not matter.
    let h2 = hit(&vec![back, front], &r, T_MIN_EPS, T_MAX).expect("scene must be hit");
    assert_eq!(h2.t, 4 * ONE);
    assert_eq!(h2.material, grey());
}

#[test]
fn scene_hit_narrows_to_a_behind_surface_when_front_is_out_of_range() {
    // The same two spheres, but the query starts past the front one.
    let front = Sphere { center: Vec3::new(5 * ONE, 0, 0), radius: ONE, material: grey() };
    let back = Sphere {
        center: Vec3::new(8 * ONE, 0, 0),
        radius: ONE,
        material: Material::Dielectric(98304),
    };
    let r = Ray::new(Vec3::zeros(), Vec3::new(ONE, 0, 0));
    let h = hit(&vec![front, back], &r, 13 * ONE / 2, T_MAX).expect("back sphere in range");
    assert_eq!(h.t, 7 * ONE);
    assert_eq!(h.material, Material::Dielectric(98304));
}

#[test]
fn empty_scene_reports_no_hit() {
    let r = Ray::new(Vec3::zeros(), Vec3::new(ONE, 0, 0));
    let world: Vec<Sphere> = vec![];
    assert!(hit(&world, &r, T_MIN_EPS, T_MAX).is_none());
}

#[test]
fn identical_spheres_tie_on_the_same_parameter() {
    let s = Sphere { center: Vec3::new(5 * ONE, 0, 0), radius: ONE, material: grey() };
    let r = Ray::new(Vec3::zeros(), Vec3::new(ONE, 0, 0));
    let h = hit(&vec![s, s], &r, T_MIN_EPS, T_MAX).expect("both spheres are ahead");
    assert_eq!(h.t, 4 * ONE);
    assert_eq!(h, s.hit(&r, T_MIN_EPS, T_MAX).unwrap());
}

#[test]
fn unit_ball_sampling_is_deterministic_and_inside() {
    let mut r1 = Rng::new(9);
    let mut r2 = Rng::new(9);
    for _ in 0..50 {
        let p = random_in_unit_sphere(&mut r1);
        let q = random_in_unit_sphere(&mut r2);
        assert_eq!(p, q);
        assert!(p.dot(&p) < ONE);
    }
}
