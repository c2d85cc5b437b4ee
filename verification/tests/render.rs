//! Camera rays, the integrator's sky and depth-cap behaviour, and
//! end-to-end rendering.

use raytracing::camera::{fx_tan, Camera};
use raytracing::material::Material;
use raytracing::ray::{color, gamma_byte, render, render_pixel, Ray};
use raytracing::rng::Rng;
use raytracing::sphere::Sphere;
use raytracing::vec3::Vec3;

const ONE: i64 = 65536;

fn pinhole_camera() -> Camera {
    Camera::new(
        Vec3::zeros(),
        Vec3::new(0, 0, -ONE),
        Vec3::new(0, ONE, 0),
        90 * ONE,
        ONE,
        0,
        ONE,
    )
}

#[test]
fn tangent_approximation_is_close() {
    // tan(pi/4) = 1; the fixed-point Taylor value stays within a fraction
    // of a percent.
    let t: i64 = fx_tan(51472);
    assert!((t - ONE).abs() < 400, "tan(pi/4) = {}", t);
    assert_eq!(fx_tan(0), 0);
}

#[test]
fn pinhole_camera_basis_and_centre_ray() {
    let cam = pinhole_camera();
    assert_eq!(cam.origin, Vec3::zeros());
    assert_eq!(cam.u, Vec3::new(ONE, 0, 0));
    assert_eq!(cam.v, Vec3::new(0, ONE, 0));
    assert_eq!(cam.lens_radius, 0);
    // The centre of the image looks straight at the target.
    let mut rng = Rng::new(3);
    let r = cam.get_ray(32768, 32768, &mut rng);
    assert_eq!(r.orig, Vec3::zeros());
    assert_eq!(r.dire, Vec3::new(0, 0, -ONE));
}

#[test]
fn aperture_zero_keeps_the_origin_fixed() {
    let cam = pinhole_camera();
    for seed in 1..20u64 {
        let mut rng = Rng::new(seed);
        let r = cam.get_ray(13107, 52428, &mut rng);
        assert_eq!(r.orig, Vec3::zeros());
    }
}

#[test]
fn wide_aperture_jitters_the_origin_within_the_lens() {
    let cam = Camera::new(
        Vec3::zeros(),
        Vec3::new(0, 0, -ONE),
        Vec3::new(0, ONE, 0),
        90 * ONE,
        ONE,
        2 * ONE,
        ONE,
    );
    assert_eq!(cam.lens_radius, ONE);
    let mut rng = Rng::new(11);
    let mut moved: bool = false;
    for _ in 0..20 {
        let r = cam.get_ray(32768, 32768, &mut rng);
        let off = r.orig;
        assert!(off.dot(&off) < ONE);
        if off != Vec3::zeros() {
            moved = true;
        }
    }
    assert!(moved);
}

#[test]
fn missing_rays_show_the_sky_gradient_exactly() {
    let world: Vec<Sphere> = vec![];
    let mut rng = Rng::new(1);
    let state_before = rng.state;
    // Straight up: t = 1.5, colour (0.25, 0.55, 1.0).
    let up = Ray::new(Vec3::zeros(), Vec3::new(0, ONE, 0));
    assert_eq!(color(&up, &world, 0, &mut rng), Vec3::new(16384, 36044, ONE));
    // Horizontal: t = 1, colour (0.5, 0.7, 1.0).
    let level = Ray::new(Vec3::zeros(), Vec3::new(ONE, 0, 0));
    assert_eq!(color(&level, &world, 0, &mut rng), Vec3::new(32768, 45875, ONE));
    // Straight down: t = 0.5, colour (0.75, 0.85, 1.0).
    let down = Ray::new(Vec3::zeros(), Vec3::new(0, -ONE, 0));
    assert_eq!(color(&down, &world, 0, &mut rng), Vec3::new(49152, 55705, ONE));
    // A miss spends no randomness.
    assert_eq!(rng.state, state_before);
}

#[test]
fn sky_depends_only_on_direction_not_origin() {
    let world: Vec<Sphere> = vec![];
    let dire = Vec3::new(3 * ONE, 5 * ONE, -2 * ONE);
    let r1 = Ray::new(Vec3::zeros(), dire);
    let r2 = Ray::new(Vec3::new(-7 * ONE, 11 * ONE, 42 * ONE), dire);
    let mut rng = Rng::new(5);
    let c1 = color(&r1, &world, 0, &mut rng);
    let c2 = color(&r2, &world, 0, &mut rng);
    assert_eq!(c1, c2);
}

#[test]
fn facing_mirrors_cap_recursion_and_return_black() {
    // Two perfect mirrors either side of the origin bounce the ray back and
    // forth until the depth cap; the result is black, and the call returns.
    let white = Vec3::new(ONE, ONE, ONE);
    let world = vec![
        Sphere {
            center: Vec3::new(5 * ONE, 0, 0),
            radius: ONE,
            material: Material::Metal(white, 0),
        },
        Sphere {
            center: Vec3::new(-5 * ONE, 0, 0),
            radius: ONE,
            material: Material::Metal(white, 0),
        },
    ];
    let r = Ray::new(Vec3::zeros(), Vec3::new(ONE, 0, 0));
    let mut rng = Rng::new(2);
    assert_eq!(color(&r, &world, 0, &mut rng), Vec3::zeros());
}

#[test]
fn depth_cap_returns_black_immediately() {
    let world = vec![Sphere {
        center: Vec3::new(5 * ONE, 0, 0),
        radius: ONE,
        material: Material::Lambertian(Vec3::new(ONE, ONE, ONE)),
    }];
    let r = Ray::new(Vec3::zeros(), Vec3::new(ONE, 0, 0));
    let mut rng = Rng::new(2);
    let state_before = rng.state;
    assert_eq!(color(&r, &world, 50, &mut rng), Vec3::zeros());
    assert_eq!(rng.state, state_before);
}

#[test]
fn gamma_correction_is_a_square_root_to_bytes() {
    assert_eq!(gamma_byte(ONE), 255);
    assert_eq!(gamma_byte(0), 0);
    // sqrt(1/4) = 1/2: 127.5 truncates to 127.
    assert_eq!(gamma_byte(ONE / 4), 127);
    // A negative average (impossible colour) reads as black, not noise.
    assert_eq!(gamma_byte(-5 * ONE), 0);
    // Overbright channels saturate.
    assert_eq!(gamma_byte(100 * ONE), 255);
}

fn dist2(a: (u8, u8, u8), b: (u8, u8, u8)) -> i64 {
    let dr: i64 = a.0 as i64 - b.0 as i64;
    let dg: i64 = a.1 as i64 - b.1 as i64;
    let db: i64 = a.2 as i64 - b.2 as i64;
    dr * dr + dg * dg + db * db
}

#[test]
fn single_sphere_fills_a_tiny_frame_with_its_albedo() {
    // A red sphere fills the whole 2 x 2 frame; every pixel must land
    // nearer the gamma-corrected albedo than the sky.
    let albedo = Vec3::new(58982, 6554, 6554);
    let world = vec![Sphere {
        center: Vec3::new(0, 0, -5 * ONE),
        radius: 294912,
        material: Material::Lambertian(albedo),
    }];
    let cam = Camera::new(
        Vec3::zeros(),
        Vec3::new(0, 0, -ONE),
        Vec3::new(0, ONE, 0),
        90 * ONE,
        ONE,
        0,
        5 * ONE,
    );
    let mut rng = Rng::new(17);
    let buf = render(&world, cam, 2, 2, 1, &mut rng);
    assert_eq!(buf.len(), 16);
    // Gamma-corrected albedo and a representative sky tone, as bytes.
    let albedo_bytes = (241u8, 80u8, 80u8);
    let sky_bytes = (216u8, 232u8, 255u8);
    for px in 0..4 {
        let p = (buf[4 * px], buf[4 * px + 1], buf[4 * px + 2]);
        assert_eq!(buf[4 * px + 3], 255);
        assert!(
            dist2(p, albedo_bytes) < dist2(p, sky_bytes),
            "pixel {} = {:?} is nearer the sky",
            px,
            p
        );
    }
}

#[test]
fn renders_with_equal_seeds_are_byte_identical() {
    let world = vec![
        Sphere {
            center: Vec3::new(0, -1000 * ONE, 0),
            radius: 1000 * ONE,
            material: Material::Lambertian(Vec3::new(32768, 32768, 32768)),
        },
        Sphere {
            center: Vec3::new(0, ONE, 0),
            radius: ONE,
            material: Material::Dielectric(98304),
        },
        Sphere {
            center: Vec3::new(2 * ONE, ONE, 0),
            radius: ONE,
            material: Material::Metal(Vec3::new(45875, 39321, 32768), 6554),
        },
    ];
    let cam = Camera::new(
        Vec3::new(6 * ONE, 2 * ONE, 4 * ONE),
        Vec3::zeros(),
        Vec3::new(0, ONE, 0),
        45 * ONE,
        2 * ONE,
        6554,
        7 * ONE,
    );
    let mut r1 = Rng::new(12345);
    let mut r2 = Rng::new(12345);
    let b1 = render(&world, cam, 4, 2, 2, &mut r1);
    let b2 = render(&world, cam, 4, 2, 2, &mut r2);
    assert_eq!(b1, b2);
    assert_eq!(r1.state, r2.state);
    assert_eq!(b1.len(), 4 * 2 * 4);
    for px in 0..8 {
        assert_eq!(b1[4 * px + 3], 255);
    }
}

#[test]
fn empty_scene_renders_pure_sky() {
    let world: Vec<Sphere> = vec![];
    let cam = pinhole_camera();
    let mut rng = Rng::new(4);
    let buf = render(&world, cam, 2, 2, 1, &mut rng);
    assert_eq!(buf.len(), 16);
    for px in 0..4 {
        let (r, g, b) = (buf[4 * px], buf[4 * px + 1], buf[4 * px + 2]);
        // Sky: blue is full, and channels grow from red to blue.
        assert_eq!(b, 255);
        assert!(r <= g && g <= b);
        assert_eq!(buf[4 * px + 3], 255);
    }
}

#[test]
fn render_pixel_matches_the_full_render() {
    // The driver is a plain pixel loop: rendering pixel by pixel with the
    // same random states reproduces the buffer row by row.
    let world = vec![Sphere {
        center: Vec3::new(0, 0, -5 * ONE),
        radius: 2 * ONE,
        material: Material::Lambertian(Vec3::new(13107, 26214, 39321)),
    }];
    let cam = pinhole_camera();
    let mut rng = Rng::new(77);
    let buf = render(&world, cam, 2, 2, 1, &mut rng);
    let mut rng2 = Rng::new(77);
    let mut by_pixel: Vec<u8> = Vec::new();
    for j in [1usize, 0usize] {
        for i in 0..2usize {
            let px = render_pixel(&world, &cam, i, j, 2, 2, 1, &mut rng2);
            by_pixel.extend_from_slice(&[px.0, px.1, px.2, px.3]);
        }
    }
    assert_eq!(buf, by_pixel);
}

#[test]
fn zero_direction_ray_still_yields_a_defined_sky() {
    // A zero-length direction is degenerate; the total fixed-point algebra
    // resolves it to the horizon colour instead of failing.
    let world: Vec<Sphere> = vec![];
    let mut rng = Rng::new(6);
    let r = Ray::new(Vec3::new(ONE, ONE, ONE), Vec3::zeros());
    assert_eq!(color(&r, &world, 0, &mut rng), Vec3::new(32768, 45875, ONE));
}

#[test]
fn extreme_aspect_ratio_still_renders() {
    let cam = Camera::new(
        Vec3::zeros(),
        Vec3::new(0, 0, -ONE),
        Vec3::new(0, ONE, 0),
        90 * ONE,
        1000 * ONE,
        0,
        ONE,
    );
    let world: Vec<Sphere> = vec![];
    let mut rng = Rng::new(21);
    let buf = render(&world, cam, 4, 1, 1, &mut rng);
    assert_eq!(buf.len(), 16);
    for px in 0..4 {
        assert_eq!(buf[4 * px + 3], 255);
    }
}

#[test]
fn zero_sized_images_are_empty() {
    let world: Vec<Sphere> = vec![];
    let cam = pinhole_camera();
    let mut rng = Rng::new(30);
    assert_eq!(render(&world, cam, 0, 3, 1, &mut rng), Vec::<u8>::new());
    assert_eq!(render(&world, cam, 3, 0, 1, &mut rng), Vec::<u8>::new());
}

#[test]
fn zero_samples_yield_black_pixels() {
    let world: Vec<Sphere> = vec![];
    let cam = pinhole_camera();
    let mut rng = Rng::new(8);
    let buf = render(&world, cam, 2, 1, 0, &mut rng);
    assert_eq!(buf, vec![0, 0, 0, 255, 0, 0, 0, 255]);
}
