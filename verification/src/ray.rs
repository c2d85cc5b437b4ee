//! Rays, hit records, the scene-wide nearest-hit query, the recursive
//! radiance integrator and the renderer driver.

use crate::camera::{spec_get_ray, Camera};
use crate::fixed::{
    fx_add, fx_div, fx_div_count, fx_mul, fx_of_usize, fx_sqrt, fx_sub, lemma_isqrt_bounds,
    spec_fx_add, spec_fx_div, spec_fx_divk, spec_fx_mul, spec_fx_of_int, spec_fx_sqrt,
    spec_fx_sub, fx_tdiv, FX_MAX,
};
use crate::material::{spec_scatter, Material};
use crate::object::Object;
use crate::rng::{spec_rng_next, spec_rng_unit, Rng};
use crate::sphere::Sphere;
use crate::vec3::{spec_vadd, spec_vcmul, spec_vscale, spec_vunit, Vec3};
use vstd::prelude::*;

verus! {

/// A parametric line: `orig + t * dire`.
#[derive(Clone, Copy, Debug, PartialEq, Eq, Structural)]
pub struct Ray {
    pub orig: Vec3,
    pub dire: Vec3,
}

/// The point at parameter `t` along a ray.
pub open spec fn spec_point_at(r: Ray, t: i64) -> Vec3 {
    spec_vadd(r.orig, spec_vscale(r.dire, t))
}

impl Ray {
    pub fn new(origin: Vec3, direction: Vec3) -> (r: Ray)
        ensures
            r.orig == origin,
            r.dire == direction,
    {
        Ray { orig: origin, dire: direction }
    }

    pub fn point_at_parameter(&self, param: i64) -> (r: Vec3)
        ensures
            r == spec_point_at(*self, param),
    {
        self.orig.vadd(&self.dire.scale(param))
    }
}

/// The result of a successful ray-primitive intersection.  The material is
/// carried by value rather than borrowed from the scene, so a record does not
/// entangle its lifetime with the scene's storage.
#[derive(Clone, Copy, Debug, PartialEq, Eq, Structural)]
pub struct HitRec {
    pub t: i64,
    pub p: Vec3,
    pub norm: Vec3,
    pub material: Material,
}

/// The parametric distance below which the integrator ignores hits, to
/// suppress spurious self-intersection right after a scattering event
/// ("shadow acne"); about `1e-4` in fixed point.
pub const T_MIN_EPS: i64 = 7;

/// The nearest-hit scan from primitive `i` on, given the best hit found so
/// far and the narrowed far end of the range.
pub open spec fn spec_scene_hit_from<T: Object>(
    objs: Seq<T>,
    i: int,
    ray: Ray,
    t_min: i64,
    closest: i64,
    best: Option<HitRec>,
) -> Option<HitRec>
    decreases objs.len() - i,
{
    if i < 0 || i >= objs.len() {
        best
    } else {
        match objs[i].spec_hit(ray, t_min, closest) {
            Some(h) => spec_scene_hit_from(objs, i + 1, ray, t_min, h.t, Some(h)),
            None => spec_scene_hit_from(objs, i + 1, ray, t_min, closest, best),
        }
    }
}

/// The nearest hit among all primitives over `[t_min, t_max]`.
pub open spec fn spec_scene_hit<T: Object>(
    objs: Seq<T>,
    ray: Ray,
    t_min: i64,
    t_max: i64,
) -> Option<HitRec> {
    spec_scene_hit_from(objs, 0, ray, t_min, t_max, None)
}

/// Scan every primitive and return the nearest hit whose parameter lies in
/// `[t_min, t_max]`: none exactly when no primitive hits in range, and a
/// reported hit is one some primitive reports over the full range, with the
/// least parameter any primitive reports there.
#[verifier::loop_isolation(false)]
pub fn hit<T: Object>(obj_list: &Vec<T>, ray: &Ray, t_min: i64, t_max: i64) -> (r: Option<HitRec>)
    ensures
        r == spec_scene_hit(obj_list@, *ray, t_min, t_max),
        r is None ==> forall|k: int|
            0 <= k < obj_list@.len() ==> obj_list@[k].spec_hit(*ray, t_min, t_max) is None,
        r matches Some(h) ==> t_min <= h.t <= t_max && (exists|k: int|
            0 <= k < obj_list@.len() && obj_list@[k].spec_hit(*ray, t_min, t_max) == Some(h)) && (
        forall|k: int|
            0 <= k < obj_list@.len() ==> ((#[trigger] obj_list@[k].spec_hit(*ray, t_min, t_max))
                matches Some(h2) ==> h.t <= h2.t)),
{
    let ghost s = obj_list@;
    let mut best: Option<HitRec> = None;
    let mut closest: i64 = t_max;
    let mut i: usize = 0;
    while i < obj_list.len()
        invariant
            i <= obj_list.len(),
            closest <= t_max,
            spec_scene_hit_from(s, i as int, *ray, t_min, closest, best) == spec_scene_hit(
                s,
                *ray,
                t_min,
                t_max,
            ),
            best is None ==> closest == t_max,
            best is None ==> forall|k: int|
                0 <= k < i ==> s[k].spec_hit(*ray, t_min, t_max) is None,
            best matches Some(h) ==> closest == h.t && t_min <= h.t <= t_max && (exists|k: int|
                0 <= k < i && s[k].spec_hit(*ray, t_min, t_max) == Some(h)),
            forall|k: int|
                0 <= k < i ==> ((#[trigger] s[k].spec_hit(*ray, t_min, t_max)) matches Some(h2)
                    ==> closest <= h2.t),
        decreases obj_list.len() - i,
    {
        let obj = &obj_list[i];
        let found = obj.hit(ray, t_min, closest);
        proof {
            obj.lemma_hit_range(*ray, t_min, closest);
            obj.lemma_hit_narrow(*ray, t_min, closest, t_max);
        }
        match found {
            Some(temp) => {
                proof {
                    assert(s[i as int].spec_hit(*ray, t_min, t_max) == Some(temp));
                }
                closest = temp.t;
                best = Some(temp);
            },
            None => {},
        }
        i = i + 1;
    }
    best
}

/// The sky gradient a missing ray shows: white blended toward pale blue by
/// the vertical component of the unit direction.
pub open spec fn spec_sky(dire: Vec3) -> Vec3 {
    let unit = spec_vunit(dire);
    let t = spec_fx_add(spec_fx_mul(32768, unit.y), 65536);
    spec_vadd(
        spec_vscale(Vec3 { x: 65536, y: 65536, z: 65536 }, spec_fx_sub(65536, t)),
        spec_vscale(Vec3 { x: 32768, y: 45875, z: 65536 }, t),
    )
}

/// The radiance estimate of one traced ray and the random state it leaves:
/// sky on a miss, black at the depth cap or on absorption, and otherwise the
/// scattered radiance attenuated component-wise.
#[verifier::opaque]
pub open spec fn spec_color(r: Ray, objs: Seq<Sphere>, depth: int, s: u64) -> (Vec3, u64)
    decreases 50 - depth,
{
    match spec_scene_hit(objs, r, T_MIN_EPS, FX_MAX) {
        Some(hit_rec) => if depth < 50 {
            let (sc, s2) = spec_scatter(hit_rec.material, r, hit_rec, s);
            match sc {
                Some((attenuation, scattered)) => {
                    let (c, s3) = spec_color(scattered, objs, depth + 1, s2);
                    (spec_vcmul(c, attenuation), s3)
                },
                None => (Vec3 { x: 0, y: 0, z: 0 }, s2),
            }
        } else {
            (Vec3 { x: 0, y: 0, z: 0 }, s)
        },
        None => (spec_sky(r.dire), s),
    }
}

/// Radiance of a ray that misses everything depends only on its direction,
/// not its origin.
pub proof fn lemma_sky_ignores_origin(r1: Ray, r2: Ray, objs: Seq<Sphere>, depth: int, s: u64)
    requires
        r1.dire == r2.dire,
        spec_scene_hit(objs, r1, T_MIN_EPS, FX_MAX) is None,
        spec_scene_hit(objs, r2, T_MIN_EPS, FX_MAX) is None,
    ensures
        spec_color(r1, objs, depth, s).0 == spec_color(r2, objs, depth, s).0,
        spec_color(r1, objs, depth, s).0 == spec_sky(r1.dire),
{
    reveal(spec_color);
}

/// Trace a ray through the scene: the recursive radiance integrator.
///
/// A miss returns exactly the sky gradient for the ray's direction and
/// leaves the random source untouched; a hit at recursion depth 50 or more
/// returns black; otherwise the hit material scatters and the recursion
/// continues with the attenuated result, or returns black on absorption.
pub fn color(r: &Ray, world: &Vec<Sphere>, depth: usize, rng: &mut Rng) -> (c: Vec3)
    ensures
        ({
            let (cc, s2) = spec_color(*r, world@, depth as int, old(rng).state);
            c == cc && final(rng).state == s2
        }),
        spec_scene_hit(world@, *r, T_MIN_EPS, FX_MAX) is None ==> c == spec_sky(r.dire)
            && final(rng).state == old(rng).state,
        depth >= 50 && spec_scene_hit(world@, *r, T_MIN_EPS, FX_MAX) is Some ==> c == (Vec3 {
            x: 0,
            y: 0,
            z: 0,
        }) && final(rng).state == old(rng).state,
    decreases 50 - depth,
{
    proof {
        reveal(spec_color);
    }
    match hit(world, r, T_MIN_EPS, FX_MAX) {
        Some(hit_rec) => {
            if depth < 50 {
                if let Some((attenuation, scattered)) = hit_rec.material.scatter(
                    r,
                    &hit_rec,
                    rng,
                ) {
                    color(&scattered, world, depth + 1, rng).component_mul(&attenuation)
                } else {
                    Vec3::zeros()
                }
            } else {
                Vec3::zeros()
            }
        },
        None => {
            let unit = r.dire.normalize();
            let t = fx_add(fx_mul(32768, unit.y), 65536);
            Vec3::new(65536, 65536, 65536).scale(fx_sub(65536, t)).vadd(
                &Vec3::new(32768, 45875, 65536).scale(t),
            )
        },
    }
}

/// One jittered sample of pixel `(i, j)`: the traced radiance and the random
/// state left behind.  The image coordinates are `(i + x) / nx` and
/// `(j + x) / ny` with a fresh unit draw `x` for each.
#[verifier::opaque]
pub open spec fn spec_one_sample(
    objs: Seq<Sphere>,
    cam: Camera,
    i: int,
    j: int,
    nx: int,
    ny: int,
    s: u64,
) -> (Vec3, u64) {
    let u = spec_fx_div(spec_fx_add(spec_fx_of_int(i), spec_rng_unit(s)), spec_fx_of_int(nx));
    let s1 = spec_rng_next(s);
    let v = spec_fx_div(spec_fx_add(spec_fx_of_int(j), spec_rng_unit(s1)), spec_fx_of_int(ny));
    let s2 = spec_rng_next(s1);
    let (ray, s3) = spec_get_ray(cam, u, v, s2);
    spec_color(ray, objs, 0, s3)
}

/// Sum `k` further samples of pixel `(i, j)` onto `acc`.
pub open spec fn spec_accum_samples(
    objs: Seq<Sphere>,
    cam: Camera,
    i: int,
    j: int,
    nx: int,
    ny: int,
    acc: Vec3,
    k: int,
    s: u64,
) -> (Vec3, u64)
    decreases k,
{
    if k <= 0 {
        (acc, s)
    } else {
        let (c, s2) = spec_one_sample(objs, cam, i, j, nx, ny, s);
        spec_accum_samples(objs, cam, i, j, nx, ny, spec_vadd(acc, c), k - 1, s2)
    }
}

/// The byte a colour channel writes: gamma-2 correction (a square root)
/// scaled to `[0, 255]` and truncated.
pub open spec fn spec_gamma_byte(x: i64) -> u8 {
    let b = fx_tdiv(spec_fx_sqrt(x) * 255, 65536);
    if b > 255 {
        255
    } else {
        b as u8
    }
}

/// Gamma-correct an averaged colour channel and truncate it to a byte.
pub fn gamma_byte(x: i64) -> (r: u8)
    ensures
        r == spec_gamma_byte(x),
{
    let sq = fx_sqrt(x);
    proof {
        if x > 0 {
            lemma_isqrt_bounds(x * 65536);
        }
    }
    let q: u128 = ((sq as u128) * 255) / 65536;
    if q > 255 {
        255
    } else {
        q as u8
    }
}

/// The four bytes pixel `(i, j)` writes (R, G, B and a fully opaque alpha),
/// with the random state left behind: `ns` jittered samples averaged and
/// gamma-corrected.
pub open spec fn spec_render_pixel(
    objs: Seq<Sphere>,
    cam: Camera,
    i: int,
    j: int,
    nx: int,
    ny: int,
    ns: int,
    s: u64,
) -> ((u8, u8, u8, u8), u64) {
    let (col, s2) = spec_accum_samples(objs, cam, i, j, nx, ny, Vec3 { x: 0, y: 0, z: 0 }, ns, s);
    (
        (
            spec_gamma_byte(spec_fx_divk(col.x, ns)),
            spec_gamma_byte(spec_fx_divk(col.y, ns)),
            spec_gamma_byte(spec_fx_divk(col.z, ns)),
            255u8,
        ),
        s2,
    )
}

/// Render one pixel: `ns` jittered samples, averaged, gamma-corrected and
/// truncated to RGBA bytes.  Pixels are independent, so a driver may compute
/// them in any order or in parallel, each with its own random source.
#[verifier::loop_isolation(false)]
pub fn render_pixel(
    scene: &Vec<Sphere>,
    camera: &Camera,
    i: usize,
    j: usize,
    nx: usize,
    ny: usize,
    ns: usize,
    rng: &mut Rng,
) -> (px: (u8, u8, u8, u8))
    ensures
        ({
            let (p, s2) = spec_render_pixel(
                scene@,
                *camera,
                i as int,
                j as int,
                nx as int,
                ny as int,
                ns as int,
                old(rng).state,
            );
            px == p && final(rng).state == s2
        }),
        px.3 == 255,
{
    let mut col = Vec3::zeros();
    let mut k: usize = 0;
    while k < ns
        invariant
            k <= ns,
            spec_accum_samples(
                scene@,
                *camera,
                i as int,
                j as int,
                nx as int,
                ny as int,
                col,
                (ns - k) as int,
                rng.state,
            ) == spec_accum_samples(
                scene@,
                *camera,
                i as int,
                j as int,
                nx as int,
                ny as int,
                Vec3 { x: 0, y: 0, z: 0 },
                ns as int,
                old(rng).state,
            ),
        decreases ns - k,
    {
        let ghost s_before: u64 = rng.state;
        let xi1 = rng.next_unit();
        let u = fx_div(fx_add(fx_of_usize(i), xi1), fx_of_usize(nx));
        let xi2 = rng.next_unit();
        let v = fx_div(fx_add(fx_of_usize(j), xi2), fx_of_usize(ny));
        let r = camera.get_ray(u, v, rng);
        let c = color(&r, scene, 0, rng);
        proof {
            reveal(spec_one_sample);
            assert(spec_one_sample(
                scene@,
                *camera,
                i as int,
                j as int,
                nx as int,
                ny as int,
                s_before,
            ) == (c, rng.state));
        }
        col = col.vadd(&c);
        k = k + 1;
    }
    (
        gamma_byte(fx_div_count(col.x, ns)),
        gamma_byte(fx_div_count(col.y, ns)),
        gamma_byte(fx_div_count(col.z, ns)),
        255,
    )
}

/// One image row, pixels `i` to `nx - 1` of row `j`, appended to `acc`.
pub open spec fn spec_render_row(
    objs: Seq<Sphere>,
    cam: Camera,
    j: int,
    i: int,
    nx: int,
    ny: int,
    ns: int,
    acc: Seq<u8>,
    s: u64,
) -> (Seq<u8>, u64)
    decreases nx - i,
{
    if i >= nx {
        (acc, s)
    } else {
        let (px, s2) = spec_render_pixel(objs, cam, i, j, nx, ny, ns, s);
        spec_render_row(
            objs,
            cam,
            j,
            i + 1,
            nx,
            ny,
            ns,
            acc.push(px.0).push(px.1).push(px.2).push(px.3),
            s2,
        )
    }
}

/// The rows `jj - 1` down to `0`, appended to `acc`: the top image row is
/// the highest `j`, matching a bottom-left-origin camera.
pub open spec fn spec_render_rows(
    objs: Seq<Sphere>,
    cam: Camera,
    jj: int,
    nx: int,
    ny: int,
    ns: int,
    acc: Seq<u8>,
    s: u64,
) -> (Seq<u8>, u64)
    decreases jj,
{
    if jj <= 0 {
        (acc, s)
    } else {
        let (acc2, s2) = spec_render_row(objs, cam, jj - 1, 0, nx, ny, ns, acc, s);
        spec_render_rows(objs, cam, jj - 1, nx, ny, ns, acc2, s2)
    }
}

/// The whole image: `nx * ny * 4` RGBA bytes, top row first, and the random
/// state left behind.
pub open spec fn spec_render(
    objs: Seq<Sphere>,
    cam: Camera,
    nx: int,
    ny: int,
    ns: int,
    s: u64,
) -> (Seq<u8>, u64) {
    spec_render_rows(objs, cam, ny, nx, ny, ns, Seq::empty(), s)
}

/// A render is a pure function of scene, camera, dimensions, sample count
/// and seed: two renders from equal inputs produce byte-identical buffers.
pub proof fn lemma_render_deterministic(
    objs: Seq<Sphere>,
    cam: Camera,
    nx: int,
    ny: int,
    ns: int,
    s1: u64,
    s2: u64,
)
    requires
        s1 == s2,
    ensures
        spec_render(objs, cam, nx, ny, ns, s1) == spec_render(objs, cam, nx, ny, ns, s2),
{
}

/// Append image row `j` to the buffer: `nx` pixels of four bytes each, the
/// prefix untouched and every appended fourth byte an opaque alpha.
#[verifier::loop_isolation(false)]
fn render_row(
    scene: &Vec<Sphere>,
    camera: &Camera,
    j: usize,
    nx: usize,
    ny: usize,
    ns: usize,
    pixs: &mut Vec<u8>,
    rng: &mut Rng,
)
    requires
        old(pixs)@.len() % 4 == 0,
        old(pixs)@.len() + nx * 4 <= usize::MAX,
    ensures
        ({
            let (buf, s2) = spec_render_row(
                scene@,
                *camera,
                j as int,
                0,
                nx as int,
                ny as int,
                ns as int,
                old(pixs)@,
                old(rng).state,
            );
            final(pixs)@ == buf && final(rng).state == s2
        }),
        final(pixs)@.len() == old(pixs)@.len() + nx * 4,
        forall|b: int| 0 <= b < old(pixs)@.len() ==> final(pixs)@[b] == old(pixs)@[b],
        forall|b: int|
            old(pixs)@.len() <= b < final(pixs)@.len() && b % 4 == 3 ==> final(pixs)@[b] == 255,
{
    let mut i: usize = 0;
    while i < nx
        invariant
            i <= nx,
            pixs@.len() == old(pixs)@.len() + i * 4,
            spec_render_row(
                scene@,
                *camera,
                j as int,
                i as int,
                nx as int,
                ny as int,
                ns as int,
                pixs@,
                rng.state,
            ) == spec_render_row(
                scene@,
                *camera,
                j as int,
                0,
                nx as int,
                ny as int,
                ns as int,
                old(pixs)@,
                old(rng).state,
            ),
            forall|b: int| 0 <= b < old(pixs)@.len() ==> pixs@[b] == old(pixs)@[b],
            forall|b: int| old(pixs)@.len() <= b < pixs@.len() && b % 4 == 3 ==> pixs@[b] == 255,
        decreases nx - i,
    {
        let px = render_pixel(scene, camera, i, j, nx, ny, ns, rng);
        pixs.push(px.0);
        pixs.push(px.1);
        pixs.push(px.2);
        pixs.push(px.3);
        i = i + 1;
    }
}

/// Render the scene to an RGBA8 buffer, row-major with the top image row
/// first.  The buffer is exactly `spec_render` of the inputs and the seed;
/// in particular it holds `nx * ny * 4` bytes and every fourth byte is an
/// opaque alpha.
#[verifier::loop_isolation(false)]
pub fn render(
    scene: &Vec<Sphere>,
    camera: Camera,
    nx: usize,
    ny: usize,
    ns: usize,
    rng: &mut Rng,
) -> (pixs: Vec<u8>)
    requires
        nx * ny * 4 <= usize::MAX,
    ensures
        ({
            let (buf, s2) = spec_render(scene@, camera, nx as int, ny as int, ns as int, old(
                rng,
            ).state);
            pixs@ == buf && final(rng).state == s2
        }),
        pixs@.len() == nx * ny * 4,
        forall|b: int| 0 <= b < pixs@.len() && b % 4 == 3 ==> pixs@[b] == 255,
{
    let mut pixs: Vec<u8> = Vec::new();
    let mut jj: usize = ny;
    while jj > 0
        invariant
            jj <= ny,
            pixs@.len() % 4 == 0,
            pixs@.len() == (ny - jj) * (nx * 4),
            spec_render_rows(
                scene@,
                camera,
                jj as int,
                nx as int,
                ny as int,
                ns as int,
                pixs@,
                rng.state,
            ) == spec_render(scene@, camera, nx as int, ny as int, ns as int, old(rng).state),
            forall|b: int| 0 <= b < pixs@.len() && b % 4 == 3 ==> pixs@[b] == 255,
        decreases jj,
    {
        jj = jj - 1;
        proof {
            assert((ny - jj) * (nx * 4) == (ny - jj - 1) * (nx * 4) + nx * 4) by (nonlinear_arith);
            assert((ny - jj - 1) * (nx * 4) >= 0) by (nonlinear_arith)
                requires
                    jj < ny,
            ;
            assert((ny - jj) * (nx * 4) <= (ny as int) * (nx * 4)) by (nonlinear_arith)
                requires
                    0 <= ny - jj <= ny,
            ;
            assert((ny as int) * (nx * 4) == nx * ny * 4) by (nonlinear_arith);
        }
        render_row(scene, &camera, jj, nx, ny, ns, &mut pixs, rng);
    }
    proof {
        assert((ny - 0) * (nx * 4) == nx * ny * 4) by (nonlinear_arith);
    }
    pixs
}

} // verus!

