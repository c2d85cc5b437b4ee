//! Material scattering: diffuse (Lambertian), fuzzy specular (Metal) and
//! refractive (Dielectric) transport.

use crate::fixed::{
    fx_add, fx_div, fx_mul, fx_neg, fx_sqrt, fx_sub, spec_fx_add, spec_fx_div, spec_fx_mul,
    spec_fx_neg, spec_fx_sqrt, spec_fx_sub,
};
use crate::ray::{HitRec, Ray};
use crate::rng::{spec_rng_next, spec_rng_unit, Rng};
use crate::sphere::{random_in_unit_sphere, spec_sphere_sample};
use crate::vec3::{
    spec_vadd, spec_vdot, spec_vneg, spec_vscale, spec_vsub, spec_vunit, Vec3,
};
use vstd::prelude::*;

verus! {

/// The closed set of surface behaviours: a diffuse albedo, a fuzzy mirror,
/// or a clear refractive medium of a given index.
#[derive(Clone, Copy, Debug, PartialEq, Eq, Structural)]
pub enum Material {
    Lambertian(Vec3),
    Metal(Vec3, i64),
    Dielectric(i64),
}

/// Mirror reflection `v - 2 (v . n) n`.
pub open spec fn spec_reflect(v: Vec3, n: Vec3) -> Vec3 {
    spec_vsub(v, spec_vscale(spec_vscale(n, 131072), spec_vdot(v, n)))
}

/// Reflect `vect` about `norm`.
pub fn reflect(vect: Vec3, norm: &Vec3) -> (r: Vec3)
    ensures
        r == spec_reflect(vect, *norm),
{
    vect.vsub(&norm.scale(131072).scale(vect.dot(norm)))
}

/// Snell refraction of `v` through a surface of outward normal `n` with
/// index ratio `ni_over_nt`; `None` when the discriminant forbids it (total
/// internal reflection).
pub open spec fn spec_refract(v: Vec3, n: Vec3, ni_over_nt: i64) -> Option<Vec3> {
    let unit = spec_vunit(v);
    let dt = spec_vdot(unit, n);
    let disc = spec_fx_sub(
        65536,
        spec_fx_mul(spec_fx_mul(ni_over_nt, ni_over_nt), spec_fx_sub(65536, spec_fx_mul(dt, dt))),
    );
    if disc > 0 {
        Some(
            spec_vsub(
                spec_vscale(spec_vsub(unit, spec_vscale(n, dt)), ni_over_nt),
                spec_vscale(n, spec_fx_sqrt(disc)),
            ),
        )
    } else {
        None
    }
}

/// Refract `vect` about `norm`, or report total internal reflection.
pub fn refract(vect: &Vec3, norm: Vec3, ni_over_nt: i64) -> (r: Option<Vec3>)
    ensures
        r == spec_refract(*vect, norm, ni_over_nt),
{
    let unit = vect.normalize();
    let dt = unit.dot(&norm);
    let disc = fx_sub(65536, fx_mul(fx_mul(ni_over_nt, ni_over_nt), fx_sub(65536, fx_mul(dt, dt))));
    if disc > 0 {
        Some(unit.vsub(&norm.scale(dt)).scale(ni_over_nt).vsub(&norm.scale(fx_sqrt(disc))))
    } else {
        None
    }
}

/// Schlick's approximation of Fresnel reflectance by incidence angle:
/// `r0 + (1 - r0) (1 - cosine)^5` with `r0 = ((1 - n) / (1 + n))^2`.  The
/// fifth power is taken by repeated fixed-point squaring.
pub open spec fn spec_schlick(cosine: i64, ref_idx: i64) -> i64 {
    let r0a = spec_fx_div(spec_fx_sub(65536, ref_idx), spec_fx_add(65536, ref_idx));
    let r0 = spec_fx_mul(r0a, r0a);
    let e = spec_fx_sub(65536, cosine);
    let e2 = spec_fx_mul(e, e);
    let e4 = spec_fx_mul(e2, e2);
    spec_fx_add(r0, spec_fx_mul(spec_fx_sub(65536, r0), spec_fx_mul(e4, e)))
}

/// Schlick reflectance estimate for a given incidence cosine and index.
pub fn schlick(cosine: i64, ref_idx: i64) -> (r: i64)
    ensures
        r == spec_schlick(cosine, ref_idx),
{
    let r0a = fx_div(fx_sub(65536, ref_idx), fx_add(65536, ref_idx));
    let r0 = fx_mul(r0a, r0a);
    let e = fx_sub(65536, cosine);
    let e2 = fx_mul(e, e);
    let e4 = fx_mul(e2, e2);
    fx_add(r0, fx_mul(fx_sub(65536, r0), fx_mul(e4, e)))
}

/// Metal fuzz is clamped into `[0, 1]` at use time.
pub open spec fn spec_fuzz_clamp(fuzz: i64) -> i64 {
    if fuzz > 65536 {
        65536
    } else if fuzz < 0 {
        0
    } else {
        fuzz
    }
}

/// The direction a Metal surface scatters to: the mirror reflection of the
/// unit incoming direction, perturbed by a fuzz-scaled random ball point.
pub open spec fn spec_metal_dir(ray: Ray, hitr: HitRec, fuzz: i64, s: u64) -> Vec3 {
    let refl = spec_reflect(spec_vunit(ray.dire), hitr.norm);
    let (p, s2) = spec_sphere_sample(s, 64);
    spec_vadd(refl, spec_vscale(p, spec_fuzz_clamp(fuzz)))
}

/// The outward normal, index ratio and incidence cosine a Dielectric uses,
/// by whether the ray exits (travels with the stored normal) or enters.
pub open spec fn spec_dielectric_setup(ray: Ray, hitr: HitRec, ref_idx: i64) -> (Vec3, i64, i64) {
    let d = spec_vdot(ray.dire, hitr.norm);
    if d > 0 {
        (
            spec_vneg(hitr.norm),
            ref_idx,
            spec_fx_div(spec_fx_mul(ref_idx, d), crate::vec3::spec_vnorm(ray.dire)),
        )
    } else {
        (
            hitr.norm,
            spec_fx_div(65536, ref_idx),
            spec_fx_div(spec_fx_neg(d), crate::vec3::spec_vnorm(ray.dire)),
        )
    }
}

/// What `scatter` returns and the random state it leaves behind.
#[verifier::opaque]
pub open spec fn spec_scatter(m: Material, ray: Ray, hitr: HitRec, s: u64) -> (
    Option<(Vec3, Ray)>,
    u64,
) {
    match m {
        Material::Lambertian(albedo) => {
            let (p, s2) = spec_sphere_sample(s, 64);
            let target = spec_vadd(hitr.norm, p);
            (Some((albedo, Ray { orig: hitr.p, dire: target })), s2)
        },
        Material::Metal(albedo, fuzz) => {
            let (p, s2) = spec_sphere_sample(s, 64);
            let dir = spec_metal_dir(ray, hitr, fuzz, s);
            if spec_vdot(dir, hitr.norm) > 0 {
                (Some((albedo, Ray { orig: hitr.p, dire: dir })), s2)
            } else {
                (None, s2)
            }
        },
        Material::Dielectric(ref_idx) => {
            let white = Vec3 { x: 65536, y: 65536, z: 65536 };
            let refl = spec_reflect(ray.dire, hitr.norm);
            let (out_norm, ni_over_nt, cosine) = spec_dielectric_setup(ray, hitr, ref_idx);
            match spec_refract(ray.dire, out_norm, ni_over_nt) {
                Some(refr) => {
                    let s2 = spec_rng_next(s);
                    if spec_rng_unit(s) < spec_schlick(cosine, ref_idx) {
                        (Some((white, Ray { orig: hitr.p, dire: refl })), s2)
                    } else {
                        (Some((white, Ray { orig: hitr.p, dire: refr })), s2)
                    }
                },
                None => (Some((white, Ray { orig: hitr.p, dire: refl })), s),
            }
        },
    }
}

impl Material {
    /// Scatter an incoming ray at a hit: the attenuation and the continued
    /// ray, or `None` when the ray is absorbed.
    ///
    /// A Lambertian surface always scatters and attenuates by its albedo; a
    /// Metal surface absorbs exactly when the fuzzed reflection would leave
    /// below the surface; a Dielectric never absorbs, attenuates by white,
    /// and falls back to pure reflection whenever refraction is impossible
    /// (total internal reflection).
    pub fn scatter(&self, ray: &Ray, hitr: &HitRec, rng: &mut Rng) -> (r: Option<(Vec3, Ray)>)
        ensures
            ({
                let (res, s2) = spec_scatter(*self, *ray, *hitr, old(rng).state);
                r == res && final(rng).state == s2
            }),
            *self matches Material::Lambertian(albedo) ==> (r matches Some((att, sc)) && att
                == albedo && sc.orig == hitr.p),
            *self matches Material::Metal(albedo, fuzz) ==> ((r matches Some((att, sc)) && att
                == albedo && sc.orig == hitr.p && spec_vdot(sc.dire, hitr.norm) > 0) || (r is None
                && spec_vdot(spec_metal_dir(*ray, *hitr, fuzz, old(rng).state), hitr.norm) <= 0)),
            *self matches Material::Dielectric(ref_idx) ==> (r matches Some((att, sc)) && att == (
            Vec3 { x: 65536, y: 65536, z: 65536 }) && sc.orig == hitr.p),
            *self matches Material::Dielectric(ref_idx) && spec_refract(
                ray.dire,
                spec_dielectric_setup(*ray, *hitr, ref_idx).0,
                spec_dielectric_setup(*ray, *hitr, ref_idx).1,
            ) is None ==> (r matches Some((att, sc)) && sc.dire == spec_reflect(
                ray.dire,
                hitr.norm,
            ) && final(rng).state == old(rng).state),
    {
        proof {
            reveal(spec_scatter);
        }
        match self {
            Material::Lambertian(attenuation) => {
                let p = random_in_unit_sphere(rng);
                let target = hitr.norm.vadd(&p);
                Some((*attenuation, Ray::new(hitr.p, target)))
            },
            Material::Metal(attenuation, fuzz) => {
                let reflected = reflect(ray.dire.normalize(), &hitr.norm);
                let f: i64 = if *fuzz > 65536 {
                    65536
                } else if *fuzz < 0 {
                    0
                } else {
                    *fuzz
                };
                let p = random_in_unit_sphere(rng);
                let dir = reflected.vadd(&p.scale(f));
                let scattered = Ray::new(hitr.p, dir);
                if scattered.dire.dot(&hitr.norm) > 0 {
                    Some((*attenuation, scattered))
                } else {
                    None
                }
            },
            Material::Dielectric(ref_idx) => {
                let reflected = reflect(ray.dire, &hitr.norm);
                let attenuation = Vec3::new(65536, 65536, 65536);
                let d = ray.dire.dot(&hitr.norm);
                let (out_norm, ni_over_nt, cosine): (Vec3, i64, i64) = if d > 0 {
                    (hitr.norm.vneg(), *ref_idx, fx_div(fx_mul(*ref_idx, d), ray.dire.norm()))
                } else {
                    (hitr.norm, fx_div(65536, *ref_idx), fx_div(fx_neg(d), ray.dire.norm()))
                };
                if let Some(refracted) = refract(&ray.dire, out_norm, ni_over_nt) {
                    let draw = rng.next_unit();
                    if draw < schlick(cosine, *ref_idx) {
                        Some((attenuation, Ray::new(hitr.p, reflected)))
                    } else {
                        Some((attenuation, Ray::new(hitr.p, refracted)))
                    }
                } else {
                    Some((attenuation, Ray::new(hitr.p, reflected)))
                }
            },
        }
    }
}

} // verus!
