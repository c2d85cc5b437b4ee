//! The sphere primitive and the rejection sampler for points in the unit
//! ball.
//!
//! A sphere of negative radius is valid: the reported normal
//! `(point - center) / radius` then points inward, which is how a hollow
//! refractive shell is modelled.

use crate::fixed::{
    fx_add, fx_div, fx_mul, fx_neg, fx_sqrt, fx_sub, lemma_fx_div_mono, lemma_isqrt_bounds,
    spec_fx_add, spec_fx_div, spec_fx_mul, spec_fx_neg, spec_fx_sqrt, spec_fx_sub,
};
use crate::material::Material;
use crate::object::Object;
use crate::ray::{spec_point_at, HitRec, Ray};
use crate::rng::{spec_rng_next, spec_rng_unit, Rng};
use crate::vec3::{lemma_vdot_self_nonneg, spec_vdiv, spec_vdot, spec_vsub, Vec3};
use vstd::prelude::*;

verus! {

#[derive(Clone, Copy, Debug, PartialEq, Eq, Structural)]
pub struct Sphere {
    pub center: Vec3,
    pub radius: i64,
    pub material: Material,
}

/// Quadratic coefficient `a = D . D` of the sphere intersection equation.
pub open spec fn spec_sphere_a(ray: Ray) -> i64 {
    spec_vdot(ray.dire, ray.dire)
}

/// Half coefficient `b = (O - C) . D`.
pub open spec fn spec_sphere_b(s: Sphere, ray: Ray) -> i64 {
    spec_vdot(spec_vsub(ray.orig, s.center), ray.dire)
}

/// Constant coefficient `c = (O - C) . (O - C) - r * r`.
pub open spec fn spec_sphere_c(s: Sphere, ray: Ray) -> i64 {
    let oc = spec_vsub(ray.orig, s.center);
    spec_fx_sub(spec_vdot(oc, oc), spec_fx_mul(s.radius, s.radius))
}

/// Discriminant `b * b - a * c`.
pub open spec fn spec_sphere_disc(s: Sphere, ray: Ray) -> i64 {
    spec_fx_sub(
        spec_fx_mul(spec_sphere_b(s, ray), spec_sphere_b(s, ray)),
        spec_fx_mul(spec_sphere_a(ray), spec_sphere_c(s, ray)),
    )
}

/// The smaller root `(-b - sqrt(disc)) / a`.
pub open spec fn spec_sphere_t1(s: Sphere, ray: Ray) -> i64 {
    spec_fx_div(
        spec_fx_sub(spec_fx_neg(spec_sphere_b(s, ray)), spec_fx_sqrt(spec_sphere_disc(s, ray))),
        spec_sphere_a(ray),
    )
}

/// The larger root `(-b + sqrt(disc)) / a`.
pub open spec fn spec_sphere_t2(s: Sphere, ray: Ray) -> i64 {
    spec_fx_div(
        spec_fx_add(spec_fx_neg(spec_sphere_b(s, ray)), spec_fx_sqrt(spec_sphere_disc(s, ray))),
        spec_sphere_a(ray),
    )
}

/// The hit record a sphere reports at parameter `t`: the surface point and
/// the normal `(point - center) / radius`.
pub open spec fn spec_sphere_rec(s: Sphere, ray: Ray, t: i64) -> HitRec {
    let point = spec_point_at(ray, t);
    HitRec {
        t,
        p: point,
        norm: spec_vdiv(spec_vsub(point, s.center), s.radius),
        material: s.material,
    }
}

/// The full sphere hit test: no hit when the discriminant is negative, else
/// the smaller root if it lies in `[t_min, t_max]`, else the larger root if
/// it does, else no hit.
pub open spec fn spec_sphere_hit(s: Sphere, ray: Ray, t_min: i64, t_max: i64) -> Option<HitRec> {
    if spec_sphere_disc(s, ray) >= 0 {
        let t1 = spec_sphere_t1(s, ray);
        let t2 = spec_sphere_t2(s, ray);
        if t_min <= t1 && t1 <= t_max {
            Some(spec_sphere_rec(s, ray, t1))
        } else if t_min <= t2 && t2 <= t_max {
            Some(spec_sphere_rec(s, ray, t2))
        } else {
            None
        }
    } else {
        None
    }
}

/// The two roots are ordered: the `-sqrt` root never exceeds the `+sqrt`
/// root.
pub proof fn lemma_sphere_roots_ordered(s: Sphere, ray: Ray)
    ensures
        spec_sphere_t1(s, ray) <= spec_sphere_t2(s, ray),
{
    let a = spec_sphere_a(ray);
    let disc = spec_sphere_disc(s, ray);
    let sq = spec_fx_sqrt(disc);
    lemma_vdot_self_nonneg(ray.dire);
    if disc > 0 {
        lemma_isqrt_bounds(disc * 65536);
    }
    assert(sq >= 0);
    let n1 = spec_fx_sub(spec_fx_neg(spec_sphere_b(s, ray)), sq);
    let n2 = spec_fx_add(spec_fx_neg(spec_sphere_b(s, ray)), sq);
    assert(n1 <= n2);
    lemma_fx_div_mono(n1, n2, a);
}

impl Object for Sphere {
    open spec fn spec_hit(&self, ray: Ray, t_min: i64, t_max: i64) -> Option<HitRec> {
        spec_sphere_hit(*self, ray, t_min, t_max)
    }

    proof fn lemma_hit_range(&self, ray: Ray, t_min: i64, t_max: i64) {
    }

    proof fn lemma_hit_narrow(&self, ray: Ray, t_min: i64, c: i64, t_max: i64) {
        lemma_sphere_roots_ordered(*self, ray);
    }

    fn hit(&self, ray: &Ray, t_min: i64, t_max: i64) -> (r: Option<HitRec>) {
        let oc = ray.orig.vsub(&self.center);
        let a = ray.dire.dot(&ray.dire);
        let b = oc.dot(&ray.dire);
        let c = fx_sub(oc.dot(&oc), fx_mul(self.radius, self.radius));
        let disc = fx_sub(fx_mul(b, b), fx_mul(a, c));
        if disc >= 0 {
            let sq = fx_sqrt(disc);
            let temp = fx_div(fx_sub(fx_neg(b), sq), a);
            if temp <= t_max && temp >= t_min {
                let point = ray.point_at_parameter(temp);
                let norm = point.vsub(&self.center).vdiv(self.radius);
                return Some(HitRec { t: temp, p: point, norm, material: self.material });
            }
            let temp = fx_div(fx_add(fx_neg(b), sq), a);
            if temp <= t_max && temp >= t_min {
                let point = ray.point_at_parameter(temp);
                let norm = point.vsub(&self.center).vdiv(self.radius);
                return Some(HitRec { t: temp, p: point, norm, material: self.material });
            }
            None
        } else {
            None
        }
    }
}

/// One draw of a point in the cube `[-1, 1)^3`, with the state it leaves
/// behind.
pub open spec fn spec_cube_draw(s: u64) -> (Vec3, u64) {
    let s1 = spec_rng_next(s);
    let s2 = spec_rng_next(s1);
    let s3 = spec_rng_next(s2);
    let p = Vec3 {
        x: (2 * spec_rng_unit(s) - 65536) as i64,
        y: (2 * spec_rng_unit(s1) - 65536) as i64,
        z: (2 * spec_rng_unit(s2) - 65536) as i64,
    };
    (p, s3)
}

/// Rejection sampling of the unit ball: draw cube points until one has
/// squared norm below one, giving up on the centre point after `tries`
/// draws (a draw succeeds with probability about one half, so the fallback
/// is never seen in practice).
pub open spec fn spec_sphere_sample(s: u64, tries: nat) -> (Vec3, u64)
    decreases tries,
{
    if tries == 0 {
        (Vec3 { x: 0, y: 0, z: 0 }, s)
    } else {
        let (p, s2) = spec_cube_draw(s);
        if spec_vdot(p, p) < 65536 {
            (p, s2)
        } else {
            spec_sphere_sample(s2, (tries - 1) as nat)
        }
    }
}

/// Draw a point of squared norm below one from the unit ball, advancing the
/// random source.
#[verifier::loop_isolation(false)]
pub fn random_in_unit_sphere(rng: &mut Rng) -> (p: Vec3)
    ensures
        ({
            let (q, s2) = spec_sphere_sample(old(rng).state, 64);
            p == q && final(rng).state == s2
        }),
        spec_vdot(p, p) < 65536,
{
    let mut k: usize = 0;
    while k < 64
        invariant
            k <= 64,
            spec_sphere_sample(old(rng).state, 64) == spec_sphere_sample(
                rng.state,
                (64 - k) as nat,
            ),
        decreases 64 - k,
    {
        let ghost s_before: u64 = rng.state;
        let x: i64 = 2 * rng.next_unit() - 65536;
        let y: i64 = 2 * rng.next_unit() - 65536;
        let z: i64 = 2 * rng.next_unit() - 65536;
        let q = Vec3::new(x, y, z);
        proof {
            assert(spec_cube_draw(s_before) == (q, rng.state));
        }
        if q.dot(&q) < 65536 {
            return q;
        }
        k = k + 1;
    }
    Vec3::zeros()
}

} // verus!
