//! The thin-lens camera: maps normalized image-plane coordinates and lens
//! jitter to world-space rays.
//!
//! The field of view needs a tangent; it is computed from fixed-point Taylor
//! polynomials for sine and cosine (accurate over the half-angles a camera
//! meets, which lie below a right angle).  The cosine is floored at one unit
//! before dividing, so the construction is total even for out-of-range
//! angles.

use crate::fixed::{
    fx_add, fx_div, fx_divk, fx_mul, fx_sub, spec_fx_add, spec_fx_div, spec_fx_divk, spec_fx_mul,
    spec_fx_sub,
};
use crate::ray::Ray;
use crate::rng::{spec_rng_next, spec_rng_unit, Rng};
use crate::vec3::{
    spec_vadd, spec_vcross, spec_vdot, spec_vscale, spec_vsub, spec_vunit, Vec3,
};
use vstd::prelude::*;

verus! {

/// Taylor sine `x - x^3/6 + x^5/120 - x^7/5040` in fixed point.
pub open spec fn spec_fx_sin(x: i64) -> i64 {
    let x2 = spec_fx_mul(x, x);
    let x3 = spec_fx_mul(x2, x);
    let x5 = spec_fx_mul(x3, x2);
    let x7 = spec_fx_mul(x5, x2);
    spec_fx_sub(
        spec_fx_add(spec_fx_sub(x, spec_fx_divk(x3, 6)), spec_fx_divk(x5, 120)),
        spec_fx_divk(x7, 5040),
    )
}

/// Taylor cosine `1 - x^2/2 + x^4/24 - x^6/720 + x^8/40320` in fixed point.
pub open spec fn spec_fx_cos(x: i64) -> i64 {
    let x2 = spec_fx_mul(x, x);
    let x4 = spec_fx_mul(x2, x2);
    let x6 = spec_fx_mul(x4, x2);
    let x8 = spec_fx_mul(x4, x4);
    spec_fx_add(
        spec_fx_sub(
            spec_fx_add(spec_fx_sub(65536, spec_fx_divk(x2, 2)), spec_fx_divk(x4, 24)),
            spec_fx_divk(x6, 720),
        ),
        spec_fx_divk(x8, 40320),
    )
}

/// Tangent as sine over cosine, with the cosine floored at one unit so the
/// quotient is defined for every input.
pub open spec fn spec_fx_tan(x: i64) -> i64 {
    let c = spec_fx_cos(x);
    let cc = if c <= 0 {
        1
    } else {
        c
    };
    spec_fx_div(spec_fx_sin(x), cc)
}

pub fn fx_sin(x: i64) -> (r: i64)
    ensures
        r == spec_fx_sin(x),
{
    let x2 = fx_mul(x, x);
    let x3 = fx_mul(x2, x);
    let x5 = fx_mul(x3, x2);
    let x7 = fx_mul(x5, x2);
    fx_sub(fx_add(fx_sub(x, fx_divk(x3, 6)), fx_divk(x5, 120)), fx_divk(x7, 5040))
}

pub fn fx_cos(x: i64) -> (r: i64)
    ensures
        r == spec_fx_cos(x),
{
    let x2 = fx_mul(x, x);
    let x4 = fx_mul(x2, x2);
    let x6 = fx_mul(x4, x2);
    let x8 = fx_mul(x4, x4);
    fx_add(
        fx_sub(fx_add(fx_sub(65536, fx_divk(x2, 2)), fx_divk(x4, 24)), fx_divk(x6, 720)),
        fx_divk(x8, 40320),
    )
}

pub fn fx_tan(x: i64) -> (r: i64)
    ensures
        r == spec_fx_tan(x),
{
    let c = fx_cos(x);
    let cc: i64 = if c <= 0 {
        1
    } else {
        c
    };
    fx_div(fx_sin(x), cc)
}

/// A camera's derived, immutable basis.
#[derive(Clone, Copy, Debug, PartialEq, Eq, Structural)]
pub struct Camera {
    pub lower_left_corner: Vec3,
    pub horizontal: Vec3,
    pub vertical: Vec3,
    pub origin: Vec3,
    pub lens_radius: i64,
    pub u: Vec3,
    pub v: Vec3,
}

/// The camera basis derived from viewpoint, orientation, field of view,
/// aspect ratio, aperture and focus distance.  The angle `vfov * pi / 360`
/// is the half field of view; 572 is `pi / 360` in fixed point.
pub open spec fn spec_camera_new(
    lookfrom: Vec3,
    lookat: Vec3,
    upward: Vec3,
    vfov: i64,
    aspect: i64,
    apperture: i64,
    focus_dist: i64,
) -> Camera {
    let half_height = spec_fx_tan(spec_fx_mul(vfov, 572));
    let half_width = spec_fx_mul(aspect, half_height);
    let w = spec_vunit(spec_vsub(lookfrom, lookat));
    let u = spec_vunit(spec_vcross(upward, w));
    let v = spec_vcross(w, u);
    Camera {
        lower_left_corner: spec_vsub(
            lookfrom,
            spec_vscale(
                spec_vadd(spec_vadd(spec_vscale(u, half_width), spec_vscale(v, half_height)), w),
                focus_dist,
            ),
        ),
        horizontal: spec_vscale(u, spec_fx_mul(spec_fx_mul(131072, half_width), focus_dist)),
        vertical: spec_vscale(v, spec_fx_mul(spec_fx_mul(131072, half_height), focus_dist)),
        origin: lookfrom,
        lens_radius: spec_fx_divk(apperture, 2),
        u,
        v,
    }
}

/// One draw of a point in the square `[-1, 1)^2` of the lens plane.
pub open spec fn spec_disk_draw(s: u64) -> (Vec3, u64) {
    let s1 = spec_rng_next(s);
    let s2 = spec_rng_next(s1);
    let p = Vec3 {
        x: (2 * spec_rng_unit(s) - 65536) as i64,
        y: (2 * spec_rng_unit(s1) - 65536) as i64,
        z: 0,
    };
    (p, s2)
}

/// Rejection sampling of the unit disk, giving up on the centre point after
/// `tries` draws.
pub open spec fn spec_disk_sample(s: u64, tries: nat) -> (Vec3, u64)
    decreases tries,
{
    if tries == 0 {
        (Vec3 { x: 0, y: 0, z: 0 }, s)
    } else {
        let (p, s2) = spec_disk_draw(s);
        if spec_vdot(p, p) < 65536 {
            (p, s2)
        } else {
            spec_disk_sample(s2, (tries - 1) as nat)
        }
    }
}

/// Draw a point of squared norm below one from the unit disk, advancing the
/// random source.
#[verifier::loop_isolation(false)]
pub fn random_in_unit_disk(rng: &mut Rng) -> (p: Vec3)
    ensures
        ({
            let (q, s2) = spec_disk_sample(old(rng).state, 64);
            p == q && final(rng).state == s2
        }),
        spec_vdot(p, p) < 65536,
{
    let mut k: usize = 0;
    while k < 64
        invariant
            k <= 64,
            spec_disk_sample(old(rng).state, 64) == spec_disk_sample(rng.state, (64 - k) as nat),
        decreases 64 - k,
    {
        let ghost s_before: u64 = rng.state;
        let x: i64 = 2 * rng.next_unit() - 65536;
        let y: i64 = 2 * rng.next_unit() - 65536;
        let q = Vec3::new(x, y, 0);
        proof {
            assert(spec_disk_draw(s_before) == (q, rng.state));
        }
        if q.dot(&q) < 65536 {
            return q;
        }
        k = k + 1;
    }
    Vec3::zeros()
}

/// The ray a camera casts for image coordinates `(u, v)`, with the random
/// state its lens jitter leaves behind.
#[verifier::opaque]
pub open spec fn spec_get_ray(cam: Camera, u: i64, v: i64, s: u64) -> (Ray, u64) {
    let (p, s2) = spec_disk_sample(s, 64);
    let rd = spec_vscale(p, cam.lens_radius);
    let offset = spec_vadd(spec_vscale(cam.u, rd.x), spec_vscale(cam.v, rd.y));
    let origin = spec_vadd(cam.origin, offset);
    let dire = spec_vsub(
        spec_vadd(
            spec_vadd(cam.lower_left_corner, spec_vscale(cam.horizontal, u)),
            spec_vscale(cam.vertical, v),
        ),
        origin,
    );
    (Ray { orig: origin, dire }, s2)
}

impl Camera {
    /// Derive a camera basis.
    ///
    /// `lookfrom`: camera position; `lookat`: point the camera faces;
    /// `upward`: the camera's up direction; `vfov`: vertical field of view
    /// in degrees; `aspect`: width over height; `apperture`: lens opening;
    /// `focus_dist`: distance of the plane in sharp focus.  All real-valued
    /// arguments are fixed-point.
    pub fn new(
        lookfrom: Vec3,
        lookat: Vec3,
        upward: Vec3,
        vfov: i64,
        aspect: i64,
        apperture: i64,
        focus_dist: i64,
    ) -> (r: Camera)
        ensures
            r == spec_camera_new(lookfrom, lookat, upward, vfov, aspect, apperture, focus_dist),
    {
        let half_height = fx_tan(fx_mul(vfov, 572));
        let half_width = fx_mul(aspect, half_height);
        let w = lookfrom.vsub(&lookat).normalize();
        let u = upward.cross(&w).normalize();
        let v = w.cross(&u);
        Camera {
            lower_left_corner: lookfrom.vsub(
                &u.scale(half_width).vadd(&v.scale(half_height)).vadd(&w).scale(focus_dist),
            ),
            horizontal: u.scale(fx_mul(fx_mul(131072, half_width), focus_dist)),
            vertical: v.scale(fx_mul(fx_mul(131072, half_height), focus_dist)),
            origin: lookfrom,
            lens_radius: fx_divk(apperture, 2),
            u,
            v,
        }
    }

    /// Cast the ray for normalized image coordinates `(u, v)`, jittering the
    /// origin within the lens aperture.
    pub fn get_ray(&self, u: i64, v: i64, rng: &mut Rng) -> (r: Ray)
        ensures
            ({
                let (ray, s2) = spec_get_ray(*self, u, v, old(rng).state);
                r == ray && final(rng).state == s2
            }),
    {
        proof {
            reveal(spec_get_ray);
        }
        let p = random_in_unit_disk(rng);
        let rd = p.scale(self.lens_radius);
        let offset = self.u.scale(rd.x).vadd(&self.v.scale(rd.y));
        let origin = self.origin.vadd(&offset);
        Ray::new(
            origin,
            self.lower_left_corner.vadd(&self.horizontal.scale(u)).vadd(
                &self.vertical.scale(v),
            ).vsub(&origin),
        )
    }
}

} // verus!
