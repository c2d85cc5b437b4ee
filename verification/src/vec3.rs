//! Three-component vectors over fixed-point numbers.
//!
//! Components hold real values scaled by [`crate::fixed::FX_ONE`]; every
//! operation is total and has an exact specification mirror.  The dot product
//! and component-wise product rescale by `FX_ONE`, as fixed-point
//! multiplication requires.

use crate::fixed::{
    fx_add, fx_div, fx_mul, fx_neg, fx_sqrt, fx_sub, spec_fx_add, spec_fx_div, spec_fx_mul,
    spec_fx_neg, spec_fx_sqrt, spec_fx_sub,
};
use vstd::prelude::*;

verus! {

/// A vector of three fixed-point components.
#[derive(Clone, Copy, Debug, PartialEq, Eq, Structural)]
pub struct Vec3 {
    pub x: i64,
    pub y: i64,
    pub z: i64,
}

/// Component-wise saturating addition.
pub open spec fn spec_vadd(a: Vec3, b: Vec3) -> Vec3 {
    Vec3 { x: spec_fx_add(a.x, b.x), y: spec_fx_add(a.y, b.y), z: spec_fx_add(a.z, b.z) }
}

/// Component-wise saturating subtraction.
pub open spec fn spec_vsub(a: Vec3, b: Vec3) -> Vec3 {
    Vec3 { x: spec_fx_sub(a.x, b.x), y: spec_fx_sub(a.y, b.y), z: spec_fx_sub(a.z, b.z) }
}

/// Component-wise saturating negation.
pub open spec fn spec_vneg(a: Vec3) -> Vec3 {
    Vec3 { x: spec_fx_neg(a.x), y: spec_fx_neg(a.y), z: spec_fx_neg(a.z) }
}

/// Scaling by a fixed-point factor.
pub open spec fn spec_vscale(a: Vec3, k: i64) -> Vec3 {
    Vec3 { x: spec_fx_mul(a.x, k), y: spec_fx_mul(a.y, k), z: spec_fx_mul(a.z, k) }
}

/// Component-wise division by a fixed-point scalar.
pub open spec fn spec_vdiv(a: Vec3, k: i64) -> Vec3 {
    Vec3 { x: spec_fx_div(a.x, k), y: spec_fx_div(a.y, k), z: spec_fx_div(a.z, k) }
}

/// Component-wise (Hadamard) product.
pub open spec fn spec_vcmul(a: Vec3, b: Vec3) -> Vec3 {
    Vec3 { x: spec_fx_mul(a.x, b.x), y: spec_fx_mul(a.y, b.y), z: spec_fx_mul(a.z, b.z) }
}

/// Dot product.
pub open spec fn spec_vdot(a: Vec3, b: Vec3) -> i64 {
    spec_fx_add(spec_fx_add(spec_fx_mul(a.x, b.x), spec_fx_mul(a.y, b.y)), spec_fx_mul(a.z, b.z))
}

/// Cross product.
pub open spec fn spec_vcross(a: Vec3, b: Vec3) -> Vec3 {
    Vec3 {
        x: spec_fx_sub(spec_fx_mul(a.y, b.z), spec_fx_mul(a.z, b.y)),
        y: spec_fx_sub(spec_fx_mul(a.z, b.x), spec_fx_mul(a.x, b.z)),
        z: spec_fx_sub(spec_fx_mul(a.x, b.y), spec_fx_mul(a.y, b.x)),
    }
}

/// Euclidean norm: the fixed-point square root of the self dot product.
pub open spec fn spec_vnorm(a: Vec3) -> i64 {
    spec_fx_sqrt(spec_vdot(a, a))
}

/// The unit vector along `a`: each component divided by the norm.  The zero
/// vector (and any vector whose norm truncates to zero) maps to the zero
/// vector.
pub open spec fn spec_vunit(a: Vec3) -> Vec3 {
    spec_vdiv(a, spec_vnorm(a))
}

impl Vec3 {
    pub fn new(x: i64, y: i64, z: i64) -> (r: Vec3)
        ensures
            r == (Vec3 { x, y, z }),
    {
        Vec3 { x, y, z }
    }

    /// The zero vector.
    pub fn zeros() -> (r: Vec3)
        ensures
            r == (Vec3 { x: 0, y: 0, z: 0 }),
    {
        Vec3 { x: 0, y: 0, z: 0 }
    }

    pub fn vadd(&self, o: &Vec3) -> (r: Vec3)
        ensures
            r == spec_vadd(*self, *o),
    {
        Vec3 { x: fx_add(self.x, o.x), y: fx_add(self.y, o.y), z: fx_add(self.z, o.z) }
    }

    pub fn vsub(&self, o: &Vec3) -> (r: Vec3)
        ensures
            r == spec_vsub(*self, *o),
    {
        Vec3 { x: fx_sub(self.x, o.x), y: fx_sub(self.y, o.y), z: fx_sub(self.z, o.z) }
    }

    pub fn vneg(&self) -> (r: Vec3)
        ensures
            r == spec_vneg(*self),
    {
        Vec3 { x: fx_neg(self.x), y: fx_neg(self.y), z: fx_neg(self.z) }
    }

    pub fn scale(&self, k: i64) -> (r: Vec3)
        ensures
            r == spec_vscale(*self, k),
    {
        Vec3 { x: fx_mul(self.x, k), y: fx_mul(self.y, k), z: fx_mul(self.z, k) }
    }

    pub fn vdiv(&self, k: i64) -> (r: Vec3)
        ensures
            r == spec_vdiv(*self, k),
    {
        Vec3 { x: fx_div(self.x, k), y: fx_div(self.y, k), z: fx_div(self.z, k) }
    }

    /// Component-wise product, used for multiplicative colour attenuation.
    pub fn component_mul(&self, o: &Vec3) -> (r: Vec3)
        ensures
            r == spec_vcmul(*self, *o),
    {
        Vec3 { x: fx_mul(self.x, o.x), y: fx_mul(self.y, o.y), z: fx_mul(self.z, o.z) }
    }

    pub fn dot(&self, o: &Vec3) -> (r: i64)
        ensures
            r == spec_vdot(*self, *o),
    {
        fx_add(fx_add(fx_mul(self.x, o.x), fx_mul(self.y, o.y)), fx_mul(self.z, o.z))
    }

    pub fn cross(&self, o: &Vec3) -> (r: Vec3)
        ensures
            r == spec_vcross(*self, *o),
    {
        Vec3 {
            x: fx_sub(fx_mul(self.y, o.z), fx_mul(self.z, o.y)),
            y: fx_sub(fx_mul(self.z, o.x), fx_mul(self.x, o.z)),
            z: fx_sub(fx_mul(self.x, o.y), fx_mul(self.y, o.x)),
        }
    }

    pub fn norm(&self) -> (r: i64)
        ensures
            r == spec_vnorm(*self),
    {
        fx_sqrt(self.dot(self))
    }

    pub fn normalize(&self) -> (r: Vec3)
        ensures
            r == spec_vunit(*self),
    {
        let n: i64 = self.norm();
        self.vdiv(n)
    }
}

/// A vector's dot product with itself is never negative.
pub proof fn lemma_vdot_self_nonneg(a: Vec3)
    ensures
        spec_vdot(a, a) >= 0,
{
    crate::fixed::lemma_fx_square_nonneg(a.x);
    crate::fixed::lemma_fx_square_nonneg(a.y);
    crate::fixed::lemma_fx_square_nonneg(a.z);
}

} // verus!
