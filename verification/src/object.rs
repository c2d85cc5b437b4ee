//! The capability a geometric primitive offers: a hit test against a ray
//! over a parametric range.
//!
//! Besides the executable test, an implementor supplies two proof
//! obligations: every reported hit lies in the queried range, and narrowing
//! the far end of the range can only drop a hit that fell outside it.  The
//! scene-wide nearest-hit query relies on both to justify scanning the
//! primitives while shrinking the range to the closest hit found so far.

use crate::ray::{HitRec, Ray};
use vstd::prelude::*;

verus! {

pub trait Object: Sync {
    /// The mathematical result of the hit test.
    spec fn spec_hit(&self, ray: Ray, t_min: i64, t_max: i64) -> Option<HitRec>;

    /// Every reported hit lies within the queried range.
    proof fn lemma_hit_range(&self, ray: Ray, t_min: i64, t_max: i64)
        ensures
            self.spec_hit(ray, t_min, t_max) matches Some(h) ==> t_min <= h.t <= t_max,
    ;

    /// Narrowing the far end of the range keeps exactly the hits that still
    /// lie inside it, and cannot surface a different one.
    proof fn lemma_hit_narrow(&self, ray: Ray, t_min: i64, c: i64, t_max: i64)
        requires
            c <= t_max,
        ensures
            self.spec_hit(ray, t_min, c) == (match self.spec_hit(ray, t_min, t_max) {
                Some(h) => if h.t <= c {
                    Some(h)
                } else {
                    None
                },
                None => None::<HitRec>,
            }),
    ;

    /// Test the ray against this primitive over `[t_min, t_max]`.
    fn hit(&self, ray: &Ray, t_min: i64, t_max: i64) -> (r: Option<HitRec>)
        ensures
            r == self.spec_hit(*ray, t_min, t_max),
    ;
}

} // verus!
