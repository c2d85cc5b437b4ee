//! A recursive Monte Carlo ray tracer over exact fixed-point arithmetic.
//!
//! Every real-valued quantity of the renderer (coordinates, colours, ray
//! parameters) is carried as an `i64` holding the value scaled by
//! [`fixed::FX_ONE`]; all operations on such numbers are total, saturate at
//! [`fixed::FX_MAX`], and have exact contracts.  Randomness comes from an
//! explicit [`rng::Rng`] threaded through every sampling call, so a render is
//! a pure function of its inputs and the seed.

pub mod camera;
pub mod fixed;
pub mod material;
pub mod object;
pub mod ray;
pub mod rng;
pub mod sphere;
pub mod vec3;
