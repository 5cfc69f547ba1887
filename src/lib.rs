//! Exact integer geometry and tables for projecting a cubemap onto the nine
//! coefficients of second-order spherical harmonics.
//!
//! Every quantity here is an integer: texel directions are scaled by
//! `size - 1`, texel footprints by `size`, basis functions are given as
//! polynomial numerators over powers of the direction's length, and the band
//! weights as fractions. Evaluating them in floating point is left to callers.
pub mod face;
pub mod texel;
pub mod harmonics;
pub mod sample;
pub mod validate;
