//! Time-history response of a damped single-degree-of-freedom linear
//! oscillator under a sampled ground-acceleration record.
//!
//! The crate has two layers. [`vector::Vector`] is a fixed-length, ordered
//! numeric container indexed by time step. [`sdof`] advances the exact
//! Nigam-Jennings step recurrence over such a record: given the eight
//! transition coefficients for one sample interval, it produces the relative
//! displacement, relative velocity, and absolute acceleration histories,
//! index-aligned with the input.
//!
//! Both layers are generic in the sample type, so the recurrence is stated
//! and proved once over the specification-level meaning of the sample
//! arithmetic; callers instantiate it with the scalar type their analysis
//! uses and derive the coefficients themselves.

pub mod sdof;
pub mod vector;
