//! Inverse kinematics for a chain of one or two bones on a plane.
//!
//! The chain is anchored at an origin and reaches for a target: a single bone points at it,
//! two bones bend at their joint by the law of cosines, and a target out of reach is met as
//! nearly as the lengths allow.
//!
//! Numbers are single-precision and travel as the bits of their encoding ([`scalar`]). The
//! crate decides everything that can be decided on those bits: which bones a chain accepts,
//! when a target is too near to aim at, how a distance is brought into reach, when the chain
//! folds, and what a solution changes in the chain ([`solver`], [`skeleton`]). It does no
//! arithmetic. Lengths of vectors, cosines and angles are measured by the caller and handed
//! in.

pub mod bone;
pub mod point;
pub mod scalar;
pub mod skeleton;
pub mod solver;
