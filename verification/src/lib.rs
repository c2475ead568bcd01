//! The rules of a capsule: a segment swept by a ball of fixed radius.
//!
//! The crate holds what a capsule's queries decide, stated over plain values
//! and proved for every number type. The numbers themselves (points, unit
//! directions, rotations) pass through as values of the caller's own types.
//! What was measured on them comes in as a [`reading::Comparison`], or as an
//! `Option` where a vector may be too short to have a direction. A result
//! names the arithmetic that is left to the caller: which end, along which
//! direction, by the radius.
use vstd::prelude::*;

pub mod bounds;
pub mod exact;
pub mod orientation;
pub mod projection;
pub mod raycast;
pub mod reading;
pub mod reference;
pub mod shape;
pub mod support;
