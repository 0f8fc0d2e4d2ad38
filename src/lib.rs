//! A kinematic 2D character controller.
//!
//! Each tick, input becomes an ordered queue of movement actions (`input`);
//! the controller classifies its contacts from the ground and climbable
//! probes, switches its gravity, integrates the actions into its velocity and
//! damps it (`controller`). Once per physics sub-step, collision response
//! pushes it out of whatever it penetrates (`collision`). Quantities are
//! fixed-point (`fixed`), and `laws` states what holds of every tick and
//! sub-step.
use vstd::prelude::*;

pub mod fixed;
pub mod input;
pub mod controller;
pub mod collision;
pub mod laws;

verus! {

} // verus!
