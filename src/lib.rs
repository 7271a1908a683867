//! Simulation core of a vertical-scrolling arcade game: a fuel economy,
//! a cooling countdown, a capped pickup spawner, a two-phase collision
//! tagging protocol and a high-score watermark, driven by a small state
//! machine.
use vstd::prelude::*;

pub mod collision;
pub mod cooling;
pub mod fuel;
pub mod game;
pub mod movement;
pub mod score;
pub mod session;
pub mod spawner;
pub mod timer;

pub use crate::game::GameState;

verus! {

/// The per-entity random number generator of bevy_turborand, carried
/// through the spawner as an opaque value.
#[verifier::external_type_specification]
#[verifier::external_body]
pub struct ExRngComponent(bevy_turborand::RngComponent);

} // verus!
