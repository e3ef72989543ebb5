//! Flocking demo state: the layout in which the flock is spawned and the rule
//! that decides when the demo quits.

mod flock;

pub use flock::{quit_decision, Flock, FlockEvent, Placement, Transition};
