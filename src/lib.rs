//! Movement core of a 2D platformer character: the player's movement state
//! machine, its jump stopwatch, and the integrator that turns state and input
//! into a per-frame displacement for a kinematic character controller.
pub mod actions;
pub mod integrator;
pub mod jump;
pub mod laws;
pub mod motion;
pub mod movement;
