//! A simulator for a single rover on a 256 x 256 toroidal grid.
//!
//! A command string over the alphabet `f`, `b`, `l`, `r` drives the rover
//! forward, backward, and through quarter turns. Coordinates wrap around at
//! the grid edges. The simulation stops at the first collision with a known
//! obstacle and reports the last safe state.

pub mod command;
pub mod error;
pub mod laws;
pub mod rover;
pub mod simulate;

pub use command::parse_commands;
pub use command::Command;
pub use error::RoverError;
pub use rover::Direction;
pub use rover::Position;
pub use rover::Rover;
pub use simulate::compute_command;
pub use simulate::mars_rover;
