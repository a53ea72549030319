//! A toroidal grid ecosystem: grass, sheep and wolves exchange energy by
//! predation and decay when they starve.
//!
//! Time advances in ticks. Each tick runs an energy phase over every living
//! cell and then a movement phase, each against a stable snapshot of the grid.
//! Where an organism goes is decided by a policy that the caller hands in.
//! A tick is carried out as a whole or refused as a whole: one that would
//! put an organism on the grid twice leaves the grid as it was.
//!
//! Every executable function carries a contract over the spec functions
//! defined beside it, and Verus proves the body against that contract. The
//! grid is modelled by [`universe::GridView`]; what holds of every grid is
//! stated by public proof functions beside the operations they speak of.
//!
//! Calorie reserves are exact: they are counted in sixths of a calorie, the
//! common denominator of every rate and cost of the metabolism.

pub mod cell;
pub mod creature;
pub mod direction;
pub mod error;
pub mod identity;
pub mod movement;
pub mod position;
pub mod query;
pub mod render;
pub mod tick;
pub mod universe;

pub use cell::{Cell, Inside};
pub use creature::{Creature, Life};
pub use direction::Direction;
pub use error::GridError;
pub use movement::{FixedDirection, MovementPolicy, PlannedDirections};
pub use position::{get_coordinate, Position};
pub use universe::{Organizm, Universe};
