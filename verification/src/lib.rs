//! The player and movement core of a turn-based text adventure played on a
//! bounded grid: one explorer steered by typed commands, gnomes that wander
//! at random, and a leprechaun that seeks the portal.

pub mod board;
pub mod chance;
pub mod command;
pub mod inventory;
pub mod players;
