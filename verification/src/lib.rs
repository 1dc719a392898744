//! Per-tick movement-correction and view-angle desynchronization pipeline.
//!
//! The crate models the host's angle and vector values as fixed-point
//! integers: angles in millidegrees, linear quantities in steps of one
//! 1024th of a game unit. Every function that makes a decision for a
//! simulation tick lives here, takes plain values, and carries a contract.

pub mod angle;
pub mod anti_aim;
pub mod command;
pub mod controls;
pub mod draw;
pub mod entity;
pub mod library;
pub mod math;
pub mod menu;
pub mod movement;
pub mod pipeline;
pub mod pose;
pub mod record;
pub mod sdk;
pub mod snapshot;
pub mod trig;
pub mod vector;
pub mod weapon;
