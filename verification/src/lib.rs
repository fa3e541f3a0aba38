//! Core of a block-based world simulation: block state encoding, behavior
//! dispatch, tick scheduling, neighbor-update propagation, and rail
//! connectivity resolution.

pub mod blocks;
pub mod cactus;
pub mod commands;
pub mod engine;
pub mod geometry;
pub mod packets;
pub mod rail;
pub mod registry;
pub mod scheduler;
pub mod state;
pub mod world;
