//! The gathering engine of a small resource-gathering game: a player picks up
//! resource nodes (trees, rocks) that lie in range and in front of it, one at a
//! time under a cooldown, into an inventory whose stacks are capped.
//!
//! Geometry is integral: positions are fixed-point coordinates and the facing
//! threshold is a cosine in thousandths, so that every rule is exact.
pub mod cooldown;
pub mod engine;
pub mod gathering;
pub mod geometry;
pub mod inventory;
pub mod world;
