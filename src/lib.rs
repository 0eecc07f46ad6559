//! Decision logic of a two-dimensional rigid-body physics engine.
//!
//! Quantities of the engine are single-precision numbers. The library reads
//! them as their IEEE-754 bit patterns (`u32`, as given by `to_bits`) and
//! decides on them: which collision routine a pair of shapes takes, which
//! edge and vertex a separating-axis pass selects, on which side of an edge a
//! circle lies, whether two bodies touch, and in which order bodies are
//! paired. The arithmetic that produces those quantities stays with the
//! caller.
pub mod scalar_order;
pub mod selection;
pub mod shape;
pub mod collision;
pub mod body;
pub mod world;
pub mod controls;
pub mod frame;
