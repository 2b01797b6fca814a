//! Typed lifecycle management for command buffers and the pools that allocate them.
//!
//! A command buffer moves through the states initial, recording, executable,
//! pending and invalid. Each state, the buffer's level, its usage and its reset
//! policy are part of its type, so an operation exists only where the native
//! command interface allows it.

pub mod buffer;
pub mod capability;
pub mod device;
pub mod family;
pub mod pool;
