//! The native command interface that pools and buffers drive.

use vstd::prelude::*;

verus! {

/// A native call failed for lack of host or device memory.
/// Nothing allocated from the same pool may be used afterwards.
#[derive(Clone, Copy, Debug, PartialEq, Eq, Structural)]
pub struct OutOfMemory;

/// Level of a native command buffer.
#[derive(Clone, Copy, Debug, PartialEq, Eq, Structural)]
pub enum CommandBufferLevel {
    /// Submitted to queues directly.
    Primary,
    /// Executed from within a primary buffer.
    Secondary,
}

/// Device-side operations on command buffers and pools, by raw handle.
///
/// Implemented by the embedding application over its device connection.
/// Nothing is assumed of what these calls return: the callers check it.
pub trait Device {
    /// Start recording into `buffer` with the given usage bits.
    fn begin_command_buffer(&self, buffer: u64, usage: u32) -> Result<(), OutOfMemory>;

    /// End recording into `buffer`.
    fn end_command_buffer(&self, buffer: u64) -> Result<(), OutOfMemory>;

    /// Allocate `count` buffers of `level` from `pool`, in one batch.
    fn allocate_command_buffers(
        &self,
        pool: u64,
        level: CommandBufferLevel,
        count: usize,
    ) -> Result<Vec<u64>, OutOfMemory>;

    /// Free `buffers`, all allocated from `pool`, in one batch.
    fn free_command_buffers(&self, pool: u64, buffers: &Vec<u64>);

    /// Reset every buffer allocated from `pool`.
    fn reset_command_pool(&self, pool: u64) -> Result<(), OutOfMemory>;

    /// Destroy `pool`.
    fn destroy_command_pool(&self, pool: u64);
}

} // verus!
