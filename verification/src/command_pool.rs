//! The command pool and the one command buffer that the renderer records
//! each frame anew.

use crate::physical_device::QueueFamiliesIndices;
use vstd::prelude::*;

verus! {

/// What the pool is created with.
#[derive(PartialEq, Eq, Structural, Debug, Clone, Copy)]
pub struct CommandPoolCreateInfo {
    /// Buffers of the pool can be reset one by one.
    pub reset_command_buffer: bool,
    pub queue_family_index: u32,
}

/// Whether a command buffer is submitted itself or called from another.
#[derive(PartialEq, Eq, Structural, Debug, Clone, Copy)]
pub enum CommandBufferLevel {
    Primary,
    Secondary,
}

/// The command buffers to take from a pool.
#[derive(PartialEq, Eq, Structural, Debug, Clone, Copy)]
pub struct CommandBufferAllocateInfo {
    pub command_pool: u64,
    pub level: CommandBufferLevel,
    pub command_buffer_count: u32,
}

/// The command pool of the renderer.
#[derive(PartialEq, Eq, Structural, Debug, Clone, Copy)]
pub struct CommandPool {
    pub create_info: CommandPoolCreateInfo,
    /// The pool's handle, null until [`CommandPool::attach`].
    pub inner: u64,
}

impl CommandPool {
    /// Lays down the pool: its buffers go to the graphics family and can
    /// be reset one by one.
    pub fn new(indices: &QueueFamiliesIndices) -> (pool: Self)
        requires
            indices.graphics_family is Some,
        ensures
            pool.create_info == (CommandPoolCreateInfo {
                reset_command_buffer: true,
                queue_family_index: indices.graphics_family->0,
            }),
            pool.inner == 0,
    {
        CommandPool {
            create_info: CommandPoolCreateInfo {
                reset_command_buffer: true,
                queue_family_index: indices.graphics_family.unwrap(),
            },
            inner: 0,
        }
    }

    /// Takes over the created pool.
    pub fn attach(&mut self, inner: u64)
        ensures
            final(self).inner == inner,
            final(self).create_info == old(self).create_info,
    {
        self.inner = inner;
    }

    /// Asks for the one primary command buffer of the renderer.
    pub fn allocate(&mut self) -> (info: CommandBufferAllocateInfo)
        ensures
            info == (CommandBufferAllocateInfo {
                command_pool: old(self).inner,
                level: CommandBufferLevel::Primary,
                command_buffer_count: 1,
            }),
            *final(self) == *old(self),
    {
        CommandBufferAllocateInfo {
            command_pool: self.inner,
            level: CommandBufferLevel::Primary,
            command_buffer_count: 1,
        }
    }
}

} // verus!
