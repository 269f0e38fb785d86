//! Sizes and permitted uses of the buffers that the renderer allocates.

use vstd::prelude::*;

verus! {

/// What a buffer may be used for.
#[derive(Clone, Copy, Debug, PartialEq, Eq, Structural)]
pub struct BufferUsage {
    pub vertex: bool,
    pub index: bool,
    pub uniform: bool,
    pub copy_dst: bool,
}

impl BufferUsage {
    /// Usable as a vertex buffer and nothing else.
    pub open spec fn vertex_only() -> BufferUsage {
        BufferUsage { vertex: true, index: false, uniform: false, copy_dst: false }
    }

    /// Usable as an index buffer and nothing else.
    pub open spec fn index_only() -> BufferUsage {
        BufferUsage { vertex: false, index: true, uniform: false, copy_dst: false }
    }

    /// Usable as a uniform buffer that the queue may write into.
    pub open spec fn writable_uniform() -> BufferUsage {
        BufferUsage { vertex: false, index: false, uniform: true, copy_dst: true }
    }

    pub fn vertex() -> (usage: BufferUsage)
        ensures
            usage == BufferUsage::vertex_only(),
    {
        BufferUsage { vertex: true, index: false, uniform: false, copy_dst: false }
    }

    pub fn index() -> (usage: BufferUsage)
        ensures
            usage == BufferUsage::index_only(),
    {
        BufferUsage { vertex: false, index: true, uniform: false, copy_dst: false }
    }

    pub fn uniform() -> (usage: BufferUsage)
        ensures
            usage == BufferUsage::writable_uniform(),
    {
        BufferUsage { vertex: false, index: false, uniform: true, copy_dst: true }
    }
}

/// Size in bytes and permitted uses of one buffer.
#[derive(Clone, Copy, Debug, PartialEq, Eq, Structural)]
pub struct BufferPlan {
    pub size: u64,
    pub usage: BufferUsage,
}

} // verus!
