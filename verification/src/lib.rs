//! Simplified Vulkan synchronization: a catalog of high-level resource access
//! types and a compiler that turns sets of previous/next accesses into the
//! stage masks, access masks and image layouts of a pipeline barrier.
//!
//! The catalog (`access`) maps every access type to its pipeline stage, its
//! memory access mask and its canonical image layout, together with a
//! read/write classification.  The compiler (`barrier`) aggregates those
//! entries over a barrier's access sets, applying the availability and
//! visibility rules: only prior writes are flushed, and destination accesses
//! are made visible only when some prior write occurred.

use vstd::prelude::*;

pub mod access;
pub mod barrier;

verus! {

pub use crate::access::AccessType;
pub use crate::access::AccessInfo;
pub use crate::access::ImageLayoutValue;
pub use crate::access::get_access_info;
pub use crate::access::is_write_access;
pub use crate::access::is_read_access;
pub use crate::barrier::ImageLayout;
pub use crate::barrier::GlobalBarrier;
pub use crate::barrier::BufferBarrier;
pub use crate::barrier::ImageBarrier;
pub use crate::barrier::ImageSubresourceRange;
pub use crate::barrier::MemoryBarrier;
pub use crate::barrier::BufferMemoryBarrier;
pub use crate::barrier::ImageMemoryBarrier;
pub use crate::barrier::get_memory_barrier;
pub use crate::barrier::get_buffer_memory_barrier;
pub use crate::barrier::get_image_memory_barrier;
pub use crate::barrier::get_stage_mask;
pub use crate::barrier::get_pipeline_barrier_params;
pub use crate::barrier::PipelineBarrierParams;

} // verus!
