//! The barrier compiler: aggregates a barrier's previous/next access sets
//! into source/destination stage masks, access masks and (for images) old/new
//! layouts.
//!
//! The aggregation applies two rules.  Availability: only write-classified
//! previous accesses contribute their access mask to the source side, since
//! pure reads produce nothing that needs flushing.  Visibility: next accesses
//! contribute their access mask to the destination side only when some
//! previous access was a write; without a prior write there is no dirty data
//! to make visible, and the destination access mask is deliberately left
//! empty.  Stage masks that end up empty are restored to the top/bottom of
//! pipe sentinels, so a non-empty stage mask is always emitted.

use vstd::prelude::*;

use crate::access::AccessType;
use crate::access::ImageLayoutValue;
use crate::access::PIPELINE_STAGE_BOTTOM_OF_PIPE_BIT;
use crate::access::PIPELINE_STAGE_TOP_OF_PIPE_BIT;
use crate::access::get_access_info;
use crate::access::is_write_access;
use crate::access::spec_access_info;
use crate::access::spec_is_write_access;

verus! {

/// How a barrier selects concrete image layouts.  `Optimal` picks the
/// canonical layout per access type.  `General` forces the universal layout,
/// except for presentation, which keeps its dedicated present-source layout.
/// `GeneralAndPresentation` would need a shared-present layout that no access
/// type's canonical layout models; no mapping is defined for it, and barriers
/// that would consult it are rejected by precondition.
#[derive(Debug, Clone, Copy, PartialEq, Eq, Structural)]
pub enum ImageLayout {
    /// Choose the most optimal layout for each usage, with layout transitions
    /// as appropriate for the access.
    Optimal,
    /// Layout accessible by all access types on a device - no layout
    /// transitions except for presentation.
    General,
    /// As `General`, but also allows presentation engines to access the
    /// image - no layout transitions.
    GeneralAndPresentation,
}

/// Global barriers define a set of accesses on multiple resources at once,
/// with no resource identity.
pub struct GlobalBarrier {
    pub previous_accesses: Vec<AccessType>,
    pub next_accesses: Vec<AccessType>,
}

/// Buffer barriers should only be used when a queue family ownership transfer
/// is required - prefer global barriers at all other times.  The queue family
/// indices, buffer handle, offset and size are passed through unmodified.
pub struct BufferBarrier {
    pub previous_accesses: Vec<AccessType>,
    pub next_accesses: Vec<AccessType>,
    pub src_queue_family_index: u32,
    pub dst_queue_family_index: u32,
    pub buffer: u64,
    pub offset: usize,
    pub size: usize,
}

/// An image subresource range: which aspects, mip levels and array layers of
/// an image a barrier affects.  Passed through unmodified.
#[derive(Debug, Clone, Copy, PartialEq, Eq, Structural)]
pub struct ImageSubresourceRange {
    pub aspect_mask: u32,
    pub base_mip_level: u32,
    pub level_count: u32,
    pub base_array_layer: u32,
    pub layer_count: u32,
}

/// Image barriers should only be used when a queue family ownership transfer
/// or an image layout transition is required - prefer global barriers at all
/// other times.  If `discard_contents` is true, the contents of the image
/// become undefined after the barrier, which can give a performance boost
/// over attempting to preserve them.
pub struct ImageBarrier {
    pub previous_accesses: Vec<AccessType>,
    pub next_accesses: Vec<AccessType>,
    pub previous_layout: ImageLayout,
    pub next_layout: ImageLayout,
    pub discard_contents: bool,
    pub src_queue_family_index: u32,
    pub dst_queue_family_index: u32,
    pub image: u64,
    pub range: ImageSubresourceRange,
}

/// The memory-barrier part of a compiled global barrier.
#[derive(Debug, Clone, Copy, PartialEq, Eq, Structural)]
pub struct MemoryBarrier {
    pub src_access_mask: u32,
    pub dst_access_mask: u32,
}

/// A compiled buffer barrier: access masks plus the buffer-identifying fields
/// of the input, unmodified (offset and size widened to device size).
#[derive(Debug, Clone, Copy, PartialEq, Eq, Structural)]
pub struct BufferMemoryBarrier {
    pub src_access_mask: u32,
    pub dst_access_mask: u32,
    pub src_queue_family_index: u32,
    pub dst_queue_family_index: u32,
    pub buffer: u64,
    pub offset: u64,
    pub size: u64,
}

/// A compiled image barrier: access masks, the old/new layout transition, and
/// the image-identifying fields of the input, unmodified.
#[derive(Debug, Clone, Copy, PartialEq, Eq, Structural)]
pub struct ImageMemoryBarrier {
    pub src_access_mask: u32,
    pub dst_access_mask: u32,
    pub old_layout: ImageLayoutValue,
    pub new_layout: ImageLayoutValue,
    pub src_queue_family_index: u32,
    pub dst_queue_family_index: u32,
    pub image: u64,
    pub subresource_range: ImageSubresourceRange,
}

/// The union of the stage masks of a sequence of accesses.
pub open spec fn spec_stages(accesses: Seq<AccessType>) -> u32
    decreases accesses.len(),
{
    if accesses.len() == 0 {
        0u32
    } else {
        spec_stages(accesses.drop_last()) | spec_access_info(accesses.last()).stage_mask
    }
}

/// The availability operation of a sequence of previous accesses: the union
/// of the access masks of its write-classified members only.
pub open spec fn spec_availability(accesses: Seq<AccessType>) -> u32
    decreases accesses.len(),
{
    if accesses.len() == 0 {
        0u32
    } else if spec_is_write_access(accesses.last()) {
        spec_availability(accesses.drop_last()) | spec_access_info(accesses.last()).access_mask
    } else {
        spec_availability(accesses.drop_last())
    }
}

/// The union of the access masks of a sequence of accesses, read or write.
pub open spec fn spec_visibility(accesses: Seq<AccessType>) -> u32
    decreases accesses.len(),
{
    if accesses.len() == 0 {
        0u32
    } else {
        spec_visibility(accesses.drop_last()) | spec_access_info(accesses.last()).access_mask
    }
}

/// The source stage mask of a barrier: the union of the previous accesses'
/// stages, or top-of-pipe when no access contributed a stage.
pub open spec fn spec_src_stage_mask(previous_accesses: Seq<AccessType>) -> u32 {
    if spec_stages(previous_accesses) == 0 {
        PIPELINE_STAGE_TOP_OF_PIPE_BIT
    } else {
        spec_stages(previous_accesses)
    }
}

/// The destination stage mask of a barrier: the union of the next accesses'
/// stages, or bottom-of-pipe when no access contributed a stage.
pub open spec fn spec_dst_stage_mask(next_accesses: Seq<AccessType>) -> u32 {
    if spec_stages(next_accesses) == 0 {
        PIPELINE_STAGE_BOTTOM_OF_PIPE_BIT
    } else {
        spec_stages(next_accesses)
    }
}

/// The destination access mask of a barrier, gated on a prior write: when no
/// previous access was a write there is nothing to make visible, and the
/// mask is empty regardless of the next accesses.
pub open spec fn spec_dst_access_mask(
    previous_accesses: Seq<AccessType>,
    next_accesses: Seq<AccessType>,
) -> u32 {
    if spec_availability(previous_accesses) == 0 {
        0u32
    } else {
        spec_visibility(next_accesses)
    }
}

/// The concrete layout one access selects under a layout policy.  Under
/// `General`, presentation keeps its present-source layout, since it has no
/// general layout.  `GeneralAndPresentation` has no defined mapping.
pub open spec fn spec_layout_under_policy(policy: ImageLayout, access: AccessType) -> ImageLayoutValue {
    match policy {
        ImageLayout::Optimal => spec_access_info(access).image_layout,
        ImageLayout::General => if access == AccessType::Present {
            ImageLayoutValue::PresentSrc
        } else {
            ImageLayoutValue::General
        },
        ImageLayout::GeneralAndPresentation => arbitrary(),
    }
}

/// The pre-barrier layout: undefined when the contents are discarded or no
/// previous access exists; otherwise the layout the last previous access
/// selects (the last access evaluated wins).
pub open spec fn spec_old_layout(
    discard_contents: bool,
    policy: ImageLayout,
    previous_accesses: Seq<AccessType>,
) -> ImageLayoutValue {
    if discard_contents || previous_accesses.len() == 0 {
        ImageLayoutValue::Undefined
    } else {
        spec_layout_under_policy(policy, previous_accesses.last())
    }
}

/// The post-barrier layout: undefined when no next access exists; otherwise
/// the layout the last next access selects.  Discarding the contents does not
/// affect the post-barrier layout.
pub open spec fn spec_new_layout(policy: ImageLayout, next_accesses: Seq<AccessType>) -> ImageLayoutValue {
    if next_accesses.len() == 0 {
        ImageLayoutValue::Undefined
    } else {
        spec_layout_under_policy(policy, next_accesses.last())
    }
}

/// An image barrier never consults the `GeneralAndPresentation` policy, which
/// has no defined layout mapping: on the previous side that policy is only
/// acceptable when the contents are discarded or no previous access exists,
/// and on the next side only when no next access exists.
pub open spec fn spec_image_barrier_wf(barrier: ImageBarrier) -> bool {
    &&& (barrier.previous_layout is GeneralAndPresentation ==> barrier.discard_contents
        || barrier.previous_accesses@.len() == 0)
    &&& (barrier.next_layout is GeneralAndPresentation ==> barrier.next_accesses@.len() == 0)
}

/// The compiled form of a global barrier.
pub open spec fn spec_memory_barrier(barrier: GlobalBarrier) -> MemoryBarrier {
    MemoryBarrier {
        src_access_mask: spec_availability(barrier.previous_accesses@),
        dst_access_mask: spec_dst_access_mask(barrier.previous_accesses@, barrier.next_accesses@),
    }
}

/// The compiled form of a buffer barrier.
pub open spec fn spec_buffer_memory_barrier(barrier: BufferBarrier) -> BufferMemoryBarrier {
    BufferMemoryBarrier {
        src_access_mask: spec_availability(barrier.previous_accesses@),
        dst_access_mask: spec_dst_access_mask(barrier.previous_accesses@, barrier.next_accesses@),
        src_queue_family_index: barrier.src_queue_family_index,
        dst_queue_family_index: barrier.dst_queue_family_index,
        buffer: barrier.buffer,
        offset: barrier.offset as u64,
        size: barrier.size as u64,
    }
}

/// The compiled form of an image barrier.
pub open spec fn spec_image_memory_barrier(barrier: ImageBarrier) -> ImageMemoryBarrier {
    ImageMemoryBarrier {
        src_access_mask: spec_availability(barrier.previous_accesses@),
        dst_access_mask: spec_dst_access_mask(barrier.previous_accesses@, barrier.next_accesses@),
        old_layout: spec_old_layout(
            barrier.discard_contents,
            barrier.previous_layout,
            barrier.previous_accesses@,
        ),
        new_layout: spec_new_layout(barrier.next_layout, barrier.next_accesses@),
        src_queue_family_index: barrier.src_queue_family_index,
        dst_queue_family_index: barrier.dst_queue_family_index,
        image: barrier.image,
        subresource_range: barrier.range,
    }
}

/// Translates a global barrier into source and destination pipeline stage
/// masks and a memory barrier.
pub fn get_memory_barrier(barrier: &GlobalBarrier) -> (r: (u32, u32, MemoryBarrier))
    ensures
        r.0 == spec_src_stage_mask(barrier.previous_accesses@),
        r.1 == spec_dst_stage_mask(barrier.next_accesses@),
        r.2 == spec_memory_barrier(*barrier),
{
    let ghost prev = barrier.previous_accesses@;
    let ghost next = barrier.next_accesses@;

    let mut src_stages: u32 = 0;
    let mut dst_stages: u32 = 0;
    let mut memory_barrier = MemoryBarrier { src_access_mask: 0, dst_access_mask: 0 };

    let mut i: usize = 0;
    while i < barrier.previous_accesses.len()
        invariant
            prev == barrier.previous_accesses@,
            i <= prev.len(),
            src_stages == spec_stages(prev.take(i as int)),
            memory_barrier.src_access_mask == spec_availability(prev.take(i as int)),
            memory_barrier.dst_access_mask == 0,
        decreases prev.len() - i,
    {
        let previous_access = barrier.previous_accesses[i];
        let previous_info = get_access_info(&previous_access);

        proof {
            assert(prev.take(i as int + 1).drop_last() =~= prev.take(i as int));
        }
        src_stages = src_stages | previous_info.stage_mask;

        // Add appropriate availability operations - for writes only.
        if is_write_access(&previous_access) {
            memory_barrier.src_access_mask = memory_barrier.src_access_mask
                | previous_info.access_mask;
        }
        i = i + 1;
    }
    proof {
        assert(prev.take(prev.len() as int) =~= prev);
    }

    let mut j: usize = 0;
    while j < barrier.next_accesses.len()
        invariant
            next == barrier.next_accesses@,
            j <= next.len(),
            dst_stages == spec_stages(next.take(j as int)),
            memory_barrier.src_access_mask == spec_availability(prev),
            memory_barrier.dst_access_mask == (if spec_availability(prev) == 0 {
                0u32
            } else {
                spec_visibility(next.take(j as int))
            }),
        decreases next.len() - j,
    {
        let next_access = barrier.next_accesses[j];
        let next_info = get_access_info(&next_access);

        proof {
            assert(next.take(j as int + 1).drop_last() =~= next.take(j as int));
        }
        dst_stages = dst_stages | next_info.stage_mask;

        // Add visibility operations as necessary.
        // If there was no prior write there is no dirty data to make visible,
        // and the destination access mask stays empty.
        if memory_barrier.src_access_mask != 0 {
            memory_barrier.dst_access_mask = memory_barrier.dst_access_mask
                | next_info.access_mask;
        }
        j = j + 1;
    }
    proof {
        assert(next.take(next.len() as int) =~= next);
    }

    // Ensure that the stage masks are valid if no stages were determined.
    if src_stages == 0 {
        src_stages = PIPELINE_STAGE_TOP_OF_PIPE_BIT;
    }
    if dst_stages == 0 {
        dst_stages = PIPELINE_STAGE_BOTTOM_OF_PIPE_BIT;
    }

    (src_stages, dst_stages, memory_barrier)
}

/// Translates a buffer barrier into source and destination pipeline stage
/// masks and a buffer memory barrier.  The queue family indices, buffer
/// handle, offset and size are passed through unmodified.
pub fn get_buffer_memory_barrier(barrier: &BufferBarrier) -> (r: (u32, u32, BufferMemoryBarrier))
    ensures
        r.0 == spec_src_stage_mask(barrier.previous_accesses@),
        r.1 == spec_dst_stage_mask(barrier.next_accesses@),
        r.2 == spec_buffer_memory_barrier(*barrier),
{
    let ghost prev = barrier.previous_accesses@;
    let ghost next = barrier.next_accesses@;

    let mut src_stages: u32 = 0;
    let mut dst_stages: u32 = 0;
    let mut buffer_barrier = BufferMemoryBarrier {
        src_access_mask: 0,
        dst_access_mask: 0,
        src_queue_family_index: barrier.src_queue_family_index,
        dst_queue_family_index: barrier.dst_queue_family_index,
        buffer: barrier.buffer,
        offset: barrier.offset as u64,
        size: barrier.size as u64,
    };

    let mut i: usize = 0;
    while i < barrier.previous_accesses.len()
        invariant
            prev == barrier.previous_accesses@,
            i <= prev.len(),
            src_stages == spec_stages(prev.take(i as int)),
            buffer_barrier.src_access_mask == spec_availability(prev.take(i as int)),
            buffer_barrier == (BufferMemoryBarrier {
                src_access_mask: buffer_barrier.src_access_mask,
                dst_access_mask: 0,
                ..spec_buffer_memory_barrier(*barrier)
            }),
        decreases prev.len() - i,
    {
        let previous_access = barrier.previous_accesses[i];
        let previous_info = get_access_info(&previous_access);

        proof {
            assert(prev.take(i as int + 1).drop_last() =~= prev.take(i as int));
        }
        src_stages = src_stages | previous_info.stage_mask;

        // Add appropriate availability operations - for writes only.
        if is_write_access(&previous_access) {
            buffer_barrier.src_access_mask = buffer_barrier.src_access_mask
                | previous_info.access_mask;
        }
        i = i + 1;
    }
    proof {
        assert(prev.take(prev.len() as int) =~= prev);
    }

    let mut j: usize = 0;
    while j < barrier.next_accesses.len()
        invariant
            next == barrier.next_accesses@,
            j <= next.len(),
            dst_stages == spec_stages(next.take(j as int)),
            buffer_barrier.src_access_mask == spec_availability(prev),
            buffer_barrier.dst_access_mask == (if spec_availability(prev) == 0 {
                0u32
            } else {
                spec_visibility(next.take(j as int))
            }),
            buffer_barrier == (BufferMemoryBarrier {
                src_access_mask: buffer_barrier.src_access_mask,
                dst_access_mask: buffer_barrier.dst_access_mask,
                ..spec_buffer_memory_barrier(*barrier)
            }),
        decreases next.len() - j,
    {
        let next_access = barrier.next_accesses[j];
        let next_info = get_access_info(&next_access);

        proof {
            assert(next.take(j as int + 1).drop_last() =~= next.take(j as int));
        }
        dst_stages = dst_stages | next_info.stage_mask;

        // Add visibility operations as necessary.
        // If there was no prior write there is no dirty data to make visible,
        // and the destination access mask stays empty.
        if buffer_barrier.src_access_mask != 0 {
            buffer_barrier.dst_access_mask = buffer_barrier.dst_access_mask
                | next_info.access_mask;
        }
        j = j + 1;
    }
    proof {
        assert(next.take(next.len() as int) =~= next);
    }

    // Ensure that the stage masks are valid if no stages were determined.
    if src_stages == 0 {
        src_stages = PIPELINE_STAGE_TOP_OF_PIPE_BIT;
    }
    if dst_stages == 0 {
        dst_stages = PIPELINE_STAGE_BOTTOM_OF_PIPE_BIT;
    }

    (src_stages, dst_stages, buffer_barrier)
}

/// Translates an image barrier into source and destination pipeline stage
/// masks and an image memory barrier, selecting the old and new image layouts
/// from the layout policies and the access sets.  The queue family indices,
/// image handle and subresource range are passed through unmodified.
pub fn get_image_memory_barrier(barrier: &ImageBarrier) -> (r: (u32, u32, ImageMemoryBarrier))
    requires
        spec_image_barrier_wf(*barrier),
    ensures
        r.0 == spec_src_stage_mask(barrier.previous_accesses@),
        r.1 == spec_dst_stage_mask(barrier.next_accesses@),
        r.2 == spec_image_memory_barrier(*barrier),
{
    let ghost prev = barrier.previous_accesses@;
    let ghost next = barrier.next_accesses@;

    let mut src_stages: u32 = 0;
    let mut dst_stages: u32 = 0;
    let mut image_barrier = ImageMemoryBarrier {
        src_access_mask: 0,
        dst_access_mask: 0,
        old_layout: ImageLayoutValue::Undefined,
        new_layout: ImageLayoutValue::Undefined,
        src_queue_family_index: barrier.src_queue_family_index,
        dst_queue_family_index: barrier.dst_queue_family_index,
        image: barrier.image,
        subresource_range: barrier.range,
    };

    let mut i: usize = 0;
    while i < barrier.previous_accesses.len()
        invariant
            prev == barrier.previous_accesses@,
            spec_image_barrier_wf(*barrier),
            i <= prev.len(),
            src_stages == spec_stages(prev.take(i as int)),
            image_barrier.src_access_mask == spec_availability(prev.take(i as int)),
            image_barrier.old_layout == (if barrier.discard_contents || i == 0 {
                ImageLayoutValue::Undefined
            } else {
                spec_layout_under_policy(barrier.previous_layout, prev[i as int - 1])
            }),
            image_barrier == (ImageMemoryBarrier {
                src_access_mask: image_barrier.src_access_mask,
                dst_access_mask: 0,
                old_layout: image_barrier.old_layout,
                new_layout: ImageLayoutValue::Undefined,
                ..spec_image_memory_barrier(*barrier)
            }),
        decreases prev.len() - i,
    {
        let previous_access = barrier.previous_accesses[i];
        let previous_info = get_access_info(&previous_access);

        proof {
            assert(prev.take(i as int + 1).drop_last() =~= prev.take(i as int));
        }
        src_stages = src_stages | previous_info.stage_mask;

        // Add appropriate availability operations - for writes only.
        if is_write_access(&previous_access) {
            image_barrier.src_access_mask = image_barrier.src_access_mask
                | previous_info.access_mask;
        }

        if barrier.discard_contents {
            image_barrier.old_layout = ImageLayoutValue::Undefined;
        } else {
            let layout = match barrier.previous_layout {
                ImageLayout::General => {
                    if previous_access == AccessType::Present {
                        ImageLayoutValue::PresentSrc
                    } else {
                        ImageLayoutValue::General
                    }
                },
                ImageLayout::Optimal => previous_info.image_layout,
                ImageLayout::GeneralAndPresentation => {
                    // Ruled out by the precondition: this policy is only
                    // accepted when the contents are discarded or no previous
                    // access exists.
                    proof {
                        assert(false);
                    }
                    ImageLayoutValue::Undefined
                },
            };
            image_barrier.old_layout = layout;
        }
        i = i + 1;
    }
    proof {
        assert(prev.take(prev.len() as int) =~= prev);
    }

    let mut j: usize = 0;
    while j < barrier.next_accesses.len()
        invariant
            next == barrier.next_accesses@,
            spec_image_barrier_wf(*barrier),
            j <= next.len(),
            dst_stages == spec_stages(next.take(j as int)),
            image_barrier.src_access_mask == spec_availability(prev),
            image_barrier.dst_access_mask == (if spec_availability(prev) == 0 {
                0u32
            } else {
                spec_visibility(next.take(j as int))
            }),
            image_barrier.new_layout == (if j == 0 {
                ImageLayoutValue::Undefined
            } else {
                spec_layout_under_policy(barrier.next_layout, next[j as int - 1])
            }),
            image_barrier == (ImageMemoryBarrier {
                src_access_mask: image_barrier.src_access_mask,
                dst_access_mask: image_barrier.dst_access_mask,
                new_layout: image_barrier.new_layout,
                ..spec_image_memory_barrier(*barrier)
            }),
        decreases next.len() - j,
    {
        let next_access = barrier.next_accesses[j];
        let next_info = get_access_info(&next_access);

        proof {
            assert(next.take(j as int + 1).drop_last() =~= next.take(j as int));
        }
        dst_stages = dst_stages | next_info.stage_mask;

        // Add visibility operations as necessary.
        // If there was no prior write there is no dirty data to make visible,
        // and the destination access mask stays empty.
        if image_barrier.src_access_mask != 0 {
            image_barrier.dst_access_mask = image_barrier.dst_access_mask
                | next_info.access_mask;
        }

        let layout = match barrier.next_layout {
            ImageLayout::General => {
                if next_access == AccessType::Present {
                    ImageLayoutValue::PresentSrc
                } else {
                    ImageLayoutValue::General
                }
            },
            ImageLayout::Optimal => next_info.image_layout,
            ImageLayout::GeneralAndPresentation => {
                // Ruled out by the precondition: this policy is only accepted
                // when no next access exists.
                proof {
                    assert(false);
                }
                ImageLayoutValue::Undefined
            },
        };
        image_barrier.new_layout = layout;
        j = j + 1;
    }
    proof {
        assert(next.take(next.len() as int) =~= next);
    }

    // Ensure that the stage masks are valid if no stages were determined.
    if src_stages == 0 {
        src_stages = PIPELINE_STAGE_TOP_OF_PIPE_BIT;
    }
    if dst_stages == 0 {
        dst_stages = PIPELINE_STAGE_BOTTOM_OF_PIPE_BIT;
    }

    (src_stages, dst_stages, image_barrier)
}

/// The stage mask to wait on for a set of accesses, for event-style
/// synchronization where no full barrier is built: top-of-pipe joined with
/// the union of the accesses' stages.
pub fn get_stage_mask(previous_accesses: &[AccessType]) -> (r: u32)
    ensures
        r == PIPELINE_STAGE_TOP_OF_PIPE_BIT | spec_stages(previous_accesses@),
        r != 0,
{
    let ghost accesses = previous_accesses@;

    let mut stages: u32 = 0;
    let mut i: usize = 0;
    while i < previous_accesses.len()
        invariant
            accesses == previous_accesses@,
            i <= accesses.len(),
            stages == spec_stages(accesses.take(i as int)),
        decreases accesses.len() - i,
    {
        let previous_access = previous_accesses[i];
        let previous_info = get_access_info(&previous_access);
        proof {
            assert(accesses.take(i as int + 1).drop_last() =~= accesses.take(i as int));
        }
        stages = stages | previous_info.stage_mask;
        i = i + 1;
    }
    proof {
        assert(accesses.take(accesses.len() as int) =~= accesses);
    }

    proof {
        assert(PIPELINE_STAGE_TOP_OF_PIPE_BIT | stages != 0) by (bit_vector);
    }
    PIPELINE_STAGE_TOP_OF_PIPE_BIT | stages
}

/// The union of the compiled source stage masks of a sequence of buffer
/// barriers.
pub open spec fn spec_buffers_src_stages(barriers: Seq<BufferBarrier>) -> u32
    decreases barriers.len(),
{
    if barriers.len() == 0 {
        0u32
    } else {
        spec_buffers_src_stages(barriers.drop_last())
            | spec_src_stage_mask(barriers.last().previous_accesses@)
    }
}

/// The union of the compiled destination stage masks of a sequence of buffer
/// barriers.
pub open spec fn spec_buffers_dst_stages(barriers: Seq<BufferBarrier>) -> u32
    decreases barriers.len(),
{
    if barriers.len() == 0 {
        0u32
    } else {
        spec_buffers_dst_stages(barriers.drop_last())
            | spec_dst_stage_mask(barriers.last().next_accesses@)
    }
}

/// The union of the compiled source stage masks of a sequence of image
/// barriers.
pub open spec fn spec_images_src_stages(barriers: Seq<ImageBarrier>) -> u32
    decreases barriers.len(),
{
    if barriers.len() == 0 {
        0u32
    } else {
        spec_images_src_stages(barriers.drop_last())
            | spec_src_stage_mask(barriers.last().previous_accesses@)
    }
}

/// The union of the compiled destination stage masks of a sequence of image
/// barriers.
pub open spec fn spec_images_dst_stages(barriers: Seq<ImageBarrier>) -> u32
    decreases barriers.len(),
{
    if barriers.len() == 0 {
        0u32
    } else {
        spec_images_dst_stages(barriers.drop_last())
            | spec_dst_stage_mask(barriers.last().next_accesses@)
    }
}

/// Everything a pipeline-barrier submission needs: the joined stage masks and
/// the compiled barriers of every kind.
pub struct PipelineBarrierParams {
    pub src_stage_mask: u32,
    pub dst_stage_mask: u32,
    pub memory_barriers: Vec<MemoryBarrier>,
    pub buffer_barriers: Vec<BufferMemoryBarrier>,
    pub image_barriers: Vec<ImageMemoryBarrier>,
}

/// Compiles an optional global barrier and any number of buffer and image
/// barriers into the parameters of one pipeline-barrier submission: each
/// barrier is compiled on its own, and the stage masks are the join of
/// top/bottom-of-pipe with every compiled barrier's stage masks.
pub fn get_pipeline_barrier_params(
    global_barrier: Option<&GlobalBarrier>,
    buffer_barriers: &[BufferBarrier],
    image_barriers: &[ImageBarrier],
) -> (r: PipelineBarrierParams)
    requires
        forall|k: int| 0 <= k < image_barriers@.len() ==> spec_image_barrier_wf(
            #[trigger] image_barriers@[k],
        ),
    ensures
        r.src_stage_mask == PIPELINE_STAGE_TOP_OF_PIPE_BIT | (match global_barrier {
            Some(g) => spec_src_stage_mask(g.previous_accesses@),
            None => 0u32,
        }) | spec_buffers_src_stages(buffer_barriers@) | spec_images_src_stages(image_barriers@),
        r.dst_stage_mask == PIPELINE_STAGE_BOTTOM_OF_PIPE_BIT | (match global_barrier {
            Some(g) => spec_dst_stage_mask(g.next_accesses@),
            None => 0u32,
        }) | spec_buffers_dst_stages(buffer_barriers@) | spec_images_dst_stages(image_barriers@),
        r.src_stage_mask != 0,
        r.dst_stage_mask != 0,
        (match global_barrier {
            Some(g) => r.memory_barriers@ == seq![spec_memory_barrier(*g)],
            None => r.memory_barriers@.len() == 0,
        }),
        r.buffer_barriers@.len() == buffer_barriers@.len(),
        forall|k: int| 0 <= k < buffer_barriers@.len() ==> r.buffer_barriers@[k]
            == spec_buffer_memory_barrier(#[trigger] buffer_barriers@[k]),
        r.image_barriers@.len() == image_barriers@.len(),
        forall|k: int| 0 <= k < image_barriers@.len() ==> r.image_barriers@[k]
            == spec_image_memory_barrier(#[trigger] image_barriers@[k]),
{
    let mut memory_barriers: Vec<MemoryBarrier> = Vec::new();
    let mut compiled_buffer_barriers: Vec<BufferMemoryBarrier> = Vec::new();
    let mut compiled_image_barriers: Vec<ImageMemoryBarrier> = Vec::new();

    let mut global_src: u32 = 0;
    let mut global_dst: u32 = 0;
    if let Some(barrier) = global_barrier {
        let (src_mask, dst_mask, memory_barrier) = get_memory_barrier(barrier);
        global_src = src_mask;
        global_dst = dst_mask;
        memory_barriers.push(memory_barrier);
        proof {
            assert(memory_barriers@ =~= seq![spec_memory_barrier(*barrier)]);
        }
    }

    let ghost buffers = buffer_barriers@;
    let mut buffers_src: u32 = 0;
    let mut buffers_dst: u32 = 0;
    let mut i: usize = 0;
    while i < buffer_barriers.len()
        invariant
            buffers == buffer_barriers@,
            i <= buffers.len(),
            buffers_src == spec_buffers_src_stages(buffers.take(i as int)),
            buffers_dst == spec_buffers_dst_stages(buffers.take(i as int)),
            compiled_buffer_barriers@.len() == i,
            forall|k: int| 0 <= k < i ==> compiled_buffer_barriers@[k]
                == spec_buffer_memory_barrier(#[trigger] buffers[k]),
        decreases buffers.len() - i,
    {
        let (src_mask, dst_mask, buffer_barrier) = get_buffer_memory_barrier(&buffer_barriers[i]);
        proof {
            assert(buffers.take(i as int + 1).drop_last() =~= buffers.take(i as int));
        }
        buffers_src = buffers_src | src_mask;
        buffers_dst = buffers_dst | dst_mask;
        compiled_buffer_barriers.push(buffer_barrier);
        i = i + 1;
    }
    proof {
        assert(buffers.take(buffers.len() as int) =~= buffers);
    }

    let ghost images = image_barriers@;
    let mut images_src: u32 = 0;
    let mut images_dst: u32 = 0;
    let mut j: usize = 0;
    while j < image_barriers.len()
        invariant
            images == image_barriers@,
            forall|k: int| 0 <= k < images.len() ==> spec_image_barrier_wf(#[trigger] images[k]),
            j <= images.len(),
            images_src == spec_images_src_stages(images.take(j as int)),
            images_dst == spec_images_dst_stages(images.take(j as int)),
            compiled_image_barriers@.len() == j,
            forall|k: int| 0 <= k < j ==> compiled_image_barriers@[k]
                == spec_image_memory_barrier(#[trigger] images[k]),
        decreases images.len() - j,
    {
        let (src_mask, dst_mask, image_barrier) = get_image_memory_barrier(&image_barriers[j]);
        proof {
            assert(images.take(j as int + 1).drop_last() =~= images.take(j as int));
        }
        images_src = images_src | src_mask;
        images_dst = images_dst | dst_mask;
        compiled_image_barriers.push(image_barrier);
        j = j + 1;
    }
    proof {
        assert(images.take(images.len() as int) =~= images);
    }

    let src_stage_mask = PIPELINE_STAGE_TOP_OF_PIPE_BIT | global_src | buffers_src | images_src;
    let dst_stage_mask = PIPELINE_STAGE_BOTTOM_OF_PIPE_BIT | global_dst | buffers_dst | images_dst;
    proof {
        assert(PIPELINE_STAGE_TOP_OF_PIPE_BIT | global_src | buffers_src | images_src != 0)
            by (bit_vector);
        assert(PIPELINE_STAGE_BOTTOM_OF_PIPE_BIT | global_dst | buffers_dst | images_dst != 0)
            by (bit_vector);
    }

    PipelineBarrierParams {
        src_stage_mask,
        dst_stage_mask,
        memory_barriers,
        buffer_barriers: compiled_buffer_barriers,
        image_barriers: compiled_image_barriers,
    }
}

/// When every previous access is read-classified, no availability operation
/// is performed: the source access mask is empty, since pure reads produce
/// nothing that needs flushing.
pub proof fn lemma_read_only_previous_no_availability(previous_accesses: Seq<AccessType>)
    requires
        forall|k: int| 0 <= k < previous_accesses.len() ==> !spec_is_write_access(
            #[trigger] previous_accesses[k],
        ),
    ensures
        spec_availability(previous_accesses) == 0,
    decreases previous_accesses.len(),
{
    if previous_accesses.len() > 0 {
        lemma_read_only_previous_no_availability(previous_accesses.drop_last());
    }
}

/// When every previous access is read-classified, no visibility operation is
/// performed either: the destination access mask is empty whatever the next
/// accesses are, since there is no prior write to make visible.
pub proof fn lemma_read_only_previous_no_visibility(
    previous_accesses: Seq<AccessType>,
    next_accesses: Seq<AccessType>,
)
    requires
        forall|k: int| 0 <= k < previous_accesses.len() ==> !spec_is_write_access(
            #[trigger] previous_accesses[k],
        ),
    ensures
        spec_dst_access_mask(previous_accesses, next_accesses) == 0,
{
    lemma_read_only_previous_no_availability(previous_accesses);
}

/// The emitted stage masks are never empty, whatever the access sets: when
/// no access contributes a stage, the top/bottom-of-pipe sentinels stand in.
pub proof fn lemma_stage_masks_never_empty(
    previous_accesses: Seq<AccessType>,
    next_accesses: Seq<AccessType>,
)
    ensures
        spec_src_stage_mask(previous_accesses) != 0,
        spec_dst_stage_mask(next_accesses) != 0,
{
}

} // verus!
