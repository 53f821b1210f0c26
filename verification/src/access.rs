//! The access catalog: a total mapping from each [`AccessType`] to the
//! pipeline stage mask, memory access mask and canonical image layout that a
//! Vulkan barrier needs for it, plus the read/write classification that the
//! barrier compiler uses to decide availability and visibility operations.

use vstd::prelude::*;

verus! {

// Pipeline stage bits, as `VkPipelineStageFlagBits` defines them.
pub const PIPELINE_STAGE_TOP_OF_PIPE_BIT: u32 = 0x0000_0001;
pub const PIPELINE_STAGE_DRAW_INDIRECT_BIT: u32 = 0x0000_0002;
pub const PIPELINE_STAGE_VERTEX_INPUT_BIT: u32 = 0x0000_0004;
pub const PIPELINE_STAGE_VERTEX_SHADER_BIT: u32 = 0x0000_0008;
pub const PIPELINE_STAGE_TESSELLATION_CONTROL_SHADER_BIT: u32 = 0x0000_0010;
pub const PIPELINE_STAGE_TESSELLATION_EVALUATION_SHADER_BIT: u32 = 0x0000_0020;
pub const PIPELINE_STAGE_GEOMETRY_SHADER_BIT: u32 = 0x0000_0040;
pub const PIPELINE_STAGE_FRAGMENT_SHADER_BIT: u32 = 0x0000_0080;
pub const PIPELINE_STAGE_EARLY_FRAGMENT_TESTS_BIT: u32 = 0x0000_0100;
pub const PIPELINE_STAGE_LATE_FRAGMENT_TESTS_BIT: u32 = 0x0000_0200;
pub const PIPELINE_STAGE_COLOR_ATTACHMENT_OUTPUT_BIT: u32 = 0x0000_0400;
pub const PIPELINE_STAGE_COMPUTE_SHADER_BIT: u32 = 0x0000_0800;
pub const PIPELINE_STAGE_TRANSFER_BIT: u32 = 0x0000_1000;
pub const PIPELINE_STAGE_BOTTOM_OF_PIPE_BIT: u32 = 0x0000_2000;
pub const PIPELINE_STAGE_HOST_BIT: u32 = 0x0000_4000;
pub const PIPELINE_STAGE_ALL_COMMANDS_BIT: u32 = 0x0001_0000;
pub const PIPELINE_STAGE_COMMAND_PROCESS_BIT_NVX: u32 = 0x0002_0000;

// Memory access bits, as `VkAccessFlagBits` defines them.
pub const ACCESS_INDIRECT_COMMAND_READ_BIT: u32 = 0x0000_0001;
pub const ACCESS_INDEX_READ_BIT: u32 = 0x0000_0002;
pub const ACCESS_VERTEX_ATTRIBUTE_READ_BIT: u32 = 0x0000_0004;
pub const ACCESS_UNIFORM_READ_BIT: u32 = 0x0000_0008;
pub const ACCESS_INPUT_ATTACHMENT_READ_BIT: u32 = 0x0000_0010;
pub const ACCESS_SHADER_READ_BIT: u32 = 0x0000_0020;
pub const ACCESS_SHADER_WRITE_BIT: u32 = 0x0000_0040;
pub const ACCESS_COLOR_ATTACHMENT_READ_BIT: u32 = 0x0000_0080;
pub const ACCESS_COLOR_ATTACHMENT_WRITE_BIT: u32 = 0x0000_0100;
pub const ACCESS_DEPTH_STENCIL_ATTACHMENT_READ_BIT: u32 = 0x0000_0200;
pub const ACCESS_DEPTH_STENCIL_ATTACHMENT_WRITE_BIT: u32 = 0x0000_0400;
pub const ACCESS_TRANSFER_READ_BIT: u32 = 0x0000_0800;
pub const ACCESS_TRANSFER_WRITE_BIT: u32 = 0x0000_1000;
pub const ACCESS_HOST_READ_BIT: u32 = 0x0000_2000;
pub const ACCESS_HOST_WRITE_BIT: u32 = 0x0000_4000;
pub const ACCESS_MEMORY_READ_BIT: u32 = 0x0000_8000;
pub const ACCESS_MEMORY_WRITE_BIT: u32 = 0x0001_0000;
pub const ACCESS_COMMAND_PROCESS_READ_BIT_NVX: u32 = 0x0002_0000;
pub const ACCESS_COMMAND_PROCESS_WRITE_BIT_NVX: u32 = 0x0004_0000;

/// Defines all potential resource usages.
#[derive(Debug, Clone, Copy, PartialEq, Eq, Structural)]
pub enum AccessType {
    /// No access. Useful primarily for initialization.
    Nothing,
    /// Command buffer read operation as defined by NVX_device_generated_commands.
    CommandBufferReadNVX,
    /// Read as an indirect buffer for drawing or dispatch.
    IndirectBuffer,
    /// Read as an index buffer for drawing.
    IndexBuffer,
    /// Read as a vertex buffer for drawing.
    VertexBuffer,
    /// Read as a uniform buffer in a vertex shader.
    VertexShaderReadUniformBuffer,
    /// Read as a sampled image/uniform texel buffer in a vertex shader.
    VertexShaderReadSampledImageOrUniformTexelBuffer,
    /// Read as any other resource in a vertex shader.
    VertexShaderReadOther,
    /// Read as a uniform buffer in a tessellation control shader.
    TessellationControlShaderReadUniformBuffer,
    /// Read as a sampled image/uniform texel buffer in a tessellation control shader.
    TessellationControlShaderReadSampledImageOrUniformTexelBuffer,
    /// Read as any other resource in a tessellation control shader.
    TessellationControlShaderReadOther,
    /// Read as a uniform buffer in a tessellation evaluation shader.
    TessellationEvaluationShaderReadUniformBuffer,
    /// Read as a sampled image/uniform texel buffer in a tessellation evaluation shader.
    TessellationEvaluationShaderReadSampledImageOrUniformTexelBuffer,
    /// Read as any other resource in a tessellation evaluation shader.
    TessellationEvaluationShaderReadOther,
    /// Read as a uniform buffer in a geometry shader.
    GeometryShaderReadUniformBuffer,
    /// Read as a sampled image/uniform texel buffer in a geometry shader.
    GeometryShaderReadSampledImageOrUniformTexelBuffer,
    /// Read as any other resource in a geometry shader.
    GeometryShaderReadOther,
    /// Read as a uniform buffer in a fragment shader.
    FragmentShaderReadUniformBuffer,
    /// Read as a sampled image/uniform texel buffer in a fragment shader.
    FragmentShaderReadSampledImageOrUniformTexelBuffer,
    /// Read as an input attachment with a color format in a fragment shader.
    FragmentShaderReadColorInputAttachment,
    /// Read as an input attachment with a depth/stencil format in a fragment shader.
    FragmentShaderReadDepthStencilInputAttachment,
    /// Read as any other resource in a fragment shader.
    FragmentShaderReadOther,
    /// Read by blending/logic operations or subpass load operations.
    ColorAttachmentRead,
    /// Read by depth/stencil tests or subpass load operations.
    DepthStencilAttachmentRead,
    /// Read as a uniform buffer in a compute shader.
    ComputeShaderReadUniformBuffer,
    /// Read as a sampled image/uniform texel buffer in a compute shader.
    ComputeShaderReadSampledImageOrUniformTexelBuffer,
    /// Read as any other resource in a compute shader.
    ComputeShaderReadOther,
    /// Read as a uniform buffer in any shader.
    AnyShaderReadUniformBuffer,
    /// Read as a uniform buffer in any shader, or a vertex buffer.
    AnyShaderReadUniformBufferOrVertexBuffer,
    /// Read as a sampled image in any shader.
    AnyShaderReadSampledImageOrUniformTexelBuffer,
    /// Read as any other resource (excluding attachments) in any shader.
    AnyShaderReadOther,
    /// Read as the source of a transfer operation.
    TransferRead,
    /// Read on the host.
    HostRead,
    /// Read by the presentation engine.
    Present,
    /// Command buffer write operation as defined by NVX_device_generated_commands.
    CommandBufferWriteNVX,
    /// Written as any resource in a vertex shader.
    VertexShaderWrite,
    /// Written as any resource in a tessellation control shader.
    TessellationControlShaderWrite,
    /// Written as any resource in a tessellation evaluation shader.
    TessellationEvaluationShaderWrite,
    /// Written as any resource in a geometry shader.
    GeometryShaderWrite,
    /// Written as any resource in a fragment shader.
    FragmentShaderWrite,
    /// Written as a color attachment during rendering, or via a subpass store op.
    ColorAttachmentWrite,
    /// Written as a depth/stencil attachment during rendering, or via a subpass store op.
    DepthStencilAttachmentWrite,
    /// Written as a depth aspect of a depth/stencil attachment during rendering,
    /// whilst the stencil aspect is read-only.
    DepthAttachmentWriteStencilReadOnly,
    /// Written as a stencil aspect of a depth/stencil attachment during rendering,
    /// whilst the depth aspect is read-only.
    StencilAttachmentWriteDepthReadOnly,
    /// Written as any resource in a compute shader.
    ComputeShaderWrite,
    /// Written as any resource in any shader.
    AnyShaderWrite,
    /// Written as the destination of a transfer operation.
    TransferWrite,
    /// Written on the host.
    HostWrite,
    /// Read or written as a color attachment during rendering.
    ColorAttachmentReadWrite,
    /// Covers any access - useful for debug, generally avoid for performance reasons.
    General,
}

/// The concrete image layouts that access types map to, as `VkImageLayout`
/// defines them.  [`ImageLayoutValue::as_raw`] gives the numeric value.
#[derive(Debug, Clone, Copy, PartialEq, Eq, Structural)]
pub enum ImageLayoutValue {
    Undefined,
    General,
    ColorAttachmentOptimal,
    DepthStencilAttachmentOptimal,
    DepthStencilReadOnlyOptimal,
    ShaderReadOnlyOptimal,
    TransferSrcOptimal,
    TransferDstOptimal,
    PresentSrc,
    DepthReadOnlyStencilAttachmentOptimal,
    DepthAttachmentStencilReadOnlyOptimal,
}

/// The numeric value of an [`ImageLayoutValue`], as `VkImageLayout` assigns it.
pub open spec fn spec_image_layout_raw(layout: ImageLayoutValue) -> i32 {
    match layout {
        ImageLayoutValue::Undefined => 0,
        ImageLayoutValue::General => 1,
        ImageLayoutValue::ColorAttachmentOptimal => 2,
        ImageLayoutValue::DepthStencilAttachmentOptimal => 3,
        ImageLayoutValue::DepthStencilReadOnlyOptimal => 4,
        ImageLayoutValue::ShaderReadOnlyOptimal => 5,
        ImageLayoutValue::TransferSrcOptimal => 6,
        ImageLayoutValue::TransferDstOptimal => 7,
        ImageLayoutValue::PresentSrc => 1_000_001_002,
        ImageLayoutValue::DepthReadOnlyStencilAttachmentOptimal => 1_000_117_000,
        ImageLayoutValue::DepthAttachmentStencilReadOnlyOptimal => 1_000_117_001,
    }
}

impl ImageLayoutValue {
    /// The numeric `VkImageLayout` value of this layout.
    pub fn as_raw(&self) -> (r: i32)
        ensures
            r == spec_image_layout_raw(*self),
    {
        match self {
            ImageLayoutValue::Undefined => 0,
            ImageLayoutValue::General => 1,
            ImageLayoutValue::ColorAttachmentOptimal => 2,
            ImageLayoutValue::DepthStencilAttachmentOptimal => 3,
            ImageLayoutValue::DepthStencilReadOnlyOptimal => 4,
            ImageLayoutValue::ShaderReadOnlyOptimal => 5,
            ImageLayoutValue::TransferSrcOptimal => 6,
            ImageLayoutValue::TransferDstOptimal => 7,
            ImageLayoutValue::PresentSrc => 1_000_001_002,
            ImageLayoutValue::DepthReadOnlyStencilAttachmentOptimal => 1_000_117_000,
            ImageLayoutValue::DepthAttachmentStencilReadOnlyOptimal => 1_000_117_001,
        }
    }
}

/// One catalog entry: the stage, access mask and canonical image layout of an
/// access type.  Derived by lookup, never stored or mutated.
#[derive(Debug, Clone, Copy, PartialEq, Eq, Structural)]
pub struct AccessInfo {
    pub stage_mask: u32,
    pub access_mask: u32,
    pub image_layout: ImageLayoutValue,
}

/// The catalog itself: the entry of each access type.  `Nothing` carries empty
/// masks; `Present` carries empty masks too (presentation is an implicit
/// synchronization boundary) but a dedicated present-source layout.
pub open spec fn spec_access_info(access_type: AccessType) -> AccessInfo {
    match access_type {
        AccessType::Nothing => AccessInfo {
            stage_mask: 0,
            access_mask: 0,
            image_layout: ImageLayoutValue::Undefined,
        },
        AccessType::CommandBufferReadNVX => AccessInfo {
            stage_mask: PIPELINE_STAGE_COMMAND_PROCESS_BIT_NVX,
            access_mask: ACCESS_COMMAND_PROCESS_READ_BIT_NVX,
            image_layout: ImageLayoutValue::Undefined,
        },
        AccessType::IndirectBuffer => AccessInfo {
            stage_mask: PIPELINE_STAGE_DRAW_INDIRECT_BIT,
            access_mask: ACCESS_INDIRECT_COMMAND_READ_BIT,
            image_layout: ImageLayoutValue::Undefined,
        },
        AccessType::IndexBuffer => AccessInfo {
            stage_mask: PIPELINE_STAGE_VERTEX_INPUT_BIT,
            access_mask: ACCESS_INDEX_READ_BIT,
            image_layout: ImageLayoutValue::Undefined,
        },
        AccessType::VertexBuffer => AccessInfo {
            stage_mask: PIPELINE_STAGE_VERTEX_INPUT_BIT,
            access_mask: ACCESS_VERTEX_ATTRIBUTE_READ_BIT,
            image_layout: ImageLayoutValue::Undefined,
        },
        AccessType::VertexShaderReadUniformBuffer => AccessInfo {
            stage_mask: PIPELINE_STAGE_VERTEX_SHADER_BIT,
            access_mask: ACCESS_UNIFORM_READ_BIT,
            image_layout: ImageLayoutValue::Undefined,
        },
        AccessType::VertexShaderReadSampledImageOrUniformTexelBuffer => AccessInfo {
            stage_mask: PIPELINE_STAGE_VERTEX_SHADER_BIT,
            access_mask: ACCESS_SHADER_READ_BIT,
            image_layout: ImageLayoutValue::ShaderReadOnlyOptimal,
        },
        AccessType::VertexShaderReadOther => AccessInfo {
            stage_mask: PIPELINE_STAGE_VERTEX_SHADER_BIT,
            access_mask: ACCESS_SHADER_READ_BIT,
            image_layout: ImageLayoutValue::General,
        },
        AccessType::TessellationControlShaderReadUniformBuffer => AccessInfo {
            stage_mask: PIPELINE_STAGE_TESSELLATION_CONTROL_SHADER_BIT,
            access_mask: ACCESS_UNIFORM_READ_BIT,
            image_layout: ImageLayoutValue::Undefined,
        },
        AccessType::TessellationControlShaderReadSampledImageOrUniformTexelBuffer => AccessInfo {
            stage_mask: PIPELINE_STAGE_TESSELLATION_CONTROL_SHADER_BIT,
            access_mask: ACCESS_SHADER_READ_BIT,
            image_layout: ImageLayoutValue::ShaderReadOnlyOptimal,
        },
        AccessType::TessellationControlShaderReadOther => AccessInfo {
            stage_mask: PIPELINE_STAGE_TESSELLATION_CONTROL_SHADER_BIT,
            access_mask: ACCESS_SHADER_READ_BIT,
            image_layout: ImageLayoutValue::General,
        },
        AccessType::TessellationEvaluationShaderReadUniformBuffer => AccessInfo {
            stage_mask: PIPELINE_STAGE_TESSELLATION_EVALUATION_SHADER_BIT,
            access_mask: ACCESS_UNIFORM_READ_BIT,
            image_layout: ImageLayoutValue::Undefined,
        },
        AccessType::TessellationEvaluationShaderReadSampledImageOrUniformTexelBuffer => AccessInfo {
            stage_mask: PIPELINE_STAGE_TESSELLATION_EVALUATION_SHADER_BIT,
            access_mask: ACCESS_SHADER_READ_BIT,
            image_layout: ImageLayoutValue::ShaderReadOnlyOptimal,
        },
        AccessType::TessellationEvaluationShaderReadOther => AccessInfo {
            stage_mask: PIPELINE_STAGE_TESSELLATION_EVALUATION_SHADER_BIT,
            access_mask: ACCESS_SHADER_READ_BIT,
            image_layout: ImageLayoutValue::General,
        },
        AccessType::GeometryShaderReadUniformBuffer => AccessInfo {
            stage_mask: PIPELINE_STAGE_GEOMETRY_SHADER_BIT,
            access_mask: ACCESS_UNIFORM_READ_BIT,
            image_layout: ImageLayoutValue::Undefined,
        },
        AccessType::GeometryShaderReadSampledImageOrUniformTexelBuffer => AccessInfo {
            stage_mask: PIPELINE_STAGE_GEOMETRY_SHADER_BIT,
            access_mask: ACCESS_SHADER_READ_BIT,
            image_layout: ImageLayoutValue::ShaderReadOnlyOptimal,
        },
        AccessType::GeometryShaderReadOther => AccessInfo {
            stage_mask: PIPELINE_STAGE_GEOMETRY_SHADER_BIT,
            access_mask: ACCESS_SHADER_READ_BIT,
            image_layout: ImageLayoutValue::General,
        },
        AccessType::FragmentShaderReadUniformBuffer => AccessInfo {
            stage_mask: PIPELINE_STAGE_FRAGMENT_SHADER_BIT,
            access_mask: ACCESS_UNIFORM_READ_BIT,
            image_layout: ImageLayoutValue::Undefined,
        },
        AccessType::FragmentShaderReadSampledImageOrUniformTexelBuffer => AccessInfo {
            stage_mask: PIPELINE_STAGE_FRAGMENT_SHADER_BIT,
            access_mask: ACCESS_SHADER_READ_BIT,
            image_layout: ImageLayoutValue::ShaderReadOnlyOptimal,
        },
        AccessType::FragmentShaderReadColorInputAttachment => AccessInfo {
            stage_mask: PIPELINE_STAGE_FRAGMENT_SHADER_BIT,
            access_mask: ACCESS_INPUT_ATTACHMENT_READ_BIT,
            image_layout: ImageLayoutValue::ShaderReadOnlyOptimal,
        },
        AccessType::FragmentShaderReadDepthStencilInputAttachment => AccessInfo {
            stage_mask: PIPELINE_STAGE_FRAGMENT_SHADER_BIT,
            access_mask: ACCESS_INPUT_ATTACHMENT_READ_BIT,
            image_layout: ImageLayoutValue::DepthStencilReadOnlyOptimal,
        },
        AccessType::FragmentShaderReadOther => AccessInfo {
            stage_mask: PIPELINE_STAGE_FRAGMENT_SHADER_BIT,
            access_mask: ACCESS_SHADER_READ_BIT,
            image_layout: ImageLayoutValue::General,
        },
        AccessType::ColorAttachmentRead => AccessInfo {
            stage_mask: PIPELINE_STAGE_COLOR_ATTACHMENT_OUTPUT_BIT,
            access_mask: ACCESS_COLOR_ATTACHMENT_READ_BIT,
            image_layout: ImageLayoutValue::ColorAttachmentOptimal,
        },
        AccessType::DepthStencilAttachmentRead => AccessInfo {
            stage_mask: PIPELINE_STAGE_EARLY_FRAGMENT_TESTS_BIT
                | PIPELINE_STAGE_LATE_FRAGMENT_TESTS_BIT,
            access_mask: ACCESS_DEPTH_STENCIL_ATTACHMENT_READ_BIT,
            image_layout: ImageLayoutValue::DepthStencilReadOnlyOptimal,
        },
        AccessType::ComputeShaderReadUniformBuffer => AccessInfo {
            stage_mask: PIPELINE_STAGE_COMPUTE_SHADER_BIT,
            access_mask: ACCESS_UNIFORM_READ_BIT,
            image_layout: ImageLayoutValue::Undefined,
        },
        AccessType::ComputeShaderReadSampledImageOrUniformTexelBuffer => AccessInfo {
            stage_mask: PIPELINE_STAGE_COMPUTE_SHADER_BIT,
            access_mask: ACCESS_SHADER_READ_BIT,
            image_layout: ImageLayoutValue::ShaderReadOnlyOptimal,
        },
        AccessType::ComputeShaderReadOther => AccessInfo {
            stage_mask: PIPELINE_STAGE_COMPUTE_SHADER_BIT,
            access_mask: ACCESS_SHADER_READ_BIT,
            image_layout: ImageLayoutValue::General,
        },
        AccessType::AnyShaderReadUniformBuffer => AccessInfo {
            stage_mask: PIPELINE_STAGE_ALL_COMMANDS_BIT,
            access_mask: ACCESS_UNIFORM_READ_BIT,
            image_layout: ImageLayoutValue::Undefined,
        },
        AccessType::AnyShaderReadUniformBufferOrVertexBuffer => AccessInfo {
            stage_mask: PIPELINE_STAGE_ALL_COMMANDS_BIT,
            access_mask: ACCESS_UNIFORM_READ_BIT | ACCESS_VERTEX_ATTRIBUTE_READ_BIT,
            image_layout: ImageLayoutValue::Undefined,
        },
        AccessType::AnyShaderReadSampledImageOrUniformTexelBuffer => AccessInfo {
            stage_mask: PIPELINE_STAGE_ALL_COMMANDS_BIT,
            access_mask: ACCESS_SHADER_READ_BIT,
            image_layout: ImageLayoutValue::ShaderReadOnlyOptimal,
        },
        AccessType::AnyShaderReadOther => AccessInfo {
            stage_mask: PIPELINE_STAGE_ALL_COMMANDS_BIT,
            access_mask: ACCESS_SHADER_READ_BIT,
            image_layout: ImageLayoutValue::General,
        },
        AccessType::TransferRead => AccessInfo {
            stage_mask: PIPELINE_STAGE_TRANSFER_BIT,
            access_mask: ACCESS_TRANSFER_READ_BIT,
            image_layout: ImageLayoutValue::TransferSrcOptimal,
        },
        AccessType::HostRead => AccessInfo {
            stage_mask: PIPELINE_STAGE_HOST_BIT,
            access_mask: ACCESS_HOST_READ_BIT,
            image_layout: ImageLayoutValue::General,
        },
        AccessType::Present => AccessInfo {
            stage_mask: 0,
            access_mask: 0,
            image_layout: ImageLayoutValue::PresentSrc,
        },
        AccessType::CommandBufferWriteNVX => AccessInfo {
            stage_mask: PIPELINE_STAGE_COMMAND_PROCESS_BIT_NVX,
            access_mask: ACCESS_COMMAND_PROCESS_WRITE_BIT_NVX,
            image_layout: ImageLayoutValue::Undefined,
        },
        AccessType::VertexShaderWrite => AccessInfo {
            stage_mask: PIPELINE_STAGE_VERTEX_SHADER_BIT,
            access_mask: ACCESS_SHADER_WRITE_BIT,
            image_layout: ImageLayoutValue::General,
        },
        AccessType::TessellationControlShaderWrite => AccessInfo {
            stage_mask: PIPELINE_STAGE_TESSELLATION_CONTROL_SHADER_BIT,
            access_mask: ACCESS_SHADER_WRITE_BIT,
            image_layout: ImageLayoutValue::General,
        },
        AccessType::TessellationEvaluationShaderWrite => AccessInfo {
            stage_mask: PIPELINE_STAGE_TESSELLATION_EVALUATION_SHADER_BIT,
            access_mask: ACCESS_SHADER_WRITE_BIT,
            image_layout: ImageLayoutValue::General,
        },
        AccessType::GeometryShaderWrite => AccessInfo {
            stage_mask: PIPELINE_STAGE_GEOMETRY_SHADER_BIT,
            access_mask: ACCESS_SHADER_WRITE_BIT,
            image_layout: ImageLayoutValue::General,
        },
        AccessType::FragmentShaderWrite => AccessInfo {
            stage_mask: PIPELINE_STAGE_FRAGMENT_SHADER_BIT,
            access_mask: ACCESS_SHADER_WRITE_BIT,
            image_layout: ImageLayoutValue::General,
        },
        AccessType::ColorAttachmentWrite => AccessInfo {
            stage_mask: PIPELINE_STAGE_COLOR_ATTACHMENT_OUTPUT_BIT,
            access_mask: ACCESS_COLOR_ATTACHMENT_WRITE_BIT,
            image_layout: ImageLayoutValue::ColorAttachmentOptimal,
        },
        AccessType::DepthStencilAttachmentWrite => AccessInfo {
            stage_mask: PIPELINE_STAGE_EARLY_FRAGMENT_TESTS_BIT
                | PIPELINE_STAGE_LATE_FRAGMENT_TESTS_BIT,
            access_mask: ACCESS_DEPTH_STENCIL_ATTACHMENT_WRITE_BIT,
            image_layout: ImageLayoutValue::DepthStencilAttachmentOptimal,
        },
        AccessType::DepthAttachmentWriteStencilReadOnly => AccessInfo {
            stage_mask: PIPELINE_STAGE_EARLY_FRAGMENT_TESTS_BIT
                | PIPELINE_STAGE_LATE_FRAGMENT_TESTS_BIT,
            access_mask: ACCESS_DEPTH_STENCIL_ATTACHMENT_WRITE_BIT
                | ACCESS_DEPTH_STENCIL_ATTACHMENT_READ_BIT,
            image_layout: ImageLayoutValue::DepthAttachmentStencilReadOnlyOptimal,
        },
        AccessType::StencilAttachmentWriteDepthReadOnly => AccessInfo {
            stage_mask: PIPELINE_STAGE_EARLY_FRAGMENT_TESTS_BIT
                | PIPELINE_STAGE_LATE_FRAGMENT_TESTS_BIT,
            access_mask: ACCESS_DEPTH_STENCIL_ATTACHMENT_WRITE_BIT
                | ACCESS_DEPTH_STENCIL_ATTACHMENT_READ_BIT,
            image_layout: ImageLayoutValue::DepthReadOnlyStencilAttachmentOptimal,
        },
        AccessType::ComputeShaderWrite => AccessInfo {
            stage_mask: PIPELINE_STAGE_COMPUTE_SHADER_BIT,
            access_mask: ACCESS_SHADER_WRITE_BIT,
            image_layout: ImageLayoutValue::General,
        },
        AccessType::AnyShaderWrite => AccessInfo {
            stage_mask: PIPELINE_STAGE_ALL_COMMANDS_BIT,
            access_mask: ACCESS_SHADER_WRITE_BIT,
            image_layout: ImageLayoutValue::General,
        },
        AccessType::TransferWrite => AccessInfo {
            stage_mask: PIPELINE_STAGE_TRANSFER_BIT,
            access_mask: ACCESS_TRANSFER_WRITE_BIT,
            image_layout: ImageLayoutValue::TransferDstOptimal,
        },
        AccessType::HostWrite => AccessInfo {
            stage_mask: PIPELINE_STAGE_HOST_BIT,
            access_mask: ACCESS_HOST_WRITE_BIT,
            image_layout: ImageLayoutValue::General,
        },
        AccessType::ColorAttachmentReadWrite => AccessInfo {
            stage_mask: PIPELINE_STAGE_COLOR_ATTACHMENT_OUTPUT_BIT,
            access_mask: ACCESS_COLOR_ATTACHMENT_READ_BIT | ACCESS_COLOR_ATTACHMENT_WRITE_BIT,
            image_layout: ImageLayoutValue::ColorAttachmentOptimal,
        },
        AccessType::General => AccessInfo {
            stage_mask: PIPELINE_STAGE_ALL_COMMANDS_BIT,
            access_mask: ACCESS_MEMORY_READ_BIT | ACCESS_MEMORY_WRITE_BIT,
            image_layout: ImageLayoutValue::General,
        },
    }
}

/// The write classification: the access types that denote a write or a
/// read-write.  Only these contribute to a barrier's availability operation.
pub open spec fn spec_is_write_access(access_type: AccessType) -> bool {
    match access_type {
        AccessType::CommandBufferWriteNVX => true,
        AccessType::VertexShaderWrite => true,
        AccessType::TessellationControlShaderWrite => true,
        AccessType::TessellationEvaluationShaderWrite => true,
        AccessType::GeometryShaderWrite => true,
        AccessType::FragmentShaderWrite => true,
        AccessType::ColorAttachmentWrite => true,
        AccessType::DepthStencilAttachmentWrite => true,
        AccessType::DepthAttachmentWriteStencilReadOnly => true,
        AccessType::StencilAttachmentWriteDepthReadOnly => true,
        AccessType::ComputeShaderWrite => true,
        AccessType::AnyShaderWrite => true,
        AccessType::TransferWrite => true,
        AccessType::HostWrite => true,
        AccessType::ColorAttachmentReadWrite => true,
        AccessType::General => true,
        _ => false,
    }
}

/// The read classification: every access type that is not write-classified.
pub open spec fn spec_is_read_access(access_type: AccessType) -> bool {
    !spec_is_write_access(access_type)
}

/// Looks up the catalog entry of an access type.  Total: every access type
/// has exactly one entry, and the result is fully determined by the argument.
pub fn get_access_info(access_type: &AccessType) -> (info: AccessInfo)
    ensures
        info == spec_access_info(*access_type),
{
    match access_type {
        AccessType::Nothing => AccessInfo {
            stage_mask: 0,
            access_mask: 0,
            image_layout: ImageLayoutValue::Undefined,
        },
        AccessType::CommandBufferReadNVX => AccessInfo {
            stage_mask: PIPELINE_STAGE_COMMAND_PROCESS_BIT_NVX,
            access_mask: ACCESS_COMMAND_PROCESS_READ_BIT_NVX,
            image_layout: ImageLayoutValue::Undefined,
        },
        AccessType::IndirectBuffer => AccessInfo {
            stage_mask: PIPELINE_STAGE_DRAW_INDIRECT_BIT,
            access_mask: ACCESS_INDIRECT_COMMAND_READ_BIT,
            image_layout: ImageLayoutValue::Undefined,
        },
        AccessType::IndexBuffer => AccessInfo {
            stage_mask: PIPELINE_STAGE_VERTEX_INPUT_BIT,
            access_mask: ACCESS_INDEX_READ_BIT,
            image_layout: ImageLayoutValue::Undefined,
        },
        AccessType::VertexBuffer => AccessInfo {
            stage_mask: PIPELINE_STAGE_VERTEX_INPUT_BIT,
            access_mask: ACCESS_VERTEX_ATTRIBUTE_READ_BIT,
            image_layout: ImageLayoutValue::Undefined,
        },
        AccessType::VertexShaderReadUniformBuffer => AccessInfo {
            stage_mask: PIPELINE_STAGE_VERTEX_SHADER_BIT,
            access_mask: ACCESS_UNIFORM_READ_BIT,
            image_layout: ImageLayoutValue::Undefined,
        },
        AccessType::VertexShaderReadSampledImageOrUniformTexelBuffer => AccessInfo {
            stage_mask: PIPELINE_STAGE_VERTEX_SHADER_BIT,
            access_mask: ACCESS_SHADER_READ_BIT,
            image_layout: ImageLayoutValue::ShaderReadOnlyOptimal,
        },
        AccessType::VertexShaderReadOther => AccessInfo {
            stage_mask: PIPELINE_STAGE_VERTEX_SHADER_BIT,
            access_mask: ACCESS_SHADER_READ_BIT,
            image_layout: ImageLayoutValue::General,
        },
        AccessType::TessellationControlShaderReadUniformBuffer => AccessInfo {
            stage_mask: PIPELINE_STAGE_TESSELLATION_CONTROL_SHADER_BIT,
            access_mask: ACCESS_UNIFORM_READ_BIT,
            image_layout: ImageLayoutValue::Undefined,
        },
        AccessType::TessellationControlShaderReadSampledImageOrUniformTexelBuffer => AccessInfo {
            stage_mask: PIPELINE_STAGE_TESSELLATION_CONTROL_SHADER_BIT,
            access_mask: ACCESS_SHADER_READ_BIT,
            image_layout: ImageLayoutValue::ShaderReadOnlyOptimal,
        },
        AccessType::TessellationControlShaderReadOther => AccessInfo {
            stage_mask: PIPELINE_STAGE_TESSELLATION_CONTROL_SHADER_BIT,
            access_mask: ACCESS_SHADER_READ_BIT,
            image_layout: ImageLayoutValue::General,
        },
        AccessType::TessellationEvaluationShaderReadUniformBuffer => AccessInfo {
            stage_mask: PIPELINE_STAGE_TESSELLATION_EVALUATION_SHADER_BIT,
            access_mask: ACCESS_UNIFORM_READ_BIT,
            image_layout: ImageLayoutValue::Undefined,
        },
        AccessType::TessellationEvaluationShaderReadSampledImageOrUniformTexelBuffer => AccessInfo {
            stage_mask: PIPELINE_STAGE_TESSELLATION_EVALUATION_SHADER_BIT,
            access_mask: ACCESS_SHADER_READ_BIT,
            image_layout: ImageLayoutValue::ShaderReadOnlyOptimal,
        },
        AccessType::TessellationEvaluationShaderReadOther => AccessInfo {
            stage_mask: PIPELINE_STAGE_TESSELLATION_EVALUATION_SHADER_BIT,
            access_mask: ACCESS_SHADER_READ_BIT,
            image_layout: ImageLayoutValue::General,
        },
        AccessType::GeometryShaderReadUniformBuffer => AccessInfo {
            stage_mask: PIPELINE_STAGE_GEOMETRY_SHADER_BIT,
            access_mask: ACCESS_UNIFORM_READ_BIT,
            image_layout: ImageLayoutValue::Undefined,
        },
        AccessType::GeometryShaderReadSampledImageOrUniformTexelBuffer => AccessInfo {
            stage_mask: PIPELINE_STAGE_GEOMETRY_SHADER_BIT,
            access_mask: ACCESS_SHADER_READ_BIT,
            image_layout: ImageLayoutValue::ShaderReadOnlyOptimal,
        },
        AccessType::GeometryShaderReadOther => AccessInfo {
            stage_mask: PIPELINE_STAGE_GEOMETRY_SHADER_BIT,
            access_mask: ACCESS_SHADER_READ_BIT,
            image_layout: ImageLayoutValue::General,
        },
        AccessType::FragmentShaderReadUniformBuffer => AccessInfo {
            stage_mask: PIPELINE_STAGE_FRAGMENT_SHADER_BIT,
            access_mask: ACCESS_UNIFORM_READ_BIT,
            image_layout: ImageLayoutValue::Undefined,
        },
        AccessType::FragmentShaderReadSampledImageOrUniformTexelBuffer => AccessInfo {
            stage_mask: PIPELINE_STAGE_FRAGMENT_SHADER_BIT,
            access_mask: ACCESS_SHADER_READ_BIT,
            image_layout: ImageLayoutValue::ShaderReadOnlyOptimal,
        },
        AccessType::FragmentShaderReadColorInputAttachment => AccessInfo {
            stage_mask: PIPELINE_STAGE_FRAGMENT_SHADER_BIT,
            access_mask: ACCESS_INPUT_ATTACHMENT_READ_BIT,
            image_layout: ImageLayoutValue::ShaderReadOnlyOptimal,
        },
        AccessType::FragmentShaderReadDepthStencilInputAttachment => AccessInfo {
            stage_mask: PIPELINE_STAGE_FRAGMENT_SHADER_BIT,
            access_mask: ACCESS_INPUT_ATTACHMENT_READ_BIT,
            image_layout: ImageLayoutValue::DepthStencilReadOnlyOptimal,
        },
        AccessType::FragmentShaderReadOther => AccessInfo {
            stage_mask: PIPELINE_STAGE_FRAGMENT_SHADER_BIT,
            access_mask: ACCESS_SHADER_READ_BIT,
            image_layout: ImageLayoutValue::General,
        },
        AccessType::ColorAttachmentRead => AccessInfo {
            stage_mask: PIPELINE_STAGE_COLOR_ATTACHMENT_OUTPUT_BIT,
            access_mask: ACCESS_COLOR_ATTACHMENT_READ_BIT,
            image_layout: ImageLayoutValue::ColorAttachmentOptimal,
        },
        AccessType::DepthStencilAttachmentRead => AccessInfo {
            stage_mask: PIPELINE_STAGE_EARLY_FRAGMENT_TESTS_BIT
                | PIPELINE_STAGE_LATE_FRAGMENT_TESTS_BIT,
            access_mask: ACCESS_DEPTH_STENCIL_ATTACHMENT_READ_BIT,
            image_layout: ImageLayoutValue::DepthStencilReadOnlyOptimal,
        },
        AccessType::ComputeShaderReadUniformBuffer => AccessInfo {
            stage_mask: PIPELINE_STAGE_COMPUTE_SHADER_BIT,
            access_mask: ACCESS_UNIFORM_READ_BIT,
            image_layout: ImageLayoutValue::Undefined,
        },
        AccessType::ComputeShaderReadSampledImageOrUniformTexelBuffer => AccessInfo {
            stage_mask: PIPELINE_STAGE_COMPUTE_SHADER_BIT,
            access_mask: ACCESS_SHADER_READ_BIT,
            image_layout: ImageLayoutValue::ShaderReadOnlyOptimal,
        },
        AccessType::ComputeShaderReadOther => AccessInfo {
            stage_mask: PIPELINE_STAGE_COMPUTE_SHADER_BIT,
            access_mask: ACCESS_SHADER_READ_BIT,
            image_layout: ImageLayoutValue::General,
        },
        AccessType::AnyShaderReadUniformBuffer => AccessInfo {
            stage_mask: PIPELINE_STAGE_ALL_COMMANDS_BIT,
            access_mask: ACCESS_UNIFORM_READ_BIT,
            image_layout: ImageLayoutValue::Undefined,
        },
        AccessType::AnyShaderReadUniformBufferOrVertexBuffer => AccessInfo {
            stage_mask: PIPELINE_STAGE_ALL_COMMANDS_BIT,
            access_mask: ACCESS_UNIFORM_READ_BIT | ACCESS_VERTEX_ATTRIBUTE_READ_BIT,
            image_layout: ImageLayoutValue::Undefined,
        },
        AccessType::AnyShaderReadSampledImageOrUniformTexelBuffer => AccessInfo {
            stage_mask: PIPELINE_STAGE_ALL_COMMANDS_BIT,
            access_mask: ACCESS_SHADER_READ_BIT,
            image_layout: ImageLayoutValue::ShaderReadOnlyOptimal,
        },
        AccessType::AnyShaderReadOther => AccessInfo {
            stage_mask: PIPELINE_STAGE_ALL_COMMANDS_BIT,
            access_mask: ACCESS_SHADER_READ_BIT,
            image_layout: ImageLayoutValue::General,
        },
        AccessType::TransferRead => AccessInfo {
            stage_mask: PIPELINE_STAGE_TRANSFER_BIT,
            access_mask: ACCESS_TRANSFER_READ_BIT,
            image_layout: ImageLayoutValue::TransferSrcOptimal,
        },
        AccessType::HostRead => AccessInfo {
            stage_mask: PIPELINE_STAGE_HOST_BIT,
            access_mask: ACCESS_HOST_READ_BIT,
            image_layout: ImageLayoutValue::General,
        },
        AccessType::Present => AccessInfo {
            stage_mask: 0,
            access_mask: 0,
            image_layout: ImageLayoutValue::PresentSrc,
        },
        AccessType::CommandBufferWriteNVX => AccessInfo {
            stage_mask: PIPELINE_STAGE_COMMAND_PROCESS_BIT_NVX,
            access_mask: ACCESS_COMMAND_PROCESS_WRITE_BIT_NVX,
            image_layout: ImageLayoutValue::Undefined,
        },
        AccessType::VertexShaderWrite => AccessInfo {
            stage_mask: PIPELINE_STAGE_VERTEX_SHADER_BIT,
            access_mask: ACCESS_SHADER_WRITE_BIT,
            image_layout: ImageLayoutValue::General,
        },
        AccessType::TessellationControlShaderWrite => AccessInfo {
            stage_mask: PIPELINE_STAGE_TESSELLATION_CONTROL_SHADER_BIT,
            access_mask: ACCESS_SHADER_WRITE_BIT,
            image_layout: ImageLayoutValue::General,
        },
        AccessType::TessellationEvaluationShaderWrite => AccessInfo {
            stage_mask: PIPELINE_STAGE_TESSELLATION_EVALUATION_SHADER_BIT,
            access_mask: ACCESS_SHADER_WRITE_BIT,
            image_layout: ImageLayoutValue::General,
        },
        AccessType::GeometryShaderWrite => AccessInfo {
            stage_mask: PIPELINE_STAGE_GEOMETRY_SHADER_BIT,
            access_mask: ACCESS_SHADER_WRITE_BIT,
            image_layout: ImageLayoutValue::General,
        },
        AccessType::FragmentShaderWrite => AccessInfo {
            stage_mask: PIPELINE_STAGE_FRAGMENT_SHADER_BIT,
            access_mask: ACCESS_SHADER_WRITE_BIT,
            image_layout: ImageLayoutValue::General,
        },
        AccessType::ColorAttachmentWrite => AccessInfo {
            stage_mask: PIPELINE_STAGE_COLOR_ATTACHMENT_OUTPUT_BIT,
            access_mask: ACCESS_COLOR_ATTACHMENT_WRITE_BIT,
            image_layout: ImageLayoutValue::ColorAttachmentOptimal,
        },
        AccessType::DepthStencilAttachmentWrite => AccessInfo {
            stage_mask: PIPELINE_STAGE_EARLY_FRAGMENT_TESTS_BIT
                | PIPELINE_STAGE_LATE_FRAGMENT_TESTS_BIT,
            access_mask: ACCESS_DEPTH_STENCIL_ATTACHMENT_WRITE_BIT,
            image_layout: ImageLayoutValue::DepthStencilAttachmentOptimal,
        },
        AccessType::DepthAttachmentWriteStencilReadOnly => AccessInfo {
            stage_mask: PIPELINE_STAGE_EARLY_FRAGMENT_TESTS_BIT
                | PIPELINE_STAGE_LATE_FRAGMENT_TESTS_BIT,
            access_mask: ACCESS_DEPTH_STENCIL_ATTACHMENT_WRITE_BIT
                | ACCESS_DEPTH_STENCIL_ATTACHMENT_READ_BIT,
            image_layout: ImageLayoutValue::DepthAttachmentStencilReadOnlyOptimal,
        },
        AccessType::StencilAttachmentWriteDepthReadOnly => AccessInfo {
            stage_mask: PIPELINE_STAGE_EARLY_FRAGMENT_TESTS_BIT
                | PIPELINE_STAGE_LATE_FRAGMENT_TESTS_BIT,
            access_mask: ACCESS_DEPTH_STENCIL_ATTACHMENT_WRITE_BIT
                | ACCESS_DEPTH_STENCIL_ATTACHMENT_READ_BIT,
            image_layout: ImageLayoutValue::DepthReadOnlyStencilAttachmentOptimal,
        },
        AccessType::ComputeShaderWrite => AccessInfo {
            stage_mask: PIPELINE_STAGE_COMPUTE_SHADER_BIT,
            access_mask: ACCESS_SHADER_WRITE_BIT,
            image_layout: ImageLayoutValue::General,
        },
        AccessType::AnyShaderWrite => AccessInfo {
            stage_mask: PIPELINE_STAGE_ALL_COMMANDS_BIT,
            access_mask: ACCESS_SHADER_WRITE_BIT,
            image_layout: ImageLayoutValue::General,
        },
        AccessType::TransferWrite => AccessInfo {
            stage_mask: PIPELINE_STAGE_TRANSFER_BIT,
            access_mask: ACCESS_TRANSFER_WRITE_BIT,
            image_layout: ImageLayoutValue::TransferDstOptimal,
        },
        AccessType::HostWrite => AccessInfo {
            stage_mask: PIPELINE_STAGE_HOST_BIT,
            access_mask: ACCESS_HOST_WRITE_BIT,
            image_layout: ImageLayoutValue::General,
        },
        AccessType::ColorAttachmentReadWrite => AccessInfo {
            stage_mask: PIPELINE_STAGE_COLOR_ATTACHMENT_OUTPUT_BIT,
            access_mask: ACCESS_COLOR_ATTACHMENT_READ_BIT | ACCESS_COLOR_ATTACHMENT_WRITE_BIT,
            image_layout: ImageLayoutValue::ColorAttachmentOptimal,
        },
        AccessType::General => AccessInfo {
            stage_mask: PIPELINE_STAGE_ALL_COMMANDS_BIT,
            access_mask: ACCESS_MEMORY_READ_BIT | ACCESS_MEMORY_WRITE_BIT,
            image_layout: ImageLayoutValue::General,
        },
    }
}

/// Whether an access type is write-classified.
pub fn is_write_access(access_type: &AccessType) -> (r: bool)
    ensures
        r == spec_is_write_access(*access_type),
{
    match access_type {
        AccessType::CommandBufferWriteNVX => true,
        AccessType::VertexShaderWrite => true,
        AccessType::TessellationControlShaderWrite => true,
        AccessType::TessellationEvaluationShaderWrite => true,
        AccessType::GeometryShaderWrite => true,
        AccessType::FragmentShaderWrite => true,
        AccessType::ColorAttachmentWrite => true,
        AccessType::DepthStencilAttachmentWrite => true,
        AccessType::DepthAttachmentWriteStencilReadOnly => true,
        AccessType::StencilAttachmentWriteDepthReadOnly => true,
        AccessType::ComputeShaderWrite => true,
        AccessType::AnyShaderWrite => true,
        AccessType::TransferWrite => true,
        AccessType::HostWrite => true,
        AccessType::ColorAttachmentReadWrite => true,
        AccessType::General => true,
        _ => false,
    }
}

/// Whether an access type is read-classified.
pub fn is_read_access(access_type: &AccessType) -> (r: bool)
    ensures
        r == spec_is_read_access(*access_type),
{
    !is_write_access(access_type)
}

/// Lookup is idempotent: any two results of looking up the same access type
/// are identical, because each one equals the catalog entry of that type.
pub proof fn lemma_lookup_idempotent(access_type: AccessType, first: AccessInfo, second: AccessInfo)
    requires
        first == spec_access_info(access_type),
        second == spec_access_info(access_type),
    ensures
        first == second,
{
}

} // verus!
