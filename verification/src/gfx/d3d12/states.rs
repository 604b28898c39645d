//! Direct3D 12 pipeline and resource state values: how the backend independent sampler,
//! blend, depth stencil, raster, topology, resource and query descriptions translate to the
//! values of the D3D12 API (the values of the Windows SDK headers).

use vstd::prelude::*;

use crate::gfx::{
    AccelerationStructureBuildFlags, RaytracingGeometryFlags, RenderTargetBlendInfo, ShaderVisibility, BlendFactor, BlendOp, BufferUsage, ComparisonFunc, CullMode, DepthWriteMask, FillMode, HeapType,
    IndirectArgumentType, LogicOp, QueryType, RaytracingHitGeometry, ResourceState, SamplerAddressMode,
    SamplerFilter, StencilOp, TextureType, TextureUsage, Topology,
};

verus! {

pub const D3D12_TEXTURE_ADDRESS_MODE_WRAP: i32 = 1;
pub const D3D12_TEXTURE_ADDRESS_MODE_MIRROR: i32 = 2;
pub const D3D12_TEXTURE_ADDRESS_MODE_CLAMP: i32 = 3;
pub const D3D12_TEXTURE_ADDRESS_MODE_BORDER: i32 = 4;
pub const D3D12_TEXTURE_ADDRESS_MODE_MIRROR_ONCE: i32 = 5;
pub const D3D12_COMPARISON_FUNC_NEVER: i32 = 1;
pub const D3D12_COMPARISON_FUNC_LESS: i32 = 2;
pub const D3D12_COMPARISON_FUNC_EQUAL: i32 = 3;
pub const D3D12_COMPARISON_FUNC_LESS_EQUAL: i32 = 4;
pub const D3D12_COMPARISON_FUNC_GREATER: i32 = 5;
pub const D3D12_COMPARISON_FUNC_NOT_EQUAL: i32 = 6;
pub const D3D12_COMPARISON_FUNC_GREATER_EQUAL: i32 = 7;
pub const D3D12_COMPARISON_FUNC_ALWAYS: i32 = 8;
pub const D3D12_RESOURCE_STATE_RENDER_TARGET: i32 = 4;
pub const D3D12_RESOURCE_STATE_PRESENT: i32 = 0;
pub const D3D12_RESOURCE_STATE_UNORDERED_ACCESS: i32 = 8;
pub const D3D12_RESOURCE_STATE_ALL_SHADER_RESOURCE: i32 = 0xc0;
pub const D3D12_RESOURCE_STATE_VERTEX_AND_CONSTANT_BUFFER: i32 = 1;
pub const D3D12_RESOURCE_STATE_INDEX_BUFFER: i32 = 2;
pub const D3D12_RESOURCE_STATE_DEPTH_WRITE: i32 = 0x10;
pub const D3D12_RESOURCE_STATE_DEPTH_READ: i32 = 0x20;
pub const D3D12_RESOURCE_STATE_RESOLVE_SOURCE: i32 = 0x2000;
pub const D3D12_RESOURCE_STATE_RESOLVE_DEST: i32 = 0x1000;
pub const D3D12_RESOURCE_STATE_COPY_SOURCE: i32 = 0x800;
pub const D3D12_RESOURCE_STATE_COPY_DEST: i32 = 0x400;
pub const D3D12_RESOURCE_STATE_GENERIC_READ: i32 = 0xac3;
pub const D3D12_RESOURCE_STATE_INDIRECT_ARGUMENT: i32 = 0x200;
pub const D3D12_RESOURCE_STATE_RAYTRACING_ACCELERATION_STRUCTURE: i32 = 0x400000;
pub const D3D12_DESCRIPTOR_HEAP_TYPE_CBV_SRV_UAV: i32 = 0;
pub const D3D12_DESCRIPTOR_HEAP_TYPE_RTV: i32 = 2;
pub const D3D12_DESCRIPTOR_HEAP_TYPE_DSV: i32 = 3;
pub const D3D12_DESCRIPTOR_HEAP_TYPE_SAMPLER: i32 = 1;
pub const D3D12_QUERY_HEAP_TYPE_OCCLUSION: i32 = 0;
pub const D3D12_QUERY_HEAP_TYPE_TIMESTAMP: i32 = 1;
pub const D3D12_QUERY_HEAP_TYPE_PIPELINE_STATISTICS: i32 = 2;
pub const D3D12_QUERY_HEAP_TYPE_VIDEO_DECODE_STATISTICS: i32 = 4;
pub const D3D12_QUERY_TYPE_OCCLUSION: i32 = 0;
pub const D3D12_QUERY_TYPE_BINARY_OCCLUSION: i32 = 1;
pub const D3D12_QUERY_TYPE_TIMESTAMP: i32 = 2;
pub const D3D12_QUERY_TYPE_PIPELINE_STATISTICS: i32 = 3;
pub const D3D12_QUERY_TYPE_VIDEO_DECODE_STATISTICS: i32 = 8;
pub const D3D12_DESCRIPTOR_HEAP_FLAG_SHADER_VISIBLE: i32 = 1;
pub const D3D12_DESCRIPTOR_HEAP_FLAG_NONE: i32 = 0;
pub const D3D12_PRIMITIVE_TOPOLOGY_TYPE_UNDEFINED: i32 = 0;
pub const D3D12_PRIMITIVE_TOPOLOGY_TYPE_POINT: i32 = 1;
pub const D3D12_PRIMITIVE_TOPOLOGY_TYPE_LINE: i32 = 2;
pub const D3D12_PRIMITIVE_TOPOLOGY_TYPE_TRIANGLE: i32 = 3;
pub const D3D12_PRIMITIVE_TOPOLOGY_TYPE_PATCH: i32 = 4;
pub const D3D12_FILL_MODE_WIREFRAME: i32 = 2;
pub const D3D12_FILL_MODE_SOLID: i32 = 3;
pub const D3D12_CULL_MODE_NONE: i32 = 1;
pub const D3D12_CULL_MODE_FRONT: i32 = 2;
pub const D3D12_CULL_MODE_BACK: i32 = 3;
pub const D3D12_DEPTH_WRITE_MASK_ZERO: i32 = 0;
pub const D3D12_DEPTH_WRITE_MASK_ALL: i32 = 1;
pub const D3D12_STENCIL_OP_KEEP: i32 = 1;
pub const D3D12_STENCIL_OP_ZERO: i32 = 2;
pub const D3D12_STENCIL_OP_REPLACE: i32 = 3;
pub const D3D12_STENCIL_OP_INCR_SAT: i32 = 4;
pub const D3D12_STENCIL_OP_DECR_SAT: i32 = 5;
pub const D3D12_STENCIL_OP_INVERT: i32 = 6;
pub const D3D12_STENCIL_OP_INCR: i32 = 7;
pub const D3D12_STENCIL_OP_DECR: i32 = 8;
pub const D3D12_BLEND_ZERO: i32 = 1;
pub const D3D12_BLEND_ONE: i32 = 2;
pub const D3D12_BLEND_SRC_COLOR: i32 = 3;
pub const D3D12_BLEND_INV_SRC_COLOR: i32 = 4;
pub const D3D12_BLEND_SRC_ALPHA: i32 = 5;
pub const D3D12_BLEND_INV_SRC_ALPHA: i32 = 6;
pub const D3D12_BLEND_DEST_ALPHA: i32 = 7;
pub const D3D12_BLEND_INV_DEST_ALPHA: i32 = 8;
pub const D3D12_BLEND_DEST_COLOR: i32 = 9;
pub const D3D12_BLEND_INV_DEST_COLOR: i32 = 0xa;
pub const D3D12_BLEND_SRC_ALPHA_SAT: i32 = 0xb;
pub const D3D12_BLEND_BLEND_FACTOR: i32 = 0xe;
pub const D3D12_BLEND_INV_BLEND_FACTOR: i32 = 0xf;
pub const D3D12_BLEND_SRC1_COLOR: i32 = 0x10;
pub const D3D12_BLEND_INV_SRC1_COLOR: i32 = 0x11;
pub const D3D12_BLEND_SRC1_ALPHA: i32 = 0x12;
pub const D3D12_BLEND_INV_SRC1_ALPHA: i32 = 0x13;
pub const D3D12_BLEND_OP_ADD: i32 = 1;
pub const D3D12_BLEND_OP_SUBTRACT: i32 = 2;
pub const D3D12_BLEND_OP_REV_SUBTRACT: i32 = 3;
pub const D3D12_BLEND_OP_MIN: i32 = 4;
pub const D3D12_BLEND_OP_MAX: i32 = 5;
pub const D3D12_LOGIC_OP_CLEAR: i32 = 0;
pub const D3D12_LOGIC_OP_SET: i32 = 1;
pub const D3D12_LOGIC_OP_COPY: i32 = 2;
pub const D3D12_LOGIC_OP_COPY_INVERTED: i32 = 3;
pub const D3D12_LOGIC_OP_NOOP: i32 = 4;
pub const D3D12_LOGIC_OP_INVERT: i32 = 5;
pub const D3D12_LOGIC_OP_AND: i32 = 6;
pub const D3D12_LOGIC_OP_NAND: i32 = 7;
pub const D3D12_LOGIC_OP_OR: i32 = 8;
pub const D3D12_LOGIC_OP_NOR: i32 = 9;
pub const D3D12_LOGIC_OP_XOR: i32 = 0xa;
pub const D3D12_LOGIC_OP_EQUIV: i32 = 0xb;
pub const D3D12_LOGIC_OP_AND_REVERSE: i32 = 0xc;
pub const D3D12_LOGIC_OP_AND_INVERTED: i32 = 0xd;
pub const D3D12_LOGIC_OP_OR_REVERSE: i32 = 0xe;
pub const D3D12_LOGIC_OP_OR_INVERTED: i32 = 0xf;
pub const D3D12_RESOURCE_DIMENSION_TEXTURE1D: i32 = 2;
pub const D3D12_RESOURCE_DIMENSION_TEXTURE2D: i32 = 3;
pub const D3D12_RESOURCE_DIMENSION_TEXTURE3D: i32 = 4;
pub const D3D12_INDIRECT_ARGUMENT_TYPE_DRAW: i32 = 0;
pub const D3D12_INDIRECT_ARGUMENT_TYPE_DRAW_INDEXED: i32 = 1;
pub const D3D12_INDIRECT_ARGUMENT_TYPE_DISPATCH: i32 = 2;
pub const D3D12_INDIRECT_ARGUMENT_TYPE_CONSTANT: i32 = 5;
pub const D3D12_INDIRECT_ARGUMENT_TYPE_CONSTANT_BUFFER_VIEW: i32 = 6;
pub const D3D12_INDIRECT_ARGUMENT_TYPE_VERTEX_BUFFER_VIEW: i32 = 3;
pub const D3D12_INDIRECT_ARGUMENT_TYPE_INDEX_BUFFER_VIEW: i32 = 4;
pub const D3D12_INDIRECT_ARGUMENT_TYPE_UNORDERED_ACCESS_VIEW: i32 = 8;
pub const D3D12_INDIRECT_ARGUMENT_TYPE_SHADER_RESOURCE_VIEW: i32 = 7;
pub const D3D12_HIT_GROUP_TYPE_TRIANGLES: i32 = 0;
pub const D3D12_HIT_GROUP_TYPE_PROCEDURAL_PRIMITIVE: i32 = 1;
pub const D3D12_FILTER_MIN_MAG_MIP_POINT: i32 = 0;
pub const D3D12_FILTER_MIN_MAG_MIP_LINEAR: i32 = 0x15;
pub const D3D12_FILTER_ANISOTROPIC: i32 = 0x55;
pub const D3D12_FILTER_COMPARISON_MIN_MAG_MIP_POINT: i32 = 0x80;
pub const D3D12_FILTER_COMPARISON_MIN_MAG_MIP_LINEAR: i32 = 0x95;
pub const D3D12_FILTER_COMPARISON_ANISOTROPIC: i32 = 0xd5;
pub const D3D12_STATIC_BORDER_COLOR_TRANSPARENT_BLACK: i32 = 0;
pub const D3D12_RESOURCE_FLAG_NONE: i32 = 0;
pub const D3D12_RESOURCE_FLAG_ALLOW_RENDER_TARGET: i32 = 0x1;
pub const D3D12_RESOURCE_FLAG_ALLOW_DEPTH_STENCIL: i32 = 0x2;
pub const D3D12_RESOURCE_FLAG_ALLOW_UNORDERED_ACCESS: i32 = 0x4;
pub const D3D12_RESOURCE_FLAG_ALLOW_SIMULTANEOUS_ACCESS: i32 = 0x20;
pub const D3D12_HEAP_FLAG_NONE: i32 = 0;
pub const D3D12_HEAP_FLAG_SHARED: i32 = 0x1;
pub const D3D_PRIMITIVE_TOPOLOGY_UNDEFINED: i32 = 0;
pub const D3D_PRIMITIVE_TOPOLOGY_POINTLIST: i32 = 1;
pub const D3D_PRIMITIVE_TOPOLOGY_LINELIST: i32 = 2;
pub const D3D_PRIMITIVE_TOPOLOGY_LINESTRIP: i32 = 3;
pub const D3D_PRIMITIVE_TOPOLOGY_TRIANGLELIST: i32 = 4;
pub const D3D_PRIMITIVE_TOPOLOGY_TRIANGLESTRIP: i32 = 5;
pub const D3D_PRIMITIVE_TOPOLOGY_LINELIST_ADJ: i32 = 10;
pub const D3D_PRIMITIVE_TOPOLOGY_LINESTRIP_ADJ: i32 = 11;
pub const D3D_PRIMITIVE_TOPOLOGY_TRIANGLELIST_ADJ: i32 = 12;
pub const D3D_PRIMITIVE_TOPOLOGY_TRIANGLESTRIP_ADJ: i32 = 13;
pub const D3D_PRIMITIVE_TOPOLOGY_1_CONTROL_POINT_PATCHLIST: i32 = 33;
pub const D3D12_SRV_DIMENSION_TEXTURE1D: i32 = 2;
pub const D3D12_SRV_DIMENSION_TEXTURE1DARRAY: i32 = 3;
pub const D3D12_SRV_DIMENSION_TEXTURE2D: i32 = 4;
pub const D3D12_SRV_DIMENSION_TEXTURE2DARRAY: i32 = 5;
pub const D3D12_SRV_DIMENSION_TEXTURE2DMS: i32 = 6;
pub const D3D12_SRV_DIMENSION_TEXTURE2DMSARRAY: i32 = 7;
pub const D3D12_SRV_DIMENSION_TEXTURE3D: i32 = 8;
pub const D3D12_SRV_DIMENSION_TEXTURECUBE: i32 = 9;
pub const D3D12_SRV_DIMENSION_TEXTURECUBEARRAY: i32 = 10;

/// The value `to_d3d12_address_mode` gives for each `SamplerAddressMode`.
pub open spec fn d3d12_address_mode(value: SamplerAddressMode) -> i32 {
    match value {
        SamplerAddressMode::Wrap => D3D12_TEXTURE_ADDRESS_MODE_WRAP,
        SamplerAddressMode::Mirror => D3D12_TEXTURE_ADDRESS_MODE_MIRROR,
        SamplerAddressMode::Clamp => D3D12_TEXTURE_ADDRESS_MODE_CLAMP,
        SamplerAddressMode::Border => D3D12_TEXTURE_ADDRESS_MODE_BORDER,
        SamplerAddressMode::MirrorOnce => D3D12_TEXTURE_ADDRESS_MODE_MIRROR_ONCE,
    }
}

/// Converts a sampler address mode to the D3D12 texture address mode.
pub fn to_d3d12_address_mode(value: SamplerAddressMode) -> (code: i32)
    ensures
        code == d3d12_address_mode(value),
{
    match value {
        SamplerAddressMode::Wrap => D3D12_TEXTURE_ADDRESS_MODE_WRAP,
        SamplerAddressMode::Mirror => D3D12_TEXTURE_ADDRESS_MODE_MIRROR,
        SamplerAddressMode::Clamp => D3D12_TEXTURE_ADDRESS_MODE_CLAMP,
        SamplerAddressMode::Border => D3D12_TEXTURE_ADDRESS_MODE_BORDER,
        SamplerAddressMode::MirrorOnce => D3D12_TEXTURE_ADDRESS_MODE_MIRROR_ONCE,
    }
}

/// The value `to_d3d12_comparison_func` gives for each `ComparisonFunc`.
pub open spec fn d3d12_comparison_func(value: ComparisonFunc) -> i32 {
    match value {
        ComparisonFunc::Never => D3D12_COMPARISON_FUNC_NEVER,
        ComparisonFunc::Less => D3D12_COMPARISON_FUNC_LESS,
        ComparisonFunc::Equal => D3D12_COMPARISON_FUNC_EQUAL,
        ComparisonFunc::LessEqual => D3D12_COMPARISON_FUNC_LESS_EQUAL,
        ComparisonFunc::Greater => D3D12_COMPARISON_FUNC_GREATER,
        ComparisonFunc::NotEqual => D3D12_COMPARISON_FUNC_NOT_EQUAL,
        ComparisonFunc::GreaterEqual => D3D12_COMPARISON_FUNC_GREATER_EQUAL,
        ComparisonFunc::Always => D3D12_COMPARISON_FUNC_ALWAYS,
    }
}

/// Converts a comparison function to the D3D12 comparison function.
pub fn to_d3d12_comparison_func(value: ComparisonFunc) -> (code: i32)
    ensures
        code == d3d12_comparison_func(value),
{
    match value {
        ComparisonFunc::Never => D3D12_COMPARISON_FUNC_NEVER,
        ComparisonFunc::Less => D3D12_COMPARISON_FUNC_LESS,
        ComparisonFunc::Equal => D3D12_COMPARISON_FUNC_EQUAL,
        ComparisonFunc::LessEqual => D3D12_COMPARISON_FUNC_LESS_EQUAL,
        ComparisonFunc::Greater => D3D12_COMPARISON_FUNC_GREATER,
        ComparisonFunc::NotEqual => D3D12_COMPARISON_FUNC_NOT_EQUAL,
        ComparisonFunc::GreaterEqual => D3D12_COMPARISON_FUNC_GREATER_EQUAL,
        ComparisonFunc::Always => D3D12_COMPARISON_FUNC_ALWAYS,
    }
}

/// The value `to_d3d12_resource_state` gives for each `ResourceState`.
pub open spec fn d3d12_resource_state(value: ResourceState) -> i32 {
    match value {
        ResourceState::RenderTarget => D3D12_RESOURCE_STATE_RENDER_TARGET,
        ResourceState::Present => D3D12_RESOURCE_STATE_PRESENT,
        ResourceState::UnorderedAccess => D3D12_RESOURCE_STATE_UNORDERED_ACCESS,
        ResourceState::ShaderResource => D3D12_RESOURCE_STATE_ALL_SHADER_RESOURCE,
        ResourceState::VertexConstantBuffer => D3D12_RESOURCE_STATE_VERTEX_AND_CONSTANT_BUFFER,
        ResourceState::IndexBuffer => D3D12_RESOURCE_STATE_INDEX_BUFFER,
        ResourceState::DepthStencil => D3D12_RESOURCE_STATE_DEPTH_WRITE,
        ResourceState::DepthStencilReadOnly => D3D12_RESOURCE_STATE_DEPTH_READ,
        ResourceState::ResolveSrc => D3D12_RESOURCE_STATE_RESOLVE_SOURCE,
        ResourceState::ResolveDst => D3D12_RESOURCE_STATE_RESOLVE_DEST,
        ResourceState::CopySrc => D3D12_RESOURCE_STATE_COPY_SOURCE,
        ResourceState::CopyDst => D3D12_RESOURCE_STATE_COPY_DEST,
        ResourceState::GenericRead => D3D12_RESOURCE_STATE_GENERIC_READ,
        ResourceState::IndirectArgument => D3D12_RESOURCE_STATE_INDIRECT_ARGUMENT,
        ResourceState::AccelerationStructure => D3D12_RESOURCE_STATE_RAYTRACING_ACCELERATION_STRUCTURE,
    }
}

/// Converts a resource state to the D3D12 resource state bits.
pub fn to_d3d12_resource_state(value: ResourceState) -> (code: i32)
    ensures
        code == d3d12_resource_state(value),
{
    match value {
        ResourceState::RenderTarget => D3D12_RESOURCE_STATE_RENDER_TARGET,
        ResourceState::Present => D3D12_RESOURCE_STATE_PRESENT,
        ResourceState::UnorderedAccess => D3D12_RESOURCE_STATE_UNORDERED_ACCESS,
        ResourceState::ShaderResource => D3D12_RESOURCE_STATE_ALL_SHADER_RESOURCE,
        ResourceState::VertexConstantBuffer => D3D12_RESOURCE_STATE_VERTEX_AND_CONSTANT_BUFFER,
        ResourceState::IndexBuffer => D3D12_RESOURCE_STATE_INDEX_BUFFER,
        ResourceState::DepthStencil => D3D12_RESOURCE_STATE_DEPTH_WRITE,
        ResourceState::DepthStencilReadOnly => D3D12_RESOURCE_STATE_DEPTH_READ,
        ResourceState::ResolveSrc => D3D12_RESOURCE_STATE_RESOLVE_SOURCE,
        ResourceState::ResolveDst => D3D12_RESOURCE_STATE_RESOLVE_DEST,
        ResourceState::CopySrc => D3D12_RESOURCE_STATE_COPY_SOURCE,
        ResourceState::CopyDst => D3D12_RESOURCE_STATE_COPY_DEST,
        ResourceState::GenericRead => D3D12_RESOURCE_STATE_GENERIC_READ,
        ResourceState::IndirectArgument => D3D12_RESOURCE_STATE_INDIRECT_ARGUMENT,
        ResourceState::AccelerationStructure => D3D12_RESOURCE_STATE_RAYTRACING_ACCELERATION_STRUCTURE,
    }
}

/// The value `to_d3d12_descriptor_heap_type` gives for each `HeapType`.
pub open spec fn d3d12_descriptor_heap_type(value: HeapType) -> i32 {
    match value {
        HeapType::Shader => D3D12_DESCRIPTOR_HEAP_TYPE_CBV_SRV_UAV,
        HeapType::RenderTarget => D3D12_DESCRIPTOR_HEAP_TYPE_RTV,
        HeapType::DepthStencil => D3D12_DESCRIPTOR_HEAP_TYPE_DSV,
        HeapType::Sampler => D3D12_DESCRIPTOR_HEAP_TYPE_SAMPLER,
    }
}

/// Converts a heap type to the D3D12 descriptor heap type.
pub fn to_d3d12_descriptor_heap_type(value: HeapType) -> (code: i32)
    ensures
        code == d3d12_descriptor_heap_type(value),
{
    match value {
        HeapType::Shader => D3D12_DESCRIPTOR_HEAP_TYPE_CBV_SRV_UAV,
        HeapType::RenderTarget => D3D12_DESCRIPTOR_HEAP_TYPE_RTV,
        HeapType::DepthStencil => D3D12_DESCRIPTOR_HEAP_TYPE_DSV,
        HeapType::Sampler => D3D12_DESCRIPTOR_HEAP_TYPE_SAMPLER,
    }
}

/// The value `to_d3d12_query_heap_type` gives for each `QueryType`.
pub open spec fn d3d12_query_heap_type(value: QueryType) -> i32 {
    match value {
        QueryType::Occlusion => D3D12_QUERY_HEAP_TYPE_OCCLUSION,
        QueryType::BinaryOcclusion => D3D12_QUERY_HEAP_TYPE_OCCLUSION,
        QueryType::Timestamp => D3D12_QUERY_HEAP_TYPE_TIMESTAMP,
        QueryType::PipelineStatistics => D3D12_QUERY_HEAP_TYPE_PIPELINE_STATISTICS,
        QueryType::VideoDecodeStatistics => D3D12_QUERY_HEAP_TYPE_VIDEO_DECODE_STATISTICS,
    }
}

/// Converts a query type to the D3D12 query heap type holding such queries.
pub fn to_d3d12_query_heap_type(value: QueryType) -> (code: i32)
    ensures
        code == d3d12_query_heap_type(value),
{
    match value {
        QueryType::Occlusion => D3D12_QUERY_HEAP_TYPE_OCCLUSION,
        QueryType::BinaryOcclusion => D3D12_QUERY_HEAP_TYPE_OCCLUSION,
        QueryType::Timestamp => D3D12_QUERY_HEAP_TYPE_TIMESTAMP,
        QueryType::PipelineStatistics => D3D12_QUERY_HEAP_TYPE_PIPELINE_STATISTICS,
        QueryType::VideoDecodeStatistics => D3D12_QUERY_HEAP_TYPE_VIDEO_DECODE_STATISTICS,
    }
}

/// The value `to_d3d12_query_type` gives for each `QueryType`.
pub open spec fn d3d12_query_type(value: QueryType) -> i32 {
    match value {
        QueryType::Occlusion => D3D12_QUERY_TYPE_OCCLUSION,
        QueryType::BinaryOcclusion => D3D12_QUERY_TYPE_BINARY_OCCLUSION,
        QueryType::Timestamp => D3D12_QUERY_TYPE_TIMESTAMP,
        QueryType::PipelineStatistics => D3D12_QUERY_TYPE_PIPELINE_STATISTICS,
        QueryType::VideoDecodeStatistics => D3D12_QUERY_TYPE_VIDEO_DECODE_STATISTICS,
    }
}

/// Converts a query type to the D3D12 query type.
pub fn to_d3d12_query_type(value: QueryType) -> (code: i32)
    ensures
        code == d3d12_query_type(value),
{
    match value {
        QueryType::Occlusion => D3D12_QUERY_TYPE_OCCLUSION,
        QueryType::BinaryOcclusion => D3D12_QUERY_TYPE_BINARY_OCCLUSION,
        QueryType::Timestamp => D3D12_QUERY_TYPE_TIMESTAMP,
        QueryType::PipelineStatistics => D3D12_QUERY_TYPE_PIPELINE_STATISTICS,
        QueryType::VideoDecodeStatistics => D3D12_QUERY_TYPE_VIDEO_DECODE_STATISTICS,
    }
}

/// The value `to_d3d12_descriptor_heap_flags` gives for each `HeapType`.
pub open spec fn d3d12_descriptor_heap_flags(value: HeapType) -> i32 {
    match value {
        HeapType::Shader => D3D12_DESCRIPTOR_HEAP_FLAG_SHADER_VISIBLE,
        HeapType::RenderTarget => D3D12_DESCRIPTOR_HEAP_FLAG_NONE,
        HeapType::DepthStencil => D3D12_DESCRIPTOR_HEAP_FLAG_NONE,
        HeapType::Sampler => D3D12_DESCRIPTOR_HEAP_FLAG_SHADER_VISIBLE,
    }
}

/// Descriptor heap flags of a heap type: shader and sampler heaps are shader visible.
pub fn to_d3d12_descriptor_heap_flags(value: HeapType) -> (code: i32)
    ensures
        code == d3d12_descriptor_heap_flags(value),
{
    match value {
        HeapType::Shader => D3D12_DESCRIPTOR_HEAP_FLAG_SHADER_VISIBLE,
        HeapType::RenderTarget => D3D12_DESCRIPTOR_HEAP_FLAG_NONE,
        HeapType::DepthStencil => D3D12_DESCRIPTOR_HEAP_FLAG_NONE,
        HeapType::Sampler => D3D12_DESCRIPTOR_HEAP_FLAG_SHADER_VISIBLE,
    }
}

/// The value `to_d3d12_primitive_topology_type` gives for each `Topology`.
pub open spec fn d3d12_primitive_topology_type(value: Topology) -> i32 {
    match value {
        Topology::Undefined => D3D12_PRIMITIVE_TOPOLOGY_TYPE_UNDEFINED,
        Topology::PointList => D3D12_PRIMITIVE_TOPOLOGY_TYPE_POINT,
        Topology::LineList => D3D12_PRIMITIVE_TOPOLOGY_TYPE_LINE,
        Topology::LineStrip => D3D12_PRIMITIVE_TOPOLOGY_TYPE_LINE,
        Topology::TriangleList => D3D12_PRIMITIVE_TOPOLOGY_TYPE_TRIANGLE,
        Topology::TriangleStrip => D3D12_PRIMITIVE_TOPOLOGY_TYPE_TRIANGLE,
        Topology::LineListAdj => D3D12_PRIMITIVE_TOPOLOGY_TYPE_LINE,
        Topology::LineStripAdj => D3D12_PRIMITIVE_TOPOLOGY_TYPE_LINE,
        Topology::TriangleListAdj => D3D12_PRIMITIVE_TOPOLOGY_TYPE_TRIANGLE,
        Topology::TriangleStripAdj => D3D12_PRIMITIVE_TOPOLOGY_TYPE_TRIANGLE,
        Topology::PatchList => D3D12_PRIMITIVE_TOPOLOGY_TYPE_PATCH,
    }
}

/// Converts a topology to the D3D12 primitive topology type (point, line, triangle or patch).
pub fn to_d3d12_primitive_topology_type(value: Topology) -> (code: i32)
    ensures
        code == d3d12_primitive_topology_type(value),
{
    match value {
        Topology::Undefined => D3D12_PRIMITIVE_TOPOLOGY_TYPE_UNDEFINED,
        Topology::PointList => D3D12_PRIMITIVE_TOPOLOGY_TYPE_POINT,
        Topology::LineList => D3D12_PRIMITIVE_TOPOLOGY_TYPE_LINE,
        Topology::LineStrip => D3D12_PRIMITIVE_TOPOLOGY_TYPE_LINE,
        Topology::TriangleList => D3D12_PRIMITIVE_TOPOLOGY_TYPE_TRIANGLE,
        Topology::TriangleStrip => D3D12_PRIMITIVE_TOPOLOGY_TYPE_TRIANGLE,
        Topology::LineListAdj => D3D12_PRIMITIVE_TOPOLOGY_TYPE_LINE,
        Topology::LineStripAdj => D3D12_PRIMITIVE_TOPOLOGY_TYPE_LINE,
        Topology::TriangleListAdj => D3D12_PRIMITIVE_TOPOLOGY_TYPE_TRIANGLE,
        Topology::TriangleStripAdj => D3D12_PRIMITIVE_TOPOLOGY_TYPE_TRIANGLE,
        Topology::PatchList => D3D12_PRIMITIVE_TOPOLOGY_TYPE_PATCH,
    }
}

/// The value `to_d3d12_fill_mode` gives for each `FillMode`.
pub open spec fn d3d12_fill_mode(value: FillMode) -> i32 {
    match value {
        FillMode::Wireframe => D3D12_FILL_MODE_WIREFRAME,
        FillMode::Solid => D3D12_FILL_MODE_SOLID,
    }
}

/// Converts a fill mode to the D3D12 fill mode.
pub fn to_d3d12_fill_mode(value: FillMode) -> (code: i32)
    ensures
        code == d3d12_fill_mode(value),
{
    match value {
        FillMode::Wireframe => D3D12_FILL_MODE_WIREFRAME,
        FillMode::Solid => D3D12_FILL_MODE_SOLID,
    }
}

/// The value `to_d3d12_cull_mode` gives for each `CullMode`.
pub open spec fn d3d12_cull_mode(value: CullMode) -> i32 {
    match value {
        CullMode::Off => D3D12_CULL_MODE_NONE,
        CullMode::Front => D3D12_CULL_MODE_FRONT,
        CullMode::Back => D3D12_CULL_MODE_BACK,
    }
}

/// Converts a cull mode to the D3D12 cull mode.
pub fn to_d3d12_cull_mode(value: CullMode) -> (code: i32)
    ensures
        code == d3d12_cull_mode(value),
{
    match value {
        CullMode::Off => D3D12_CULL_MODE_NONE,
        CullMode::Front => D3D12_CULL_MODE_FRONT,
        CullMode::Back => D3D12_CULL_MODE_BACK,
    }
}

/// The value `to_d3d12_write_mask` gives for each `DepthWriteMask`.
pub open spec fn d3d12_depth_write_mask(value: DepthWriteMask) -> i32 {
    match value {
        DepthWriteMask::Zero => D3D12_DEPTH_WRITE_MASK_ZERO,
        DepthWriteMask::All => D3D12_DEPTH_WRITE_MASK_ALL,
    }
}

/// Converts a depth write mask to the D3D12 depth write mask.
pub fn to_d3d12_write_mask(value: DepthWriteMask) -> (code: i32)
    ensures
        code == d3d12_depth_write_mask(value),
{
    match value {
        DepthWriteMask::Zero => D3D12_DEPTH_WRITE_MASK_ZERO,
        DepthWriteMask::All => D3D12_DEPTH_WRITE_MASK_ALL,
    }
}

/// The value `to_d3d12_stencil_op` gives for each `StencilOp`.
pub open spec fn d3d12_stencil_op(value: StencilOp) -> i32 {
    match value {
        StencilOp::Keep => D3D12_STENCIL_OP_KEEP,
        StencilOp::Zero => D3D12_STENCIL_OP_ZERO,
        StencilOp::Replace => D3D12_STENCIL_OP_REPLACE,
        StencilOp::IncrSat => D3D12_STENCIL_OP_INCR_SAT,
        StencilOp::DecrSat => D3D12_STENCIL_OP_DECR_SAT,
        StencilOp::Invert => D3D12_STENCIL_OP_INVERT,
        StencilOp::Incr => D3D12_STENCIL_OP_INCR,
        StencilOp::Decr => D3D12_STENCIL_OP_DECR,
    }
}

/// Converts a stencil operation to the D3D12 stencil operation.
pub fn to_d3d12_stencil_op(value: StencilOp) -> (code: i32)
    ensures
        code == d3d12_stencil_op(value),
{
    match value {
        StencilOp::Keep => D3D12_STENCIL_OP_KEEP,
        StencilOp::Zero => D3D12_STENCIL_OP_ZERO,
        StencilOp::Replace => D3D12_STENCIL_OP_REPLACE,
        StencilOp::IncrSat => D3D12_STENCIL_OP_INCR_SAT,
        StencilOp::DecrSat => D3D12_STENCIL_OP_DECR_SAT,
        StencilOp::Invert => D3D12_STENCIL_OP_INVERT,
        StencilOp::Incr => D3D12_STENCIL_OP_INCR,
        StencilOp::Decr => D3D12_STENCIL_OP_DECR,
    }
}

/// The value `to_d3d12_blend_factor` gives for each `BlendFactor`.
pub open spec fn d3d12_blend_factor(value: BlendFactor) -> i32 {
    match value {
        BlendFactor::Zero => D3D12_BLEND_ZERO,
        BlendFactor::One => D3D12_BLEND_ONE,
        BlendFactor::SrcColour => D3D12_BLEND_SRC_COLOR,
        BlendFactor::InvSrcColour => D3D12_BLEND_INV_SRC_COLOR,
        BlendFactor::SrcAlpha => D3D12_BLEND_SRC_ALPHA,
        BlendFactor::InvSrcAlpha => D3D12_BLEND_INV_SRC_ALPHA,
        BlendFactor::DstAlpha => D3D12_BLEND_DEST_ALPHA,
        BlendFactor::InvDstAlpha => D3D12_BLEND_INV_DEST_ALPHA,
        BlendFactor::DstColour => D3D12_BLEND_DEST_COLOR,
        BlendFactor::InvDstColour => D3D12_BLEND_INV_DEST_COLOR,
        BlendFactor::SrcAlphaSat => D3D12_BLEND_SRC_ALPHA_SAT,
        BlendFactor::BlendFactor => D3D12_BLEND_BLEND_FACTOR,
        BlendFactor::InvBlendFactor => D3D12_BLEND_INV_BLEND_FACTOR,
        BlendFactor::Src1Colour => D3D12_BLEND_SRC1_COLOR,
        BlendFactor::InvSrc1Colour => D3D12_BLEND_INV_SRC1_COLOR,
        BlendFactor::Src1Alpha => D3D12_BLEND_SRC1_ALPHA,
        BlendFactor::InvSrc1Alpha => D3D12_BLEND_INV_SRC1_ALPHA,
    }
}

/// Converts a blend factor to the D3D12 blend factor.
pub fn to_d3d12_blend_factor(value: BlendFactor) -> (code: i32)
    ensures
        code == d3d12_blend_factor(value),
{
    match value {
        BlendFactor::Zero => D3D12_BLEND_ZERO,
        BlendFactor::One => D3D12_BLEND_ONE,
        BlendFactor::SrcColour => D3D12_BLEND_SRC_COLOR,
        BlendFactor::InvSrcColour => D3D12_BLEND_INV_SRC_COLOR,
        BlendFactor::SrcAlpha => D3D12_BLEND_SRC_ALPHA,
        BlendFactor::InvSrcAlpha => D3D12_BLEND_INV_SRC_ALPHA,
        BlendFactor::DstAlpha => D3D12_BLEND_DEST_ALPHA,
        BlendFactor::InvDstAlpha => D3D12_BLEND_INV_DEST_ALPHA,
        BlendFactor::DstColour => D3D12_BLEND_DEST_COLOR,
        BlendFactor::InvDstColour => D3D12_BLEND_INV_DEST_COLOR,
        BlendFactor::SrcAlphaSat => D3D12_BLEND_SRC_ALPHA_SAT,
        BlendFactor::BlendFactor => D3D12_BLEND_BLEND_FACTOR,
        BlendFactor::InvBlendFactor => D3D12_BLEND_INV_BLEND_FACTOR,
        BlendFactor::Src1Colour => D3D12_BLEND_SRC1_COLOR,
        BlendFactor::InvSrc1Colour => D3D12_BLEND_INV_SRC1_COLOR,
        BlendFactor::Src1Alpha => D3D12_BLEND_SRC1_ALPHA,
        BlendFactor::InvSrc1Alpha => D3D12_BLEND_INV_SRC1_ALPHA,
    }
}

/// The value `to_d3d12_blend_op` gives for each `BlendOp`.
pub open spec fn d3d12_blend_op(value: BlendOp) -> i32 {
    match value {
        BlendOp::Add => D3D12_BLEND_OP_ADD,
        BlendOp::Subtract => D3D12_BLEND_OP_SUBTRACT,
        BlendOp::RevSubtract => D3D12_BLEND_OP_REV_SUBTRACT,
        BlendOp::Min => D3D12_BLEND_OP_MIN,
        BlendOp::Max => D3D12_BLEND_OP_MAX,
    }
}

/// Converts a blend operation to the D3D12 blend operation.
pub fn to_d3d12_blend_op(value: BlendOp) -> (code: i32)
    ensures
        code == d3d12_blend_op(value),
{
    match value {
        BlendOp::Add => D3D12_BLEND_OP_ADD,
        BlendOp::Subtract => D3D12_BLEND_OP_SUBTRACT,
        BlendOp::RevSubtract => D3D12_BLEND_OP_REV_SUBTRACT,
        BlendOp::Min => D3D12_BLEND_OP_MIN,
        BlendOp::Max => D3D12_BLEND_OP_MAX,
    }
}

/// The value `to_d3d12_logic_op` gives for each `LogicOp`.
pub open spec fn d3d12_logic_op(value: LogicOp) -> i32 {
    match value {
        LogicOp::Clear => D3D12_LOGIC_OP_CLEAR,
        LogicOp::SetBits => D3D12_LOGIC_OP_SET,
        LogicOp::Copy => D3D12_LOGIC_OP_COPY,
        LogicOp::CopyInverted => D3D12_LOGIC_OP_COPY_INVERTED,
        LogicOp::NoOp => D3D12_LOGIC_OP_NOOP,
        LogicOp::Invert => D3D12_LOGIC_OP_INVERT,
        LogicOp::And => D3D12_LOGIC_OP_AND,
        LogicOp::Nand => D3D12_LOGIC_OP_NAND,
        LogicOp::Or => D3D12_LOGIC_OP_OR,
        LogicOp::Nor => D3D12_LOGIC_OP_NOR,
        LogicOp::Xor => D3D12_LOGIC_OP_XOR,
        LogicOp::Equiv => D3D12_LOGIC_OP_EQUIV,
        LogicOp::AndReverse => D3D12_LOGIC_OP_AND_REVERSE,
        LogicOp::AndInverted => D3D12_LOGIC_OP_AND_INVERTED,
        LogicOp::OrReverse => D3D12_LOGIC_OP_OR_REVERSE,
        LogicOp::OrInverted => D3D12_LOGIC_OP_OR_INVERTED,
    }
}

/// Converts a logic operation to the D3D12 logic operation.
pub fn to_d3d12_logic_op(value: LogicOp) -> (code: i32)
    ensures
        code == d3d12_logic_op(value),
{
    match value {
        LogicOp::Clear => D3D12_LOGIC_OP_CLEAR,
        LogicOp::SetBits => D3D12_LOGIC_OP_SET,
        LogicOp::Copy => D3D12_LOGIC_OP_COPY,
        LogicOp::CopyInverted => D3D12_LOGIC_OP_COPY_INVERTED,
        LogicOp::NoOp => D3D12_LOGIC_OP_NOOP,
        LogicOp::Invert => D3D12_LOGIC_OP_INVERT,
        LogicOp::And => D3D12_LOGIC_OP_AND,
        LogicOp::Nand => D3D12_LOGIC_OP_NAND,
        LogicOp::Or => D3D12_LOGIC_OP_OR,
        LogicOp::Nor => D3D12_LOGIC_OP_NOR,
        LogicOp::Xor => D3D12_LOGIC_OP_XOR,
        LogicOp::Equiv => D3D12_LOGIC_OP_EQUIV,
        LogicOp::AndReverse => D3D12_LOGIC_OP_AND_REVERSE,
        LogicOp::AndInverted => D3D12_LOGIC_OP_AND_INVERTED,
        LogicOp::OrReverse => D3D12_LOGIC_OP_OR_REVERSE,
        LogicOp::OrInverted => D3D12_LOGIC_OP_OR_INVERTED,
    }
}

/// The value `to_d3d12_resource_dimension` gives for each `TextureType`.
pub open spec fn d3d12_resource_dimension(value: TextureType) -> i32 {
    match value {
        TextureType::Texture1D => D3D12_RESOURCE_DIMENSION_TEXTURE1D,
        TextureType::Texture1DArray => D3D12_RESOURCE_DIMENSION_TEXTURE1D,
        TextureType::Texture2D => D3D12_RESOURCE_DIMENSION_TEXTURE2D,
        TextureType::Texture2DArray => D3D12_RESOURCE_DIMENSION_TEXTURE2D,
        TextureType::TextureCube => D3D12_RESOURCE_DIMENSION_TEXTURE2D,
        TextureType::TextureCubeArray => D3D12_RESOURCE_DIMENSION_TEXTURE2D,
        TextureType::Texture3D => D3D12_RESOURCE_DIMENSION_TEXTURE3D,
    }
}

/// Converts a texture type to the D3D12 resource dimension: arrays and cubes are stored as 1D or 2D textures.
pub fn to_d3d12_resource_dimension(value: TextureType) -> (code: i32)
    ensures
        code == d3d12_resource_dimension(value),
{
    match value {
        TextureType::Texture1D => D3D12_RESOURCE_DIMENSION_TEXTURE1D,
        TextureType::Texture1DArray => D3D12_RESOURCE_DIMENSION_TEXTURE1D,
        TextureType::Texture2D => D3D12_RESOURCE_DIMENSION_TEXTURE2D,
        TextureType::Texture2DArray => D3D12_RESOURCE_DIMENSION_TEXTURE2D,
        TextureType::TextureCube => D3D12_RESOURCE_DIMENSION_TEXTURE2D,
        TextureType::TextureCubeArray => D3D12_RESOURCE_DIMENSION_TEXTURE2D,
        TextureType::Texture3D => D3D12_RESOURCE_DIMENSION_TEXTURE3D,
    }
}

/// The value `to_d3d12_indirect_argument_type` gives for each `IndirectArgumentType`.
pub open spec fn d3d12_indirect_argument_type(value: IndirectArgumentType) -> i32 {
    match value {
        IndirectArgumentType::Draw => D3D12_INDIRECT_ARGUMENT_TYPE_DRAW,
        IndirectArgumentType::DrawIndexed => D3D12_INDIRECT_ARGUMENT_TYPE_DRAW_INDEXED,
        IndirectArgumentType::Dispatch => D3D12_INDIRECT_ARGUMENT_TYPE_DISPATCH,
        IndirectArgumentType::PushConstants => D3D12_INDIRECT_ARGUMENT_TYPE_CONSTANT,
        IndirectArgumentType::ConstantBuffer => D3D12_INDIRECT_ARGUMENT_TYPE_CONSTANT_BUFFER_VIEW,
        IndirectArgumentType::VertexBuffer => D3D12_INDIRECT_ARGUMENT_TYPE_VERTEX_BUFFER_VIEW,
        IndirectArgumentType::IndexBuffer => D3D12_INDIRECT_ARGUMENT_TYPE_INDEX_BUFFER_VIEW,
        IndirectArgumentType::UnorderedAccess => D3D12_INDIRECT_ARGUMENT_TYPE_UNORDERED_ACCESS_VIEW,
        IndirectArgumentType::ShaderResource => D3D12_INDIRECT_ARGUMENT_TYPE_SHADER_RESOURCE_VIEW,
    }
}

/// Converts an indirect argument type to the D3D12 indirect argument type.
pub fn to_d3d12_indirect_argument_type(value: IndirectArgumentType) -> (code: i32)
    ensures
        code == d3d12_indirect_argument_type(value),
{
    match value {
        IndirectArgumentType::Draw => D3D12_INDIRECT_ARGUMENT_TYPE_DRAW,
        IndirectArgumentType::DrawIndexed => D3D12_INDIRECT_ARGUMENT_TYPE_DRAW_INDEXED,
        IndirectArgumentType::Dispatch => D3D12_INDIRECT_ARGUMENT_TYPE_DISPATCH,
        IndirectArgumentType::PushConstants => D3D12_INDIRECT_ARGUMENT_TYPE_CONSTANT,
        IndirectArgumentType::ConstantBuffer => D3D12_INDIRECT_ARGUMENT_TYPE_CONSTANT_BUFFER_VIEW,
        IndirectArgumentType::VertexBuffer => D3D12_INDIRECT_ARGUMENT_TYPE_VERTEX_BUFFER_VIEW,
        IndirectArgumentType::IndexBuffer => D3D12_INDIRECT_ARGUMENT_TYPE_INDEX_BUFFER_VIEW,
        IndirectArgumentType::UnorderedAccess => D3D12_INDIRECT_ARGUMENT_TYPE_UNORDERED_ACCESS_VIEW,
        IndirectArgumentType::ShaderResource => D3D12_INDIRECT_ARGUMENT_TYPE_SHADER_RESOURCE_VIEW,
    }
}

/// The value `to_d3d12_hit_group_type` gives for each `RaytracingHitGeometry`.
pub open spec fn d3d12_hit_group_type(value: RaytracingHitGeometry) -> i32 {
    match value {
        RaytracingHitGeometry::Triangles => D3D12_HIT_GROUP_TYPE_TRIANGLES,
        RaytracingHitGeometry::ProceduralPrimitive => D3D12_HIT_GROUP_TYPE_PROCEDURAL_PRIMITIVE,
    }
}

/// Converts raytracing hit geometry to the D3D12 hit group type.
pub fn to_d3d12_hit_group_type(value: RaytracingHitGeometry) -> (code: i32)
    ensures
        code == d3d12_hit_group_type(value),
{
    match value {
        RaytracingHitGeometry::Triangles => D3D12_HIT_GROUP_TYPE_TRIANGLES,
        RaytracingHitGeometry::ProceduralPrimitive => D3D12_HIT_GROUP_TYPE_PROCEDURAL_PRIMITIVE,
    }
}

/// Filter D3D12 samplers use: point, trilinear or anisotropic filtering, in their comparison
/// variants when the sampler compares.
pub open spec fn d3d12_filter(filter: SamplerFilter, compare: bool) -> i32 {
    if compare {
        match filter {
            SamplerFilter::Point => D3D12_FILTER_COMPARISON_MIN_MAG_MIP_POINT,
            SamplerFilter::Linear => D3D12_FILTER_COMPARISON_MIN_MAG_MIP_LINEAR,
            SamplerFilter::Anisotropic => D3D12_FILTER_COMPARISON_ANISOTROPIC,
        }
    } else {
        match filter {
            SamplerFilter::Point => D3D12_FILTER_MIN_MAG_MIP_POINT,
            SamplerFilter::Linear => D3D12_FILTER_MIN_MAG_MIP_LINEAR,
            SamplerFilter::Anisotropic => D3D12_FILTER_ANISOTROPIC,
        }
    }
}

/// Converts a sampler filter, and whether the sampler compares, to the D3D12 filter.
pub fn to_d3d12_filter(filter: SamplerFilter, func: Option<ComparisonFunc>) -> (code: i32)
    ensures
        code == d3d12_filter(filter, func is Some),
{
    if func.is_some() {
        match filter {
            SamplerFilter::Point => D3D12_FILTER_COMPARISON_MIN_MAG_MIP_POINT,
            SamplerFilter::Linear => D3D12_FILTER_COMPARISON_MIN_MAG_MIP_LINEAR,
            SamplerFilter::Anisotropic => D3D12_FILTER_COMPARISON_ANISOTROPIC,
        }
    } else {
        match filter {
            SamplerFilter::Point => D3D12_FILTER_MIN_MAG_MIP_POINT,
            SamplerFilter::Linear => D3D12_FILTER_MIN_MAG_MIP_LINEAR,
            SamplerFilter::Anisotropic => D3D12_FILTER_ANISOTROPIC,
        }
    }
}

/// Comparison function of a sampler: its own, or `Always` for samplers that do not compare.
pub fn to_d3d12_address_comparison_func(func: Option<ComparisonFunc>) -> (code: i32)
    ensures
        code == match func {
            Some(f) => d3d12_comparison_func(f),
            None => D3D12_COMPARISON_FUNC_ALWAYS,
        },
{
    if let Some(func) = func {
        to_d3d12_comparison_func(func)
    } else {
        D3D12_COMPARISON_FUNC_ALWAYS
    }
}

/// Static border colour of a sampler: the given colour code, or transparent black.
pub fn to_d3d12_sampler_boarder_colour(col: Option<u32>) -> (code: i32)
    ensures
        code == match col {
            Some(c) => c as i32,
            None => D3D12_STATIC_BORDER_COLOR_TRANSPARENT_BLACK,
        },
{
    let mut r: i32 = D3D12_STATIC_BORDER_COLOR_TRANSPARENT_BLACK;
    if let Some(col) = col {
        r = col as i32;
    }
    r
}

/// D3D12 resource flags a texture of `usage` is created with.
pub open spec fn d3d12_texture_usage_flags(usage: TextureUsage) -> i32 {
    (if usage.bits & TextureUsage::RENDER_TARGET == TextureUsage::RENDER_TARGET { D3D12_RESOURCE_FLAG_ALLOW_RENDER_TARGET } else { 0i32 })
    | (if usage.bits & TextureUsage::DEPTH_STENCIL == TextureUsage::DEPTH_STENCIL { D3D12_RESOURCE_FLAG_ALLOW_DEPTH_STENCIL } else { 0i32 })
    | (if usage.bits & TextureUsage::UNORDERED_ACCESS == TextureUsage::UNORDERED_ACCESS { D3D12_RESOURCE_FLAG_ALLOW_UNORDERED_ACCESS } else { 0i32 })
    | (if usage.bits & TextureUsage::VIDEO_DECODE_TARGET == TextureUsage::VIDEO_DECODE_TARGET {
        D3D12_RESOURCE_FLAG_ALLOW_RENDER_TARGET | D3D12_RESOURCE_FLAG_ALLOW_SIMULTANEOUS_ACCESS
    } else {
        0i32
    })
}

/// Converts texture usage to the D3D12 resource flags of the texture.
pub fn to_d3d12_texture_usage_flags(usage: TextureUsage) -> (flags: i32)
    ensures
        flags == d3d12_texture_usage_flags(usage),
{
    let rt: i32 = if usage.contains(TextureUsage::RENDER_TARGET) { D3D12_RESOURCE_FLAG_ALLOW_RENDER_TARGET } else { 0 };
    let ds: i32 = if usage.contains(TextureUsage::DEPTH_STENCIL) { D3D12_RESOURCE_FLAG_ALLOW_DEPTH_STENCIL } else { 0 };
    let ua: i32 = if usage.contains(TextureUsage::UNORDERED_ACCESS) { D3D12_RESOURCE_FLAG_ALLOW_UNORDERED_ACCESS } else { 0 };
    let vd: i32 = if usage.contains(TextureUsage::VIDEO_DECODE_TARGET) {
        D3D12_RESOURCE_FLAG_ALLOW_RENDER_TARGET | D3D12_RESOURCE_FLAG_ALLOW_SIMULTANEOUS_ACCESS
    } else {
        0
    };
    let mut flags: i32 = D3D12_RESOURCE_FLAG_NONE;
    flags = flags | rt;
    flags = flags | ds;
    flags = flags | ua;
    flags = flags | vd;
    assert((((0i32 | rt) | ds) | ua) | vd == ((rt | ds) | ua) | vd) by (bit_vector);
    flags
}

/// Converts buffer usage to the D3D12 resource flags of the buffer: unordered access buffers
/// allow unordered access.
pub fn to_d3d12_buffer_usage_flags(usage: BufferUsage) -> (flags: i32)
    ensures
        flags == if usage.bits & BufferUsage::UNORDERED_ACCESS == BufferUsage::UNORDERED_ACCESS {
            D3D12_RESOURCE_FLAG_ALLOW_UNORDERED_ACCESS
        } else {
            D3D12_RESOURCE_FLAG_NONE
        },
{
    let mut flags: i32 = D3D12_RESOURCE_FLAG_NONE;
    if usage.contains(BufferUsage::UNORDERED_ACCESS) {
        flags = flags | D3D12_RESOURCE_FLAG_ALLOW_UNORDERED_ACCESS;
        assert(0i32 | 4i32 == 4i32) by (bit_vector);
    }
    flags
}

/// D3D12 heap flags of the heap a texture of `usage` lives in: video decode targets live in
/// shared heaps.
pub open spec fn d3d12_texture_heap_flags(usage: TextureUsage) -> i32 {
    if usage.bits & TextureUsage::VIDEO_DECODE_TARGET == TextureUsage::VIDEO_DECODE_TARGET {
        D3D12_HEAP_FLAG_SHARED
    } else {
        D3D12_HEAP_FLAG_NONE
    }
}

/// Converts texture usage to the D3D12 heap flags of the texture's heap.
pub fn to_d3d12_texture_heap_flags(usage: TextureUsage) -> (flags: i32)
    ensures
        flags == d3d12_texture_heap_flags(usage),
{
    let mut flags: i32 = D3D12_HEAP_FLAG_NONE;
    if usage.contains(TextureUsage::VIDEO_DECODE_TARGET) {
        flags = flags | D3D12_HEAP_FLAG_SHARED;
        assert(0i32 | 1i32 == 1i32) by (bit_vector);
    }
    flags
}

/// D3D primitive topology of `topology`; patch lists count their control points from
/// `patch_index`.
pub open spec fn d3d_primitive_topology(topology: Topology, patch_index: u32) -> int {
    match topology {
        Topology::Undefined => D3D_PRIMITIVE_TOPOLOGY_UNDEFINED as int,
        Topology::PointList => D3D_PRIMITIVE_TOPOLOGY_POINTLIST as int,
        Topology::LineList => D3D_PRIMITIVE_TOPOLOGY_LINELIST as int,
        Topology::LineStrip => D3D_PRIMITIVE_TOPOLOGY_LINESTRIP as int,
        Topology::TriangleList => D3D_PRIMITIVE_TOPOLOGY_TRIANGLELIST as int,
        Topology::TriangleStrip => D3D_PRIMITIVE_TOPOLOGY_TRIANGLESTRIP as int,
        Topology::LineListAdj => D3D_PRIMITIVE_TOPOLOGY_LINELIST_ADJ as int,
        Topology::LineStripAdj => D3D_PRIMITIVE_TOPOLOGY_LINESTRIP_ADJ as int,
        Topology::TriangleListAdj => D3D_PRIMITIVE_TOPOLOGY_TRIANGLELIST_ADJ as int,
        Topology::TriangleStripAdj => D3D_PRIMITIVE_TOPOLOGY_TRIANGLESTRIP_ADJ as int,
        Topology::PatchList => D3D_PRIMITIVE_TOPOLOGY_1_CONTROL_POINT_PATCHLIST + patch_index as i32,
    }
}

/// Converts a topology to the D3D primitive topology. The patch list sum is taken in `i32`,
/// which overflows (and panics) for patch indices above `i32::MAX - 33`, so those are excluded.
pub fn to_d3d12_primitive_topology(topology: Topology, patch_index: u32) -> (code: i32)
    requires
        topology == Topology::PatchList ==> D3D_PRIMITIVE_TOPOLOGY_1_CONTROL_POINT_PATCHLIST + patch_index as i32 <= i32::MAX,
    ensures
        code == d3d_primitive_topology(topology, patch_index),
{
    match topology {
        Topology::Undefined => D3D_PRIMITIVE_TOPOLOGY_UNDEFINED,
        Topology::PointList => D3D_PRIMITIVE_TOPOLOGY_POINTLIST,
        Topology::LineList => D3D_PRIMITIVE_TOPOLOGY_LINELIST,
        Topology::LineStrip => D3D_PRIMITIVE_TOPOLOGY_LINESTRIP,
        Topology::TriangleList => D3D_PRIMITIVE_TOPOLOGY_TRIANGLELIST,
        Topology::TriangleStrip => D3D_PRIMITIVE_TOPOLOGY_TRIANGLESTRIP,
        Topology::LineListAdj => D3D_PRIMITIVE_TOPOLOGY_LINELIST_ADJ,
        Topology::LineStripAdj => D3D_PRIMITIVE_TOPOLOGY_LINESTRIP_ADJ,
        Topology::TriangleListAdj => D3D_PRIMITIVE_TOPOLOGY_TRIANGLELIST_ADJ,
        Topology::TriangleStripAdj => D3D_PRIMITIVE_TOPOLOGY_TRIANGLESTRIP_ADJ,
        Topology::PatchList => D3D_PRIMITIVE_TOPOLOGY_1_CONTROL_POINT_PATCHLIST + patch_index as i32,
    }
}

/// Shader resource view dimension of a texture; multisampled views exist only for 2D textures
/// and 2D arrays (the other types panic, so they are excluded).
pub open spec fn d3d12_srv_dimension(tex_type: TextureType, samples: u32) -> i32 {
    if samples > 1 {
        if tex_type == TextureType::Texture2D {
            D3D12_SRV_DIMENSION_TEXTURE2DMS
        } else {
            D3D12_SRV_DIMENSION_TEXTURE2DMSARRAY
        }
    } else {
        match tex_type {
            TextureType::Texture1D => D3D12_SRV_DIMENSION_TEXTURE1D,
            TextureType::Texture1DArray => D3D12_SRV_DIMENSION_TEXTURE1DARRAY,
            TextureType::Texture2D => D3D12_SRV_DIMENSION_TEXTURE2D,
            TextureType::Texture2DArray => D3D12_SRV_DIMENSION_TEXTURE2DARRAY,
            TextureType::TextureCube => D3D12_SRV_DIMENSION_TEXTURECUBE,
            TextureType::TextureCubeArray => D3D12_SRV_DIMENSION_TEXTURECUBEARRAY,
            TextureType::Texture3D => D3D12_SRV_DIMENSION_TEXTURE3D,
        }
    }
}

/// Converts a texture type and sample count to the D3D12 shader resource view dimension.
pub fn to_d3d12_texture_srv_dimension(tex_type: TextureType, samples: u32) -> (code: i32)
    requires
        samples > 1 ==> tex_type == TextureType::Texture2D || tex_type == TextureType::Texture2DArray,
    ensures
        code == d3d12_srv_dimension(tex_type, samples),
{
    if samples > 1 {
        match tex_type {
            TextureType::Texture2D => D3D12_SRV_DIMENSION_TEXTURE2DMS,
            _ => D3D12_SRV_DIMENSION_TEXTURE2DMSARRAY,
        }
    } else {
        match tex_type {
            TextureType::Texture1D => D3D12_SRV_DIMENSION_TEXTURE1D,
            TextureType::Texture1DArray => D3D12_SRV_DIMENSION_TEXTURE1DARRAY,
            TextureType::Texture2D => D3D12_SRV_DIMENSION_TEXTURE2D,
            TextureType::Texture2DArray => D3D12_SRV_DIMENSION_TEXTURE2DARRAY,
            TextureType::TextureCube => D3D12_SRV_DIMENSION_TEXTURECUBE,
            TextureType::TextureCubeArray => D3D12_SRV_DIMENSION_TEXTURECUBEARRAY,
            TextureType::Texture3D => D3D12_SRV_DIMENSION_TEXTURE3D,
        }
    }
}

pub const D3D12_SHADER_VISIBILITY_ALL: i32 = 0;
pub const D3D12_SHADER_VISIBILITY_VERTEX: i32 = 1;
pub const D3D12_SHADER_VISIBILITY_PIXEL: i32 = 5;

/// The value `to_d3d12_shader_visibility` gives for each `ShaderVisibility`: compute shaders
/// see root parameters visible to all stages.
pub open spec fn d3d12_shader_visibility(value: ShaderVisibility) -> i32 {
    match value {
        ShaderVisibility::All => D3D12_SHADER_VISIBILITY_ALL,
        ShaderVisibility::Vertex => D3D12_SHADER_VISIBILITY_VERTEX,
        ShaderVisibility::Fragment => D3D12_SHADER_VISIBILITY_PIXEL,
        ShaderVisibility::Compute => D3D12_SHADER_VISIBILITY_ALL,
    }
}

/// Converts a shader visibility to the D3D12 shader visibility of a root parameter.
pub fn to_d3d12_shader_visibility(value: &ShaderVisibility) -> (code: i32)
    ensures
        code == d3d12_shader_visibility(*value),
{
    match value {
        ShaderVisibility::All => D3D12_SHADER_VISIBILITY_ALL,
        ShaderVisibility::Vertex => D3D12_SHADER_VISIBILITY_VERTEX,
        ShaderVisibility::Fragment => D3D12_SHADER_VISIBILITY_PIXEL,
        ShaderVisibility::Compute => D3D12_SHADER_VISIBILITY_ALL,
    }
}

/// Blend state of one render target as D3D12 takes it.
#[derive(Copy, Clone, Debug, PartialEq, Eq, Structural)]
pub struct D3d12RenderTargetBlend {
    pub blend_enable: bool,
    pub logic_op_enable: bool,
    pub src_blend: i32,
    pub dest_blend: i32,
    pub blend_op: i32,
    pub src_blend_alpha: i32,
    pub dest_blend_alpha: i32,
    pub blend_op_alpha: i32,
    pub logic_op: i32,
    pub render_target_write_mask: u8,
}

/// Render targets a D3D12 pipeline has blend states for.
pub const D3D12_SIMULTANEOUS_RENDER_TARGET_COUNT: usize = 8;

/// The blend state of a render target whose blend is not described: everything zero.
pub open spec fn zero_blend() -> D3d12RenderTargetBlend {
    D3d12RenderTargetBlend {
        blend_enable: false,
        logic_op_enable: false,
        src_blend: 0,
        dest_blend: 0,
        blend_op: 0,
        src_blend_alpha: 0,
        dest_blend_alpha: 0,
        blend_op_alpha: 0,
        logic_op: 0,
        render_target_write_mask: 0,
    }
}

/// The D3D12 blend state of a described render target blend.
pub open spec fn d3d12_blend(info: RenderTargetBlendInfo) -> D3d12RenderTargetBlend {
    D3d12RenderTargetBlend {
        blend_enable: info.blend_enabled,
        logic_op_enable: info.logic_op_enabled,
        src_blend: d3d12_blend_factor(info.src_blend),
        dest_blend: d3d12_blend_factor(info.dst_blend),
        blend_op: d3d12_blend_op(info.blend_op),
        src_blend_alpha: d3d12_blend_factor(info.src_blend_alpha),
        dest_blend_alpha: d3d12_blend_factor(info.dst_blend_alpha),
        blend_op_alpha: d3d12_blend_op(info.blend_op_alpha),
        logic_op: d3d12_logic_op(info.logic_op),
        render_target_write_mask: info.write_mask.bits,
    }
}

/// Converts the blend descriptions of the render targets to the eight D3D12 render target
/// blend states: the described targets in order, the rest zero. At most eight targets can
/// be described.
pub fn to_d3d12_render_target_blend(blend_info: &[RenderTargetBlendInfo]) -> (blends: Vec<D3d12RenderTargetBlend>)
    requires
        blend_info@.len() <= D3D12_SIMULTANEOUS_RENDER_TARGET_COUNT,
    ensures
        blends@.len() == D3D12_SIMULTANEOUS_RENDER_TARGET_COUNT,
        forall|i: int| 0 <= i < D3D12_SIMULTANEOUS_RENDER_TARGET_COUNT ==> #[trigger] blends@[i] == if i < blend_info@.len() {
            d3d12_blend(blend_info@[i])
        } else {
            zero_blend()
        },
{
    let mut blends: Vec<D3d12RenderTargetBlend> = Vec::new();
    let mut i: usize = 0;
    while i < D3D12_SIMULTANEOUS_RENDER_TARGET_COUNT
        invariant
            i <= D3D12_SIMULTANEOUS_RENDER_TARGET_COUNT,
            blend_info@.len() <= D3D12_SIMULTANEOUS_RENDER_TARGET_COUNT,
            blends@.len() == i,
            forall|j: int| 0 <= j < i ==> #[trigger] blends@[j] == if j < blend_info@.len() {
                d3d12_blend(blend_info@[j])
            } else {
                zero_blend()
            },
        decreases D3D12_SIMULTANEOUS_RENDER_TARGET_COUNT - i,
    {
        if i < blend_info.len() {
            let b: &RenderTargetBlendInfo = &blend_info[i];
            blends.push(D3d12RenderTargetBlend {
                blend_enable: b.blend_enabled,
                logic_op_enable: b.logic_op_enabled,
                src_blend: to_d3d12_blend_factor(b.src_blend),
                dest_blend: to_d3d12_blend_factor(b.dst_blend),
                blend_op: to_d3d12_blend_op(b.blend_op),
                src_blend_alpha: to_d3d12_blend_factor(b.src_blend_alpha),
                dest_blend_alpha: to_d3d12_blend_factor(b.dst_blend_alpha),
                blend_op_alpha: to_d3d12_blend_op(b.blend_op_alpha),
                logic_op: to_d3d12_logic_op(b.logic_op),
                render_target_write_mask: u8::from(b.write_mask),
            });
        } else {
            blends.push(D3d12RenderTargetBlend {
                blend_enable: false,
                logic_op_enable: false,
                src_blend: 0,
                dest_blend: 0,
                blend_op: 0,
                src_blend_alpha: 0,
                dest_blend_alpha: 0,
                blend_op_alpha: 0,
                logic_op: 0,
                render_target_write_mask: 0,
            });
        }
        i = i + 1;
    }
    blends
}

pub const D3D12_RAYTRACING_GEOMETRY_FLAG_OPAQUE: i32 = 0x1;
pub const D3D12_RAYTRACING_GEOMETRY_FLAG_NO_DUPLICATE_ANYHIT_INVOCATION: i32 = 0x2;
pub const D3D12_RAYTRACING_ACCELERATION_STRUCTURE_BUILD_FLAG_ALLOW_UPDATE: i32 = 0x1;
pub const D3D12_RAYTRACING_ACCELERATION_STRUCTURE_BUILD_FLAG_ALLOW_COMPACTION: i32 = 0x2;
pub const D3D12_RAYTRACING_ACCELERATION_STRUCTURE_BUILD_FLAG_PREFER_FAST_TRACE: i32 = 0x4;
pub const D3D12_RAYTRACING_ACCELERATION_STRUCTURE_BUILD_FLAG_PREFER_FAST_BUILD: i32 = 0x8;
pub const D3D12_RAYTRACING_ACCELERATION_STRUCTURE_BUILD_FLAG_MINIMIZE_MEMORY: i32 = 0x10;
pub const D3D12_RAYTRACING_ACCELERATION_STRUCTURE_BUILD_FLAG_PERFORM_UPDATE: i32 = 0x20;

/// D3D12 geometry flags of raytracing geometry flags.
pub open spec fn d3d12_raytracing_geometry_flags(flags: RaytracingGeometryFlags) -> i32 {
    (if flags.bits & RaytracingGeometryFlags::OPAQUE == RaytracingGeometryFlags::OPAQUE {
        D3D12_RAYTRACING_GEOMETRY_FLAG_OPAQUE
    } else {
        0i32
    }) | (if flags.bits & RaytracingGeometryFlags::NO_DUPLICATE_ANY_HIT == RaytracingGeometryFlags::NO_DUPLICATE_ANY_HIT {
        D3D12_RAYTRACING_GEOMETRY_FLAG_NO_DUPLICATE_ANYHIT_INVOCATION
    } else {
        0i32
    })
}

/// Converts raytracing geometry flags to the D3D12 geometry flags.
pub fn to_d3d12_raytracing_geometry_flags(flags: RaytracingGeometryFlags) -> (d3d12_flags: i32)
    ensures
        d3d12_flags == d3d12_raytracing_geometry_flags(flags),
{
    let opaque: i32 = if flags.contains(RaytracingGeometryFlags::OPAQUE) { D3D12_RAYTRACING_GEOMETRY_FLAG_OPAQUE } else { 0 };
    let single_any_hit: i32 = if flags.contains(RaytracingGeometryFlags::NO_DUPLICATE_ANY_HIT) {
        D3D12_RAYTRACING_GEOMETRY_FLAG_NO_DUPLICATE_ANYHIT_INVOCATION
    } else {
        0
    };
    let mut d3d12_flags: i32 = 0;
    d3d12_flags = d3d12_flags | opaque;
    d3d12_flags = d3d12_flags | single_any_hit;
    assert((0i32 | opaque) | single_any_hit == opaque | single_any_hit) by (bit_vector);
    d3d12_flags
}

/// The D3D12 flag `flag` when build flags `flags` hold `bit`, else no flag.
pub open spec fn build_flag(flags: AccelerationStructureBuildFlags, bit: u8, flag: i32) -> i32 {
    if flags.bits & bit == bit { flag } else { 0i32 }
}

/// D3D12 build flags of acceleration structure build flags.
pub open spec fn d3d12_build_flags(flags: AccelerationStructureBuildFlags) -> i32 {
    build_flag(flags, AccelerationStructureBuildFlags::ALLOW_COMPACTION, D3D12_RAYTRACING_ACCELERATION_STRUCTURE_BUILD_FLAG_ALLOW_COMPACTION)
    | build_flag(flags, AccelerationStructureBuildFlags::ALLOW_UPDATE, D3D12_RAYTRACING_ACCELERATION_STRUCTURE_BUILD_FLAG_ALLOW_UPDATE)
    | build_flag(flags, AccelerationStructureBuildFlags::MINIMIZE_MEMORY, D3D12_RAYTRACING_ACCELERATION_STRUCTURE_BUILD_FLAG_MINIMIZE_MEMORY)
    | build_flag(flags, AccelerationStructureBuildFlags::PERFORM_UPDATE, D3D12_RAYTRACING_ACCELERATION_STRUCTURE_BUILD_FLAG_PERFORM_UPDATE)
    | build_flag(flags, AccelerationStructureBuildFlags::PREFER_FAST_BUILD, D3D12_RAYTRACING_ACCELERATION_STRUCTURE_BUILD_FLAG_PREFER_FAST_BUILD)
    | build_flag(flags, AccelerationStructureBuildFlags::PREFER_FAST_TRACE, D3D12_RAYTRACING_ACCELERATION_STRUCTURE_BUILD_FLAG_PREFER_FAST_TRACE)
}

/// Converts acceleration structure build flags to the D3D12 build flags.
pub fn to_d3d12_raytracing_acceleration_structure_build_flags(flags: AccelerationStructureBuildFlags) -> (d3d12_flags: i32)
    ensures
        d3d12_flags == d3d12_build_flags(flags),
{
    let a: i32 = if flags.contains(AccelerationStructureBuildFlags::ALLOW_COMPACTION) {
        D3D12_RAYTRACING_ACCELERATION_STRUCTURE_BUILD_FLAG_ALLOW_COMPACTION
    } else {
        0
    };
    let b: i32 = if flags.contains(AccelerationStructureBuildFlags::ALLOW_UPDATE) {
        D3D12_RAYTRACING_ACCELERATION_STRUCTURE_BUILD_FLAG_ALLOW_UPDATE
    } else {
        0
    };
    let c: i32 = if flags.contains(AccelerationStructureBuildFlags::MINIMIZE_MEMORY) {
        D3D12_RAYTRACING_ACCELERATION_STRUCTURE_BUILD_FLAG_MINIMIZE_MEMORY
    } else {
        0
    };
    let d: i32 = if flags.contains(AccelerationStructureBuildFlags::PERFORM_UPDATE) {
        D3D12_RAYTRACING_ACCELERATION_STRUCTURE_BUILD_FLAG_PERFORM_UPDATE
    } else {
        0
    };
    let e: i32 = if flags.contains(AccelerationStructureBuildFlags::PREFER_FAST_BUILD) {
        D3D12_RAYTRACING_ACCELERATION_STRUCTURE_BUILD_FLAG_PREFER_FAST_BUILD
    } else {
        0
    };
    let f: i32 = if flags.contains(AccelerationStructureBuildFlags::PREFER_FAST_TRACE) {
        D3D12_RAYTRACING_ACCELERATION_STRUCTURE_BUILD_FLAG_PREFER_FAST_TRACE
    } else {
        0
    };
    let mut d3d12_flags: i32 = 0;
    d3d12_flags = d3d12_flags | a;
    d3d12_flags = d3d12_flags | b;
    d3d12_flags = d3d12_flags | c;
    d3d12_flags = d3d12_flags | d;
    d3d12_flags = d3d12_flags | e;
    d3d12_flags = d3d12_flags | f;
    assert(((((((0i32 | a) | b) | c) | d) | e) | f) == ((((a | b) | c) | d) | e) | f) by (bit_vector);
    d3d12_flags
}

} // verus!
