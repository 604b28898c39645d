//! Backend independent parts of the Metal backend: how formats, pipeline states, sampler
//! states and descriptor types translate to the values of the Metal API (the values of the
//! Metal framework headers, where each of these enumerations is an `NSUInteger`).

use vstd::prelude::*;

pub mod pipeline;
pub mod slots;

use super::format::{depth_stencil_bits, format_channel_bits, format_channel_type, format_components, is_depth,
    is_plain_colour, texel_layout, ChannelType};
use super::{
    BlendFactor, BlendOp, ComparisonFunc, CullMode, DescriptorType, FillMode, Format,
    SamplerAddressMode, SamplerFilter, StencilOp, TextureType, TextureUsage, Topology, WriteMask,
};

verus! {

pub const MTL_PRIMITIVE_TYPE_TRIANGLE: u64 = 3;
pub const MTL_PRIMITIVE_TYPE_POINT: u64 = 0;
pub const MTL_PRIMITIVE_TYPE_LINE: u64 = 1;
pub const MTL_PRIMITIVE_TYPE_LINE_STRIP: u64 = 2;
pub const MTL_PRIMITIVE_TYPE_TRIANGLE_STRIP: u64 = 4;
pub const MTL_BLEND_FACTOR_ZERO: u64 = 0;
pub const MTL_BLEND_FACTOR_ONE: u64 = 1;
pub const MTL_BLEND_FACTOR_SOURCE_COLOR: u64 = 2;
pub const MTL_BLEND_FACTOR_ONE_MINUS_SOURCE_COLOR: u64 = 3;
pub const MTL_BLEND_FACTOR_SOURCE_ALPHA: u64 = 4;
pub const MTL_BLEND_FACTOR_ONE_MINUS_SOURCE_ALPHA: u64 = 5;
pub const MTL_BLEND_FACTOR_DESTINATION_ALPHA: u64 = 8;
pub const MTL_BLEND_FACTOR_ONE_MINUS_DESTINATION_ALPHA: u64 = 9;
pub const MTL_BLEND_FACTOR_DESTINATION_COLOR: u64 = 6;
pub const MTL_BLEND_FACTOR_ONE_MINUS_DESTINATION_COLOR: u64 = 7;
pub const MTL_BLEND_FACTOR_SOURCE_ALPHA_SATURATED: u64 = 10;
pub const MTL_BLEND_FACTOR_BLEND_COLOR: u64 = 11;
pub const MTL_BLEND_FACTOR_ONE_MINUS_BLEND_COLOR: u64 = 12;
pub const MTL_BLEND_FACTOR_SOURCE1_COLOR: u64 = 15;
pub const MTL_BLEND_FACTOR_ONE_MINUS_SOURCE1_COLOR: u64 = 16;
pub const MTL_BLEND_FACTOR_SOURCE1_ALPHA: u64 = 17;
pub const MTL_BLEND_FACTOR_ONE_MINUS_SOURCE1_ALPHA: u64 = 18;
pub const MTL_BLEND_OPERATION_ADD: u64 = 0;
pub const MTL_BLEND_OPERATION_SUBTRACT: u64 = 1;
pub const MTL_BLEND_OPERATION_REVERSE_SUBTRACT: u64 = 2;
pub const MTL_BLEND_OPERATION_MIN: u64 = 3;
pub const MTL_BLEND_OPERATION_MAX: u64 = 4;
pub const MTL_TEXTURE_TYPE_1D: u64 = 0;
pub const MTL_TEXTURE_TYPE_1D_ARRAY: u64 = 1;
pub const MTL_TEXTURE_TYPE_2D: u64 = 2;
pub const MTL_TEXTURE_TYPE_2D_ARRAY: u64 = 3;
pub const MTL_TEXTURE_TYPE_3D: u64 = 7;
pub const MTL_TEXTURE_TYPE_CUBE: u64 = 5;
pub const MTL_TEXTURE_TYPE_CUBE_ARRAY: u64 = 6;
pub const MTL_COMPARE_FUNCTION_NEVER: u64 = 0;
pub const MTL_COMPARE_FUNCTION_LESS: u64 = 1;
pub const MTL_COMPARE_FUNCTION_EQUAL: u64 = 2;
pub const MTL_COMPARE_FUNCTION_LESS_EQUAL: u64 = 3;
pub const MTL_COMPARE_FUNCTION_GREATER: u64 = 4;
pub const MTL_COMPARE_FUNCTION_NOT_EQUAL: u64 = 5;
pub const MTL_COMPARE_FUNCTION_GREATER_EQUAL: u64 = 6;
pub const MTL_COMPARE_FUNCTION_ALWAYS: u64 = 7;
pub const MTL_SAMPLER_ADDRESS_MODE_REPEAT: u64 = 2;
pub const MTL_SAMPLER_ADDRESS_MODE_MIRROR_REPEAT: u64 = 3;
pub const MTL_SAMPLER_ADDRESS_MODE_CLAMP_TO_EDGE: u64 = 0;
pub const MTL_SAMPLER_ADDRESS_MODE_CLAMP_TO_BORDER_COLOR: u64 = 5;
pub const MTL_SAMPLER_ADDRESS_MODE_MIRROR_CLAMP_TO_EDGE: u64 = 1;
pub const MTL_SAMPLER_MIN_MAG_FILTER_NEAREST: u64 = 0;
pub const MTL_SAMPLER_MIN_MAG_FILTER_LINEAR: u64 = 1;
pub const MTL_SAMPLER_MIP_FILTER_NEAREST: u64 = 1;
pub const MTL_SAMPLER_MIP_FILTER_LINEAR: u64 = 2;
pub const MTL_STENCIL_OPERATION_KEEP: u64 = 0;
pub const MTL_STENCIL_OPERATION_ZERO: u64 = 1;
pub const MTL_STENCIL_OPERATION_REPLACE: u64 = 2;
pub const MTL_STENCIL_OPERATION_INCREMENT_CLAMP: u64 = 3;
pub const MTL_STENCIL_OPERATION_DECREMENT_CLAMP: u64 = 4;
pub const MTL_STENCIL_OPERATION_INVERT: u64 = 5;
pub const MTL_STENCIL_OPERATION_INCREMENT_WRAP: u64 = 6;
pub const MTL_STENCIL_OPERATION_DECREMENT_WRAP: u64 = 7;
pub const MTL_CULL_MODE_NONE: u64 = 0;
pub const MTL_CULL_MODE_FRONT: u64 = 1;
pub const MTL_CULL_MODE_BACK: u64 = 2;
pub const MTL_TRIANGLE_FILL_MODE_FILL: u64 = 0;
pub const MTL_TRIANGLE_FILL_MODE_LINES: u64 = 1;
pub const MTL_VERTEX_FORMAT_INVALID: u64 = 0;
pub const MTL_VERTEX_FORMAT_SHORT_NORMALIZED: u64 = 52;
pub const MTL_VERTEX_FORMAT_USHORT: u64 = 49;
pub const MTL_VERTEX_FORMAT_SHORT: u64 = 50;
pub const MTL_VERTEX_FORMAT_HALF: u64 = 53;
pub const MTL_VERTEX_FORMAT_UINT: u64 = 36;
pub const MTL_VERTEX_FORMAT_INT: u64 = 32;
pub const MTL_VERTEX_FORMAT_FLOAT: u64 = 28;
pub const MTL_VERTEX_FORMAT_USHORT2: u64 = 13;
pub const MTL_VERTEX_FORMAT_SHORT2: u64 = 16;
pub const MTL_VERTEX_FORMAT_HALF2: u64 = 25;
pub const MTL_VERTEX_FORMAT_UINT2: u64 = 37;
pub const MTL_VERTEX_FORMAT_INT2: u64 = 33;
pub const MTL_VERTEX_FORMAT_FLOAT2: u64 = 29;
pub const MTL_VERTEX_FORMAT_UINT3: u64 = 38;
pub const MTL_VERTEX_FORMAT_INT3: u64 = 34;
pub const MTL_VERTEX_FORMAT_FLOAT3: u64 = 30;
pub const MTL_VERTEX_FORMAT_UCHAR4_NORMALIZED: u64 = 9;
pub const MTL_VERTEX_FORMAT_UCHAR4: u64 = 3;
pub const MTL_VERTEX_FORMAT_CHAR4: u64 = 6;
pub const MTL_VERTEX_FORMAT_USHORT4: u64 = 15;
pub const MTL_VERTEX_FORMAT_SHORT4: u64 = 18;
pub const MTL_VERTEX_FORMAT_HALF4: u64 = 27;
pub const MTL_VERTEX_FORMAT_UINT4: u64 = 39;
pub const MTL_VERTEX_FORMAT_INT4: u64 = 35;
pub const MTL_VERTEX_FORMAT_FLOAT4: u64 = 31;
pub const MTL_PIXEL_FORMAT_INVALID: u64 = 0;
pub const MTL_PIXEL_FORMAT_R16_UNORM: u64 = 20;
pub const MTL_PIXEL_FORMAT_R16_UINT: u64 = 23;
pub const MTL_PIXEL_FORMAT_R16_SINT: u64 = 24;
pub const MTL_PIXEL_FORMAT_R16_FLOAT: u64 = 25;
pub const MTL_PIXEL_FORMAT_R32_UINT: u64 = 53;
pub const MTL_PIXEL_FORMAT_R32_SINT: u64 = 54;
pub const MTL_PIXEL_FORMAT_R32_FLOAT: u64 = 55;
pub const MTL_PIXEL_FORMAT_RG16_FLOAT: u64 = 65;
pub const MTL_PIXEL_FORMAT_RG16_UINT: u64 = 63;
pub const MTL_PIXEL_FORMAT_RG16_SINT: u64 = 64;
pub const MTL_PIXEL_FORMAT_RG32_UINT: u64 = 103;
pub const MTL_PIXEL_FORMAT_RG32_SINT: u64 = 104;
pub const MTL_PIXEL_FORMAT_RG32_FLOAT: u64 = 105;
pub const MTL_PIXEL_FORMAT_RGBA8_UNORM_SRGB: u64 = 71;
pub const MTL_PIXEL_FORMAT_RGBA8_UNORM: u64 = 70;
pub const MTL_PIXEL_FORMAT_RGBA8_UINT: u64 = 73;
pub const MTL_PIXEL_FORMAT_RGBA8_SINT: u64 = 74;
pub const MTL_PIXEL_FORMAT_BGRA8_UNORM: u64 = 80;
pub const MTL_PIXEL_FORMAT_BGRA8_UNORM_SRGB: u64 = 81;
pub const MTL_PIXEL_FORMAT_RGBA16_UINT: u64 = 113;
pub const MTL_PIXEL_FORMAT_RGBA16_SINT: u64 = 114;
pub const MTL_PIXEL_FORMAT_RGBA16_FLOAT: u64 = 115;
pub const MTL_PIXEL_FORMAT_RGBA32_UINT: u64 = 123;
pub const MTL_PIXEL_FORMAT_RGBA32_SINT: u64 = 124;
pub const MTL_PIXEL_FORMAT_RGBA32_FLOAT: u64 = 125;
pub const MTL_PIXEL_FORMAT_DEPTH32_FLOAT_STENCIL8: u64 = 260;
pub const MTL_PIXEL_FORMAT_DEPTH32_FLOAT: u64 = 252;
pub const MTL_PIXEL_FORMAT_DEPTH16_UNORM: u64 = 250;
pub const MTL_PIXEL_FORMAT_BC1_RGBA: u64 = 130;
pub const MTL_PIXEL_FORMAT_BC1_RGBA_SRGB: u64 = 131;
pub const MTL_PIXEL_FORMAT_BC2_RGBA: u64 = 132;
pub const MTL_PIXEL_FORMAT_BC2_RGBA_SRGB: u64 = 133;
pub const MTL_PIXEL_FORMAT_BC3_RGBA: u64 = 134;
pub const MTL_PIXEL_FORMAT_BC3_RGBA_SRGB: u64 = 135;
pub const MTL_PIXEL_FORMAT_BC4_R_UNORM: u64 = 140;
pub const MTL_PIXEL_FORMAT_BC5_RG_UNORM: u64 = 142;
pub const MTL_COLOR_WRITE_MASK_NONE: u64 = 0;
pub const MTL_COLOR_WRITE_MASK_RED: u64 = 8;
pub const MTL_COLOR_WRITE_MASK_GREEN: u64 = 4;
pub const MTL_COLOR_WRITE_MASK_BLUE: u64 = 2;
pub const MTL_COLOR_WRITE_MASK_ALPHA: u64 = 1;
pub const MTL_TEXTURE_USAGE_UNKNOWN: u64 = 0;
pub const MTL_TEXTURE_USAGE_SHADER_READ: u64 = 1;
pub const MTL_TEXTURE_USAGE_SHADER_WRITE: u64 = 2;
pub const MTL_TEXTURE_USAGE_RENDER_TARGET: u64 = 4;
pub const MTL_WINDING_CLOCKWISE: u64 = 0;
pub const MTL_WINDING_COUNTER_CLOCKWISE: u64 = 1;
pub const MTL_INDEX_TYPE_UINT16: u64 = 0;
pub const MTL_INDEX_TYPE_UINT32: u64 = 1;

/// Register class letter a descriptor type binds to in shaders: `t` shader resources,
/// `u` unordered access, `b` constant buffers and push constants, `s` samplers.
pub open spec fn register_kind(ty: DescriptorType) -> char {
    match ty {
        DescriptorType::ShaderResource => 't',
        DescriptorType::UnorderedAccess => 'u',
        DescriptorType::ConstantBuffer | DescriptorType::PushConstants => 'b',
        DescriptorType::Sampler => 's',
    }
}

/// Returns the register class letter a descriptor type binds to.
pub fn descriptor_register_kind(ty: DescriptorType) -> (kind: char)
    ensures
        kind == register_kind(ty),
{
    match ty {
        DescriptorType::ShaderResource => 't',
        DescriptorType::UnorderedAccess => 'u',
        DescriptorType::ConstantBuffer | DescriptorType::PushConstants => 'b',
        DescriptorType::Sampler => 's',
    }
}

/// The value `to_mtl_primitive_type` gives for each `Topology`.
pub open spec fn mtl_primitive_type(value: Topology) -> u64 {
    match value {
        Topology::Undefined => MTL_PRIMITIVE_TYPE_TRIANGLE,
        Topology::PointList => MTL_PRIMITIVE_TYPE_POINT,
        Topology::LineList => MTL_PRIMITIVE_TYPE_LINE,
        Topology::LineStrip => MTL_PRIMITIVE_TYPE_LINE_STRIP,
        Topology::TriangleList => MTL_PRIMITIVE_TYPE_TRIANGLE,
        Topology::TriangleStrip => MTL_PRIMITIVE_TYPE_TRIANGLE_STRIP,
        Topology::LineListAdj => MTL_PRIMITIVE_TYPE_TRIANGLE,
        Topology::LineStripAdj => MTL_PRIMITIVE_TYPE_TRIANGLE,
        Topology::TriangleListAdj => MTL_PRIMITIVE_TYPE_TRIANGLE,
        Topology::TriangleStripAdj => MTL_PRIMITIVE_TYPE_TRIANGLE,
        Topology::PatchList => MTL_PRIMITIVE_TYPE_TRIANGLE,
    }
}

/// Converts a topology to the Metal primitive type: topologies Metal has no primitive type for draw triangle lists.
pub fn to_mtl_primitive_type(value: Topology) -> (code: u64)
    ensures
        code == mtl_primitive_type(value),
{
    match value {
        Topology::Undefined => MTL_PRIMITIVE_TYPE_TRIANGLE,
        Topology::PointList => MTL_PRIMITIVE_TYPE_POINT,
        Topology::LineList => MTL_PRIMITIVE_TYPE_LINE,
        Topology::LineStrip => MTL_PRIMITIVE_TYPE_LINE_STRIP,
        Topology::TriangleList => MTL_PRIMITIVE_TYPE_TRIANGLE,
        Topology::TriangleStrip => MTL_PRIMITIVE_TYPE_TRIANGLE_STRIP,
        Topology::LineListAdj => MTL_PRIMITIVE_TYPE_TRIANGLE,
        Topology::LineStripAdj => MTL_PRIMITIVE_TYPE_TRIANGLE,
        Topology::TriangleListAdj => MTL_PRIMITIVE_TYPE_TRIANGLE,
        Topology::TriangleStripAdj => MTL_PRIMITIVE_TYPE_TRIANGLE,
        Topology::PatchList => MTL_PRIMITIVE_TYPE_TRIANGLE,
    }
}

/// The value `to_mtl_blend_factor` gives for each `BlendFactor`.
pub open spec fn mtl_blend_factor(value: BlendFactor) -> u64 {
    match value {
        BlendFactor::Zero => MTL_BLEND_FACTOR_ZERO,
        BlendFactor::One => MTL_BLEND_FACTOR_ONE,
        BlendFactor::SrcColour => MTL_BLEND_FACTOR_SOURCE_COLOR,
        BlendFactor::InvSrcColour => MTL_BLEND_FACTOR_ONE_MINUS_SOURCE_COLOR,
        BlendFactor::SrcAlpha => MTL_BLEND_FACTOR_SOURCE_ALPHA,
        BlendFactor::InvSrcAlpha => MTL_BLEND_FACTOR_ONE_MINUS_SOURCE_ALPHA,
        BlendFactor::DstAlpha => MTL_BLEND_FACTOR_DESTINATION_ALPHA,
        BlendFactor::InvDstAlpha => MTL_BLEND_FACTOR_ONE_MINUS_DESTINATION_ALPHA,
        BlendFactor::DstColour => MTL_BLEND_FACTOR_DESTINATION_COLOR,
        BlendFactor::InvDstColour => MTL_BLEND_FACTOR_ONE_MINUS_DESTINATION_COLOR,
        BlendFactor::SrcAlphaSat => MTL_BLEND_FACTOR_SOURCE_ALPHA_SATURATED,
        BlendFactor::BlendFactor => MTL_BLEND_FACTOR_BLEND_COLOR,
        BlendFactor::InvBlendFactor => MTL_BLEND_FACTOR_ONE_MINUS_BLEND_COLOR,
        BlendFactor::Src1Colour => MTL_BLEND_FACTOR_SOURCE1_COLOR,
        BlendFactor::InvSrc1Colour => MTL_BLEND_FACTOR_ONE_MINUS_SOURCE1_COLOR,
        BlendFactor::Src1Alpha => MTL_BLEND_FACTOR_SOURCE1_ALPHA,
        BlendFactor::InvSrc1Alpha => MTL_BLEND_FACTOR_ONE_MINUS_SOURCE1_ALPHA,
    }
}

/// Converts a blend factor to the Metal blend factor.
pub fn to_mtl_blend_factor(value: BlendFactor) -> (code: u64)
    ensures
        code == mtl_blend_factor(value),
{
    match value {
        BlendFactor::Zero => MTL_BLEND_FACTOR_ZERO,
        BlendFactor::One => MTL_BLEND_FACTOR_ONE,
        BlendFactor::SrcColour => MTL_BLEND_FACTOR_SOURCE_COLOR,
        BlendFactor::InvSrcColour => MTL_BLEND_FACTOR_ONE_MINUS_SOURCE_COLOR,
        BlendFactor::SrcAlpha => MTL_BLEND_FACTOR_SOURCE_ALPHA,
        BlendFactor::InvSrcAlpha => MTL_BLEND_FACTOR_ONE_MINUS_SOURCE_ALPHA,
        BlendFactor::DstAlpha => MTL_BLEND_FACTOR_DESTINATION_ALPHA,
        BlendFactor::InvDstAlpha => MTL_BLEND_FACTOR_ONE_MINUS_DESTINATION_ALPHA,
        BlendFactor::DstColour => MTL_BLEND_FACTOR_DESTINATION_COLOR,
        BlendFactor::InvDstColour => MTL_BLEND_FACTOR_ONE_MINUS_DESTINATION_COLOR,
        BlendFactor::SrcAlphaSat => MTL_BLEND_FACTOR_SOURCE_ALPHA_SATURATED,
        BlendFactor::BlendFactor => MTL_BLEND_FACTOR_BLEND_COLOR,
        BlendFactor::InvBlendFactor => MTL_BLEND_FACTOR_ONE_MINUS_BLEND_COLOR,
        BlendFactor::Src1Colour => MTL_BLEND_FACTOR_SOURCE1_COLOR,
        BlendFactor::InvSrc1Colour => MTL_BLEND_FACTOR_ONE_MINUS_SOURCE1_COLOR,
        BlendFactor::Src1Alpha => MTL_BLEND_FACTOR_SOURCE1_ALPHA,
        BlendFactor::InvSrc1Alpha => MTL_BLEND_FACTOR_ONE_MINUS_SOURCE1_ALPHA,
    }
}

/// The value `to_mtl_blend_op` gives for each `BlendOp`.
pub open spec fn mtl_blend_op(value: BlendOp) -> u64 {
    match value {
        BlendOp::Add => MTL_BLEND_OPERATION_ADD,
        BlendOp::Subtract => MTL_BLEND_OPERATION_SUBTRACT,
        BlendOp::RevSubtract => MTL_BLEND_OPERATION_REVERSE_SUBTRACT,
        BlendOp::Min => MTL_BLEND_OPERATION_MIN,
        BlendOp::Max => MTL_BLEND_OPERATION_MAX,
    }
}

/// Converts a blend operation to the Metal blend operation.
pub fn to_mtl_blend_op(value: BlendOp) -> (code: u64)
    ensures
        code == mtl_blend_op(value),
{
    match value {
        BlendOp::Add => MTL_BLEND_OPERATION_ADD,
        BlendOp::Subtract => MTL_BLEND_OPERATION_SUBTRACT,
        BlendOp::RevSubtract => MTL_BLEND_OPERATION_REVERSE_SUBTRACT,
        BlendOp::Min => MTL_BLEND_OPERATION_MIN,
        BlendOp::Max => MTL_BLEND_OPERATION_MAX,
    }
}

/// The value `to_mtl_texture_type` gives for each `TextureType`.
pub open spec fn mtl_texture_type(value: TextureType) -> u64 {
    match value {
        TextureType::Texture1D => MTL_TEXTURE_TYPE_1D,
        TextureType::Texture1DArray => MTL_TEXTURE_TYPE_1D_ARRAY,
        TextureType::Texture2D => MTL_TEXTURE_TYPE_2D,
        TextureType::Texture2DArray => MTL_TEXTURE_TYPE_2D_ARRAY,
        TextureType::Texture3D => MTL_TEXTURE_TYPE_3D,
        TextureType::TextureCube => MTL_TEXTURE_TYPE_CUBE,
        TextureType::TextureCubeArray => MTL_TEXTURE_TYPE_CUBE_ARRAY,
    }
}

/// Converts a texture type to the Metal texture type.
pub fn to_mtl_texture_type(value: TextureType) -> (code: u64)
    ensures
        code == mtl_texture_type(value),
{
    match value {
        TextureType::Texture1D => MTL_TEXTURE_TYPE_1D,
        TextureType::Texture1DArray => MTL_TEXTURE_TYPE_1D_ARRAY,
        TextureType::Texture2D => MTL_TEXTURE_TYPE_2D,
        TextureType::Texture2DArray => MTL_TEXTURE_TYPE_2D_ARRAY,
        TextureType::Texture3D => MTL_TEXTURE_TYPE_3D,
        TextureType::TextureCube => MTL_TEXTURE_TYPE_CUBE,
        TextureType::TextureCubeArray => MTL_TEXTURE_TYPE_CUBE_ARRAY,
    }
}

/// The value `to_mtl_compare_func` gives for each `ComparisonFunc`.
pub open spec fn mtl_compare_func(value: ComparisonFunc) -> u64 {
    match value {
        ComparisonFunc::Never => MTL_COMPARE_FUNCTION_NEVER,
        ComparisonFunc::Less => MTL_COMPARE_FUNCTION_LESS,
        ComparisonFunc::Equal => MTL_COMPARE_FUNCTION_EQUAL,
        ComparisonFunc::LessEqual => MTL_COMPARE_FUNCTION_LESS_EQUAL,
        ComparisonFunc::Greater => MTL_COMPARE_FUNCTION_GREATER,
        ComparisonFunc::NotEqual => MTL_COMPARE_FUNCTION_NOT_EQUAL,
        ComparisonFunc::GreaterEqual => MTL_COMPARE_FUNCTION_GREATER_EQUAL,
        ComparisonFunc::Always => MTL_COMPARE_FUNCTION_ALWAYS,
    }
}

/// Converts a comparison function to the Metal compare function.
pub fn to_mtl_compare_func(value: ComparisonFunc) -> (code: u64)
    ensures
        code == mtl_compare_func(value),
{
    match value {
        ComparisonFunc::Never => MTL_COMPARE_FUNCTION_NEVER,
        ComparisonFunc::Less => MTL_COMPARE_FUNCTION_LESS,
        ComparisonFunc::Equal => MTL_COMPARE_FUNCTION_EQUAL,
        ComparisonFunc::LessEqual => MTL_COMPARE_FUNCTION_LESS_EQUAL,
        ComparisonFunc::Greater => MTL_COMPARE_FUNCTION_GREATER,
        ComparisonFunc::NotEqual => MTL_COMPARE_FUNCTION_NOT_EQUAL,
        ComparisonFunc::GreaterEqual => MTL_COMPARE_FUNCTION_GREATER_EQUAL,
        ComparisonFunc::Always => MTL_COMPARE_FUNCTION_ALWAYS,
    }
}

/// The value `to_mtl_sampler_address_mode` gives for each `SamplerAddressMode`.
pub open spec fn mtl_sampler_address_mode(value: SamplerAddressMode) -> u64 {
    match value {
        SamplerAddressMode::Wrap => MTL_SAMPLER_ADDRESS_MODE_REPEAT,
        SamplerAddressMode::Mirror => MTL_SAMPLER_ADDRESS_MODE_MIRROR_REPEAT,
        SamplerAddressMode::Clamp => MTL_SAMPLER_ADDRESS_MODE_CLAMP_TO_EDGE,
        SamplerAddressMode::Border => MTL_SAMPLER_ADDRESS_MODE_CLAMP_TO_BORDER_COLOR,
        SamplerAddressMode::MirrorOnce => MTL_SAMPLER_ADDRESS_MODE_MIRROR_CLAMP_TO_EDGE,
    }
}

/// Converts a sampler address mode to the Metal sampler address mode.
pub fn to_mtl_sampler_address_mode(value: SamplerAddressMode) -> (code: u64)
    ensures
        code == mtl_sampler_address_mode(value),
{
    match value {
        SamplerAddressMode::Wrap => MTL_SAMPLER_ADDRESS_MODE_REPEAT,
        SamplerAddressMode::Mirror => MTL_SAMPLER_ADDRESS_MODE_MIRROR_REPEAT,
        SamplerAddressMode::Clamp => MTL_SAMPLER_ADDRESS_MODE_CLAMP_TO_EDGE,
        SamplerAddressMode::Border => MTL_SAMPLER_ADDRESS_MODE_CLAMP_TO_BORDER_COLOR,
        SamplerAddressMode::MirrorOnce => MTL_SAMPLER_ADDRESS_MODE_MIRROR_CLAMP_TO_EDGE,
    }
}

/// The value `to_mtl_sampler_min_mag_filter` gives for each `SamplerFilter`.
pub open spec fn mtl_sampler_min_mag_filter(value: SamplerFilter) -> u64 {
    match value {
        SamplerFilter::Point => MTL_SAMPLER_MIN_MAG_FILTER_NEAREST,
        SamplerFilter::Linear => MTL_SAMPLER_MIN_MAG_FILTER_LINEAR,
        SamplerFilter::Anisotropic => MTL_SAMPLER_MIN_MAG_FILTER_LINEAR,
    }
}

/// Converts a sampler filter to the Metal minification and magnification filter: anisotropic filtering filters linearly.
pub fn to_mtl_sampler_min_mag_filter(value: SamplerFilter) -> (code: u64)
    ensures
        code == mtl_sampler_min_mag_filter(value),
{
    match value {
        SamplerFilter::Point => MTL_SAMPLER_MIN_MAG_FILTER_NEAREST,
        SamplerFilter::Linear => MTL_SAMPLER_MIN_MAG_FILTER_LINEAR,
        SamplerFilter::Anisotropic => MTL_SAMPLER_MIN_MAG_FILTER_LINEAR,
    }
}

/// The value `to_mtl_sampler_mip_filter` gives for each `SamplerFilter`.
pub open spec fn mtl_sampler_mip_filter(value: SamplerFilter) -> u64 {
    match value {
        SamplerFilter::Point => MTL_SAMPLER_MIP_FILTER_NEAREST,
        SamplerFilter::Linear => MTL_SAMPLER_MIP_FILTER_LINEAR,
        SamplerFilter::Anisotropic => MTL_SAMPLER_MIP_FILTER_LINEAR,
    }
}

/// Converts a sampler filter to the Metal mip filter: anisotropic filtering filters linearly.
pub fn to_mtl_sampler_mip_filter(value: SamplerFilter) -> (code: u64)
    ensures
        code == mtl_sampler_mip_filter(value),
{
    match value {
        SamplerFilter::Point => MTL_SAMPLER_MIP_FILTER_NEAREST,
        SamplerFilter::Linear => MTL_SAMPLER_MIP_FILTER_LINEAR,
        SamplerFilter::Anisotropic => MTL_SAMPLER_MIP_FILTER_LINEAR,
    }
}

/// The value `to_mtl_stencil_op` gives for each `StencilOp`.
pub open spec fn mtl_stencil_op(value: StencilOp) -> u64 {
    match value {
        StencilOp::Keep => MTL_STENCIL_OPERATION_KEEP,
        StencilOp::Zero => MTL_STENCIL_OPERATION_ZERO,
        StencilOp::Replace => MTL_STENCIL_OPERATION_REPLACE,
        StencilOp::IncrSat => MTL_STENCIL_OPERATION_INCREMENT_CLAMP,
        StencilOp::DecrSat => MTL_STENCIL_OPERATION_DECREMENT_CLAMP,
        StencilOp::Invert => MTL_STENCIL_OPERATION_INVERT,
        StencilOp::Incr => MTL_STENCIL_OPERATION_INCREMENT_WRAP,
        StencilOp::Decr => MTL_STENCIL_OPERATION_DECREMENT_WRAP,
    }
}

/// Converts a stencil operation to the Metal stencil operation.
pub fn to_mtl_stencil_op(value: StencilOp) -> (code: u64)
    ensures
        code == mtl_stencil_op(value),
{
    match value {
        StencilOp::Keep => MTL_STENCIL_OPERATION_KEEP,
        StencilOp::Zero => MTL_STENCIL_OPERATION_ZERO,
        StencilOp::Replace => MTL_STENCIL_OPERATION_REPLACE,
        StencilOp::IncrSat => MTL_STENCIL_OPERATION_INCREMENT_CLAMP,
        StencilOp::DecrSat => MTL_STENCIL_OPERATION_DECREMENT_CLAMP,
        StencilOp::Invert => MTL_STENCIL_OPERATION_INVERT,
        StencilOp::Incr => MTL_STENCIL_OPERATION_INCREMENT_WRAP,
        StencilOp::Decr => MTL_STENCIL_OPERATION_DECREMENT_WRAP,
    }
}

/// The value `to_mtl_cull_mode` gives for each `CullMode`.
pub open spec fn mtl_cull_mode(value: CullMode) -> u64 {
    match value {
        CullMode::Off => MTL_CULL_MODE_NONE,
        CullMode::Front => MTL_CULL_MODE_FRONT,
        CullMode::Back => MTL_CULL_MODE_BACK,
    }
}

/// Converts a cull mode to the Metal cull mode.
pub fn to_mtl_cull_mode(value: CullMode) -> (code: u64)
    ensures
        code == mtl_cull_mode(value),
{
    match value {
        CullMode::Off => MTL_CULL_MODE_NONE,
        CullMode::Front => MTL_CULL_MODE_FRONT,
        CullMode::Back => MTL_CULL_MODE_BACK,
    }
}

/// The value `to_mtl_triangle_fill_mode` gives for each `FillMode`.
pub open spec fn mtl_triangle_fill_mode(value: FillMode) -> u64 {
    match value {
        FillMode::Solid => MTL_TRIANGLE_FILL_MODE_FILL,
        FillMode::Wireframe => MTL_TRIANGLE_FILL_MODE_LINES,
    }
}

/// Converts a fill mode to the Metal triangle fill mode.
pub fn to_mtl_triangle_fill_mode(value: FillMode) -> (code: u64)
    ensures
        code == mtl_triangle_fill_mode(value),
{
    match value {
        FillMode::Solid => MTL_TRIANGLE_FILL_MODE_FILL,
        FillMode::Wireframe => MTL_TRIANGLE_FILL_MODE_LINES,
    }
}

/// The Metal vertex format of each format usable as a vertex attribute; `None` for the others.
pub open spec fn mtl_vertex_format(value: Format) -> Option<u64> {
    match value {
        Format::Unknown => Some(MTL_VERTEX_FORMAT_INVALID),
        Format::R16n => Some(MTL_VERTEX_FORMAT_SHORT_NORMALIZED),
        Format::R16u => Some(MTL_VERTEX_FORMAT_USHORT),
        Format::R16i => Some(MTL_VERTEX_FORMAT_SHORT),
        Format::R16f => Some(MTL_VERTEX_FORMAT_HALF),
        Format::R32u => Some(MTL_VERTEX_FORMAT_UINT),
        Format::R32i => Some(MTL_VERTEX_FORMAT_INT),
        Format::R32f => Some(MTL_VERTEX_FORMAT_FLOAT),
        Format::RG16u => Some(MTL_VERTEX_FORMAT_USHORT2),
        Format::RG16i => Some(MTL_VERTEX_FORMAT_SHORT2),
        Format::RG16f => Some(MTL_VERTEX_FORMAT_HALF2),
        Format::RG32u => Some(MTL_VERTEX_FORMAT_UINT2),
        Format::RG32i => Some(MTL_VERTEX_FORMAT_INT2),
        Format::RG32f => Some(MTL_VERTEX_FORMAT_FLOAT2),
        Format::RGB32u => Some(MTL_VERTEX_FORMAT_UINT3),
        Format::RGB32i => Some(MTL_VERTEX_FORMAT_INT3),
        Format::RGB32f => Some(MTL_VERTEX_FORMAT_FLOAT3),
        Format::RGBA8n => Some(MTL_VERTEX_FORMAT_UCHAR4_NORMALIZED),
        Format::RGBA8u => Some(MTL_VERTEX_FORMAT_UCHAR4),
        Format::RGBA8i => Some(MTL_VERTEX_FORMAT_CHAR4),
        Format::RGBA16u => Some(MTL_VERTEX_FORMAT_USHORT4),
        Format::RGBA16i => Some(MTL_VERTEX_FORMAT_SHORT4),
        Format::RGBA16f => Some(MTL_VERTEX_FORMAT_HALF4),
        Format::RGBA32u => Some(MTL_VERTEX_FORMAT_UINT4),
        Format::RGBA32i => Some(MTL_VERTEX_FORMAT_INT4),
        Format::RGBA32f => Some(MTL_VERTEX_FORMAT_FLOAT4),
        _ => None,
    }
}

/// Converts a vertex attribute format to the Metal vertex format.
pub fn to_mtl_vertex_format(value: Format) -> (code: u64)
    requires
        mtl_vertex_format(value) is Some,
    ensures
        Some(code) == mtl_vertex_format(value),
{
    match value {
        Format::Unknown => MTL_VERTEX_FORMAT_INVALID,
        Format::R16n => MTL_VERTEX_FORMAT_SHORT_NORMALIZED,
        Format::R16u => MTL_VERTEX_FORMAT_USHORT,
        Format::R16i => MTL_VERTEX_FORMAT_SHORT,
        Format::R16f => MTL_VERTEX_FORMAT_HALF,
        Format::R32u => MTL_VERTEX_FORMAT_UINT,
        Format::R32i => MTL_VERTEX_FORMAT_INT,
        Format::R32f => MTL_VERTEX_FORMAT_FLOAT,
        Format::RG16u => MTL_VERTEX_FORMAT_USHORT2,
        Format::RG16i => MTL_VERTEX_FORMAT_SHORT2,
        Format::RG16f => MTL_VERTEX_FORMAT_HALF2,
        Format::RG32u => MTL_VERTEX_FORMAT_UINT2,
        Format::RG32i => MTL_VERTEX_FORMAT_INT2,
        Format::RG32f => MTL_VERTEX_FORMAT_FLOAT2,
        Format::RGB32u => MTL_VERTEX_FORMAT_UINT3,
        Format::RGB32i => MTL_VERTEX_FORMAT_INT3,
        Format::RGB32f => MTL_VERTEX_FORMAT_FLOAT3,
        Format::RGBA8n => MTL_VERTEX_FORMAT_UCHAR4_NORMALIZED,
        Format::RGBA8u => MTL_VERTEX_FORMAT_UCHAR4,
        Format::RGBA8i => MTL_VERTEX_FORMAT_CHAR4,
        Format::RGBA16u => MTL_VERTEX_FORMAT_USHORT4,
        Format::RGBA16i => MTL_VERTEX_FORMAT_SHORT4,
        Format::RGBA16f => MTL_VERTEX_FORMAT_HALF4,
        Format::RGBA32u => MTL_VERTEX_FORMAT_UINT4,
        Format::RGBA32i => MTL_VERTEX_FORMAT_INT4,
        Format::RGBA32f => MTL_VERTEX_FORMAT_FLOAT4,
        _ => 0,
    }
}

/// The Metal pixel format of each format; `None` for the three component 32 bit formats,
/// which Metal has no pixel format for. Metal has no 24 bit depth format on every device, so
/// `D24nS8u` is stored as 32 bit float depth with 8 bit stencil.
pub open spec fn mtl_pixel_format(value: Format) -> Option<u64> {
    match value {
        Format::Unknown => Some(MTL_PIXEL_FORMAT_INVALID),
        Format::R16n => Some(MTL_PIXEL_FORMAT_R16_UNORM),
        Format::R16u => Some(MTL_PIXEL_FORMAT_R16_UINT),
        Format::R16i => Some(MTL_PIXEL_FORMAT_R16_SINT),
        Format::R16f => Some(MTL_PIXEL_FORMAT_R16_FLOAT),
        Format::R32u => Some(MTL_PIXEL_FORMAT_R32_UINT),
        Format::R32i => Some(MTL_PIXEL_FORMAT_R32_SINT),
        Format::R32f => Some(MTL_PIXEL_FORMAT_R32_FLOAT),
        Format::RG16f => Some(MTL_PIXEL_FORMAT_RG16_FLOAT),
        Format::RG16u => Some(MTL_PIXEL_FORMAT_RG16_UINT),
        Format::RG16i => Some(MTL_PIXEL_FORMAT_RG16_SINT),
        Format::RG32u => Some(MTL_PIXEL_FORMAT_RG32_UINT),
        Format::RG32i => Some(MTL_PIXEL_FORMAT_RG32_SINT),
        Format::RG32f => Some(MTL_PIXEL_FORMAT_RG32_FLOAT),
        Format::RGBA8nSRGB => Some(MTL_PIXEL_FORMAT_RGBA8_UNORM_SRGB),
        Format::RGBA8n => Some(MTL_PIXEL_FORMAT_RGBA8_UNORM),
        Format::RGBA8u => Some(MTL_PIXEL_FORMAT_RGBA8_UINT),
        Format::RGBA8i => Some(MTL_PIXEL_FORMAT_RGBA8_SINT),
        Format::BGRA8n => Some(MTL_PIXEL_FORMAT_BGRA8_UNORM),
        Format::BGRX8n => Some(MTL_PIXEL_FORMAT_BGRA8_UNORM),
        Format::BGRA8nSRGB => Some(MTL_PIXEL_FORMAT_BGRA8_UNORM_SRGB),
        Format::BGRX8nSRGB => Some(MTL_PIXEL_FORMAT_BGRA8_UNORM_SRGB),
        Format::RGBA16u => Some(MTL_PIXEL_FORMAT_RGBA16_UINT),
        Format::RGBA16i => Some(MTL_PIXEL_FORMAT_RGBA16_SINT),
        Format::RGBA16f => Some(MTL_PIXEL_FORMAT_RGBA16_FLOAT),
        Format::RGBA32u => Some(MTL_PIXEL_FORMAT_RGBA32_UINT),
        Format::RGBA32i => Some(MTL_PIXEL_FORMAT_RGBA32_SINT),
        Format::RGBA32f => Some(MTL_PIXEL_FORMAT_RGBA32_FLOAT),
        Format::D32fS8X24u => Some(MTL_PIXEL_FORMAT_DEPTH32_FLOAT_STENCIL8),
        Format::D32f => Some(MTL_PIXEL_FORMAT_DEPTH32_FLOAT),
        Format::D24nS8u => Some(MTL_PIXEL_FORMAT_DEPTH32_FLOAT_STENCIL8),
        Format::D16n => Some(MTL_PIXEL_FORMAT_DEPTH16_UNORM),
        Format::BC1n => Some(MTL_PIXEL_FORMAT_BC1_RGBA),
        Format::BC1nSRGB => Some(MTL_PIXEL_FORMAT_BC1_RGBA_SRGB),
        Format::BC2n => Some(MTL_PIXEL_FORMAT_BC2_RGBA),
        Format::BC2nSRGB => Some(MTL_PIXEL_FORMAT_BC2_RGBA_SRGB),
        Format::BC3n => Some(MTL_PIXEL_FORMAT_BC3_RGBA),
        Format::BC3nSRGB => Some(MTL_PIXEL_FORMAT_BC3_RGBA_SRGB),
        Format::BC4n => Some(MTL_PIXEL_FORMAT_BC4_R_UNORM),
        Format::BC5n => Some(MTL_PIXEL_FORMAT_BC5_RG_UNORM),
        _ => None,
    }
}

/// Converts a texture format to the Metal pixel format.
pub fn to_mtl_pixel_format(value: Format) -> (code: u64)
    requires
        mtl_pixel_format(value) is Some,
    ensures
        Some(code) == mtl_pixel_format(value),
{
    match value {
        Format::Unknown => MTL_PIXEL_FORMAT_INVALID,
        Format::R16n => MTL_PIXEL_FORMAT_R16_UNORM,
        Format::R16u => MTL_PIXEL_FORMAT_R16_UINT,
        Format::R16i => MTL_PIXEL_FORMAT_R16_SINT,
        Format::R16f => MTL_PIXEL_FORMAT_R16_FLOAT,
        Format::R32u => MTL_PIXEL_FORMAT_R32_UINT,
        Format::R32i => MTL_PIXEL_FORMAT_R32_SINT,
        Format::R32f => MTL_PIXEL_FORMAT_R32_FLOAT,
        Format::RG16f => MTL_PIXEL_FORMAT_RG16_FLOAT,
        Format::RG16u => MTL_PIXEL_FORMAT_RG16_UINT,
        Format::RG16i => MTL_PIXEL_FORMAT_RG16_SINT,
        Format::RG32u => MTL_PIXEL_FORMAT_RG32_UINT,
        Format::RG32i => MTL_PIXEL_FORMAT_RG32_SINT,
        Format::RG32f => MTL_PIXEL_FORMAT_RG32_FLOAT,
        Format::RGBA8nSRGB => MTL_PIXEL_FORMAT_RGBA8_UNORM_SRGB,
        Format::RGBA8n => MTL_PIXEL_FORMAT_RGBA8_UNORM,
        Format::RGBA8u => MTL_PIXEL_FORMAT_RGBA8_UINT,
        Format::RGBA8i => MTL_PIXEL_FORMAT_RGBA8_SINT,
        Format::BGRA8n => MTL_PIXEL_FORMAT_BGRA8_UNORM,
        Format::BGRX8n => MTL_PIXEL_FORMAT_BGRA8_UNORM,
        Format::BGRA8nSRGB => MTL_PIXEL_FORMAT_BGRA8_UNORM_SRGB,
        Format::BGRX8nSRGB => MTL_PIXEL_FORMAT_BGRA8_UNORM_SRGB,
        Format::RGBA16u => MTL_PIXEL_FORMAT_RGBA16_UINT,
        Format::RGBA16i => MTL_PIXEL_FORMAT_RGBA16_SINT,
        Format::RGBA16f => MTL_PIXEL_FORMAT_RGBA16_FLOAT,
        Format::RGBA32u => MTL_PIXEL_FORMAT_RGBA32_UINT,
        Format::RGBA32i => MTL_PIXEL_FORMAT_RGBA32_SINT,
        Format::RGBA32f => MTL_PIXEL_FORMAT_RGBA32_FLOAT,
        Format::D32fS8X24u => MTL_PIXEL_FORMAT_DEPTH32_FLOAT_STENCIL8,
        Format::D32f => MTL_PIXEL_FORMAT_DEPTH32_FLOAT,
        Format::D24nS8u => MTL_PIXEL_FORMAT_DEPTH32_FLOAT_STENCIL8,
        Format::D16n => MTL_PIXEL_FORMAT_DEPTH16_UNORM,
        Format::BC1n => MTL_PIXEL_FORMAT_BC1_RGBA,
        Format::BC1nSRGB => MTL_PIXEL_FORMAT_BC1_RGBA_SRGB,
        Format::BC2n => MTL_PIXEL_FORMAT_BC2_RGBA,
        Format::BC2nSRGB => MTL_PIXEL_FORMAT_BC2_RGBA_SRGB,
        Format::BC3n => MTL_PIXEL_FORMAT_BC3_RGBA,
        Format::BC3nSRGB => MTL_PIXEL_FORMAT_BC3_RGBA_SRGB,
        Format::BC4n => MTL_PIXEL_FORMAT_BC4_R_UNORM,
        Format::BC5n => MTL_PIXEL_FORMAT_BC5_RG_UNORM,
        _ => 0,
    }
}

/// The Metal colour write mask of a write mask: Metal orders the channel bits the other way
/// round (red is the highest bit).
pub open spec fn mtl_write_mask(mask: WriteMask) -> u64 {
    (if mask.bits & WriteMask::RED == WriteMask::RED { MTL_COLOR_WRITE_MASK_RED } else { 0u64 })
    | (if mask.bits & WriteMask::GREEN == WriteMask::GREEN { MTL_COLOR_WRITE_MASK_GREEN } else { 0u64 })
    | (if mask.bits & WriteMask::BLUE == WriteMask::BLUE { MTL_COLOR_WRITE_MASK_BLUE } else { 0u64 })
    | (if mask.bits & WriteMask::ALPHA == WriteMask::ALPHA { MTL_COLOR_WRITE_MASK_ALPHA } else { 0u64 })
}

/// Converts a render target write mask to the Metal colour write mask.
pub fn to_mtl_write_mask(mask: &WriteMask) -> (mtl_mask: u64)
    ensures
        mtl_mask == mtl_write_mask(*mask),
{
    let mut mtl_mask: u64 = MTL_COLOR_WRITE_MASK_NONE;
    let r: u64 = if mask.contains(WriteMask::RED) { MTL_COLOR_WRITE_MASK_RED } else { 0 };
    let g: u64 = if mask.contains(WriteMask::GREEN) { MTL_COLOR_WRITE_MASK_GREEN } else { 0 };
    let b: u64 = if mask.contains(WriteMask::BLUE) { MTL_COLOR_WRITE_MASK_BLUE } else { 0 };
    let a: u64 = if mask.contains(WriteMask::ALPHA) { MTL_COLOR_WRITE_MASK_ALPHA } else { 0 };
    mtl_mask = mtl_mask | r;
    mtl_mask = mtl_mask | g;
    mtl_mask = mtl_mask | b;
    mtl_mask = mtl_mask | a;
    assert((((0u64 | r) | g) | b) | a == ((r | g) | b) | a) by (bit_vector);
    mtl_mask
}

/// The Metal texture usage of a texture usage: shader resources are read by shaders, unordered
/// access textures are written by shaders, render targets and depth stencil targets are render
/// targets.
pub open spec fn mtl_texture_usage(usage: TextureUsage) -> u64 {
    (if usage.bits & TextureUsage::SHADER_RESOURCE == TextureUsage::SHADER_RESOURCE {
        MTL_TEXTURE_USAGE_SHADER_READ
    } else {
        0u64
    })
    | (if usage.bits & TextureUsage::UNORDERED_ACCESS == TextureUsage::UNORDERED_ACCESS {
        MTL_TEXTURE_USAGE_SHADER_WRITE
    } else {
        0u64
    })
    | (if usage.bits & TextureUsage::RENDER_TARGET == TextureUsage::RENDER_TARGET
        || usage.bits & TextureUsage::DEPTH_STENCIL == TextureUsage::DEPTH_STENCIL {
        MTL_TEXTURE_USAGE_RENDER_TARGET
    } else {
        0u64
    })
}

/// Converts texture usage flags to the Metal texture usage.
pub fn to_mtl_texture_usage(usage: TextureUsage) -> (mtl_usage: u64)
    ensures
        mtl_usage == mtl_texture_usage(usage),
{
    let mut mtl_usage: u64 = MTL_TEXTURE_USAGE_UNKNOWN;
    let read: u64 = if usage.contains(TextureUsage::SHADER_RESOURCE) { MTL_TEXTURE_USAGE_SHADER_READ } else { 0 };
    let write: u64 = if usage.contains(TextureUsage::UNORDERED_ACCESS) { MTL_TEXTURE_USAGE_SHADER_WRITE } else { 0 };
    let target: u64 = if usage.contains(TextureUsage::RENDER_TARGET) || usage.contains(TextureUsage::DEPTH_STENCIL) {
        MTL_TEXTURE_USAGE_RENDER_TARGET
    } else {
        0
    };
    mtl_usage = mtl_usage | read;
    mtl_usage = mtl_usage | write;
    mtl_usage = mtl_usage | target;
    assert(((0u64 | read) | write) | target == (read | write) | target) by (bit_vector);
    mtl_usage
}

/// The Metal pixel format has a stencil component.
pub fn has_stencil_component(format: u64) -> (b: bool)
    ensures
        b == (format == MTL_PIXEL_FORMAT_DEPTH32_FLOAT_STENCIL8),
{
    format == MTL_PIXEL_FORMAT_DEPTH32_FLOAT_STENCIL8
}

/// The Metal pixel format is one of the depth formats this backend creates.
pub fn is_depth_format(format: u64) -> (b: bool)
    ensures
        b == (format == MTL_PIXEL_FORMAT_DEPTH32_FLOAT_STENCIL8 || format == MTL_PIXEL_FORMAT_DEPTH32_FLOAT
            || format == MTL_PIXEL_FORMAT_DEPTH16_UNORM),
{
    format == MTL_PIXEL_FORMAT_DEPTH32_FLOAT_STENCIL8 || format == MTL_PIXEL_FORMAT_DEPTH32_FLOAT
        || format == MTL_PIXEL_FORMAT_DEPTH16_UNORM
}

/// The Metal winding of front faces: counter clockwise when `front_ccw`, else clockwise.
pub fn to_mtl_winding(front_ccw: bool) -> (winding: u64)
    ensures
        winding == if front_ccw { MTL_WINDING_COUNTER_CLOCKWISE } else { MTL_WINDING_CLOCKWISE },
{
    if front_ccw {
        MTL_WINDING_COUNTER_CLOCKWISE
    } else {
        MTL_WINDING_CLOCKWISE
    }
}

/// The Metal index type of an index buffer with `stride` bytes per index: 16 or 32 bit
/// indices. Other strides are not index formats.
pub fn to_mtl_index_type(stride: usize) -> (index_type: u64)
    requires
        stride == 2 || stride == 4,
    ensures
        index_type == if stride == 2 { MTL_INDEX_TYPE_UINT16 } else { MTL_INDEX_TYPE_UINT32 },
{
    if stride == 2 {
        MTL_INDEX_TYPE_UINT16
    } else {
        MTL_INDEX_TYPE_UINT32
    }
}

/// Channels, bytes per channel and channel type of the Metal colour pixel formats used here.
pub open spec fn mtl_pixel_layout(code: u64) -> Option<(nat, nat, ChannelType)> {
    if code == MTL_PIXEL_FORMAT_R16_UNORM { Some((1, 2, ChannelType::Unorm)) }
    else if code == MTL_PIXEL_FORMAT_R16_UINT { Some((1, 2, ChannelType::Uint)) }
    else if code == MTL_PIXEL_FORMAT_R16_SINT { Some((1, 2, ChannelType::Sint)) }
    else if code == MTL_PIXEL_FORMAT_R16_FLOAT { Some((1, 2, ChannelType::Float)) }
    else if code == MTL_PIXEL_FORMAT_R32_UINT { Some((1, 4, ChannelType::Uint)) }
    else if code == MTL_PIXEL_FORMAT_R32_SINT { Some((1, 4, ChannelType::Sint)) }
    else if code == MTL_PIXEL_FORMAT_R32_FLOAT { Some((1, 4, ChannelType::Float)) }
    else if code == MTL_PIXEL_FORMAT_RG16_UINT { Some((2, 2, ChannelType::Uint)) }
    else if code == MTL_PIXEL_FORMAT_RG16_SINT { Some((2, 2, ChannelType::Sint)) }
    else if code == MTL_PIXEL_FORMAT_RG16_FLOAT { Some((2, 2, ChannelType::Float)) }
    else if code == MTL_PIXEL_FORMAT_RG32_UINT { Some((2, 4, ChannelType::Uint)) }
    else if code == MTL_PIXEL_FORMAT_RG32_SINT { Some((2, 4, ChannelType::Sint)) }
    else if code == MTL_PIXEL_FORMAT_RG32_FLOAT { Some((2, 4, ChannelType::Float)) }
    else if code == MTL_PIXEL_FORMAT_RGBA8_UNORM { Some((4, 1, ChannelType::Unorm)) }
    else if code == MTL_PIXEL_FORMAT_RGBA8_UNORM_SRGB { Some((4, 1, ChannelType::UnormSrgb)) }
    else if code == MTL_PIXEL_FORMAT_RGBA8_UINT { Some((4, 1, ChannelType::Uint)) }
    else if code == MTL_PIXEL_FORMAT_RGBA8_SINT { Some((4, 1, ChannelType::Sint)) }
    else if code == MTL_PIXEL_FORMAT_BGRA8_UNORM { Some((4, 1, ChannelType::Unorm)) }
    else if code == MTL_PIXEL_FORMAT_BGRA8_UNORM_SRGB { Some((4, 1, ChannelType::UnormSrgb)) }
    else if code == MTL_PIXEL_FORMAT_RGBA16_UINT { Some((4, 2, ChannelType::Uint)) }
    else if code == MTL_PIXEL_FORMAT_RGBA16_SINT { Some((4, 2, ChannelType::Sint)) }
    else if code == MTL_PIXEL_FORMAT_RGBA16_FLOAT { Some((4, 2, ChannelType::Float)) }
    else if code == MTL_PIXEL_FORMAT_RGBA32_UINT { Some((4, 4, ChannelType::Uint)) }
    else if code == MTL_PIXEL_FORMAT_RGBA32_SINT { Some((4, 4, ChannelType::Sint)) }
    else if code == MTL_PIXEL_FORMAT_RGBA32_FLOAT { Some((4, 4, ChannelType::Float)) }
    else { None }
}

/// A plain colour format becomes the Metal pixel format with the same channels, channel width
/// and channel type; the three channel 32 bit formats, which Metal has no pixel format for,
/// have none.
pub proof fn lemma_mtl_pixel_format_keeps_texel_layout(format: Format)
    requires
        is_plain_colour(format),
    ensures
        match mtl_pixel_format(format) {
            Some(code) => mtl_pixel_layout(code) == Some(texel_layout(format)),
            None => format_components(format) == 3,
        },
{
}

/// Depth formats become Metal depth formats with at least their depth precision, with stencil
/// exactly when they have stencil.
pub proof fn lemma_mtl_depth_format_keeps_stencil(format: Format)
    requires
        is_depth(format),
    ensures
        mtl_pixel_format(format) matches Some(code) && (code == MTL_PIXEL_FORMAT_DEPTH32_FLOAT_STENCIL8
            <==> depth_stencil_bits(format).1 > 0) && (code == MTL_PIXEL_FORMAT_DEPTH16_UNORM
            <==> depth_stencil_bits(format).0 == 16),
{
}

/// Bits per channel and channel count of the Metal vertex formats used here.
pub open spec fn mtl_vertex_layout(code: u64) -> Option<(nat, nat)> {
    if code == MTL_VERTEX_FORMAT_SHORT_NORMALIZED || code == MTL_VERTEX_FORMAT_USHORT || code == MTL_VERTEX_FORMAT_SHORT
        || code == MTL_VERTEX_FORMAT_HALF { Some((1, 16)) }
    else if code == MTL_VERTEX_FORMAT_UINT || code == MTL_VERTEX_FORMAT_INT || code == MTL_VERTEX_FORMAT_FLOAT { Some((1, 32)) }
    else if code == MTL_VERTEX_FORMAT_USHORT2 || code == MTL_VERTEX_FORMAT_SHORT2 || code == MTL_VERTEX_FORMAT_HALF2 { Some((2, 16)) }
    else if code == MTL_VERTEX_FORMAT_UINT2 || code == MTL_VERTEX_FORMAT_INT2 || code == MTL_VERTEX_FORMAT_FLOAT2 { Some((2, 32)) }
    else if code == MTL_VERTEX_FORMAT_UINT3 || code == MTL_VERTEX_FORMAT_INT3 || code == MTL_VERTEX_FORMAT_FLOAT3 { Some((3, 32)) }
    else if code == MTL_VERTEX_FORMAT_UCHAR4_NORMALIZED || code == MTL_VERTEX_FORMAT_UCHAR4 || code == MTL_VERTEX_FORMAT_CHAR4 { Some((4, 8)) }
    else if code == MTL_VERTEX_FORMAT_USHORT4 || code == MTL_VERTEX_FORMAT_SHORT4 || code == MTL_VERTEX_FORMAT_HALF4 { Some((4, 16)) }
    else if code == MTL_VERTEX_FORMAT_UINT4 || code == MTL_VERTEX_FORMAT_INT4 || code == MTL_VERTEX_FORMAT_FLOAT4 { Some((4, 32)) }
    else { None }
}

/// Whether a Metal vertex format is read as floating point.
pub open spec fn mtl_vertex_is_float(code: u64) -> bool {
    code == MTL_VERTEX_FORMAT_HALF || code == MTL_VERTEX_FORMAT_FLOAT || code == MTL_VERTEX_FORMAT_HALF2
        || code == MTL_VERTEX_FORMAT_FLOAT2 || code == MTL_VERTEX_FORMAT_FLOAT3 || code == MTL_VERTEX_FORMAT_HALF4
        || code == MTL_VERTEX_FORMAT_FLOAT4
}

/// A plain colour format used as a vertex attribute becomes the Metal vertex format with the
/// same channel count and channel width, read as floating point exactly when the format is.
pub proof fn lemma_mtl_vertex_format_keeps_texel_layout(format: Format)
    requires
        is_plain_colour(format),
        mtl_vertex_format(format) is Some,
    ensures
        mtl_vertex_layout(mtl_vertex_format(format)->Some_0) == Some((format_components(format), format_channel_bits(format))),
        mtl_vertex_is_float(mtl_vertex_format(format)->Some_0) == (format_channel_type(format) == ChannelType::Float),
{
}

} // verus!
