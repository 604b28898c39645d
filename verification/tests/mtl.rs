use hotline::gfx::mtl::descriptor_register_kind;
use hotline::gfx::DescriptorType;
use hotline::text::append_decimal;

#[test]
fn register_kinds() {
    assert_eq!(descriptor_register_kind(DescriptorType::ShaderResource), 't');
    assert_eq!(descriptor_register_kind(DescriptorType::UnorderedAccess), 'u');
    assert_eq!(descriptor_register_kind(DescriptorType::ConstantBuffer), 'b');
    assert_eq!(descriptor_register_kind(DescriptorType::PushConstants), 'b');
    assert_eq!(descriptor_register_kind(DescriptorType::Sampler), 's');
}

#[test]
fn decimal_text() {
    let mut s = String::from("n=");
    append_decimal(&mut s, 0);
    assert_eq!(s, "n=0");
    let mut s = String::new();
    append_decimal(&mut s, 1234567890123);
    assert_eq!(s, "1234567890123");
    let mut s = String::new();
    append_decimal(&mut s, u64::MAX);
    assert_eq!(s, u64::MAX.to_string());
}

use hotline::gfx::mtl::{
    has_stencil_component, is_depth_format, to_mtl_blend_factor, to_mtl_compare_func, to_mtl_cull_mode,
    to_mtl_index_type, to_mtl_pixel_format, to_mtl_primitive_type, to_mtl_sampler_address_mode,
    to_mtl_sampler_min_mag_filter, to_mtl_sampler_mip_filter, to_mtl_stencil_op, to_mtl_texture_type,
    to_mtl_texture_usage, to_mtl_triangle_fill_mode, to_mtl_vertex_format, to_mtl_winding,
    to_mtl_write_mask, to_mtl_blend_op, MTL_PIXEL_FORMAT_BGRA8_UNORM, MTL_PIXEL_FORMAT_DEPTH16_UNORM,
    MTL_PIXEL_FORMAT_DEPTH32_FLOAT, MTL_PIXEL_FORMAT_DEPTH32_FLOAT_STENCIL8, MTL_PIXEL_FORMAT_RGBA8_UNORM,
};
use hotline::gfx::{
    BlendFactor, BlendOp, ComparisonFunc, CullMode, FillMode, Format, SamplerAddressMode, SamplerFilter,
    StencilOp, TextureType, TextureUsage, Topology, WriteMask,
};

#[test]
fn metal_pixel_formats() {
    assert_eq!(to_mtl_pixel_format(Format::RGBA8n), MTL_PIXEL_FORMAT_RGBA8_UNORM);
    assert_eq!(to_mtl_pixel_format(Format::RGBA8n), 70);
    assert_eq!(to_mtl_pixel_format(Format::Unknown), 0);
    assert_eq!(to_mtl_pixel_format(Format::BGRX8n), MTL_PIXEL_FORMAT_BGRA8_UNORM);
    assert_eq!(to_mtl_pixel_format(Format::D24nS8u), MTL_PIXEL_FORMAT_DEPTH32_FLOAT_STENCIL8);
    assert_eq!(to_mtl_pixel_format(Format::D32f), MTL_PIXEL_FORMAT_DEPTH32_FLOAT);
    assert_eq!(to_mtl_pixel_format(Format::BC5n), 142);
    assert!(has_stencil_component(to_mtl_pixel_format(Format::D32fS8X24u)));
    assert!(!has_stencil_component(to_mtl_pixel_format(Format::D32f)));
    assert!(is_depth_format(to_mtl_pixel_format(Format::D16n)));
    assert!(is_depth_format(MTL_PIXEL_FORMAT_DEPTH16_UNORM));
    assert!(!is_depth_format(to_mtl_pixel_format(Format::R32f)));
}

#[test]
fn metal_vertex_formats() {
    assert_eq!(to_mtl_vertex_format(Format::RGBA32f), 31);
    assert_eq!(to_mtl_vertex_format(Format::RG32f), 29);
    assert_eq!(to_mtl_vertex_format(Format::RGB32f), 30);
    assert_eq!(to_mtl_vertex_format(Format::RGBA8n), 9);
    assert_eq!(to_mtl_vertex_format(Format::R16f), 53);
}

#[test]
fn metal_pipeline_states() {
    assert_eq!(to_mtl_primitive_type(Topology::TriangleList), 3);
    assert_eq!(to_mtl_primitive_type(Topology::LineStrip), 2);
    assert_eq!(to_mtl_primitive_type(Topology::PatchList), 3);
    assert_eq!(to_mtl_blend_factor(BlendFactor::InvSrcAlpha), 5);
    assert_eq!(to_mtl_blend_factor(BlendFactor::DstAlpha), 8);
    assert_eq!(to_mtl_blend_op(BlendOp::RevSubtract), 2);
    assert_eq!(to_mtl_compare_func(ComparisonFunc::LessEqual), 3);
    assert_eq!(to_mtl_stencil_op(StencilOp::Incr), 6);
    assert_eq!(to_mtl_cull_mode(CullMode::Back), 2);
    assert_eq!(to_mtl_triangle_fill_mode(FillMode::Wireframe), 1);
    assert_eq!(to_mtl_winding(true), 1);
    assert_eq!(to_mtl_winding(false), 0);
    assert_eq!(to_mtl_index_type(2), 0);
    assert_eq!(to_mtl_index_type(4), 1);
}

#[test]
fn metal_sampler_and_texture_states() {
    assert_eq!(to_mtl_sampler_address_mode(SamplerAddressMode::Wrap), 2);
    assert_eq!(to_mtl_sampler_address_mode(SamplerAddressMode::Clamp), 0);
    assert_eq!(to_mtl_sampler_min_mag_filter(SamplerFilter::Anisotropic), 1);
    assert_eq!(to_mtl_sampler_mip_filter(SamplerFilter::Point), 1);
    assert_eq!(to_mtl_texture_type(TextureType::Texture3D), 7);
    assert_eq!(to_mtl_texture_type(TextureType::TextureCube), 5);
}

#[test]
fn metal_masks() {
    assert_eq!(to_mtl_write_mask(&WriteMask::from_bits(WriteMask::ALL)), 15);
    assert_eq!(to_mtl_write_mask(&WriteMask::from_bits(WriteMask::RED)), 8);
    assert_eq!(to_mtl_write_mask(&WriteMask::from_bits(WriteMask::ALPHA)), 1);
    assert_eq!(to_mtl_write_mask(&WriteMask::from_bits(WriteMask::NONE)), 0);
    let usage = TextureUsage::from_bits(TextureUsage::SHADER_RESOURCE | TextureUsage::DEPTH_STENCIL);
    assert_eq!(to_mtl_texture_usage(usage), 1 | 4);
    let usage = TextureUsage::from_bits(TextureUsage::UNORDERED_ACCESS);
    assert_eq!(to_mtl_texture_usage(usage), 2);
    assert_eq!(to_mtl_texture_usage(TextureUsage::from_bits(TextureUsage::NONE)), 0);
}

use hotline::gfx::mtl::slots::{build_slot_lookup, MetalSlot};
use hotline::gfx::{DescriptorBinding, PushConstantInfo, ShaderVisibility};

fn push_block(visibility: ShaderVisibility, register: u32, num_values: u32) -> PushConstantInfo {
    PushConstantInfo { visibility, shader_register: register, register_space: 0, num_values }
}

fn bind(visibility: ShaderVisibility, register: u32, space: u32, ty: DescriptorType, num: Option<u32>) -> DescriptorBinding {
    DescriptorBinding { visibility, shader_register: register, register_space: space, binding_type: ty, num_descriptors: num }
}

#[test]
fn metal_slots_are_numbered_per_stage() {
    let push = vec![push_block(ShaderVisibility::All, 0, 4), push_block(ShaderVisibility::Vertex, 1, 2)];
    let bindings = vec![
        bind(ShaderVisibility::Fragment, 0, 0, DescriptorType::ShaderResource, None),
        bind(ShaderVisibility::All, 0, 1, DescriptorType::ShaderResource, None),
        bind(ShaderVisibility::Fragment, 0, 2, DescriptorType::ShaderResource, Some(3)),
        bind(ShaderVisibility::All, 0, 0, DescriptorType::Sampler, Some(1)),
        bind(ShaderVisibility::Compute, 5, 0, DescriptorType::UnorderedAccess, None),
    ];
    let lookup = build_slot_lookup(&push, &bindings);
    let slot = |index: u32, count: Option<u32>, sub_offset: u32| Some(MetalSlot { index, count, sub_offset });
    assert_eq!(lookup.get(0, 0, DescriptorType::PushConstants), slot(3, Some(4), 0));
    assert_eq!(lookup.get(1, 0, DescriptorType::PushConstants), slot(4, Some(2), 0));
    assert_eq!(lookup.get(0, 0, DescriptorType::ShaderResource), slot(2, None, 0));
    assert_eq!(lookup.get(0, 1, DescriptorType::ShaderResource), slot(5, None, 0));
    assert_eq!(lookup.get(0, 2, DescriptorType::ShaderResource), slot(2, Some(3), 2));
    assert_eq!(lookup.get(0, 0, DescriptorType::Sampler), slot(6, Some(1), 0));
    assert_eq!(lookup.get(5, 0, DescriptorType::UnorderedAccess), slot(0, None, 0));
    assert_eq!(lookup.get(9, 0, DescriptorType::ShaderResource), None);
}

#[test]
fn later_metal_bindings_of_a_register_replace_earlier_ones() {
    let push = vec![push_block(ShaderVisibility::Fragment, 0, 4), push_block(ShaderVisibility::Fragment, 0, 8)];
    let bindings: Vec<DescriptorBinding> = Vec::new();
    let lookup = build_slot_lookup(&push, &bindings);
    assert_eq!(lookup.get(0, 0, DescriptorType::PushConstants), Some(MetalSlot { index: 2, count: Some(8), sub_offset: 0 }));
    for p in &push {
        assert!(lookup.get(p.shader_register, p.register_space, DescriptorType::PushConstants).is_some());
    }
}
