use hotline::gfx::d3d12::{
    align_buffer_data_size, get_indirect_command_size, is_discrete_gpu, to_d3d12_compile_flags,
    to_dxgi_format, to_dxgi_format_srv, to_vendor, validate_data_size, Vendor,
    DXGI_FORMAT_BC1_UNORM, DXGI_FORMAT_D32_FLOAT, DXGI_FORMAT_R16_UNORM,
    DXGI_FORMAT_R24_UNORM_X8_TYPELESS, DXGI_FORMAT_R32_FLOAT, DXGI_FORMAT_R8G8B8A8_UNORM,
};
use hotline::gfx::{BufferUsage, Format, IndirectArgumentType, ShaderCompileFlags};

#[test]
fn dxgi_formats() {
    assert_eq!(to_dxgi_format(Format::RGBA8n), DXGI_FORMAT_R8G8B8A8_UNORM);
    assert_eq!(to_dxgi_format(Format::RGBA8n), 28);
    assert_eq!(to_dxgi_format(Format::BC1n), DXGI_FORMAT_BC1_UNORM);
    assert_eq!(to_dxgi_format(Format::D32f), DXGI_FORMAT_D32_FLOAT);
    assert_eq!(to_dxgi_format_srv(Format::D32f), DXGI_FORMAT_R32_FLOAT);
    assert_eq!(to_dxgi_format_srv(Format::D24nS8u), DXGI_FORMAT_R24_UNORM_X8_TYPELESS);
    assert_eq!(to_dxgi_format_srv(Format::D16n), DXGI_FORMAT_R16_UNORM);
    assert_eq!(to_dxgi_format_srv(Format::RGBA8n), DXGI_FORMAT_R8G8B8A8_UNORM);
}

#[test]
fn vendors() {
    assert!(to_vendor(0x10DE) == Vendor::Nvidia);
    assert!(to_vendor(0x1002) == Vendor::Amd);
    assert!(to_vendor(0x1022) == Vendor::Amd);
    assert!(to_vendor(0x8086) == Vendor::Intel);
    assert!(to_vendor(0x1414) == Vendor::Unknown);
    assert!(is_discrete_gpu(Vendor::Nvidia) && is_discrete_gpu(Vendor::Amd));
    assert!(!is_discrete_gpu(Vendor::Intel) && !is_discrete_gpu(Vendor::Unknown));
}

#[test]
fn compile_flags() {
    assert_eq!(to_d3d12_compile_flags(&ShaderCompileFlags::from_bits(ShaderCompileFlags::NONE)), 0);
    assert_eq!(to_d3d12_compile_flags(&ShaderCompileFlags::from_bits(ShaderCompileFlags::DEBUG)), 1);
    assert_eq!(to_d3d12_compile_flags(&ShaderCompileFlags::from_bits(ShaderCompileFlags::SKIP_OPTIMIZATION)), 4);
    assert_eq!(
        to_d3d12_compile_flags(&ShaderCompileFlags::from_bits(
            ShaderCompileFlags::DEBUG | ShaderCompileFlags::SKIP_OPTIMIZATION
        )),
        5
    );
}

#[test]
fn buffer_sizes() {
    let cb = BufferUsage::from_bits(BufferUsage::CONSTANT_BUFFER);
    assert_eq!(align_buffer_data_size(10, cb), 256);
    assert_eq!(align_buffer_data_size(256, cb), 256);
    let append = BufferUsage::from_bits(BufferUsage::APPEND_COUNTER | BufferUsage::UNORDERED_ACCESS);
    assert_eq!(align_buffer_data_size(100, append), 4096 + 4);
    let vb = BufferUsage::from_bits(BufferUsage::VERTEX);
    assert_eq!(align_buffer_data_size(100, vb), 100);
}

#[test]
fn data_sizes() {
    let data: [u32; 4] = [0; 4];
    assert!(validate_data_size(16, Some(&data[..])).is_ok());
    assert!(validate_data_size::<u32>(16, None).is_ok());
    match validate_data_size(20, Some(&data[..])) {
        Err(e) => assert_eq!(e.msg, "data size: (16) bytes does not match expected size: (20) bytes"),
        Ok(_) => panic!("sizes differ"),
    }
}

#[test]
fn indirect_command_sizes() {
    assert_eq!(get_indirect_command_size(IndirectArgumentType::Draw), 16);
    assert_eq!(get_indirect_command_size(IndirectArgumentType::DrawIndexed), 20);
    assert_eq!(get_indirect_command_size(IndirectArgumentType::Dispatch), 12);
}

use hotline::gfx::d3d12::states::{
    to_d3d12_address_comparison_func, to_d3d12_address_mode, to_d3d12_blend_factor, to_d3d12_blend_op,
    to_d3d12_buffer_usage_flags, to_d3d12_comparison_func, to_d3d12_cull_mode, to_d3d12_descriptor_heap_flags,
    to_d3d12_descriptor_heap_type, to_d3d12_fill_mode, to_d3d12_filter, to_d3d12_hit_group_type,
    to_d3d12_indirect_argument_type, to_d3d12_logic_op, to_d3d12_primitive_topology,
    to_d3d12_primitive_topology_type, to_d3d12_query_heap_type, to_d3d12_query_type,
    to_d3d12_resource_dimension, to_d3d12_resource_state, to_d3d12_sampler_boarder_colour,
    to_d3d12_stencil_op, to_d3d12_texture_heap_flags, to_d3d12_texture_srv_dimension,
    to_d3d12_texture_usage_flags, to_d3d12_write_mask,
};
use hotline::gfx::{
    BlendFactor, BlendOp, ComparisonFunc, CullMode, DepthWriteMask, FillMode, HeapType, LogicOp, QueryType,
    RaytracingHitGeometry, ResourceState, SamplerAddressMode, SamplerFilter, StencilOp, TextureType,
    TextureUsage, Topology,
};

#[test]
fn d3d12_sampler_states() {
    assert_eq!(to_d3d12_address_mode(SamplerAddressMode::Wrap), 1);
    assert_eq!(to_d3d12_address_mode(SamplerAddressMode::MirrorOnce), 5);
    assert_eq!(to_d3d12_filter(SamplerFilter::Linear, None), 0x15);
    assert_eq!(to_d3d12_filter(SamplerFilter::Linear, Some(ComparisonFunc::Less)), 0x95);
    assert_eq!(to_d3d12_filter(SamplerFilter::Anisotropic, None), 0x55);
    assert_eq!(to_d3d12_address_comparison_func(None), 8);
    assert_eq!(to_d3d12_address_comparison_func(Some(ComparisonFunc::Never)), 1);
    assert_eq!(to_d3d12_comparison_func(ComparisonFunc::GreaterEqual), 7);
    assert_eq!(to_d3d12_sampler_boarder_colour(None), 0);
    assert_eq!(to_d3d12_sampler_boarder_colour(Some(2)), 2);
}

#[test]
fn d3d12_pipeline_states() {
    assert_eq!(to_d3d12_blend_factor(BlendFactor::InvSrcAlpha), 6);
    assert_eq!(to_d3d12_blend_factor(BlendFactor::BlendFactor), 14);
    assert_eq!(to_d3d12_blend_op(BlendOp::Max), 5);
    assert_eq!(to_d3d12_logic_op(LogicOp::SetBits), 1);
    assert_eq!(to_d3d12_logic_op(LogicOp::OrInverted), 15);
    assert_eq!(to_d3d12_stencil_op(StencilOp::Keep), 1);
    assert_eq!(to_d3d12_write_mask(DepthWriteMask::All), 1);
    assert_eq!(to_d3d12_cull_mode(CullMode::Off), 1);
    assert_eq!(to_d3d12_fill_mode(FillMode::Solid), 3);
    assert_eq!(to_d3d12_primitive_topology_type(Topology::TriangleStrip), 3);
    assert_eq!(to_d3d12_primitive_topology_type(Topology::PatchList), 4);
    assert_eq!(to_d3d12_primitive_topology(Topology::TriangleList, 0), 4);
    assert_eq!(to_d3d12_primitive_topology(Topology::PatchList, 0), 33);
    assert_eq!(to_d3d12_primitive_topology(Topology::PatchList, 3), 36);
    assert_eq!(to_d3d12_hit_group_type(RaytracingHitGeometry::ProceduralPrimitive), 1);
    assert_eq!(to_d3d12_indirect_argument_type(IndirectArgumentType::PushConstants), 5);
}

#[test]
fn d3d12_resource_states() {
    assert_eq!(to_d3d12_resource_state(ResourceState::Present), 0);
    assert_eq!(to_d3d12_resource_state(ResourceState::ShaderResource), 0xC0);
    assert_eq!(to_d3d12_resource_state(ResourceState::GenericRead), 0xAC3);
    assert_eq!(to_d3d12_descriptor_heap_type(HeapType::RenderTarget), 2);
    assert_eq!(to_d3d12_descriptor_heap_flags(HeapType::Sampler), 1);
    assert_eq!(to_d3d12_descriptor_heap_flags(HeapType::DepthStencil), 0);
    assert_eq!(to_d3d12_query_heap_type(QueryType::BinaryOcclusion), 0);
    assert_eq!(to_d3d12_query_type(QueryType::BinaryOcclusion), 1);
    assert_eq!(to_d3d12_query_type(QueryType::VideoDecodeStatistics), 8);
    assert_eq!(to_d3d12_resource_dimension(TextureType::TextureCube), 3);
    assert_eq!(to_d3d12_resource_dimension(TextureType::Texture1DArray), 2);
    assert_eq!(to_d3d12_texture_srv_dimension(TextureType::Texture2D, 4), 6);
    assert_eq!(to_d3d12_texture_srv_dimension(TextureType::Texture2DArray, 4), 7);
    assert_eq!(to_d3d12_texture_srv_dimension(TextureType::TextureCube, 1), 9);
}

#[test]
fn d3d12_usage_flags() {
    let usage = TextureUsage::from_bits(TextureUsage::RENDER_TARGET | TextureUsage::UNORDERED_ACCESS);
    assert_eq!(to_d3d12_texture_usage_flags(usage), 0x1 | 0x4);
    let video = TextureUsage::from_bits(TextureUsage::VIDEO_DECODE_TARGET);
    assert_eq!(to_d3d12_texture_usage_flags(video), 0x1 | 0x20);
    assert_eq!(to_d3d12_texture_heap_flags(video), 1);
    assert_eq!(to_d3d12_texture_heap_flags(usage), 0);
    assert_eq!(to_d3d12_buffer_usage_flags(BufferUsage::from_bits(BufferUsage::UNORDERED_ACCESS)), 4);
    assert_eq!(to_d3d12_buffer_usage_flags(BufferUsage::from_bits(BufferUsage::VERTEX)), 0);
}

use hotline::gfx::d3d12::render_pass::{depth_stencil_begin_access, pass_sample_count, render_target_begin_access};

#[test]
fn render_pass_begin_access() {
    assert_eq!(render_target_begin_access(true, true), 2);
    assert_eq!(render_target_begin_access(false, true), 0);
    assert_eq!(render_target_begin_access(false, false), 1);
    assert_eq!(depth_stencil_begin_access(None, true), (0, 0));
    assert_eq!(depth_stencil_begin_access(None, false), (1, 1));
    assert_eq!(depth_stencil_begin_access(Some((true, false)), true), (2, 1));
    assert_eq!(depth_stencil_begin_access(Some((false, true)), false), (1, 2));
}

#[test]
fn render_pass_sample_counts() {
    assert_eq!(pass_sample_count(&vec![]).ok(), Some(1));
    assert_eq!(pass_sample_count(&vec![4, 4, 4]).ok(), Some(4));
    match pass_sample_count(&vec![4, 4, 1, 2]) {
        Err(e) => assert_eq!(e.msg, "Sample counts must match on all targets: expected 4 samples, found 1"),
        Ok(_) => panic!("mismatched sample counts accepted"),
    }
}

use hotline::gfx::d3d12::precompiled_shader;
use hotline::gfx::d3d12::states::{to_d3d12_render_target_blend, D3d12RenderTargetBlend};
use hotline::gfx::{RenderTargetBlendInfo, WriteMask};

#[test]
fn render_target_blends_fill_eight_slots() {
    let mut alpha = RenderTargetBlendInfo::default();
    alpha.blend_enabled = true;
    alpha.src_blend = BlendFactor::SrcAlpha;
    alpha.dst_blend = BlendFactor::InvSrcAlpha;
    alpha.write_mask = WriteMask::from_bits(WriteMask::RED | WriteMask::ALPHA);
    let blends = to_d3d12_render_target_blend(&[alpha, RenderTargetBlendInfo::default()]);
    assert_eq!(blends.len(), 8);
    assert!(blends[0].blend_enable && !blends[0].logic_op_enable);
    assert_eq!((blends[0].src_blend, blends[0].dest_blend, blends[0].blend_op), (5, 6, 1));
    assert_eq!(blends[0].render_target_write_mask, 9);
    assert!(!blends[1].blend_enable);
    let zero = D3d12RenderTargetBlend {
        blend_enable: false,
        logic_op_enable: false,
        src_blend: 0,
        dest_blend: 0,
        blend_op: 0,
        src_blend_alpha: 0,
        dest_blend_alpha: 0,
        blend_op_alpha: 0,
        logic_op: 0,
        render_target_write_mask: 0,
    };
    for b in &blends[2..] {
        assert_eq!(*b, zero);
    }
}

#[test]
fn precompiled_shaders_must_be_dxbc() {
    let code = b"DXBC\x01\x02\x03";
    assert_eq!(precompiled_shader(code).ok(), Some(code.to_vec()));
    for bad in [&b"DXBC"[..], &b"DXIL0000"[..], &b""[..]] {
        match precompiled_shader(bad) {
            Err(e) => assert_eq!(e.msg, "hotline_rs::gfx::d3d12: shader byte code (src) is not valid"),
            Ok(_) => panic!("invalid byte code accepted"),
        }
    }
}

use hotline::gfx::d3d12::{select_adapter, AdapterDesc};

fn adapter(description: &str, software: bool, vendor_id: u32) -> AdapterDesc {
    AdapterDesc { description: description.to_string(), software, vendor_id }
}

#[test]
fn adapter_selection_prefers_discrete_gpus() {
    let adapters = vec![
        adapter("Intel(R) UHD Graphics", false, 0x8086),
        adapter("Microsoft Basic Render Driver", true, 0x1414),
        adapter("NVIDIA GeForce GTX 1060 6GB", false, 0x10DE),
        adapter("AMD Radeon", false, 0x1002),
    ];
    assert_eq!(select_adapter(&adapters, &None), 3);
    let discrete_first = vec![adapter("NVIDIA", false, 0x10DE), adapter("Intel", false, 0x8086), adapter("AMD", false, 0x1002)];
    assert_eq!(select_adapter(&discrete_first, &None), 0);
    let integrated_only = vec![adapter("Basic", true, 0x1414), adapter("Intel", false, 0x8086)];
    assert_eq!(select_adapter(&integrated_only, &None), 1);
    let software_only = vec![adapter("Basic", true, 0x1414), adapter("Warp", true, 0x1414)];
    assert_eq!(select_adapter(&software_only, &None), 0);
    assert_eq!(select_adapter(&Vec::new(), &None), 0);
}

#[test]
fn adapter_selection_by_name() {
    let adapters = vec![
        adapter("Intel(R) UHD Graphics", false, 0x8086),
        adapter("Microsoft Basic Render Driver", true, 0x1414),
        adapter("Intel(R) UHD Graphics", false, 0x8086),
    ];
    assert_eq!(select_adapter(&adapters, &Some("Microsoft Basic Render Driver".to_string())), 1);
    assert_eq!(select_adapter(&adapters, &Some("Intel(R) UHD Graphics".to_string())), 2);
    assert_eq!(select_adapter(&adapters, &Some("Missing".to_string())), 0);
}

use hotline::gfx::d3d12::query::{pipeline_statistics_from_bytes, read_u64_le, PIPELINE_STATISTICS_SIZE_BYTES};

#[test]
fn query_results_are_little_endian_counters() {
    let bytes: Vec<u8> = (0..16u8).collect();
    assert_eq!(read_u64_le(&bytes, 0), u64::from_le_bytes([0, 1, 2, 3, 4, 5, 6, 7]));
    assert_eq!(read_u64_le(&bytes, 8), 0x0f0e0d0c0b0a0908);
    let mut stats = vec![0u8; PIPELINE_STATISTICS_SIZE_BYTES];
    let counters: [u64; 11] = [3, 1, 3, 0, 0, 1, 1, 640, 0, 0, 7];
    for (i, c) in counters.iter().enumerate() {
        stats[i * 8..i * 8 + 8].copy_from_slice(&c.to_le_bytes());
    }
    let s = pipeline_statistics_from_bytes(&stats);
    assert_eq!(
        (s.input_assembler_vertices, s.input_assembler_primitives, s.vertex_shader_invocations),
        (3, 1, 3)
    );
    assert_eq!((s.pixel_shader_primitives, s.compute_shader_invocations), (640, 7));
}

use hotline::gfx::d3d12::states::{
    to_d3d12_raytracing_acceleration_structure_build_flags, to_d3d12_raytracing_geometry_flags,
};
use hotline::gfx::{AccelerationStructureBuildFlags, RaytracingGeometryFlags};

#[test]
fn raytracing_flags() {
    let both = RaytracingGeometryFlags::from_bits(RaytracingGeometryFlags::OPAQUE | RaytracingGeometryFlags::NO_DUPLICATE_ANY_HIT);
    assert_eq!(to_d3d12_raytracing_geometry_flags(both), 0x3);
    assert_eq!(to_d3d12_raytracing_geometry_flags(RaytracingGeometryFlags::from_bits(RaytracingGeometryFlags::OPAQUE)), 0x1);
    assert_eq!(to_d3d12_raytracing_geometry_flags(RaytracingGeometryFlags::from_bits(RaytracingGeometryFlags::NONE)), 0);
    let build = AccelerationStructureBuildFlags::from_bits(
        AccelerationStructureBuildFlags::ALLOW_UPDATE | AccelerationStructureBuildFlags::PREFER_FAST_TRACE,
    );
    assert_eq!(to_d3d12_raytracing_acceleration_structure_build_flags(build), 0x1 | 0x4);
    let all = AccelerationStructureBuildFlags::from_bits(0x7e);
    assert_eq!(to_d3d12_raytracing_acceleration_structure_build_flags(all), 0x3f);
}
