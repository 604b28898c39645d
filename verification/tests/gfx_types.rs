use hotline::gfx::{
    AdapterInfo, BlendFactor, BlendOp, ComparisonFunc, DepthStencilInfo, DepthWriteMask,
    Format, LogicOp, MapInfo, PipelineStatistics, RenderTargetBlendInfo, ResourceState,
    ShaderVisibility, StencilOp, TextureInfo, TextureType, TextureUsage, WriteMask,
};

fn stats(a: u64, b: u64, c: u64, d: u64, e: u64) -> PipelineStatistics {
    PipelineStatistics {
        input_assembler_vertices: a,
        input_assembler_primitives: b,
        vertex_shader_invocations: c,
        pixel_shader_primitives: d,
        compute_shader_invocations: e,
    }
}

#[test]
fn texture_info_default() {
    let info = TextureInfo::default();
    assert!(info.tex_type == TextureType::Texture2D);
    assert!(info.format == Format::RGBA8n);
    assert_eq!((info.width, info.height, info.depth), (1, 1, 1));
    assert_eq!((info.array_layers, info.mip_levels, info.samples), (1, 1, 1));
    assert!(info.usage.contains(TextureUsage::SHADER_RESOURCE));
    assert!(!info.usage.contains(TextureUsage::RENDER_TARGET));
    assert!(info.initial_state == ResourceState::ShaderResource);
}

#[test]
fn depth_stencil_default_disables_tests() {
    let info = DepthStencilInfo::default();
    assert!(!info.depth_enabled && !info.stencil_enabled);
    assert!(info.depth_write_mask == DepthWriteMask::Zero);
    assert!(info.depth_func == ComparisonFunc::Always);
    assert!(info.front_face.fail == StencilOp::Keep);
    assert!(info.back_face.func == ComparisonFunc::Always);
}

#[test]
fn blend_default_writes_all_channels() {
    let info = RenderTargetBlendInfo::default();
    assert!(!info.blend_enabled && !info.logic_op_enabled);
    assert!(info.src_blend == BlendFactor::Zero && info.blend_op == BlendOp::Add);
    assert!(info.logic_op == LogicOp::Clear);
    assert_eq!(u8::from(info.write_mask), 0b1111);
    assert!(info.write_mask.contains(WriteMask::RED | WriteMask::ALPHA));
}

#[test]
fn other_defaults() {
    assert!(ShaderVisibility::default() == ShaderVisibility::All);
    let map = MapInfo::default();
    assert_eq!((map.subresource, map.read_start, map.read_end), (0, 0, 0));
}

#[test]
fn statistics_accumulate() {
    let a = stats(1, 2, 3, 4, 5);
    let b = stats(10, 20, 30, 40, 50);
    let sum = a.add(b);
    assert!(sum == stats(11, 22, 33, 44, 55));
    let mut acc = a;
    acc.add_assign(b);
    assert!(acc == sum);
    // order does not matter and zero is the identity
    assert!(b.add(a) == sum);
    assert!(PipelineStatistics::default().add(a) == a);
    // grouping does not matter
    let c = stats(100, 0, 7, 0, 1);
    assert!(a.add(b).add(c) == a.add(b.add(c)));
}

#[test]
fn adapter_info_text() {
    let info = AdapterInfo {
        name: "hotline_rs::d3d12::Device".to_string(),
        description: "NVIDIA GeForce GTX 1060 6GB".to_string(),
        dedicated_video_memory: 6052 * 1024 * 1024 + 17,
        dedicated_system_memory: 0,
        shared_system_memory: 8159 * 1024 * 1024,
        available: vec![
            "NVIDIA GeForce GTX 1060 6GB".to_string(),
            "Microsoft Basic Render Driver".to_string(),
        ],
    };
    let expected = "hotline_rs::d3d12::Device:
  NVIDIA GeForce GTX 1060 6GB
  Video Memory: 6052(mb)
  System Memory: 0(mb)
  Shared System Memory: 8159(mb)
Available Adapters:
  NVIDIA GeForce GTX 1060 6GB
  Microsoft Basic Render Driver
";
    assert_eq!(info.to_string(), expected);
}

use hotline::gfx::ScissorRect;
use hotline::os::Rect;

#[test]
fn resource_state_names() {
    assert_eq!(ResourceState::RenderTarget.to_string(), "RenderTarget");
    assert_eq!(ResourceState::ShaderResource.to_string(), "ShaderResource");
    assert_eq!(ResourceState::AccelerationStructure.to_string(), "AccelerationStructure");
    assert_eq!(ResourceState::Present.to_string(), "Present");
}

#[test]
fn scissor_from_rect_keeps_the_fields() {
    let rect = Rect { x: 1, y: 2, width: 300, height: 400 };
    let scissor = ScissorRect::from(rect);
    assert_eq!((scissor.left, scissor.top, scissor.right, scissor.bottom), (1, 2, 300, 400));
}
