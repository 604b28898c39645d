use hotline::gfx::mtl::pipeline::{
    plan_colour_attachments, plan_depth_attachments, plan_depth_stencil_state, plan_vertex_descriptor,
    AttachmentBlend, ColourAttachment, ColourBlend, StencilFace, VertexAttribute, VertexBufferLayout,
};
use hotline::gfx::mtl::slots::{build_stage_slots, MetalSlot};
use hotline::gfx::{
    BlendFactor, ComparisonFunc, DepthStencilInfo, DepthWriteMask, DescriptorBinding, DescriptorType, Format,
    InputElementInfo, InputSlotClass, PushConstantInfo, RenderTargetBlendInfo, ShaderVisibility, StencilInfo,
    StencilOp,
};

fn element(format: Format, slot: u32, offset: u32, class: InputSlotClass, rate: u32) -> InputElementInfo {
    InputElementInfo {
        semantic: String::from("TEXCOORD"),
        index: 0,
        format,
        input_slot: slot,
        aligned_byte_offset: offset,
        input_slot_class: class,
        step_rate: rate,
    }
}

#[test]
fn vertex_descriptor_lays_out_each_slot() {
    let layout = vec![
        element(Format::RGB32f, 0, 0, InputSlotClass::PerVertex, 0),
        element(Format::RG32f, 0, 12, InputSlotClass::PerVertex, 0),
        element(Format::RGBA32f, 2, 0, InputSlotClass::PerInstance, 3),
    ];
    let desc = plan_vertex_descriptor(&layout);
    assert_eq!(
        desc.attributes,
        vec![
            VertexAttribute { format: 30, buffer_index: 0, offset: 0 },
            VertexAttribute { format: 29, buffer_index: 0, offset: 12 },
            VertexAttribute { format: 31, buffer_index: 2, offset: 0 },
        ]
    );
    assert_eq!(
        desc.layouts,
        vec![
            Some(VertexBufferLayout { stride: 20, step_function: 1, step_rate: 1 }),
            None,
            Some(VertexBufferLayout { stride: 16, step_function: 2, step_rate: 3 }),
        ]
    );
    let empty: Vec<InputElementInfo> = Vec::new();
    let desc = plan_vertex_descriptor(&empty);
    assert!(desc.attributes.is_empty() && desc.layouts.is_empty());
}

#[test]
fn colour_attachments_take_their_blend_state() {
    let mut blend = RenderTargetBlendInfo::default();
    blend.blend_enabled = true;
    blend.src_blend = BlendFactor::SrcAlpha;
    blend.dst_blend = BlendFactor::InvSrcAlpha;
    let expected = ColourBlend {
        blending_enabled: true,
        rgb_blend_operation: 0,
        alpha_blend_operation: 0,
        source_rgb_blend_factor: 4,
        source_alpha_blend_factor: 0,
        destination_rgb_blend_factor: 5,
        destination_alpha_blend_factor: 0,
        write_mask: 15,
    };
    let formats = vec![80u64, 0, 70];
    let attachments = plan_colour_attachments(Some(&formats), &vec![blend]);
    assert_eq!(
        attachments,
        vec![
            ColourAttachment { pixel_format: 80, blend: AttachmentBlend::Target(expected) },
            ColourAttachment { pixel_format: 0, blend: AttachmentBlend::Unset },
            ColourAttachment { pixel_format: 70, blend: AttachmentBlend::Target(expected) },
        ]
    );
    // no pass, or a pass without colour targets, draws to one BGRA8 target
    let none: Vec<RenderTargetBlendInfo> = Vec::new();
    let attachments = plan_colour_attachments(None, &none);
    assert_eq!(attachments, vec![ColourAttachment { pixel_format: 80, blend: AttachmentBlend::Off }]);
    let no_targets: Vec<u64> = Vec::new();
    assert_eq!(plan_colour_attachments(Some(&no_targets), &none).len(), 1);
}

#[test]
fn depth_stencil_state_sets_faces_only_with_stencil() {
    let mut info = DepthStencilInfo::default();
    info.depth_func = ComparisonFunc::Less;
    info.depth_write_mask = DepthWriteMask::All;
    let state = plan_depth_stencil_state(&info);
    assert_eq!(state.depth_compare_function, 1);
    assert!(state.depth_write_enabled);
    assert!(state.front_face_stencil.is_none() && state.back_face_stencil.is_none());
    info.stencil_enabled = true;
    info.stencil_read_mask = 0xff;
    info.stencil_write_mask = 0x0f;
    info.front_face = StencilInfo { fail: StencilOp::Keep, depth_fail: StencilOp::Keep, pass: StencilOp::Replace, func: ComparisonFunc::Always };
    let state = plan_depth_stencil_state(&info);
    assert_eq!(
        state.front_face_stencil,
        Some(StencilFace {
            compare_function: 7,
            stencil_failure_operation: 0,
            depth_failure_operation: 0,
            depth_stencil_pass_operation: 2,
            read_mask: 0xff,
            write_mask: 0x0f,
        })
    );
    assert_eq!(state.back_face_stencil.unwrap().depth_stencil_pass_operation, 0);
}

#[test]
fn only_depth_formats_with_stencil_get_a_stencil_attachment() {
    assert_eq!(plan_depth_attachments(Some(260)), (Some(260), Some(260)));
    assert_eq!(plan_depth_attachments(Some(252)), (Some(252), None));
    assert_eq!(plan_depth_attachments(None), (None, None));
}

fn push_block(visibility: ShaderVisibility, register: u32, num_values: u32) -> PushConstantInfo {
    PushConstantInfo { visibility, shader_register: register, register_space: 0, num_values }
}

fn bind(visibility: ShaderVisibility, register: u32, space: u32, ty: DescriptorType, num: Option<u32>) -> DescriptorBinding {
    DescriptorBinding { visibility, shader_register: register, register_space: space, binding_type: ty, num_descriptors: num }
}

#[test]
fn each_stage_numbers_its_own_slots() {
    let push = vec![push_block(ShaderVisibility::All, 0, 4), push_block(ShaderVisibility::Vertex, 1, 2)];
    let bindings = vec![
        bind(ShaderVisibility::Fragment, 0, 0, DescriptorType::ShaderResource, None),
        bind(ShaderVisibility::All, 0, 1, DescriptorType::ShaderResource, None),
        bind(ShaderVisibility::Fragment, 0, 2, DescriptorType::ShaderResource, Some(3)),
        bind(ShaderVisibility::All, 0, 0, DescriptorType::Sampler, Some(1)),
        bind(ShaderVisibility::Compute, 5, 0, DescriptorType::UnorderedAccess, None),
    ];
    let (vertex, fragment) = build_stage_slots(&push, &bindings);
    let slot = |index: u32, count: Option<u32>, sub_offset: u32| Some(MetalSlot { index, count, sub_offset });
    assert_eq!(vertex.get(0, 0, DescriptorType::PushConstants), slot(3, Some(4), 0));
    assert_eq!(fragment.get(0, 0, DescriptorType::PushConstants), slot(1, Some(4), 0));
    assert_eq!(vertex.get(1, 0, DescriptorType::PushConstants), slot(4, Some(2), 0));
    assert_eq!(fragment.get(1, 0, DescriptorType::PushConstants), None);
    assert_eq!(vertex.get(0, 0, DescriptorType::ShaderResource), None);
    assert_eq!(fragment.get(0, 0, DescriptorType::ShaderResource), slot(2, None, 0));
    assert_eq!(vertex.get(0, 1, DescriptorType::ShaderResource), slot(5, None, 0));
    assert_eq!(fragment.get(0, 1, DescriptorType::ShaderResource), slot(2, None, 1));
    assert_eq!(fragment.get(0, 2, DescriptorType::ShaderResource), slot(2, Some(3), 2));
    assert_eq!(vertex.get(0, 0, DescriptorType::Sampler), slot(6, Some(1), 0));
    assert_eq!(fragment.get(0, 0, DescriptorType::Sampler), slot(3, Some(1), 0));
    assert_eq!(vertex.get(5, 0, DescriptorType::UnorderedAccess), None);
    assert_eq!(fragment.get(5, 0, DescriptorType::UnorderedAccess), None);
}
