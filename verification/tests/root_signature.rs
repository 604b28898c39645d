use hotline::gfx::d3d12::root_signature::{
    range_descriptor_count, to_d3d12_descriptor_range_type, RootSignatureLayout,
};
use hotline::gfx::d3d12::states::to_d3d12_shader_visibility;
use hotline::gfx::{DescriptorBinding, DescriptorType, PipelineSlotInfo, PushConstantInfo, ShaderVisibility};

fn push(register: u32, space: u32, num_values: u32) -> PushConstantInfo {
    PushConstantInfo { visibility: ShaderVisibility::All, shader_register: register, register_space: space, num_values }
}

fn binding(visibility: ShaderVisibility, register: u32, space: u32, ty: DescriptorType, num: Option<u32>) -> DescriptorBinding {
    DescriptorBinding { visibility, shader_register: register, register_space: space, binding_type: ty, num_descriptors: num }
}

#[test]
fn push_constants_come_first_and_tables_follow() {
    let pushes = vec![push(0, 0, 4), push(1, 0, 16)];
    let bindings = vec![
        binding(ShaderVisibility::Fragment, 0, 0, DescriptorType::ShaderResource, None),
        binding(ShaderVisibility::Fragment, 0, 1, DescriptorType::ShaderResource, Some(8)),
        binding(ShaderVisibility::Fragment, 0, 0, DescriptorType::Sampler, Some(1)),
    ];
    let layout = RootSignatureLayout::build(&pushes, &bindings);
    assert_eq!(layout.num_root_parameters(), 4);
    assert_eq!(layout.descriptor_slots(), vec![2, 3]);
    assert_eq!(
        layout.get_pipeline_slot(1, 0, DescriptorType::PushConstants),
        Some(PipelineSlotInfo { index: 1, count: Some(16) })
    );
    assert_eq!(
        layout.get_pipeline_slot(0, 0, DescriptorType::ShaderResource),
        Some(PipelineSlotInfo { index: 2, count: None })
    );
    assert_eq!(
        layout.get_pipeline_slot(0, 1, DescriptorType::ShaderResource),
        Some(PipelineSlotInfo { index: 2, count: Some(8) })
    );
    assert_eq!(
        layout.get_pipeline_slot(0, 0, DescriptorType::Sampler),
        Some(PipelineSlotInfo { index: 3, count: Some(1) })
    );
    assert_eq!(layout.get_pipeline_slot(5, 0, DescriptorType::ShaderResource), None);
    assert_eq!(layout.get_pipeline_slot(0, 0, DescriptorType::UnorderedAccess), None);
    assert_eq!(layout.get_pipeline_slot(2, 0, DescriptorType::PushConstants), None);
}

#[test]
fn the_last_push_constant_of_a_register_wins() {
    let pushes = vec![push(0, 0, 4), push(0, 0, 8)];
    let bindings: Vec<DescriptorBinding> = Vec::new();
    let layout = RootSignatureLayout::build(&pushes, &bindings);
    assert_eq!(
        layout.get_pipeline_slot(0, 0, DescriptorType::PushConstants),
        Some(PipelineSlotInfo { index: 1, count: Some(8) })
    );
    assert!(layout.descriptor_slots().is_empty());
}

#[test]
fn the_first_table_holding_a_register_wins() {
    let pushes: Vec<PushConstantInfo> = Vec::new();
    let bindings = vec![
        binding(ShaderVisibility::Vertex, 3, 1, DescriptorType::ConstantBuffer, Some(1)),
        binding(ShaderVisibility::Fragment, 3, 0, DescriptorType::ConstantBuffer, Some(2)),
        binding(ShaderVisibility::Vertex, 3, 0, DescriptorType::ConstantBuffer, Some(3)),
    ];
    let layout = RootSignatureLayout::build(&pushes, &bindings);
    assert_eq!(layout.num_root_parameters(), 2);
    assert_eq!(
        layout.get_pipeline_slot(3, 0, DescriptorType::ConstantBuffer),
        Some(PipelineSlotInfo { index: 0, count: Some(3) })
    );
    assert_eq!(
        layout.get_pipeline_slot(3, 1, DescriptorType::ConstantBuffer),
        Some(PipelineSlotInfo { index: 0, count: Some(1) })
    );
}

#[test]
fn every_declared_register_is_bound() {
    let pushes = vec![push(0, 0, 4), push(2, 1, 2)];
    let bindings = vec![
        binding(ShaderVisibility::All, 0, 0, DescriptorType::ShaderResource, None),
        binding(ShaderVisibility::Compute, 1, 0, DescriptorType::UnorderedAccess, None),
        binding(ShaderVisibility::All, 0, 0, DescriptorType::Sampler, Some(4)),
    ];
    let layout = RootSignatureLayout::build(&pushes, &bindings);
    for p in &pushes {
        let slot = layout.get_pipeline_slot(p.shader_register, p.register_space, DescriptorType::PushConstants).unwrap();
        assert!(slot.index < 2);
    }
    for b in &bindings {
        let slot = layout.get_pipeline_slot(b.shader_register, b.register_space, b.binding_type).unwrap();
        assert!(slot.index >= 2 && slot.index < 5);
    }
}

#[test]
fn range_types_counts_and_visibility() {
    assert_eq!(to_d3d12_descriptor_range_type(DescriptorType::ShaderResource), 0);
    assert_eq!(to_d3d12_descriptor_range_type(DescriptorType::UnorderedAccess), 1);
    assert_eq!(to_d3d12_descriptor_range_type(DescriptorType::ConstantBuffer), 2);
    assert_eq!(to_d3d12_descriptor_range_type(DescriptorType::Sampler), 3);
    assert_eq!(range_descriptor_count(None), u32::MAX);
    assert_eq!(range_descriptor_count(Some(7)), 7);
    assert_eq!(to_d3d12_shader_visibility(&ShaderVisibility::Fragment), 5);
    assert_eq!(to_d3d12_shader_visibility(&ShaderVisibility::Compute), 0);
    assert_eq!(to_d3d12_shader_visibility(&ShaderVisibility::Vertex), 1);
}
