use hotline::gfx::d3d12::resources::{
    allocate_buffer_views, allocate_texture_views, select_heap, BufferViewSlots,
    plan_buffer, plan_mip_generation, plan_texture, BufferCounterView, BufferPlan, BufferShaderResourceView,
    IndexBufferView, MipDispatch, VertexBufferView, ViewDesc,
};
use hotline::gfx::format::mip_levels_for_dimension;
use hotline::gfx::heap::Heap;
use hotline::gfx::{
    BufferInfo, BufferUsage, CpuAccessFlags, Format, ResourceState, TextureInfo, TextureType, TextureUsage,
};

fn buffer(usage: u32, cpu: u8, stride: usize, num: usize) -> BufferInfo {
    BufferInfo {
        usage: BufferUsage::from_bits(usage),
        cpu_access: CpuAccessFlags::from_bits(cpu),
        format: Format::Unknown,
        stride,
        num_elements: num,
        initial_state: ResourceState::ShaderResource,
    }
}

#[test]
fn vertex_buffer_with_data_is_copied_into_place() {
    let data = [0u8; 64];
    let info = buffer(BufferUsage::VERTEX | BufferUsage::SHADER_RESOURCE, CpuAccessFlags::NONE, 16, 4);
    let plan = plan_buffer(&info, Some(&data[..])).unwrap();
    assert_eq!(
        plan,
        BufferPlan {
            size_bytes: 64,
            aligned_size: 64,
            upload_buffer: true,
            upload_only: false,
            cpu_write_heap: false,
            create_state: 0x400,
            final_state: 0xC0,
            persistently_mapped: false,
            counter_offset: None,
            vertex_view: Some(VertexBufferView { stride_bytes: 16, size_bytes: 64 }),
            index_view: None,
            constant_buffer_view: None,
            shader_resource_view: Some(BufferShaderResourceView { format: 0, num_elements: 4, stride: 16 }),
            unordered_access_view: false,
            append_counter_view: None,
        }
    );
}

#[test]
fn constant_buffers_are_padded_and_cpu_written() {
    let info = buffer(BufferUsage::CONSTANT_BUFFER, CpuAccessFlags::WRITE | CpuAccessFlags::PERSISTENTLY_MAPPED, 4, 3);
    let data: Option<&[u32]> = None;
    let plan = plan_buffer(&info, data).unwrap();
    assert_eq!((plan.size_bytes, plan.aligned_size), (12, 256));
    assert!(plan.cpu_write_heap && plan.persistently_mapped);
    assert_eq!(plan.constant_buffer_view, Some(256));
    assert_eq!(plan.create_state, 0xAC3);
}

#[test]
fn append_buffers_end_with_their_counter() {
    let info = buffer(BufferUsage::UNORDERED_ACCESS | BufferUsage::APPEND_COUNTER, CpuAccessFlags::NONE, 4, 10);
    let data: Option<&[u8]> = None;
    let plan = plan_buffer(&info, data).unwrap();
    assert_eq!(plan.aligned_size, 4096 + 4);
    assert_eq!(plan.counter_offset, Some(4096));
    assert!(plan.unordered_access_view);
    assert_eq!(plan.append_counter_view, Some(BufferCounterView { num_elements: 10, stride: 4, counter_offset: 4096 }));
    let plain = buffer(BufferUsage::UNORDERED_ACCESS, CpuAccessFlags::NONE, 4, 10);
    let plan = plan_buffer(&plain, data).unwrap();
    assert!(plan.unordered_access_view && plan.append_counter_view.is_none());
}

#[test]
fn index_buffers_view_their_index_format() {
    let mut info = buffer(BufferUsage::INDEX, CpuAccessFlags::NONE, 2, 6);
    info.format = Format::R16u;
    let data = [0u16; 6];
    let plan = plan_buffer(&info, Some(&data[..])).unwrap();
    assert_eq!(plan.index_view, Some(IndexBufferView { size_bytes: 12, format: 57 }));
    assert!(plan.vertex_view.is_none() && plan.shader_resource_view.is_none());
}

#[test]
fn upload_and_buffer_only_buffers_have_no_views() {
    let data = [1u8; 8];
    let upload = buffer(BufferUsage::UPLOAD, CpuAccessFlags::NONE, 8, 1);
    let plan = plan_buffer(&upload, Some(&data[..])).unwrap();
    assert!(plan.upload_only && plan.upload_buffer);
    assert!(plan.vertex_view.is_none() && plan.shader_resource_view.is_none() && plan.counter_offset.is_none());
    let only = buffer(BufferUsage::BUFFER_ONLY | BufferUsage::VERTEX, CpuAccessFlags::NONE, 8, 1);
    let plan = plan_buffer(&only, Some(&data[..])).unwrap();
    assert!(!plan.upload_only && plan.vertex_view.is_none());
}

#[test]
fn buffer_data_of_the_wrong_size_is_refused() {
    let data = [0u16; 3];
    let info = buffer(BufferUsage::VERTEX, CpuAccessFlags::NONE, 4, 2);
    let err = plan_buffer(&info, Some(&data[..])).unwrap_err();
    assert_eq!(err.msg, "data size: (6) bytes does not match expected size: (8) bytes");
}

fn texture(tex_type: TextureType, format: Format, usage: u32, samples: u32, mips: u32, layers: u32) -> TextureInfo {
    TextureInfo {
        tex_type,
        format,
        width: 64,
        height: 32,
        depth: 1,
        array_layers: layers,
        mip_levels: mips,
        samples,
        usage: TextureUsage::from_bits(usage),
        initial_state: ResourceState::ShaderResource,
    }
}

#[test]
fn render_target_texture_views() {
    let usage = TextureUsage::SHADER_RESOURCE | TextureUsage::RENDER_TARGET;
    let info = texture(TextureType::Texture2D, Format::RGBA8n, usage, 1, 1, 1);
    let data: Option<&[u8]> = None;
    let plan = plan_texture(&info, data).unwrap();
    assert_eq!(plan.size_bytes, 64 * 32 * 4);
    assert_eq!(plan.format, 28);
    assert_eq!(plan.dimension, 3);
    assert_eq!(plan.flags, 1);
    assert_eq!(plan.create_state, 0xC0);
    assert_eq!(plan.shader_resource_view, Some(ViewDesc { format: 28, dimension: 4 }));
    assert_eq!(plan.resolved_shader_resource_view, None);
    assert_eq!((plan.render_target_views, plan.depth_stencil_views), (1, 0));
    assert_eq!(plan.resolve_flags, None);
    assert_eq!(plan.mip_unordered_access_views, 0);
}

#[test]
fn multisampled_textures_resolve_and_keep_their_mips_there() {
    let usage = TextureUsage::SHADER_RESOURCE | TextureUsage::RENDER_TARGET | TextureUsage::GENERATE_MIP_MAPS;
    let info = texture(TextureType::Texture2D, Format::RGBA8n, usage, 4, 3, 1);
    let data: Option<&[u8]> = None;
    let plan = plan_texture(&info, data).unwrap();
    assert_eq!(plan.mip_levels, 1);
    assert_eq!(plan.flags, 1);
    assert_eq!(plan.resolve_flags, Some(1 | 4));
    assert_eq!(plan.shader_resource_view, Some(ViewDesc { format: 28, dimension: 6 }));
    assert_eq!(plan.resolved_shader_resource_view, Some(ViewDesc { format: 28, dimension: 4 }));
    assert_eq!(plan.mip_unordered_access_views, 3);
}

#[test]
fn single_sampled_mip_generation_gets_unordered_access() {
    let usage = TextureUsage::SHADER_RESOURCE | TextureUsage::GENERATE_MIP_MAPS;
    let info = texture(TextureType::Texture2D, Format::RGBA8n, usage, 1, 7, 1);
    let data: Option<&[u8]> = None;
    let plan = plan_texture(&info, data).unwrap();
    assert_eq!(plan.mip_levels, 7);
    assert_eq!(plan.flags, 4);
    assert!(!plan.unordered_access_view);
    assert_eq!(plan.mip_unordered_access_views, 7);
}

#[test]
fn depth_cube_gets_one_view_per_face() {
    let info = texture(TextureType::TextureCube, Format::D32f, TextureUsage::DEPTH_STENCIL | TextureUsage::SHADER_RESOURCE, 1, 1, 6);
    let data: Option<&[u8]> = None;
    let plan = plan_texture(&info, data).unwrap();
    assert_eq!(plan.depth_or_array_size, 6);
    assert_eq!((plan.render_target_views, plan.depth_stencil_views), (0, 6));
    assert_eq!(plan.format, 40);
    assert_eq!(plan.shader_resource_view, Some(ViewDesc { format: 41, dimension: 9 }));
    assert_eq!(plan.flags, 2);
}

#[test]
fn texture_data_is_checked_and_uploaded() {
    let info = texture(TextureType::Texture2D, Format::RGBA8n, TextureUsage::SHADER_RESOURCE, 1, 1, 1);
    let data = vec![0u8; 64 * 32 * 4];
    let plan = plan_texture(&info, Some(&data[..])).unwrap();
    assert!(plan.upload);
    assert_eq!((plan.create_state, plan.final_state), (0x400, 0xC0));
    let short = vec![0u8; 10];
    let err = plan_texture(&info, Some(&short[..])).unwrap_err();
    assert_eq!(err.msg, "data size: (10) bytes does not match expected size: (8192) bytes");
    let video = texture(TextureType::Texture2D, Format::RGBA8n, TextureUsage::VIDEO_DECODE_TARGET, 1, 1, 1);
    let none: Option<&[u8]> = None;
    let plan = plan_texture(&video, none).unwrap();
    assert!(plan.shared_handle);
    assert_eq!((plan.heap_flags, plan.flags), (1, 0x1 | 0x20));
}

#[test]
fn mip_generation_needs_a_mip_chain_and_a_pipeline() {
    let views: Vec<usize> = vec![3, 4, 5];
    assert_eq!(
        plan_mip_generation(64, 64, 1, &views, true).unwrap_err().msg,
        "hotline_rs::d3d12:: texture was not created with GENERATE_MIP_MAPS_FLAG"
    );
    assert_eq!(
        plan_mip_generation(64, 64, 4, &views, true).unwrap_err().msg,
        "hotline_rs::d3d12:: texture was not created with GENERATE_MIP_MAPS_FLAG"
    );
    assert_eq!(
        plan_mip_generation(64, 64, 3, &views, false).unwrap_err().msg,
        "hotline_rs::d3d12:: unable to generate mip maps"
    );
}

#[test]
fn mip_generation_halves_each_pass() {
    let views: Vec<usize> = vec![3, 4, 5];
    let passes = plan_mip_generation(100, 20, 3, &views, true).unwrap();
    assert_eq!(
        passes,
        vec![
            MipDispatch { src_uav: 3, dst_uav: 4, width: 50, height: 10, groups_x: 2, groups_y: 1 },
            MipDispatch { src_uav: 4, dst_uav: 5, width: 25, height: 5, groups_x: 1, groups_y: 1 },
        ]
    );
}

#[test]
fn full_mip_chain_ends_at_one_texel() {
    let levels = mip_levels_for_dimension(300, 40);
    assert_eq!(levels, 9);
    let views: Vec<usize> = (0..levels as usize).collect();
    let passes = plan_mip_generation(300, 40, levels as u16, &views, true).unwrap();
    let last = passes.last().unwrap();
    assert_eq!((last.width, last.height, last.groups_x, last.groups_y), (1, 1, 1, 1));
    assert_eq!(passes[0].groups_x, 5);
}

#[test]
fn wrongly_sized_texture_data_is_refused_before_views_are_considered() {
    // no shader resource view can be made for a 1D texture, but the data size is checked first
    let info = texture(TextureType::Texture1D, Format::RGBA8n, TextureUsage::SHADER_RESOURCE, 1, 1, 1);
    let data = vec![0u8; 3];
    let err = plan_texture(&info, Some(&data[..])).unwrap_err();
    assert_eq!(err.msg, "data size: (3) bytes does not match expected size: (8192) bytes");
}

#[test]
fn buffer_views_take_shader_heap_slots_in_order() {
    let info = buffer(
        BufferUsage::CONSTANT_BUFFER | BufferUsage::SHADER_RESOURCE | BufferUsage::UNORDERED_ACCESS,
        CpuAccessFlags::NONE, 4, 64,
    );
    let data: Option<&[u8]> = None;
    let plan = plan_buffer(&info, data).unwrap();
    let mut heap = Heap::new(0, 32, 8, 0);
    heap.allocate();
    heap.deallocate(1);
    let slots = allocate_buffer_views(&plan, &mut heap);
    // the freed slot first, then untouched ones
    assert_eq!(slots, BufferViewSlots { cbv_index: Some(1), srv_index: Some(2), uav_index: Some(3) });
    let upload = buffer(BufferUsage::UPLOAD, CpuAccessFlags::NONE, 4, 64);
    let plan = plan_buffer(&upload, data).unwrap();
    let slots = allocate_buffer_views(&plan, &mut heap);
    assert_eq!(slots, BufferViewSlots { cbv_index: None, srv_index: None, uav_index: None });
    let next = heap.allocate();
    assert_eq!(heap.get_handle_index(next), 4);
}

#[test]
fn texture_views_go_to_the_chosen_heaps() {
    let usage = TextureUsage::SHADER_RESOURCE | TextureUsage::RENDER_TARGET | TextureUsage::GENERATE_MIP_MAPS;
    let info = texture(TextureType::Texture2DArray, Format::RGBA8n, usage, 1, 3, 2);
    let data: Option<&[u8]> = None;
    let plan = plan_texture(&info, data).unwrap();
    let mut device_shader = Heap::new(0, 32, 16, 0);
    let mut own_shader = Heap::new(0, 32, 16, 1);
    let mut device_rtv = Heap::new(0, 32, 16, 2);
    let mut device_dsv = Heap::new(0, 32, 16, 3);
    let slots = {
        let shader = select_heap(Some(&mut own_shader), &mut device_shader);
        let rtv = select_heap(None, &mut device_rtv);
        let dsv = select_heap(None, &mut device_dsv);
        allocate_texture_views(&plan, shader, rtv, dsv)
    };
    assert_eq!(slots.srv_index, Some(1));
    assert_eq!(slots.resolved_srv_index, None);
    // generating mips gives one unordered access view per mip, not one of the whole texture
    assert_eq!(slots.uav_index, None);
    assert_eq!(slots.mip_uav_indices, vec![2, 3, 4]);
    assert_eq!(slots.rtv_indices, vec![1, 2]);
    assert!(slots.dsv_indices.is_empty());
    // the device's own shader heap was left alone
    let next = device_shader.allocate();
    assert_eq!(device_shader.get_handle_index(next), 1);
    let next = own_shader.allocate();
    assert_eq!(own_shader.get_handle_index(next), 5);
}
