use hotline::gfx::{BufferUsage, CpuAccessFlags, Format, ResourceState};
use hotline::imdraw::{dynamic_vertex_buffer_info, DynamicBufferSizes, SubmitPlan};

#[test]
fn dynamic_buffers_are_cpu_written_vertex_buffers() {
    let info = dynamic_vertex_buffer_info(64, 24);
    assert_eq!(info.usage.bits, BufferUsage::VERTEX);
    assert_eq!(info.cpu_access.bits, CpuAccessFlags::WRITE);
    assert!(info.format == Format::Unknown);
    assert_eq!((info.stride, info.num_elements), (24, 64));
    assert!(info.initial_state == ResourceState::VertexConstantBuffer);
}

#[test]
fn nothing_recorded_submits_nothing() {
    let mut sizes = DynamicBufferSizes::new();
    assert_eq!(sizes.plan_submit(0, 6, 0), None);
    assert_eq!(sizes.draw_vertex_count(0), None);
}

#[test]
fn submit_creates_buffers_up_to_the_index() {
    let mut sizes = DynamicBufferSizes::new();
    let plan = sizes.plan_submit(60, 6, 2);
    assert_eq!(plan, Some(SubmitPlan { num_elems: 10, create_buffers: 3, resize: false }));
    assert_eq!(sizes.draw_vertex_count(2), Some(10));
    assert_eq!(sizes.draw_vertex_count(0), Some(10));
    assert_eq!(sizes.draw_vertex_count(3), None);
}

#[test]
fn larger_submit_recreates_the_buffer() {
    let mut sizes = DynamicBufferSizes::new();
    sizes.plan_submit(42, 7, 0);
    let plan = sizes.plan_submit(70, 7, 0);
    assert_eq!(plan, Some(SubmitPlan { num_elems: 10, create_buffers: 0, resize: true }));
    let again = sizes.plan_submit(70, 7, 0);
    assert_eq!(again, Some(SubmitPlan { num_elems: 10, create_buffers: 0, resize: false }));
    let smaller = sizes.plan_submit(14, 7, 0);
    assert_eq!(smaller, Some(SubmitPlan { num_elems: 2, create_buffers: 0, resize: false }));
    assert_eq!(sizes.draw_vertex_count(0), Some(2));
}

use hotline::imdraw::{new_buffer_2d_info, new_buffer_3d_info, FLOATS_PER_VERTEX_2D, FLOATS_PER_VERTEX_3D};

#[test]
fn vertex_buffers_of_each_dimension() {
    let info_2d = new_buffer_2d_info(10);
    assert_eq!((info_2d.stride, info_2d.num_elements), (24, 10));
    assert_eq!(info_2d.cpu_access.bits, CpuAccessFlags::WRITE);
    let info_3d = new_buffer_3d_info(5);
    assert_eq!((info_3d.stride, info_3d.num_elements), (28, 5));
    assert_eq!(info_3d.stride, FLOATS_PER_VERTEX_3D * 4);
    assert_eq!(info_2d.stride, FLOATS_PER_VERTEX_2D * 4);
}
