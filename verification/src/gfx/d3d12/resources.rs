//! What the Direct3D 12 backend decides when it creates buffers and textures and when it
//! generates mip maps: sizes, heaps, resource states and which views a resource gets. The
//! device calls that carry these decisions out belong to the platform layer.

use vstd::prelude::*;
use vstd::layout::size_of;
use vstd::string::*;

use crate::Error;
use crate::gfx::{BufferInfo, BufferUsage, CpuAccessFlags, TextureInfo, TextureType, TextureUsage};
use crate::gfx::format::{
    halved, half_extent, lemma_mip_chain_ends_at_one, log2_floor, max_nat, mip_chain_length, mipped_size,
    mipped_size_fits, size_for_format_mipped,
};
use crate::gfx::d3d12::{
    aligned_buffer_size, align_buffer_data_size, lemma_aligned_size_covers_data, data_size_mismatch_message, dxgi_code, dxgi_srv_code,
    to_dxgi_format, to_dxgi_format_srv, validate_data_size, D3D12_UAV_COUNTER_PLACEMENT_ALIGNMENT,
};
use crate::gfx::heap::{slot_run, slot_step, Heap};
use crate::gfx::d3d12::states::{
    d3d12_resource_dimension, d3d12_resource_state, d3d12_srv_dimension, d3d12_texture_heap_flags,
    d3d12_texture_usage_flags, to_d3d12_resource_dimension, to_d3d12_resource_state,
    to_d3d12_texture_heap_flags, to_d3d12_texture_srv_dimension, to_d3d12_texture_usage_flags,
    D3D12_RESOURCE_STATE_COPY_DEST, D3D12_RESOURCE_STATE_GENERIC_READ,
};

verus! {

/// How a buffer is created.
///
/// An upload only buffer is just the upload buffer holding the initial data (when there is
/// any); it has no views, no counter and is not mapped. Every other buffer is a committed
/// resource of `aligned_size` bytes, filled from the upload buffer when initial data is given.
#[derive(Copy, Clone, Debug, PartialEq, Eq, Structural)]
pub struct BufferPlan {
    /// Bytes of buffer data: stride times element count.
    pub size_bytes: usize,
    /// Bytes the resource occupies (see `align_buffer_data_size`).
    pub aligned_size: usize,
    /// An upload buffer is created and filled with the initial data.
    pub upload_buffer: bool,
    /// The buffer is only its upload buffer.
    pub upload_only: bool,
    /// The resource lives in a CPU writable upload heap rather than the default heap.
    pub cpu_write_heap: bool,
    /// D3D12 state the resource is created in.
    pub create_state: i32,
    /// D3D12 state the resource is moved to after the copy from the upload buffer.
    pub final_state: i32,
    /// The resource stays mapped for CPU writes.
    pub persistently_mapped: bool,
    /// Byte offset of the append counter, which follows the data.
    pub counter_offset: Option<usize>,
    /// Vertex buffer view.
    pub vertex_view: Option<VertexBufferView>,
    /// Index buffer view.
    pub index_view: Option<IndexBufferView>,
    /// Bytes seen by the constant buffer view made in the shader heap.
    pub constant_buffer_view: Option<u32>,
    /// Shader resource view made in the shader heap.
    pub shader_resource_view: Option<BufferShaderResourceView>,
    /// An unordered access view is made in the shader heap.
    pub unordered_access_view: bool,
    /// The structured description of the unordered access view of a buffer with an append
    /// counter; without a counter the view takes the resource's default description.
    pub append_counter_view: Option<BufferCounterView>,
}

/// Description of a vertex buffer view.
#[derive(Copy, Clone, Debug, PartialEq, Eq, Structural)]
pub struct VertexBufferView {
    /// Bytes of one vertex.
    pub stride_bytes: u32,
    /// Bytes of vertex data.
    pub size_bytes: u32,
}

/// Description of an index buffer view.
#[derive(Copy, Clone, Debug, PartialEq, Eq, Structural)]
pub struct IndexBufferView {
    /// Bytes of index data.
    pub size_bytes: u32,
    /// DXGI format of one index.
    pub format: u32,
}

/// Description of the shader resource view of a buffer.
#[derive(Copy, Clone, Debug, PartialEq, Eq, Structural)]
pub struct BufferShaderResourceView {
    /// DXGI format of the elements.
    pub format: u32,
    /// Number of elements viewed, from the first.
    pub num_elements: u32,
    /// Bytes of one structured element.
    pub stride: u32,
}

/// Description of the unordered access view of a structured buffer with an append counter.
#[derive(Copy, Clone, Debug, PartialEq, Eq, Structural)]
pub struct BufferCounterView {
    /// Number of elements viewed, from the first.
    pub num_elements: u32,
    /// Bytes of one structured element.
    pub stride: u32,
    /// Byte offset of the counter in the same resource.
    pub counter_offset: u64,
}

/// The flag bits of `flag` are all set in `usage`.
pub open spec fn buffer_uses(usage: BufferUsage, flag: u32) -> bool {
    usage.bits & flag == flag
}

/// The plan for a buffer of `info`, with or without initial data.
pub open spec fn buffer_plan(info: BufferInfo, has_data: bool) -> BufferPlan {
    let size_bytes: usize = (info.stride * info.num_elements) as usize;
    let aligned_size: usize = aligned_buffer_size(size_bytes, info.usage) as usize;
    let upload_only: bool = info.usage.bits == BufferUsage::UPLOAD;
    let cpu_write: bool = info.cpu_access.bits & CpuAccessFlags::WRITE == CpuAccessFlags::WRITE;
    let views: bool = !upload_only && !buffer_uses(info.usage, BufferUsage::BUFFER_ONLY);
    BufferPlan {
        size_bytes,
        aligned_size,
        upload_buffer: has_data,
        upload_only,
        cpu_write_heap: cpu_write,
        create_state: if cpu_write {
            D3D12_RESOURCE_STATE_GENERIC_READ
        } else if has_data {
            D3D12_RESOURCE_STATE_COPY_DEST
        } else {
            d3d12_resource_state(info.initial_state)
        },
        final_state: d3d12_resource_state(info.initial_state),
        persistently_mapped: !upload_only && info.cpu_access.bits & CpuAccessFlags::PERSISTENTLY_MAPPED
            == CpuAccessFlags::PERSISTENTLY_MAPPED,
        counter_offset: if !upload_only && buffer_uses(info.usage, BufferUsage::APPEND_COUNTER) {
            Some((aligned_size - 4) as usize)
        } else {
            None
        },
        vertex_view: if views && buffer_uses(info.usage, BufferUsage::VERTEX) {
            Some(VertexBufferView { stride_bytes: info.stride as u32, size_bytes: size_bytes as u32 })
        } else {
            None
        },
        index_view: if views && buffer_uses(info.usage, BufferUsage::INDEX) {
            Some(IndexBufferView { size_bytes: size_bytes as u32, format: dxgi_code(info.format) })
        } else {
            None
        },
        constant_buffer_view: if views && buffer_uses(info.usage, BufferUsage::CONSTANT_BUFFER) {
            Some(aligned_size as u32)
        } else {
            None
        },
        shader_resource_view: if views && buffer_uses(info.usage, BufferUsage::SHADER_RESOURCE) {
            Some(BufferShaderResourceView {
                format: dxgi_code(info.format),
                num_elements: info.num_elements as u32,
                stride: info.stride as u32,
            })
        } else {
            None
        },
        unordered_access_view: views && buffer_uses(info.usage, BufferUsage::UNORDERED_ACCESS),
        append_counter_view: if views && buffer_uses(info.usage, BufferUsage::UNORDERED_ACCESS)
            && buffer_uses(info.usage, BufferUsage::APPEND_COUNTER) {
            Some(BufferCounterView {
                num_elements: info.num_elements as u32,
                stride: info.stride as u32,
                counter_offset: (aligned_size - 4) as u64,
            })
        } else {
            None
        },
    }
}

/// The initial data of a buffer is accepted: there is none, or its size is the buffer size.
pub open spec fn buffer_data_accepted<T>(info: BufferInfo, data: Option<&[T]>) -> bool {
    data matches Some(d) ==> d@.len() * size_of::<T>() == info.stride * info.num_elements
}

/// Plans the creation of a buffer of `info` with optional initial `data`: data whose size
/// differs from the buffer size is refused with the size mismatch error, anything else gets
/// `buffer_plan`. The buffer size must fit in `usize`; once the data is accepted the size
/// is padded, which needs room for the counter alignment, and an append counter needs the
/// four bytes it occupies.
pub fn plan_buffer<T: Sized>(info: &BufferInfo, data: Option<&[T]>) -> (plan: Result<BufferPlan, Error>)
    requires
        info.stride * info.num_elements <= usize::MAX,
        data matches Some(d) ==> d@.len() * size_of::<T>() <= usize::MAX,
        buffer_data_accepted(*info, data) ==> info.stride * info.num_elements
            + D3D12_UAV_COUNTER_PLACEMENT_ALIGNMENT + 4 <= usize::MAX,
        buffer_data_accepted(*info, data) && buffer_uses(info.usage, BufferUsage::APPEND_COUNTER)
            ==> aligned_buffer_size((info.stride * info.num_elements) as usize, info.usage) >= 4,
    ensures
        match data {
            Some(d) => if d@.len() * size_of::<T>() == info.stride * info.num_elements {
                plan == Ok::<BufferPlan, Error>(buffer_plan(*info, true))
            } else {
                plan matches Err(e) && e.msg@ == data_size_mismatch_message(
                    d@.len() * size_of::<T>(),
                    (info.stride * info.num_elements) as nat,
                )
            },
            None => plan == Ok::<BufferPlan, Error>(buffer_plan(*info, false)),
        },
{
    let size_bytes: usize = info.stride * info.num_elements;
    match validate_data_size(size_bytes, data) {
        Err(e) => {
            return Err(e);
        },
        Ok(()) => {},
    }
    let has_data: bool = data.is_some();
    let aligned_size: usize = align_buffer_data_size(size_bytes, info.usage);
    let upload_only: bool = info.usage.bits == BufferUsage::UPLOAD;
    let cpu_write: bool = info.cpu_access.contains(CpuAccessFlags::WRITE);
    let final_state: i32 = to_d3d12_resource_state(info.initial_state);
    let create_state: i32 = if cpu_write {
        D3D12_RESOURCE_STATE_GENERIC_READ
    } else if has_data {
        D3D12_RESOURCE_STATE_COPY_DEST
    } else {
        final_state
    };
    let views: bool = !upload_only && !info.usage.contains(BufferUsage::BUFFER_ONLY);
    let counter_offset: Option<usize> = if !upload_only && info.usage.contains(BufferUsage::APPEND_COUNTER) {
        Some(aligned_size - 4)
    } else {
        None
    };
    let dxgi_format: u32 = to_dxgi_format(info.format);
    let vertex_view: Option<VertexBufferView> = if views && info.usage.contains(BufferUsage::VERTEX) {
        Some(VertexBufferView { stride_bytes: info.stride as u32, size_bytes: size_bytes as u32 })
    } else {
        None
    };
    let index_view: Option<IndexBufferView> = if views && info.usage.contains(BufferUsage::INDEX) {
        Some(IndexBufferView { size_bytes: size_bytes as u32, format: dxgi_format })
    } else {
        None
    };
    let constant_buffer_view: Option<u32> = if views && info.usage.contains(BufferUsage::CONSTANT_BUFFER) {
        Some(aligned_size as u32)
    } else {
        None
    };
    let shader_resource_view: Option<BufferShaderResourceView> =
        if views && info.usage.contains(BufferUsage::SHADER_RESOURCE) {
            Some(BufferShaderResourceView {
                format: dxgi_format,
                num_elements: info.num_elements as u32,
                stride: info.stride as u32,
            })
        } else {
            None
        };
    let unordered_access_view: bool = views && info.usage.contains(BufferUsage::UNORDERED_ACCESS);
    let append_counter_view: Option<BufferCounterView> = match counter_offset {
        Some(offset) => if unordered_access_view {
            Some(BufferCounterView {
                num_elements: info.num_elements as u32,
                stride: info.stride as u32,
                counter_offset: offset as u64,
            })
        } else {
            None
        },
        None => None,
    };
    Ok(BufferPlan {
        size_bytes,
        aligned_size,
        upload_buffer: has_data,
        upload_only,
        cpu_write_heap: cpu_write,
        create_state,
        final_state,
        persistently_mapped: !upload_only && info.cpu_access.contains(CpuAccessFlags::PERSISTENTLY_MAPPED),
        counter_offset,
        vertex_view,
        index_view,
        constant_buffer_view,
        shader_resource_view,
        unordered_access_view,
        append_counter_view,
    })
}

/// Shader heap slots of the views of a buffer.
#[derive(Copy, Clone, Debug, PartialEq, Eq, Structural)]
pub struct BufferViewSlots {
    /// Slot of the constant buffer view.
    pub cbv_index: Option<usize>,
    /// Slot of the shader resource view.
    pub srv_index: Option<usize>,
    /// Slot of the unordered access view.
    pub uav_index: Option<usize>,
}

/// A slot taken from the heap state (`offset`, `free`) when `wanted`, none otherwise: (slot,
/// next offset, next free list).
pub open spec fn take_slot(wanted: bool, inc: usize, offset: usize, free: Seq<usize>) -> (Option<usize>, usize, Seq<usize>) {
    if wanted {
        let step: (usize, usize, Seq<usize>) = slot_step(inc, offset, free);
        (Some(step.0), step.1, step.2)
    } else {
        (None, offset, free)
    }
}

/// One if `wanted`, else zero.
pub open spec fn count_if(wanted: bool) -> nat {
    if wanted { 1 } else { 0 }
}

/// Views of a buffer planned by `plan` that take a shader heap slot.
pub open spec fn buffer_heap_views(plan: BufferPlan) -> nat {
    count_if(plan.constant_buffer_view is Some) + count_if(plan.shader_resource_view is Some)
        + count_if(plan.unordered_access_view)
}

/// Slots the views of a buffer planned by `plan` take from a shader heap with slots `inc` bytes
/// apart in the state (`offset`, `free`): constant buffer view, shader resource view and
/// unordered access view, in that order; with the state they leave.
pub open spec fn buffer_view_slots(plan: BufferPlan, inc: usize, offset: usize, free: Seq<usize>)
    -> (BufferViewSlots, usize, Seq<usize>)
{
    let cbv: (Option<usize>, usize, Seq<usize>) = take_slot(plan.constant_buffer_view is Some, inc, offset, free);
    let srv: (Option<usize>, usize, Seq<usize>) = take_slot(plan.shader_resource_view is Some, inc, cbv.1, cbv.2);
    let uav: (Option<usize>, usize, Seq<usize>) = take_slot(plan.unordered_access_view, inc, srv.1, srv.2);
    (BufferViewSlots { cbv_index: cbv.0, srv_index: srv.0, uav_index: uav.0 }, uav.1, uav.2)
}

fn take_slot_from(wanted: bool, heap: &mut Heap) -> (slot: Option<usize>)
    requires
        old(heap).wf(),
        old(heap).available() >= count_if(wanted),
    ensures
        final(heap).wf(),
        final(heap).same_layout(&*old(heap)),
        (slot, final(heap).offset(), final(heap).free_slots())
            == take_slot(wanted, old(heap).increment_size(), old(heap).offset(), old(heap).free_slots()),
        final(heap).available() == old(heap).available() - count_if(wanted),
{
    if wanted {
        Some(heap.allocate_slot())
    } else {
        None
    }
}

/// Takes the slots of the views of a buffer planned by `plan` from `heap`, the device's shader
/// heap or one the caller gives: `buffer_view_slots`. Upload only and buffer only buffers take
/// none. A full heap panics, so the heap must have a slot for each view.
pub fn allocate_buffer_views(plan: &BufferPlan, heap: &mut Heap) -> (slots: BufferViewSlots)
    requires
        old(heap).wf(),
        old(heap).available() >= buffer_heap_views(*plan),
    ensures
        final(heap).wf(),
        final(heap).same_layout(&*old(heap)),
        (slots, final(heap).offset(), final(heap).free_slots())
            == buffer_view_slots(*plan, old(heap).increment_size(), old(heap).offset(), old(heap).free_slots()),
{
    let cbv_index: Option<usize> = take_slot_from(plan.constant_buffer_view.is_some(), heap);
    let srv_index: Option<usize> = take_slot_from(plan.shader_resource_view.is_some(), heap);
    let uav_index: Option<usize> = take_slot_from(plan.unordered_access_view, heap);
    BufferViewSlots { cbv_index, srv_index, uav_index }
}

/// Takes `count` successive slots from `heap`: `slot_run`.
fn allocate_slots(heap: &mut Heap, count: u32) -> (slots: Vec<usize>)
    requires
        old(heap).wf(),
        old(heap).available() >= count,
    ensures
        final(heap).wf(),
        final(heap).same_layout(&*old(heap)),
        (slots@, final(heap).offset(), final(heap).free_slots())
            == slot_run(old(heap).increment_size(), old(heap).offset(), old(heap).free_slots(), count as nat),
        final(heap).available() == old(heap).available() - count,
{
    let mut slots: Vec<usize> = Vec::new();
    let mut k: u32 = 0;
    while k < count
        invariant
            k <= count,
            heap.wf(),
            heap.same_layout(&*old(heap)),
            (slots@, heap.offset(), heap.free_slots())
                == slot_run(old(heap).increment_size(), old(heap).offset(), old(heap).free_slots(), k as nat),
            heap.available() == old(heap).available() - k,
            old(heap).available() >= count,
        decreases count - k,
    {
        let slot: usize = heap.allocate_slot();
        slots.push(slot);
        k = k + 1;
    }
    slots
}

/// The heap a kind of view is taken from: the one the caller gives, or else the device's own.
pub fn select_heap<'a>(given: Option<&'a mut Heap>, device: &'a mut Heap) -> (chosen: &'a mut Heap)
    ensures
        match given {
            Some(h) => *chosen == *h && *final(h) == *final(chosen) && *final(device) == *old(device),
            None => *chosen == *old(device) && *final(device) == *final(chosen),
        },
{
    match given {
        Some(h) => h,
        None => device,
    }
}

/// Shader heap, render target heap and depth stencil heap slots of the views of a texture.
#[derive(Clone, Debug)]
pub struct TextureViewSlots {
    /// Shader heap slot of the shader resource view.
    pub srv_index: Option<usize>,
    /// Shader heap slot of the shader resource view of the resolve resource.
    pub resolved_srv_index: Option<usize>,
    /// Shader heap slot of the unordered access view.
    pub uav_index: Option<usize>,
    /// Shader heap slots of the unordered access views of single mips.
    pub mip_uav_indices: Vec<usize>,
    /// Render target heap slots of the render target views.
    pub rtv_indices: Vec<usize>,
    /// Depth stencil heap slots of the depth stencil views.
    pub dsv_indices: Vec<usize>,
}

/// Views of a texture planned by `plan` that take a shader heap slot.
pub open spec fn texture_shader_heap_views(plan: TexturePlan) -> nat {
    count_if(plan.shader_resource_view is Some) + count_if(plan.resolved_shader_resource_view is Some)
        + count_if(plan.unordered_access_view) + plan.mip_unordered_access_views as nat
}

/// Slots the views of a texture planned by `plan` take from a shader heap with slots `inc`
/// bytes apart in the state (`offset`, `free`): shader resource view, shader resource view of
/// the resolve resource, unordered access view and the unordered access views of the mips, in
/// that order; with the state they leave.
pub open spec fn texture_shader_slots(plan: TexturePlan, inc: usize, offset: usize, free: Seq<usize>)
    -> (Option<usize>, Option<usize>, Option<usize>, Seq<usize>, usize, Seq<usize>)
{
    let srv: (Option<usize>, usize, Seq<usize>) = take_slot(plan.shader_resource_view is Some, inc, offset, free);
    let resolved: (Option<usize>, usize, Seq<usize>) =
        take_slot(plan.resolved_shader_resource_view is Some, inc, srv.1, srv.2);
    let uav: (Option<usize>, usize, Seq<usize>) = take_slot(plan.unordered_access_view, inc, resolved.1, resolved.2);
    let mips: (Seq<usize>, usize, Seq<usize>) = slot_run(inc, uav.1, uav.2, plan.mip_unordered_access_views as nat);
    (srv.0, resolved.0, uav.0, mips.0, mips.1, mips.2)
}

/// Takes the slots of the views of a texture planned by `plan`: shader resource and unordered
/// access views from `shader` (`texture_shader_slots`), render target views from `rtv` and depth
/// stencil views from `dsv` (`slot_run`, one slot per view). Each heap is the one the caller
/// gives for that kind of view or else the device's own. A full heap panics, so each heap must
/// have a slot for each view it gets.
pub fn allocate_texture_views(plan: &TexturePlan, shader: &mut Heap, rtv: &mut Heap, dsv: &mut Heap)
    -> (slots: TextureViewSlots)
    requires
        old(shader).wf(),
        old(rtv).wf(),
        old(dsv).wf(),
        old(shader).available() >= texture_shader_heap_views(*plan),
        old(rtv).available() >= plan.render_target_views,
        old(dsv).available() >= plan.depth_stencil_views,
    ensures
        final(shader).wf(),
        final(rtv).wf(),
        final(dsv).wf(),
        final(shader).same_layout(&*old(shader)),
        final(rtv).same_layout(&*old(rtv)),
        final(dsv).same_layout(&*old(dsv)),
        ({
            let s = texture_shader_slots(*plan, old(shader).increment_size(), old(shader).offset(),
                old(shader).free_slots());
            &&& slots.srv_index == s.0
            &&& slots.resolved_srv_index == s.1
            &&& slots.uav_index == s.2
            &&& slots.mip_uav_indices@ == s.3
            &&& final(shader).offset() == s.4
            &&& final(shader).free_slots() == s.5
        }),
        (slots.rtv_indices@, final(rtv).offset(), final(rtv).free_slots())
            == slot_run(old(rtv).increment_size(), old(rtv).offset(), old(rtv).free_slots(),
                plan.render_target_views as nat),
        (slots.dsv_indices@, final(dsv).offset(), final(dsv).free_slots())
            == slot_run(old(dsv).increment_size(), old(dsv).offset(), old(dsv).free_slots(),
                plan.depth_stencil_views as nat),
{
    let srv_index: Option<usize> = take_slot_from(plan.shader_resource_view.is_some(), shader);
    let resolved_srv_index: Option<usize> = take_slot_from(plan.resolved_shader_resource_view.is_some(), shader);
    let rtv_indices: Vec<usize> = allocate_slots(rtv, plan.render_target_views);
    let dsv_indices: Vec<usize> = allocate_slots(dsv, plan.depth_stencil_views);
    let uav_index: Option<usize> = take_slot_from(plan.unordered_access_view, shader);
    let mip_uav_indices: Vec<usize> = allocate_slots(shader, plan.mip_unordered_access_views);
    TextureViewSlots { srv_index, resolved_srv_index, uav_index, mip_uav_indices, rtv_indices, dsv_indices }
}

/// Format and dimension of a shader resource view.
#[derive(Copy, Clone, Debug, PartialEq, Eq, Structural)]
pub struct ViewDesc {
    /// DXGI format the view reads the texture as.
    pub format: u32,
    /// D3D12 shader resource view dimension.
    pub dimension: i32,
}

/// How a texture is created: its resource, the resolve resource of a multisampled texture and
/// the views made for it.
#[derive(Copy, Clone, Debug, PartialEq, Eq, Structural)]
pub struct TexturePlan {
    /// Bytes of image data over all mips and layers.
    pub size_bytes: usize,
    /// DXGI format of the resource.
    pub format: u32,
    /// D3D12 resource dimension.
    pub dimension: i32,
    /// Depth of a volume or number of array slices, whichever is larger.
    pub depth_or_array_size: u32,
    /// Mip levels of the resource: one for multisampled textures, whose mips live in the
    /// resolve resource.
    pub mip_levels: u32,
    /// D3D12 resource flags of the resource.
    pub flags: i32,
    /// D3D12 heap flags of the resource's heap (and of the resolve resource's).
    pub heap_flags: i32,
    /// D3D12 state the resource (and the resolve resource) is created in.
    pub create_state: i32,
    /// D3D12 state the resource is moved to once the initial data is uploaded.
    pub final_state: i32,
    /// Initial data is uploaded.
    pub upload: bool,
    /// Resource flags of the single sampled resolve resource of a multisampled texture.
    pub resolve_flags: Option<i32>,
    /// Shader resource view of the resource.
    pub shader_resource_view: Option<ViewDesc>,
    /// Shader resource view of the resolve resource.
    pub resolved_shader_resource_view: Option<ViewDesc>,
    /// Render target views, one per array slice for arrays and cubes.
    pub render_target_views: u32,
    /// Depth stencil views, one per array slice for arrays and cubes.
    pub depth_stencil_views: u32,
    /// An unordered access view of the whole texture is made.
    pub unordered_access_view: bool,
    /// A shared handle is made so a video decoder can write the texture.
    pub shared_handle: bool,
    /// Unordered access views of single mips, one per mip, for generating mip maps.
    pub mip_unordered_access_views: u32,
}

/// The flag bits of `flag` are all set in `usage`.
pub open spec fn texture_uses(usage: TextureUsage, flag: u32) -> bool {
    usage.bits & flag == flag
}

/// Views of a render or depth target: one per slice of an array or cube, else one.
pub open spec fn target_views(tex_type: TextureType, depth_or_array_size: u32) -> u32 {
    if tex_type == TextureType::Texture2DArray || tex_type == TextureType::TextureCube {
        depth_or_array_size
    } else {
        1
    }
}

/// Shader resource views are made for 2D textures, 2D arrays, cubes and volumes, and
/// multisampled ones only for 2D textures and 2D arrays.
pub open spec fn srv_supported(info: TextureInfo) -> bool {
    texture_uses(info.usage, TextureUsage::SHADER_RESOURCE) ==> {
        &&& (info.tex_type == TextureType::Texture2D || info.tex_type == TextureType::Texture2DArray
            || info.tex_type == TextureType::TextureCube || info.tex_type == TextureType::Texture3D)
        &&& (info.samples > 1 ==> info.tex_type == TextureType::Texture2D
            || info.tex_type == TextureType::Texture2DArray)
    }
}

/// The initial data of a texture is accepted: there is none, or its size is the size of all
/// mips and layers.
pub open spec fn texture_data_accepted<T>(info: TextureInfo, data: Option<&[T]>) -> bool {
    data matches Some(d) ==> d@.len() * size_of::<T>() == mipped_size(info.format, info.width as nat,
        info.height as nat, info.depth as nat, info.array_layers as nat, info.mip_levels as nat) as usize
}

/// Usage `usage` with the bits of `extra` added.
pub open spec fn with_usage(usage: TextureUsage, extra: u32) -> TextureUsage {
    TextureUsage { bits: usage.bits | extra }
}

/// The plan for a texture of `info`, with or without initial data. Textures that generate
/// mip maps get unordered access on the resource holding the mips: the resolve resource when
/// multisampled, else the resource itself.
pub open spec fn texture_plan(info: TextureInfo, has_data: bool) -> TexturePlan {
    let gen_mips: bool = texture_uses(info.usage, TextureUsage::GENERATE_MIP_MAPS);
    let depth_or_array_size: u32 = if info.depth >= info.array_layers { info.depth } else { info.array_layers };
    let initial: i32 = d3d12_resource_state(info.initial_state);
    let srv: bool = texture_uses(info.usage, TextureUsage::SHADER_RESOURCE);
    TexturePlan {
        size_bytes: mipped_size(info.format, info.width as nat, info.height as nat, info.depth as nat,
            info.array_layers as nat, info.mip_levels as nat) as usize,
        format: dxgi_code(info.format),
        dimension: d3d12_resource_dimension(info.tex_type),
        depth_or_array_size,
        mip_levels: if info.samples > 1 { 1 } else { info.mip_levels },
        flags: d3d12_texture_usage_flags(with_usage(info.usage,
            if gen_mips && info.samples == 1 { TextureUsage::UNORDERED_ACCESS } else { TextureUsage::NONE })),
        heap_flags: d3d12_texture_heap_flags(info.usage),
        create_state: if has_data { D3D12_RESOURCE_STATE_COPY_DEST } else { initial },
        final_state: initial,
        upload: has_data,
        resolve_flags: if info.samples > 1 {
            Some(d3d12_texture_usage_flags(with_usage(info.usage,
                if gen_mips { TextureUsage::UNORDERED_ACCESS } else { TextureUsage::NONE })))
        } else {
            None
        },
        shader_resource_view: if srv {
            Some(ViewDesc { format: dxgi_srv_code(info.format), dimension: d3d12_srv_dimension(info.tex_type, info.samples) })
        } else {
            None
        },
        resolved_shader_resource_view: if info.samples > 1 && srv {
            Some(ViewDesc { format: dxgi_srv_code(info.format), dimension: d3d12_srv_dimension(info.tex_type, 1) })
        } else {
            None
        },
        render_target_views: if texture_uses(info.usage, TextureUsage::RENDER_TARGET) {
            target_views(info.tex_type, depth_or_array_size)
        } else {
            0
        },
        depth_stencil_views: if texture_uses(info.usage, TextureUsage::DEPTH_STENCIL) {
            target_views(info.tex_type, depth_or_array_size)
        } else {
            0
        },
        unordered_access_view: texture_uses(info.usage, TextureUsage::UNORDERED_ACCESS),
        shared_handle: texture_uses(info.usage, TextureUsage::VIDEO_DECODE_TARGET),
        mip_unordered_access_views: if gen_mips { info.mip_levels } else { 0 },
    }
}

/// A planned texture covers the texture it is for: its depth or array size is the larger of the
/// depth and the layer count, its mips are all there unless it is multisampled (then the
/// resolve resource holds them), it is a copy destination exactly when initial data is
/// uploaded and otherwise starts in the state it is kept in, and it gets one render target or
/// depth stencil view per slice of an array or cube.
pub proof fn lemma_texture_plan_covers_texture(info: TextureInfo, has_data: bool)
    ensures
        ({
            let plan: TexturePlan = texture_plan(info, has_data);
            &&& plan.depth_or_array_size >= info.depth
            &&& plan.depth_or_array_size >= info.array_layers
            &&& (plan.depth_or_array_size == info.depth || plan.depth_or_array_size == info.array_layers)
            &&& plan.mip_levels == if info.samples > 1 { 1 } else { info.mip_levels }
            &&& (info.samples > 1 <==> plan.resolve_flags is Some)
            &&& plan.upload == has_data
            &&& (has_data ==> plan.create_state == D3D12_RESOURCE_STATE_COPY_DEST)
            &&& (!has_data ==> plan.create_state == plan.final_state)
            &&& plan.final_state == d3d12_resource_state(info.initial_state)
            &&& plan.format == dxgi_code(info.format)
            &&& (plan.shader_resource_view is Some <==> texture_uses(info.usage, TextureUsage::SHADER_RESOURCE))
            &&& (plan.resolved_shader_resource_view is Some <==> plan.shader_resource_view is Some && info.samples > 1)
            &&& (texture_uses(info.usage, TextureUsage::RENDER_TARGET) && (info.tex_type == TextureType::Texture2DArray
                || info.tex_type == TextureType::TextureCube) ==> plan.render_target_views == plan.depth_or_array_size)
            &&& (texture_uses(info.usage, TextureUsage::DEPTH_STENCIL) && (info.tex_type == TextureType::Texture2DArray
                || info.tex_type == TextureType::TextureCube) ==> plan.depth_stencil_views == plan.depth_or_array_size)
            &&& (!texture_uses(info.usage, TextureUsage::RENDER_TARGET) ==> plan.render_target_views == 0)
            &&& (!texture_uses(info.usage, TextureUsage::DEPTH_STENCIL) ==> plan.depth_stencil_views == 0)
            &&& plan.mip_unordered_access_views == if texture_uses(info.usage, TextureUsage::GENERATE_MIP_MAPS) {
                info.mip_levels
            } else {
                0
            }
        }),
{
}

/// A planned buffer holds its data: the data size is the stride times the element count, the
/// resource is at least that large, an append counter takes the last four bytes, the views see
/// the data (the constant buffer view the padded resource), and the resource is a copy
/// destination while initial data is copied into a GPU only resource.
pub proof fn lemma_buffer_plan_holds_data(info: BufferInfo, has_data: bool)
    requires
        info.stride * info.num_elements + D3D12_UAV_COUNTER_PLACEMENT_ALIGNMENT + 4 <= usize::MAX,
    ensures
        ({
            let plan: BufferPlan = buffer_plan(info, has_data);
            &&& plan.size_bytes == info.stride * info.num_elements
            &&& plan.aligned_size >= plan.size_bytes
            &&& (plan.aligned_size >= 4 ==> (plan.counter_offset matches Some(offset) ==> offset + 4 == plan.aligned_size
                && (!buffer_uses(info.usage, BufferUsage::CONSTANT_BUFFER) ==> offset >= plan.size_bytes)))
            &&& (plan.vertex_view matches Some(v) ==> v.size_bytes == plan.size_bytes as u32
                && v.stride_bytes == info.stride as u32)
            &&& (plan.index_view matches Some(v) ==> v.size_bytes == plan.size_bytes as u32
                && v.format == dxgi_code(info.format))
            &&& (plan.constant_buffer_view matches Some(size) ==> size == plan.aligned_size as u32)
            &&& (plan.shader_resource_view matches Some(v) ==> v.num_elements == info.num_elements as u32
                && v.stride == info.stride as u32)
            &&& (plan.aligned_size >= 4 ==> (plan.append_counter_view matches Some(v) ==> (plan.unordered_access_view
                && (plan.counter_offset matches Some(offset) && v.counter_offset == offset)
                && v.num_elements == info.num_elements as u32 && v.stride == info.stride as u32)))
            &&& plan.upload_buffer == has_data
            &&& (has_data && !plan.cpu_write_heap ==> plan.create_state == D3D12_RESOURCE_STATE_COPY_DEST)
            &&& (!has_data && !plan.cpu_write_heap ==> plan.create_state == plan.final_state)
            &&& (plan.upload_only ==> plan.vertex_view is None && plan.index_view is None
                && plan.constant_buffer_view is None && plan.shader_resource_view is None
                && !plan.unordered_access_view && plan.counter_offset is None)
        }),
{
    lemma_aligned_size_covers_data((info.stride * info.num_elements) as usize, info.usage);
}

/// Plans the creation of a texture of `info` with optional initial `data`: data whose size
/// differs from the size of all mips and layers is refused with the size mismatch error,
/// anything else gets `texture_plan`. The image size must fit in a `u64`, and once the data
/// is accepted shader resource views are only made for the texture types `srv_supported`
/// names.
pub fn plan_texture<T: Sized>(info: &TextureInfo, data: Option<&[T]>) -> (plan: Result<TexturePlan, Error>)
    requires
        mipped_size_fits(info.format, info.width as nat, info.height as nat, info.depth as nat,
            info.array_layers as nat, info.mip_levels as nat, 0),
        data matches Some(d) ==> d@.len() * size_of::<T>() <= usize::MAX,
        texture_data_accepted(*info, data) ==> srv_supported(*info),
    ensures
        ({
            let size: usize = mipped_size(info.format, info.width as nat, info.height as nat,
                info.depth as nat, info.array_layers as nat, info.mip_levels as nat) as usize;
            match data {
                Some(d) => if d@.len() * size_of::<T>() == size {
                    plan == Ok::<TexturePlan, Error>(texture_plan(*info, true))
                } else {
                    plan matches Err(e) && e.msg@ == data_size_mismatch_message(d@.len() * size_of::<T>(), size as nat)
                },
                None => plan == Ok::<TexturePlan, Error>(texture_plan(*info, false)),
            }
        }),
{
    let size_bytes: usize = size_for_format_mipped(info.format, info.width, info.height, info.depth,
        info.array_layers, info.mip_levels) as usize;
    match validate_data_size(size_bytes, data) {
        Err(e) => {
            return Err(e);
        },
        Ok(()) => {},
    }
    let has_data: bool = data.is_some();
    let gen_mips: bool = info.usage.contains(TextureUsage::GENERATE_MIP_MAPS);
    let depth_or_array_size: u32 = if info.depth >= info.array_layers { info.depth } else { info.array_layers };
    let initial: i32 = to_d3d12_resource_state(info.initial_state);
    let srv: bool = info.usage.contains(TextureUsage::SHADER_RESOURCE);
    let extra: u32 = if gen_mips && info.samples == 1 { TextureUsage::UNORDERED_ACCESS } else { TextureUsage::NONE };
    let flags: i32 = to_d3d12_texture_usage_flags(TextureUsage::from_bits(info.usage.bits | extra));
    let resolve_flags: Option<i32> = if info.samples > 1 {
        let resolve_extra: u32 = if gen_mips { TextureUsage::UNORDERED_ACCESS } else { TextureUsage::NONE };
        Some(to_d3d12_texture_usage_flags(TextureUsage::from_bits(info.usage.bits | resolve_extra)))
    } else {
        None
    };
    let shader_resource_view: Option<ViewDesc> = if srv {
        Some(ViewDesc {
            format: to_dxgi_format_srv(info.format),
            dimension: to_d3d12_texture_srv_dimension(info.tex_type, info.samples),
        })
    } else {
        None
    };
    let resolved_shader_resource_view: Option<ViewDesc> = if info.samples > 1 && srv {
        Some(ViewDesc {
            format: to_dxgi_format_srv(info.format),
            dimension: to_d3d12_texture_srv_dimension(info.tex_type, 1),
        })
    } else {
        None
    };
    let array_target: bool = info.tex_type == TextureType::Texture2DArray || info.tex_type == TextureType::TextureCube;
    let views_per_target: u32 = if array_target { depth_or_array_size } else { 1 };
    Ok(TexturePlan {
        size_bytes,
        format: to_dxgi_format(info.format),
        dimension: to_d3d12_resource_dimension(info.tex_type),
        depth_or_array_size,
        mip_levels: if info.samples > 1 { 1 } else { info.mip_levels },
        flags,
        heap_flags: to_d3d12_texture_heap_flags(info.usage),
        create_state: if has_data { D3D12_RESOURCE_STATE_COPY_DEST } else { initial },
        final_state: initial,
        upload: has_data,
        resolve_flags,
        shader_resource_view,
        resolved_shader_resource_view,
        render_target_views: if info.usage.contains(TextureUsage::RENDER_TARGET) { views_per_target } else { 0 },
        depth_stencil_views: if info.usage.contains(TextureUsage::DEPTH_STENCIL) { views_per_target } else { 0 },
        unordered_access_view: info.usage.contains(TextureUsage::UNORDERED_ACCESS),
        shared_handle: info.usage.contains(TextureUsage::VIDEO_DECODE_TARGET),
        mip_unordered_access_views: if gen_mips { info.mip_levels } else { 0 },
    })
}

/// One down sampling pass of mip map generation: the shader reads mip `level - 1` through the
/// unordered access view `src_uav` and writes mip `level` through `dst_uav`, in thread groups
/// of 32 x 32 covering the written mip.
#[derive(Copy, Clone, Debug, PartialEq, Eq, Structural)]
pub struct MipDispatch {
    /// Shader heap index of the view of the mip read.
    pub src_uav: usize,
    /// Shader heap index of the view of the mip written.
    pub dst_uav: usize,
    /// Width of the mip written.
    pub width: u64,
    /// Height of the mip written.
    pub height: u32,
    /// Thread groups across the width.
    pub groups_x: u32,
    /// Thread groups down the height.
    pub groups_y: u32,
}

/// Thread groups of 32 threads needed to cover `extent` texels, saturated at `u32::MAX`.
pub open spec fn thread_groups(extent: nat) -> u32 {
    let groups: nat = (extent + 31) / 32;
    if groups > u32::MAX { u32::MAX } else { groups as u32 }
}

/// The pass writing mip `level` (at least one) of a `width` x `height` texture whose mips
/// have the views `uavs`.
pub open spec fn mip_dispatch(width: u64, height: u32, uavs: Seq<usize>, level: nat) -> MipDispatch {
    let w: nat = halved(width as nat, level);
    let h: nat = halved(height as nat, level);
    MipDispatch {
        src_uav: uavs[level - 1],
        dst_uav: uavs[level as int],
        width: w as u64,
        height: h as u32,
        groups_x: thread_groups(w),
        groups_y: thread_groups(h),
    }
}

/// Message of the error for a texture without a mip chain of unordered access views.
pub open spec fn no_mip_views_message() -> Seq<char> {
    "hotline_rs::d3d12:: texture was not created with GENERATE_MIP_MAPS_FLAG"@
}

/// Message of the error for a device without the mip map generation pipeline.
pub open spec fn no_mip_pipeline_message() -> Seq<char> {
    "hotline_rs::d3d12:: unable to generate mip maps"@
}

fn thread_groups_for(extent: u64) -> (groups: u32)
    ensures
        groups == thread_groups(extent as nat),
{
    let whole: u64 = extent / 32;
    let groups: u64 = if extent % 32 != 0 { whole + 1 } else { whole };
    assert(groups == (extent + 31) / 32);
    if groups > 0xffff_ffff {
        0xffff_ffff
    } else {
        groups as u32
    }
}

/// Plans mip map generation for a `width` x `height` texture of `mip_levels` mips whose
/// per-mip unordered access views are `mip_uavs`: one pass per mip after the first, each
/// writing a mip of half the size of the one before (never below one texel). A texture with
/// a single mip, or with fewer views than mips, was not created for mip generation; a device
/// without the generation pipeline cannot generate mips.
pub fn plan_mip_generation(width: u64, height: u32, mip_levels: u16, mip_uavs: &Vec<usize>, has_pipeline: bool)
    -> (plan: Result<Vec<MipDispatch>, Error>)
    ensures
        mip_levels <= 1 || mip_uavs@.len() < mip_levels ==> (plan matches Err(e) && e.msg@ == no_mip_views_message()),
        !(mip_levels <= 1 || mip_uavs@.len() < mip_levels) && !has_pipeline ==> (plan matches Err(e)
            && e.msg@ == no_mip_pipeline_message()),
        !(mip_levels <= 1 || mip_uavs@.len() < mip_levels) && has_pipeline ==> (plan matches Ok(passes) && {
            &&& passes@.len() == mip_levels - 1
            &&& forall|j: int| 0 <= j < passes@.len() ==> #[trigger] passes@[j] == mip_dispatch(width, height,
                mip_uavs@, (j + 1) as nat)
        }),
{
    if mip_levels <= 1 || mip_uavs.len() < mip_levels as usize {
        return Err(Error { msg: String::from_str("hotline_rs::d3d12:: texture was not created with GENERATE_MIP_MAPS_FLAG") });
    }
    if !has_pipeline {
        return Err(Error { msg: String::from_str("hotline_rs::d3d12:: unable to generate mip maps") });
    }
    let levels: usize = mip_levels as usize;
    let mut passes: Vec<MipDispatch> = Vec::new();
    let mut mip_width: u64 = if width / 2 > 1 { width / 2 } else { 1 };
    let mut mip_height: u32 = if height / 2 > 1 { height / 2 } else { 1 };
    proof {
        assert(halved(width as nat, 1) == half_extent(halved(width as nat, 0)));
        assert(halved(height as nat, 1) == half_extent(halved(height as nat, 0)));
    }
    let mut i: usize = 1;
    while i < levels
        invariant
            1 <= i <= levels,
            levels == mip_levels,
            mip_uavs@.len() >= levels,
            mip_width == halved(width as nat, i as nat),
            mip_height == halved(height as nat, i as nat),
            passes@.len() == i - 1,
            forall|j: int| 0 <= j < passes@.len() ==> #[trigger] passes@[j] == mip_dispatch(width, height,
                mip_uavs@, (j + 1) as nat),
        decreases levels - i,
    {
        let groups_x: u32 = thread_groups_for(mip_width);
        let groups_y: u32 = thread_groups_for(mip_height as u64);
        let pass = MipDispatch {
            src_uav: mip_uavs[i - 1],
            dst_uav: mip_uavs[i],
            width: mip_width,
            height: mip_height,
            groups_x,
            groups_y,
        };
        assert(pass == mip_dispatch(width, height, mip_uavs@, i as nat));
        passes.push(pass);
        proof {
            assert(halved(width as nat, (i + 1) as nat) == half_extent(halved(width as nat, i as nat)));
            assert(halved(height as nat, (i + 1) as nat) == half_extent(halved(height as nat, i as nat)));
        }
        mip_width = if mip_width / 2 > 1 { mip_width / 2 } else { 1 };
        mip_height = if mip_height / 2 > 1 { mip_height / 2 } else { 1 };
        i = i + 1;
    }
    Ok(passes)
}

proof fn lemma_halved_monotone(a: nat, b: nat, k: nat)
    requires
        a <= b,
    ensures
        halved(a, k) <= halved(b, k),
        k >= 1 ==> halved(a, k) >= 1,
    decreases k,
{
    if k > 0 {
        lemma_halved_monotone(a, b, (k - 1) as nat);
    }
}

/// Generating the mips of a full mip chain (as many mips as `mip_levels_for_dimension`
/// counts) ends with a pass that writes a single texel, in a single thread group.
pub proof fn lemma_full_mip_chain_ends_at_one_texel(width: u64, height: u32, uavs: Seq<usize>)
    requires
        mip_chain_length(width as nat, height as nat) >= 2,
    ensures
        ({
            let last: MipDispatch = mip_dispatch(width, height, uavs,
                (mip_chain_length(width as nat, height as nat) - 1) as nat);
            &&& last.width == 1
            &&& last.height == 1
            &&& last.groups_x == 1
            &&& last.groups_y == 1
        }),
{
    let larger: nat = max_nat(width as nat, height as nat);
    let k: nat = log2_floor(larger);
    lemma_mip_chain_ends_at_one(larger);
    lemma_halved_monotone(width as nat, larger, k);
    lemma_halved_monotone(height as nat, larger, k);
    assert((mip_chain_length(width as nat, height as nat) - 1) as nat == k);
}

} // verus!
