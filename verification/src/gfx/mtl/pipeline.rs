//! What the Metal backend describes when it creates a render pipeline: the vertex descriptor
//! built from the input layout (one attribute per element, one buffer layout per vertex buffer
//! slot) and the colour attachments built from the pass formats and the blend state.

use vstd::prelude::*;

use crate::gfx::{DepthStencilInfo, DepthWriteMask, InputElementInfo, InputSlotClass, RenderTargetBlendInfo, StencilInfo};
use crate::gfx::format::{block_size_for_format, format_block_size, max_nat};
use crate::gfx::mtl::{
    has_stencil_component, mtl_blend_factor, mtl_blend_op, mtl_compare_func, mtl_stencil_op, mtl_vertex_format,
    mtl_write_mask, to_mtl_blend_factor, to_mtl_blend_op, to_mtl_compare_func, to_mtl_stencil_op,
    to_mtl_vertex_format, to_mtl_write_mask, MTL_PIXEL_FORMAT_BGRA8_UNORM,
    MTL_PIXEL_FORMAT_DEPTH32_FLOAT_STENCIL8, MTL_PIXEL_FORMAT_INVALID,
};

verus! {

/// `MTLVertexStepFunctionPerVertex`.
pub const MTL_VERTEX_STEP_FUNCTION_PER_VERTEX: u64 = 1;
/// `MTLVertexStepFunctionPerInstance`.
pub const MTL_VERTEX_STEP_FUNCTION_PER_INSTANCE: u64 = 2;

/// One vertex attribute: its Metal vertex format, the vertex buffer slot it reads and its byte
/// offset in a vertex.
#[derive(Copy, Clone, Debug, PartialEq, Eq, Structural)]
pub struct VertexAttribute {
    pub format: u64,
    pub buffer_index: u64,
    pub offset: u64,
}

/// The layout of one vertex buffer slot: bytes per vertex (or instance), step function and
/// step rate.
#[derive(Copy, Clone, Debug, PartialEq, Eq, Structural)]
pub struct VertexBufferLayout {
    pub stride: u32,
    pub step_function: u64,
    pub step_rate: u32,
}

/// Bytes an element spans from the start of its vertex: its offset and its format's block.
pub open spec fn element_end(e: InputElementInfo) -> int {
    e.aligned_byte_offset + format_block_size(e.format)
}

/// The attribute of input element `e`.
pub open spec fn vertex_attribute(e: InputElementInfo) -> VertexAttribute {
    VertexAttribute {
        format: mtl_vertex_format(e.format)->Some_0,
        buffer_index: e.input_slot as u64,
        offset: e.aligned_byte_offset as u64,
    }
}

/// Vertex buffer slots an input layout addresses: one past the highest slot any element reads.
pub open spec fn vertex_slot_count(elements: Seq<InputElementInfo>) -> nat
    decreases elements.len(),
{
    if elements.len() == 0 {
        0
    } else {
        max_nat(vertex_slot_count(elements.drop_last()), elements.last().input_slot as nat + 1)
    }
}

/// The layout slot `layout` becomes once element `e` reading it is added: the first element of a
/// slot sets its step function and rate (per vertex data always steps by one), and the stride
/// covers the furthest element end.
pub open spec fn add_to_layout(layout: Option<VertexBufferLayout>, e: InputElementInfo) -> Option<VertexBufferLayout> {
    match layout {
        Some(l) => Some(VertexBufferLayout {
            stride: max_nat(l.stride as nat, element_end(e) as nat) as u32,
            ..l
        }),
        None => Some(VertexBufferLayout {
            stride: element_end(e) as u32,
            step_function: if e.input_slot_class == InputSlotClass::PerVertex {
                MTL_VERTEX_STEP_FUNCTION_PER_VERTEX
            } else {
                MTL_VERTEX_STEP_FUNCTION_PER_INSTANCE
            },
            step_rate: if e.input_slot_class == InputSlotClass::PerVertex { 1 } else { e.step_rate },
        }),
    }
}

/// The layouts of `slots` vertex buffer slots after adding `elements` in order; slots no element
/// reads have none.
pub open spec fn vertex_layouts(elements: Seq<InputElementInfo>, slots: nat) -> Seq<Option<VertexBufferLayout>>
    decreases elements.len(),
{
    if elements.len() == 0 {
        Seq::new(slots, |i: int| None)
    } else {
        let before: Seq<Option<VertexBufferLayout>> = vertex_layouts(elements.drop_last(), slots);
        let e: InputElementInfo = elements.last();
        before.update(e.input_slot as int, add_to_layout(before[e.input_slot as int], e))
    }
}

/// The vertex descriptor of a render pipeline.
pub struct VertexDescriptor {
    /// One attribute per input element, in order.
    pub attributes: Vec<VertexAttribute>,
    /// The layout of each vertex buffer slot the elements address.
    pub layouts: Vec<Option<VertexBufferLayout>>,
}

/// Every element has a Metal vertex format, ends within a `u32` of its vertex's start and reads
/// a slot below `usize::MAX`.
pub open spec fn vertex_layout_supported(elements: Seq<InputElementInfo>) -> bool {
    forall|i: int| 0 <= i < elements.len() ==> {
        &&& mtl_vertex_format((#[trigger] elements[i]).format) is Some
        &&& element_end(elements[i]) <= u32::MAX
        &&& elements[i].input_slot < usize::MAX
    }
}

/// Builds the vertex descriptor of a render pipeline from its input layout: an attribute per
/// element and a buffer layout per slot (`vertex_layouts`). An element whose format has no
/// Metal vertex format panics, so it is excluded.
pub fn plan_vertex_descriptor(input_layout: &Vec<InputElementInfo>) -> (desc: VertexDescriptor)
    requires
        vertex_layout_supported(input_layout@),
    ensures
        desc.attributes@ == input_layout@.map_values(|e: InputElementInfo| vertex_attribute(e)),
        desc.layouts@ == vertex_layouts(input_layout@, vertex_slot_count(input_layout@)),
{
    let n: usize = input_layout.len();
    let mut count: usize = 0;
    let mut i: usize = 0;
    while i < n
        invariant
            n == input_layout@.len(),
            i <= n,
            count == vertex_slot_count(input_layout@.take(i as int)),
            vertex_layout_supported(input_layout@),
        decreases n - i,
    {
        assert(input_layout@.take(i + 1).drop_last() =~= input_layout@.take(i as int));
        assert(input_layout@[i as int].input_slot < usize::MAX);
        let slot: usize = input_layout[i].input_slot as usize + 1;
        if slot > count {
            count = slot;
        }
        i = i + 1;
    }
    assert(input_layout@.take(n as int) =~= input_layout@);
    let ghost slots: nat = count as nat;
    let mut layouts: Vec<Option<VertexBufferLayout>> = Vec::new();
    let mut s: usize = 0;
    while s < count
        invariant
            s <= count,
            layouts@ == Seq::new(s as nat, |k: int| None::<VertexBufferLayout>),
        decreases count - s,
    {
        layouts.push(None);
        s = s + 1;
        assert(layouts@ =~= Seq::new(s as nat, |k: int| None::<VertexBufferLayout>));
    }
    let mut attributes: Vec<VertexAttribute> = Vec::new();
    let mut j: usize = 0;
    assert(input_layout@.take(0) =~= Seq::<InputElementInfo>::empty());
    while j < n
        invariant
            n == input_layout@.len(),
            j <= n,
            slots == vertex_slot_count(input_layout@),
            vertex_layout_supported(input_layout@),
            layouts@ == vertex_layouts(input_layout@.take(j as int), slots),
            attributes@ == input_layout@.take(j as int).map_values(|e: InputElementInfo| vertex_attribute(e)),
        decreases n - j,
    {
        let e: &InputElementInfo = &input_layout[j];
        proof {
            assert(input_layout@.take(j + 1).drop_last() =~= input_layout@.take(j as int));
            assert(input_layout@.take(j + 1).last() == input_layout@[j as int]);
            assert(mtl_vertex_format(input_layout@[j as int].format) is Some);
            lemma_slot_within_count(input_layout@, j as int);
            assert forall|k: int| 0 <= k < j implies (#[trigger] input_layout@.take(j as int)[k]).input_slot < slots by {
                lemma_slot_within_count(input_layout@, k);
            }
            lemma_layouts_len(input_layout@.take(j as int), slots);
        }
        attributes.push(VertexAttribute {
            format: to_mtl_vertex_format(e.format),
            buffer_index: e.input_slot as u64,
            offset: e.aligned_byte_offset as u64,
        });
        let end: u32 = e.aligned_byte_offset + block_size_for_format(e.format);
        let slot: usize = e.input_slot as usize;
        let updated: Option<VertexBufferLayout> = match layouts[slot] {
            Some(l) => Some(VertexBufferLayout { stride: if l.stride >= end { l.stride } else { end }, ..l }),
            None => Some(VertexBufferLayout {
                stride: end,
                step_function: match e.input_slot_class {
                    InputSlotClass::PerVertex => MTL_VERTEX_STEP_FUNCTION_PER_VERTEX,
                    InputSlotClass::PerInstance => MTL_VERTEX_STEP_FUNCTION_PER_INSTANCE,
                },
                step_rate: match e.input_slot_class {
                    InputSlotClass::PerVertex => 1,
                    InputSlotClass::PerInstance => e.step_rate,
                },
            }),
        };
        layouts.set(slot, updated);
        j = j + 1;
        proof {
            assert(attributes@ =~= input_layout@.take(j as int).map_values(|e: InputElementInfo| vertex_attribute(e)));
        }
    }
    assert(input_layout@.take(n as int) =~= input_layout@);
    VertexDescriptor { attributes, layouts }
}

/// The blend state of a colour attachment taken from a render target's blend info.
#[derive(Copy, Clone, Debug, PartialEq, Eq, Structural)]
pub struct ColourBlend {
    pub blending_enabled: bool,
    pub rgb_blend_operation: u64,
    pub alpha_blend_operation: u64,
    pub source_rgb_blend_factor: u64,
    pub source_alpha_blend_factor: u64,
    pub destination_rgb_blend_factor: u64,
    pub destination_alpha_blend_factor: u64,
    pub write_mask: u64,
}

/// How a colour attachment's blending is set: not at all for an invalid pixel format, turned
/// off and writing every channel when there is no blend info, else from a render target's info.
#[derive(Copy, Clone, Debug, PartialEq, Eq, Structural)]
pub enum AttachmentBlend {
    Unset,
    Off,
    Target(ColourBlend),
}

/// A colour attachment of a render pipeline: its pixel format and its blending.
#[derive(Copy, Clone, Debug, PartialEq, Eq, Structural)]
pub struct ColourAttachment {
    pub pixel_format: u64,
    pub blend: AttachmentBlend,
}

/// The blend state taken from render target blend info `b`.
pub open spec fn colour_blend(b: RenderTargetBlendInfo) -> ColourBlend {
    ColourBlend {
        blending_enabled: b.blend_enabled,
        rgb_blend_operation: mtl_blend_op(b.blend_op),
        alpha_blend_operation: mtl_blend_op(b.blend_op_alpha),
        source_rgb_blend_factor: mtl_blend_factor(b.src_blend),
        source_alpha_blend_factor: mtl_blend_factor(b.src_blend_alpha),
        destination_rgb_blend_factor: mtl_blend_factor(b.dst_blend),
        destination_alpha_blend_factor: mtl_blend_factor(b.dst_blend_alpha),
        write_mask: mtl_write_mask(b.write_mask),
    }
}

/// The pixel formats of a pipeline's colour attachments: those of its pass, or a single BGRA8
/// attachment when there is no pass or the pass has no colour target.
pub open spec fn attachment_formats(pass_formats: Option<Seq<u64>>) -> Seq<u64> {
    match pass_formats {
        Some(f) => if f.len() > 0 { f } else { seq![MTL_PIXEL_FORMAT_BGRA8_UNORM] },
        None => seq![MTL_PIXEL_FORMAT_BGRA8_UNORM],
    }
}

/// Colour attachment `i` of the pixel formats `formats` with the render target blend infos
/// `blends`: target `i` blends with info `i`, or with the first info when there are fewer.
pub open spec fn colour_attachment(formats: Seq<u64>, blends: Seq<RenderTargetBlendInfo>, i: int) -> ColourAttachment {
    ColourAttachment {
        pixel_format: formats[i],
        blend: if formats[i] == MTL_PIXEL_FORMAT_INVALID {
            AttachmentBlend::Unset
        } else if i < blends.len() {
            AttachmentBlend::Target(colour_blend(blends[i]))
        } else if blends.len() > 0 {
            AttachmentBlend::Target(colour_blend(blends[0]))
        } else {
            AttachmentBlend::Off
        },
    }
}

fn to_colour_blend(b: &RenderTargetBlendInfo) -> (blend: ColourBlend)
    ensures
        blend == colour_blend(*b),
{
    ColourBlend {
        blending_enabled: b.blend_enabled,
        rgb_blend_operation: to_mtl_blend_op(b.blend_op),
        alpha_blend_operation: to_mtl_blend_op(b.blend_op_alpha),
        source_rgb_blend_factor: to_mtl_blend_factor(b.src_blend),
        source_alpha_blend_factor: to_mtl_blend_factor(b.src_blend_alpha),
        destination_rgb_blend_factor: to_mtl_blend_factor(b.dst_blend),
        destination_alpha_blend_factor: to_mtl_blend_factor(b.dst_blend_alpha),
        write_mask: to_mtl_write_mask(&b.write_mask),
    }
}

/// Builds the colour attachments of a render pipeline from the pixel formats of its pass (if
/// it has one) and its render target blend infos: one per format of `attachment_formats`,
/// each as `colour_attachment` describes.
pub fn plan_colour_attachments(pass_formats: Option<&Vec<u64>>, blends: &Vec<RenderTargetBlendInfo>)
    -> (attachments: Vec<ColourAttachment>)
    ensures
        ({
            let formats: Seq<u64> = attachment_formats(match pass_formats {
                Some(f) => Some(f@),
                None => None,
            });
            &&& attachments@.len() == formats.len()
            &&& forall|i: int| 0 <= i < formats.len() ==> #[trigger] attachments@[i] == colour_attachment(formats, blends@, i)
        }),
{
    let mut formats: Vec<u64> = Vec::new();
    match pass_formats {
        Some(f) => {
            if f.len() > 0 {
                formats = f.clone();
            }
        },
        None => {},
    }
    if formats.len() == 0 {
        formats.push(MTL_PIXEL_FORMAT_BGRA8_UNORM);
    }
    let ghost expected: Seq<u64> = attachment_formats(match pass_formats {
        Some(f) => Some(f@),
        None => None,
    });
    assert(formats@ =~= expected);
    let mut attachments: Vec<ColourAttachment> = Vec::new();
    let mut i: usize = 0;
    while i < formats.len()
        invariant
            formats@ == expected,
            i <= formats@.len(),
            attachments@.len() == i,
            forall|k: int| 0 <= k < i ==> #[trigger] attachments@[k] == colour_attachment(expected, blends@, k),
        decreases formats@.len() - i,
    {
        let pixel_format: u64 = formats[i];
        let blend: AttachmentBlend = if pixel_format == MTL_PIXEL_FORMAT_INVALID {
            AttachmentBlend::Unset
        } else if i < blends.len() {
            AttachmentBlend::Target(to_colour_blend(&blends[i]))
        } else if blends.len() > 0 {
            AttachmentBlend::Target(to_colour_blend(&blends[0]))
        } else {
            AttachmentBlend::Off
        };
        attachments.push(ColourAttachment { pixel_format, blend });
        i = i + 1;
    }
    attachments
}

/// The stencil test of one face.
#[derive(Copy, Clone, Debug, PartialEq, Eq, Structural)]
pub struct StencilFace {
    pub compare_function: u64,
    pub stencil_failure_operation: u64,
    pub depth_failure_operation: u64,
    pub depth_stencil_pass_operation: u64,
    pub read_mask: u32,
    pub write_mask: u32,
}

/// The depth stencil state of a render pipeline; the stencil faces are set only when stencil
/// testing is enabled.
#[derive(Copy, Clone, Debug, PartialEq, Eq, Structural)]
pub struct DepthStencilState {
    pub depth_compare_function: u64,
    pub depth_write_enabled: bool,
    pub front_face_stencil: Option<StencilFace>,
    pub back_face_stencil: Option<StencilFace>,
}

/// The stencil test of face `face` with the masks of `info`.
pub open spec fn stencil_face(info: DepthStencilInfo, face: StencilInfo) -> StencilFace {
    StencilFace {
        compare_function: mtl_compare_func(face.func),
        stencil_failure_operation: mtl_stencil_op(face.fail),
        depth_failure_operation: mtl_stencil_op(face.depth_fail),
        depth_stencil_pass_operation: mtl_stencil_op(face.pass),
        read_mask: info.stencil_read_mask as u32,
        write_mask: info.stencil_write_mask as u32,
    }
}

/// The depth stencil state of `info`.
pub open spec fn depth_stencil_state(info: DepthStencilInfo) -> DepthStencilState {
    DepthStencilState {
        depth_compare_function: mtl_compare_func(info.depth_func),
        depth_write_enabled: info.depth_write_mask == DepthWriteMask::All,
        front_face_stencil: if info.stencil_enabled { Some(stencil_face(info, info.front_face)) } else { None },
        back_face_stencil: if info.stencil_enabled { Some(stencil_face(info, info.back_face)) } else { None },
    }
}

fn to_stencil_face(info: &DepthStencilInfo, face: &StencilInfo) -> (desc: StencilFace)
    ensures
        desc == stencil_face(*info, *face),
{
    StencilFace {
        compare_function: to_mtl_compare_func(face.func),
        stencil_failure_operation: to_mtl_stencil_op(face.fail),
        depth_failure_operation: to_mtl_stencil_op(face.depth_fail),
        depth_stencil_pass_operation: to_mtl_stencil_op(face.pass),
        read_mask: info.stencil_read_mask as u32,
        write_mask: info.stencil_write_mask as u32,
    }
}

/// Builds the depth stencil state of a render pipeline from its depth stencil info:
/// `depth_stencil_state`.
pub fn plan_depth_stencil_state(info: &DepthStencilInfo) -> (state: DepthStencilState)
    ensures
        state == depth_stencil_state(*info),
{
    let (front_face_stencil, back_face_stencil) = if info.stencil_enabled {
        (Some(to_stencil_face(info, &info.front_face)), Some(to_stencil_face(info, &info.back_face)))
    } else {
        (None, None)
    };
    DepthStencilState {
        depth_compare_function: to_mtl_compare_func(info.depth_func),
        depth_write_enabled: info.depth_write_mask == DepthWriteMask::All,
        front_face_stencil,
        back_face_stencil,
    }
}

/// The depth and stencil attachment pixel formats of a pipeline whose pass has the depth
/// format `depth_format`: the stencil attachment is set only for a format with stencil.
pub open spec fn depth_attachment_formats(depth_format: Option<u64>) -> (Option<u64>, Option<u64>) {
    match depth_format {
        Some(f) => (Some(f), if f == MTL_PIXEL_FORMAT_DEPTH32_FLOAT_STENCIL8 { Some(f) } else { None }),
        None => (None, None),
    }
}

/// Picks the depth and stencil attachment pixel formats of a pipeline from the depth format of
/// its pass: `depth_attachment_formats`.
pub fn plan_depth_attachments(depth_format: Option<u64>) -> (formats: (Option<u64>, Option<u64>))
    ensures
        formats == depth_attachment_formats(depth_format),
{
    match depth_format {
        Some(f) => (Some(f), if has_stencil_component(f) { Some(f) } else { None }),
        None => (None, None),
    }
}

proof fn lemma_layouts_len(elements: Seq<InputElementInfo>, slots: nat)
    requires
        forall|i: int| 0 <= i < elements.len() ==> (#[trigger] elements[i]).input_slot < slots,
    ensures
        vertex_layouts(elements, slots).len() == slots,
    decreases elements.len(),
{
    if elements.len() > 0 {
        let rest: Seq<InputElementInfo> = elements.drop_last();
        assert forall|i: int| 0 <= i < rest.len() implies (#[trigger] rest[i]).input_slot < slots by {
            assert(rest[i] == elements[i]);
        }
        assert(elements[elements.len() - 1].input_slot < slots);
        lemma_layouts_len(rest, slots);
    }
}

proof fn lemma_slot_within_count(elements: Seq<InputElementInfo>, i: int)
    requires
        0 <= i < elements.len(),
    ensures
        elements[i].input_slot < vertex_slot_count(elements),
    decreases elements.len(),
{
    if i < elements.len() - 1 {
        lemma_slot_within_count(elements.drop_last(), i);
        assert(elements.drop_last()[i] == elements[i]);
    }
}

} // verus!
