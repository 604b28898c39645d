//! Bookkeeping of the immediate mode drawing buffers: one GPU vertex buffer per buffered frame,
//! grown on demand to hold the vertices recorded on the CPU.

use vstd::prelude::*;

use crate::gfx::{BufferInfo, BufferUsage, CpuAccessFlags, Format, ResourceState};

verus! {

/// Information to create an instance of ImDraw
pub struct ImDrawInfo {
    pub initial_buffer_size_2d: usize,
    pub initial_buffer_size_3d: usize,
}

/// Bytes of a 2D vertex: a 2D position and an RGBA colour, 32 bit floats each.
pub const VERTEX_2D_STRIDE: usize = 24;
/// Bytes of a 3D vertex: a 3D position and an RGBA colour, 32 bit floats each.
pub const VERTEX_3D_STRIDE: usize = 28;
/// Floats recorded per 2D vertex.
pub const FLOATS_PER_VERTEX_2D: usize = 6;
/// Floats recorded per 3D vertex.
pub const FLOATS_PER_VERTEX_3D: usize = 7;

/// Buffer description of a 2D vertex buffer of `num_elements` vertices.
pub fn new_buffer_2d_info(num_elements: usize) -> (info: BufferInfo)
    ensures
        info == dynamic_vertex_buffer_info_spec(num_elements, VERTEX_2D_STRIDE),
{
    dynamic_vertex_buffer_info(num_elements, VERTEX_2D_STRIDE)
}

/// Buffer description of a 3D vertex buffer of `num_elements` vertices.
pub fn new_buffer_3d_info(num_elements: usize) -> (info: BufferInfo)
    ensures
        info == dynamic_vertex_buffer_info_spec(num_elements, VERTEX_3D_STRIDE),
{
    dynamic_vertex_buffer_info(num_elements, VERTEX_3D_STRIDE)
}

/// The buffer description of an immediate mode vertex buffer.
pub open spec fn dynamic_vertex_buffer_info_spec(num_elements: usize, stride: usize) -> BufferInfo {
    BufferInfo {
        usage: BufferUsage { bits: BufferUsage::VERTEX },
        cpu_access: CpuAccessFlags { bits: CpuAccessFlags::WRITE },
        format: Format::Unknown,
        stride,
        num_elements,
        initial_state: ResourceState::VertexConstantBuffer,
    }
}

/// Buffer description of an immediate mode vertex buffer of `num_elements` vertices of
/// `stride` bytes, written by the CPU every frame.
pub fn dynamic_vertex_buffer_info(num_elements: usize, stride: usize) -> (info: BufferInfo)
    ensures
        info == dynamic_vertex_buffer_info_spec(num_elements, stride),
{
    BufferInfo {
        usage: BufferUsage::from_bits(BufferUsage::VERTEX),
        cpu_access: CpuAccessFlags::from_bits(CpuAccessFlags::WRITE),
        format: Format::Unknown,
        stride,
        num_elements,
        initial_state: ResourceState::VertexConstantBuffer,
    }
}

/// Sizes of the GPU buffers behind one kind of immediate mode vertices.
pub struct DynamicBufferSizes {
    gpu_data_size: Vec<usize>,
    vertex_count: u32,
}

/// What a submit does with the GPU buffers: how many vertices it uploads, how many buffers it
/// creates at the end of the list, and whether it recreates the buffer it writes to.
#[derive(Copy, Clone, Debug, PartialEq, Eq, Structural)]
pub struct SubmitPlan {
    pub num_elems: usize,
    pub create_buffers: usize,
    pub resize: bool,
}

/// Element capacities after a submit of `num` vertices into buffer `index`: missing buffers are
/// created with capacity `num`, and the written buffer then holds `num` vertices.
pub open spec fn submitted_sizes(sizes: Seq<usize>, num: usize, index: usize) -> Seq<usize> {
    let grown: Seq<usize> = if index < sizes.len() {
        sizes
    } else {
        sizes + Seq::new((index + 1 - sizes.len()) as nat, |_i: int| num)
    };
    grown.update(index as int, num)
}

impl DynamicBufferSizes {
    /// Element capacity of each GPU buffer.
    pub closed spec fn sizes(&self) -> Seq<usize> {
        self.gpu_data_size@
    }

    /// Vertices uploaded by the last submit.
    pub closed spec fn count(&self) -> u32 {
        self.vertex_count
    }

    /// No GPU buffers yet.
    pub fn new() -> (buffers: DynamicBufferSizes)
        ensures
            buffers.sizes() == Seq::<usize>::empty(),
            buffers.count() == 0,
    {
        DynamicBufferSizes { gpu_data_size: Vec::new(), vertex_count: 0 }
    }

    /// Plans the upload of `cpu_floats` recorded floats, `floats_per_vertex` per vertex, into
    /// buffer `buffer_index`: nothing when no vertices were recorded; otherwise buffers up to
    /// `buffer_index` are created as needed, the buffer is recreated when too small, and the
    /// upload is recorded.
    pub fn plan_submit(&mut self, cpu_floats: usize, floats_per_vertex: usize, buffer_index: usize) -> (plan: Option<SubmitPlan>)
        requires
            floats_per_vertex > 0,
            buffer_index < usize::MAX,
        ensures
            cpu_floats == 0 ==> plan is None && final(self).sizes() == old(self).sizes()
                && final(self).count() == old(self).count(),
            cpu_floats > 0 ==> {
                let num: usize = (cpu_floats / floats_per_vertex) as usize;
                &&& plan == Some(SubmitPlan {
                    num_elems: num,
                    create_buffers: if buffer_index < old(self).sizes().len() {
                        0
                    } else {
                        (buffer_index + 1 - old(self).sizes().len()) as usize
                    },
                    resize: buffer_index < old(self).sizes().len() && num > old(self).sizes()[buffer_index as int],
                })
                &&& final(self).sizes() == submitted_sizes(old(self).sizes(), num, buffer_index)
                &&& final(self).count() == num as u32
            },
    {
        if cpu_floats == 0 {
            return None;
        }
        let num_elems: usize = cpu_floats / floats_per_vertex;
        let ghost old_sizes: Seq<usize> = self.gpu_data_size@;
        let mut create_buffers: usize = 0;
        while buffer_index >= self.gpu_data_size.len()
            invariant
                old_sizes.len() + create_buffers == self.gpu_data_size@.len(),
                self.gpu_data_size@ == old_sizes + Seq::new(create_buffers as nat, |_i: int| num_elems),
                buffer_index < usize::MAX,
                create_buffers <= buffer_index + 1,
                old_sizes.len() <= buffer_index ==> create_buffers <= buffer_index + 1 - old_sizes.len(),
                old_sizes.len() > buffer_index ==> create_buffers == 0,
            decreases buffer_index + 1 - self.gpu_data_size@.len(),
        {
            self.gpu_data_size.push(num_elems);
            create_buffers = create_buffers + 1;
            assert(self.gpu_data_size@ =~= old_sizes + Seq::new(create_buffers as nat, |_i: int| num_elems));
        }
        let resize: bool = num_elems > self.gpu_data_size[buffer_index];
        proof {
            if buffer_index >= old_sizes.len() {
                assert(create_buffers == buffer_index + 1 - old_sizes.len());
                assert(self.gpu_data_size@[buffer_index as int] == num_elems);
            } else {
                assert(self.gpu_data_size@ =~= old_sizes);
            }
        }
        self.gpu_data_size.set(buffer_index, num_elems);
        self.vertex_count = num_elems as u32;
        Some(SubmitPlan { num_elems, create_buffers, resize })
    }

    /// Vertices to draw from buffer `buffer_index`, or `None` when the buffer does not exist.
    pub fn draw_vertex_count(&self, buffer_index: usize) -> (count: Option<u32>)
        ensures
            count == (if buffer_index < self.sizes().len() { Some(self.count()) } else { None }),
    {
        if buffer_index < self.gpu_data_size.len() {
            Some(self.vertex_count)
        } else {
            None
        }
    }
}

/// After a submit into buffer `index` that buffer exists and holds the submitted vertex count,
/// so drawing from it draws them; the other existing buffers keep their capacities; and
/// submitting the same number of vertices into it again creates and recreates nothing.
pub proof fn lemma_submit_then_draw(sizes: Seq<usize>, num: usize, index: usize)
    requires
        index < usize::MAX,
    ensures
        index < submitted_sizes(sizes, num, index).len(),
        submitted_sizes(sizes, num, index)[index as int] == num,
        forall|j: int| 0 <= j < sizes.len() && j != index ==> #[trigger] submitted_sizes(sizes, num, index)[j] == sizes[j],
        !(num > submitted_sizes(sizes, num, index)[index as int]),
        submitted_sizes(submitted_sizes(sizes, num, index), num, index) == submitted_sizes(sizes, num, index),
{
    let s1: Seq<usize> = submitted_sizes(sizes, num, index);
    assert(submitted_sizes(s1, num, index) =~= s1);
}

} // verus!
