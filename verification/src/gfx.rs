//! Platform independent graphics types and the format / size arithmetic that
//! backends share.

use vstd::prelude::*;
use vstd::string::*;

use crate::os::Rect;
use crate::text::{append_decimal, decimal};

pub mod format;
pub mod d3d12;
pub mod heap;
pub mod mtl;

pub use self::format::{
    block_size_for_format, texels_per_block_for_format, components_for_format,
    row_pitch_for_format, slice_pitch_for_format, size_for_format, size_for_format_mipped,
    mip_levels_for_dimension, align_pow2, align, num_32bit_constants,
};

verus! {

/// Format for resource types (textures / buffers).
/// n = normalised unsigned integer,
/// u = unsigned integer,
/// i = signed integer,
/// f = float
#[derive(Copy, Clone, Debug, Hash, PartialEq, Eq, Structural)]
pub enum Format {
    Unknown,
    R16n,
    R16u,
    R16i,
    R16f,
    R32u,
    R32i,
    R32f,
    RG16f,
    RG16u,
    RG16i,
    RG32u,
    RG32i,
    RG32f,
    RGB32u,
    RGB32i,
    RGB32f,
    RGBA8nSRGB,
    RGBA8n,
    RGBA8u,
    RGBA8i,
    BGRA8n,
    BGRX8n,
    BGRA8nSRGB,
    BGRX8nSRGB,
    RGBA16u,
    RGBA16i,
    RGBA16f,
    RGBA32u,
    RGBA32i,
    RGBA32f,
    D32fS8X24u,
    D32f,
    D24nS8u,
    D16n,
    BC1n,
    BC1nSRGB,
    BC2n,
    BC2nSRGB,
    BC3n,
    BC3nSRGB,
    BC4n,
    BC5n,
}


/// 3-Dimensional struct for compute shader thread count / thread group size.
#[derive(Copy, Clone)]
pub struct Size3 {
    pub x: u32,
    pub y: u32,
    pub z: u32,
}

/// 3-Dimensional region used for copying resources
#[derive(Copy, Clone)]
pub struct Region {
    pub left: u32,
    pub top: u32,
    pub front: u32,
    pub right: u32,
    pub bottom: u32,
    pub back: u32,
}

/// Structure to specify scissor rect coordinates on a `CmdBuf`.
#[derive(Copy, Clone, Debug, PartialEq, Eq, Structural)]
pub struct ScissorRect {
    /// Left x coordinate.
    pub left: i32,
    /// Top y coordinate.
    pub top: i32,
    /// Right x coordinate.
    pub right: i32,
    /// Bottom y coordinate.
    pub bottom: i32,
}

/// The scissor rectangle covering a window rectangle; its right and bottom are taken from the
/// rectangle's width and height.
impl From<Rect<i32>> for ScissorRect {
    fn from(rect: Rect<i32>) -> (scissor: ScissorRect) {
        ScissorRect { left: rect.x, top: rect.y, right: rect.width, bottom: rect.height }
    }
}

impl vstd::std_specs::convert::FromSpecImpl<Rect<i32>> for ScissorRect {
    open spec fn obeys_from_spec() -> bool {
        true
    }

    open spec fn from_spec(rect: Rect<i32>) -> ScissorRect {
        ScissorRect { left: rect.x, top: rect.y, right: rect.width, bottom: rect.height }
    }
}

/// Information to create a device, it contains default heaps for resource views
/// resources will be automatically allocated into these heaps, you can supply custom heaps if necessary.
pub struct DeviceInfo {
    /// optional adapter to choose a specific adapter in the scenario of a multi-adapter system
    /// if None is supplied the first non-software emulation adapter would be selected.
    pub adapter_name: Option<String>,
    /// space for shader resource views, constant buffers and unordered access views.
    pub shader_heap_size: usize,
    /// space for colour render targets.
    pub render_target_heap_size: usize,
    /// space for depth stencil targets.
    pub depth_stencil_heap_size: usize,
}

impl Default for DeviceInfo {
    fn default() -> (info: DeviceInfo)
        ensures
            info.adapter_name is None,
            info.shader_heap_size == 0,
            info.render_target_heap_size == 0,
            info.depth_stencil_heap_size == 0,
    {
        DeviceInfo {
            adapter_name: None,
            shader_heap_size: 0,
            render_target_heap_size: 0,
            depth_stencil_heap_size: 0,
        }
    }
}

/// Information returned from `Device::get_adapter_info`.
#[derive(Clone)]
pub struct AdapterInfo {
    /// The chosen adapter a device was created with.
    pub name: String,
    /// Description of the device.
    pub description: String,
    /// Dedicated video memory in bytes.
    pub dedicated_video_memory: usize,
    /// Dedicated system memory in bytes.
    pub dedicated_system_memory: usize,
    /// Shared system memory in bytes.
    pub shared_system_memory: usize,
    /// List of available adapter descriptons.
    pub available: Vec<String>,
}

/// The list of available adapters as `AdapterInfo` displays it: one indented line per adapter.
pub open spec fn adapter_list_text(available: Seq<Seq<char>>) -> Seq<char>
    decreases available.len(),
{
    if available.len() == 0 {
        Seq::empty()
    } else {
        adapter_list_text(available.drop_last()) + "  "@ + available.last() + "\n"@
    }
}

/// The text `AdapterInfo` displays as: name, description and memory sizes in megabytes, then
/// the available adapters.
pub open spec fn adapter_info_text(info: AdapterInfo) -> Seq<char> {
    info.name@ + ":\n  "@ + info.description@ + "\n  Video Memory: "@
        + decimal((info.dedicated_video_memory / 1024 / 1024) as nat) + "(mb)\n  System Memory: "@
        + decimal((info.dedicated_system_memory / 1024 / 1024) as nat) + "(mb)\n  Shared System Memory: "@
        + decimal((info.shared_system_memory / 1024 / 1024) as nat) + "(mb)\nAvailable Adapters:\n"@
        + adapter_list_text(info.available@.map_values(|a: String| a@))
}

impl AdapterInfo {
    /// Display for `AdapterInfo` displays as so:
    /// hotline_rs::d3d12::Device:
    ///   NVIDIA GeForce GTX 1060 6GB
    ///   Video Memory: 6052(mb)
    ///   System Memory: 0(mb)
    ///   Shared System Memory: 8159(mb)
    /// Available Adapters:
    ///   NVIDIA GeForce GTX 1060 6GB
    ///   Microsoft Basic Render Driver
    pub fn to_string(&self) -> (text: String)
        ensures
            text@ == adapter_info_text(*self),
    {
        let mut available: String = String::new();
        let n: usize = self.available.len();
        let mut i: usize = 0;
        while i < n
            invariant
                i <= n,
                n == self.available@.len(),
                available@ == adapter_list_text(self.available@.subrange(0, i as int).map_values(|a: String| a@)),
            decreases n - i,
        {
            let ghost before: Seq<char> = available@;
            available.append("  ");
            available.append(self.available[i].as_str());
            available.append("\n");
            proof {
                let prefix: Seq<Seq<char>> = self.available@.subrange(0, i + 1).map_values(|a: String| a@);
                assert(prefix.drop_last() =~= self.available@.subrange(0, i as int).map_values(|a: String| a@));
                assert(prefix.last() == self.available@[i as int]@);
            }
            i = i + 1;
        }
        assert(self.available@.subrange(0, n as int) =~= self.available@);
        let mut text: String = String::new();
        text.append(self.name.as_str());
        text.append(":\n  ");
        text.append(self.description.as_str());
        text.append("\n  Video Memory: ");
        append_decimal(&mut text, (self.dedicated_video_memory / 1024 / 1024) as u64);
        text.append("(mb)\n  System Memory: ");
        append_decimal(&mut text, (self.dedicated_system_memory / 1024 / 1024) as u64);
        text.append("(mb)\n  Shared System Memory: ");
        append_decimal(&mut text, (self.shared_system_memory / 1024 / 1024) as u64);
        text.append("(mb)\nAvailable Adapters:\n");
        text.append(available.as_str());
        text
    }
}

/// Information to create a desciptor heap... `Device` will contain default heaps, but you can create your own if required.
pub struct HeapInfo {
    /// ie: Shader, RenderTarget, DepthStencil, Sampler.
    pub heap_type: HeapType,
    /// Total size of the heap in number of resources.
    pub num_descriptors: usize,
}

/// Options for heap types.
#[derive(Copy, Clone, PartialEq, Eq, Structural)]
pub enum HeapType {
    /// For shader resource view, constant buffer or unordered access.
    Shader,
    /// For render targets
    RenderTarget,
    /// For depth stencil targets
    DepthStencil,
    /// For sampler states
    Sampler,
}

/// Information to create a query heap.
pub struct QueryHeapInfo {
    /// ie: Timestamp, Occlusion, PipelineStatistics
    pub heap_type: QueryType,
    /// Total size of the heap in number of queries.
    pub num_queries: usize,
}

/// Options for query heap types, and queries
#[derive(Copy, Clone, PartialEq, Eq, Structural)]
pub enum QueryType {
    /// Used for occlusion query heap or occlusion queries
    Occlusion,
    /// Can be used in the same heap as occlusion
    BinaryOcclusion,
    /// Create a heap to contain timestamp queries
    Timestamp,
    /// Create a heap to contain a structure of `PipelineStatistics`
    PipelineStatistics,
    /// Create video decoder statistics query and heap
    VideoDecodeStatistics,
}

/// GPU pipeline statistics obtain by using a `PipelineStatistics` query
#[derive(Copy, Clone, PartialEq, Eq, Structural)]
pub struct PipelineStatistics {
    pub input_assembler_vertices: u64,
    pub input_assembler_primitives: u64,
    pub vertex_shader_invocations: u64,
    pub pixel_shader_primitives: u64,
    pub compute_shader_invocations: u64,
}

/// Information to create a buffer through `Device::create_buffer`.
#[derive(Copy, Clone)]
pub struct BufferInfo {
    /// Indicates how the buffer will be used on the GPU.
    pub usage: BufferUsage,
    /// Used to indicate if we want to read or write from the CPU, use NONE if possible for best performance.
    pub cpu_access: CpuAccessFlags,
    /// Data format of the buffer this is is only required for index buffers and can be `gfx::Format::Unknown` otherwise
    pub format: Format,
    /// The stride of a vertex or structure in bytes.
    pub stride: usize,
    /// The number of array elements.
    pub num_elements: usize,
    /// Initial state to start image transition barriers before state
    pub initial_state: ResourceState,
}

/// Information to create a shader through `Device::create_shader`.
pub struct ShaderInfo {
    /// Type of the shader (Vertex, Fragment, Compute, etc...).
    pub shader_type: ShaderType,
    /// Optional info to compile from source, if this is none then
    /// the shader will be treated as a precompiled byte code blob.
    pub compile_info: Option<ShaderCompileInfo>,
}

/// Information required to compile a shader from source code.
pub struct ShaderCompileInfo {
    /// The name of the entry point function in the shader to compile.
    pub entry_point: String,
    /// The target you wish to compile for, this is paltform specific.
    /// hlsl: (vs_5_0, ps_5_0, vs_6_0, ps_6_0).
    pub target: String,
    /// Flags to pass to the compiler.
    pub flags: ShaderCompileFlags,
}

/// The stage to which a shader will bind itself.
#[derive(Copy, Clone, PartialEq, Eq, Structural)]
pub enum ShaderType {
    Vertex,
    Fragment,
    Compute,
    RayGen,
    AnyHit,
    ClosestHit,
    Miss,
    Intersection,
    Callable,
}

/// Describes a range of resources for access on the GPU.
#[derive(Copy, Clone)]
pub struct DescriptorBinding {
    /// The shader stage the resources will be accessible to.
    pub visibility: ShaderVisibility,
    /// Register index to bind to (supplied in shader).
    pub shader_register: u32,
    /// Register space to bind to (supplied in shader).
    pub register_space: u32,
    /// Type of resources in this descriptor binding.
    pub binding_type: DescriptorType,
    /// Number of descriptors in this table, use `None` for unbounded.
    pub num_descriptors: Option<u32>,
}

/// Describes the type of descriptor binding to create.
#[derive(Clone, Copy, Debug, Hash, PartialEq, Eq, Structural)]
pub enum DescriptorType {
    /// Used for textures or structured buffers.
    ShaderResource,
    /// Used for cbuffers.
    ConstantBuffer,
    /// Used for read-write textures.
    UnorderedAccess,
    /// Used for texture samplers.
    Sampler,
    /// Used for push constants
    PushConstants,
}

/// Describes the visibility of which shader stages can access a descriptor.
#[derive(Copy, Clone, Debug, Hash, PartialEq, Eq, Structural)]
pub enum ShaderVisibility {
    All,
    Vertex,
    Fragment,
    Compute,
}

impl Default for ShaderVisibility {
    fn default() -> (v: ShaderVisibility)
        ensures
            v == ShaderVisibility::All,
    {
        ShaderVisibility::All
    }
}

/// Describes space in the shader to send data to via `CmdBuf::push_constants`.
#[derive(Copy, Clone)]
pub struct PushConstantInfo {
    /// The shader stage the constants will be accessible to.
    pub visibility: ShaderVisibility,
    /// Register index to bind to (supplied in shader).
    pub shader_register: u32,
    /// Register space to bind to (supplied in shader).
    pub register_space: u32,
    /// Number of 32-bit values to push.
    pub num_values: u32,
}

/// You can request this based on resource type, register and space (as specified in shader)
#[derive(Copy, Clone, Debug, PartialEq, Eq, Structural)]
pub struct PipelineSlotInfo {
    /// The slot in the pipeline layout to bind to
    pub index: u32,
    /// The number of descriptors or the number of 32-bit push constant values, if `None` the table is unbounded
    pub count: Option<u32>,
}

/// Describe a single element of an `InputLayoutInfo`.
#[derive(Clone)]
pub struct InputElementInfo {
    /// Element semantic ie. POSITION, TEXCOORD, COLOR etc.
    pub semantic: String,
    /// Index of the semantic ie. TEXCOORD0, TEXCOORD1 etc.
    pub index: u32,
    /// Format of the element size and width.
    pub format: Format,
    /// The vertex buffer slot this buffer will be bound to.
    pub input_slot: u32,
    /// Aligned byte offset of this element from the start of the struct.
    pub aligned_byte_offset: u32,
    /// Vertex or Instance stride.
    pub input_slot_class: InputSlotClass,
    /// Rate at which to step vertices.
    pub step_rate: u32,
}

/// Describes the frequency of which elements are fetched from a vertex input element.
#[derive(Copy, Clone, PartialEq, Eq, Structural)]
pub enum InputSlotClass {
    PerVertex,
    PerInstance,
}

/// Filtering mode for the sampler (controls bilinear and trilinear interpolation).
#[derive(Copy, Clone, PartialEq, Eq, Structural)]
pub enum SamplerFilter {
    Point,
    Linear,
    Anisotropic,
}

/// Address mode for the sampler (controls wrapping and clamping).
#[derive(Copy, Clone, PartialEq, Eq, Structural)]
pub enum SamplerAddressMode {
    Wrap,
    Mirror,
    Clamp,
    Border,
    MirrorOnce,
}

/// Used for comparison ops in depth testing, samplers.
#[derive(Copy, Clone, PartialEq, Eq, Structural)]
pub enum ComparisonFunc {
    Never,
    Less,
    Equal,
    LessEqual,
    Greater,
    NotEqual,
    GreaterEqual,
    Always,
}

/// Indicates how the pipeline interprets vertex data at the input assembler stage
/// This will be also used to infer primitive topology types for geometry or hull shaders
#[derive(Copy, Clone, PartialEq, Eq, Structural)]
pub enum Topology {
    Undefined,
    PointList,
    LineList,
    LineStrip,
    TriangleList,
    TriangleStrip,
    LineListAdj,
    LineStripAdj,
    TriangleListAdj,
    TriangleStripAdj,
    PatchList,
}

/// Polygon fillmode
#[derive(Clone, Copy, PartialEq, Eq, Structural)]
pub enum FillMode {
    Wireframe,
    Solid,
}

/// Polygon cull mode
#[derive(Clone, Copy, PartialEq, Eq, Structural)]
pub enum CullMode {
    /// No faces are culled.
    Off,
    Front,
    Back,
}

/// Information to control the depth and stencil testing of primitves when using a `RenderPipeline`
#[derive(Clone, Copy, PartialEq, Eq, Structural)]
pub struct DepthStencilInfo {
    /// Enable depth testing
    pub depth_enabled: bool,
    /// Choose to write or not write to the depth buffer
    pub depth_write_mask: DepthWriteMask,
    pub depth_func: ComparisonFunc,
    /// Enable stencil testing
    pub stencil_enabled: bool,
    pub stencil_read_mask: u8,
    pub stencil_write_mask: u8,
    pub front_face: StencilInfo,
    pub back_face: StencilInfo,
}

/// Write to the depth buffer, or omit writes and just perform depth testing
#[derive(Clone, Copy, PartialEq, Eq, Structural)]
pub enum DepthWriteMask {
    Zero,
    All,
}

/// Stencil info for various outcomes of the depth stencil test
#[derive(Clone, Copy, PartialEq, Eq, Structural)]
pub struct StencilInfo {
    pub fail: StencilOp,
    pub depth_fail: StencilOp,
    pub pass: StencilOp,
    pub func: ComparisonFunc,
}

/// Stencil operations
#[derive(Clone, Copy, PartialEq, Eq, Structural)]
pub enum StencilOp {
    Keep,
    Zero,
    Replace,
    IncrSat,
    DecrSat,
    Invert,
    Incr,
    Decr,
}

/// Information to control blending operations on render targets
pub struct BlendInfo {
    pub alpha_to_coverage_enabled: bool,
    /// Separate blending on colour and alpha channels
    pub independent_blend_enabled: bool,
    /// Separate blend operations for each bout render targets
    pub render_target: Vec<RenderTargetBlendInfo>,
}

impl Default for BlendInfo {
    fn default() -> (info: BlendInfo)
        ensures
            !info.alpha_to_coverage_enabled,
            !info.independent_blend_enabled,
            info.render_target@.len() == 0,
    {
        BlendInfo {
            alpha_to_coverage_enabled: false,
            independent_blend_enabled: false,
            render_target: Vec::new(),
        }
    }
}

/// Blending operations for a single render target
#[derive(Clone, Copy, PartialEq, Eq, Structural)]
pub struct RenderTargetBlendInfo {
    pub blend_enabled: bool,
    pub logic_op_enabled: bool,
    pub src_blend: BlendFactor,
    pub dst_blend: BlendFactor,
    pub blend_op: BlendOp,
    pub src_blend_alpha: BlendFactor,
    pub dst_blend_alpha: BlendFactor,
    pub blend_op_alpha: BlendOp,
    pub logic_op: LogicOp,
    pub write_mask: WriteMask,
}

/// Controls how the source and destination terms in blend equation are derrived
#[derive(Clone, Copy, PartialEq, Eq, Structural)]
pub enum BlendFactor {
    Zero,
    One,
    SrcColour,
    InvSrcColour,
    SrcAlpha,
    InvSrcAlpha,
    DstAlpha,
    InvDstAlpha,
    DstColour,
    InvDstColour,
    SrcAlphaSat,
    BlendFactor,
    InvBlendFactor,
    Src1Colour,
    InvSrc1Colour,
    Src1Alpha,
    InvSrc1Alpha,
}

/// Controls how the source and destination terms are combined: final = src (op) dest
#[derive(Clone, Copy, PartialEq, Eq, Structural)]
pub enum BlendOp {
    Add,
    Subtract,
    RevSubtract,
    Min,
    Max,
}

/// The logical operation to configure for a render target blend with logic op enabled
#[derive(Clone, Copy, PartialEq, Eq, Structural)]
pub enum LogicOp {
    Clear,
    /// Sets every bit.
    SetBits,
    Copy,
    CopyInverted,
    NoOp,
    Invert,
    And,
    Nand,
    Or,
    Nor,
    Xor,
    Equiv,
    AndReverse,
    AndInverted,
    OrReverse,
    OrInverted,
}

/// Geometry a raytracing hit group is intersected with.
#[derive(Clone, Copy, PartialEq, Eq, Structural)]
pub enum RaytracingHitGeometry {
    Triangles,
    ProceduralPrimitive,
}

/// Names the shaders of one raytracing hit group.
#[derive(Clone)]
pub struct RaytracingHitGroup {
    pub name: String,
    pub any_hit: Option<String>,
    pub closest_hit: Option<String>,
    pub intersection: Option<String>,
    pub geometry: RaytracingHitGeometry,
}

/// Information to create a pipeline through `Device::create_texture`.
#[derive(Copy, Clone, PartialEq, Eq, Structural)]
pub struct TextureInfo {
    /// Texture type
    pub tex_type: TextureType,
    /// Texture format
    pub format: Format,
    /// Width of the image in texels
    pub width: u64,
    /// Height of the image in texels for `TextureType::Texture2D` and `Texture3D` use 1 for `Texture1D`
    pub height: u64,
    /// Depth of the image in slices of (`width` x `height`) for `TextureType::Texture3D` only (use 1 other wise)
    pub depth: u32,
    /// Number of array levels or slices for `Texture1D` or `Texture2D` arrays. use 1 otherwise
    pub array_layers: u32,
    /// Number of mip levels in the image
    pub mip_levels: u32,
    /// Number of MSAA samples
    pub samples: u32,
    /// Indicate how this texture will be used on the GPU
    pub usage: TextureUsage,
    /// Initial state to start image transition barriers before state
    pub initial_state: ResourceState,
}

/// Describes the dimension of a texture
#[derive(Copy, Clone, Debug, PartialEq, Eq, Structural)]
pub enum TextureType {
    Texture1D,
    Texture1DArray,
    Texture2D,
    Texture2DArray,
    Texture3D,
    TextureCube,
    TextureCubeArray,
}

/// All possible resource states, some for buffers and some for textures
#[derive(Copy, Clone, PartialEq, Eq, Debug, Structural)]
pub enum ResourceState {
    /// Used for texture only to be written to from fragment shaders
    RenderTarget,
    /// Used for a texture to be used as a depth stencil buffer
    DepthStencil,
    /// Used for when depth testing is enabled, but depth writes are disabled
    DepthStencilReadOnly,
    /// Used for swap chain textures only, required before calling swap
    Present,
    /// Access for read/write from shaders
    UnorderedAccess,
    /// Readable from shaders
    ShaderResource,
    /// Bindable as a vertex or constant buffer for use in shaders
    VertexConstantBuffer,
    /// Bindable as an index buffer
    IndexBuffer,
    /// Used as a source msaa texture to resolve into a non-msaa resource
    ResolveSrc,
    /// Used as a destination sngle sample texture to be resolved into by an msaa resource
    ResolveDst,
    /// Used as a source for copies from into other resources
    CopySrc,
    /// Used as a destination for copies from other resources or queries
    CopyDst,
    /// Used as destination to read back data from buffers / queries
    GenericRead,
    /// Used for argument buffer in `execute_indirect` calls
    IndirectArgument,
    /// Used for destination acceleration structure buffers
    AccelerationStructure,
}

/// The name a `ResourceState` displays as: the name of its variant.
pub open spec fn resource_state_name(state: ResourceState) -> Seq<char> {
    match state {
        ResourceState::RenderTarget => "RenderTarget"@,
        ResourceState::DepthStencil => "DepthStencil"@,
        ResourceState::DepthStencilReadOnly => "DepthStencilReadOnly"@,
        ResourceState::Present => "Present"@,
        ResourceState::UnorderedAccess => "UnorderedAccess"@,
        ResourceState::ShaderResource => "ShaderResource"@,
        ResourceState::VertexConstantBuffer => "VertexConstantBuffer"@,
        ResourceState::IndexBuffer => "IndexBuffer"@,
        ResourceState::ResolveSrc => "ResolveSrc"@,
        ResourceState::ResolveDst => "ResolveDst"@,
        ResourceState::CopySrc => "CopySrc"@,
        ResourceState::CopyDst => "CopyDst"@,
        ResourceState::GenericRead => "GenericRead"@,
        ResourceState::IndirectArgument => "IndirectArgument"@,
        ResourceState::AccelerationStructure => "AccelerationStructure"@,
    }
}

impl ResourceState {
    /// Display for resource state enums
    pub fn to_string(&self) -> (name: String)
        ensures
            name@ == resource_state_name(*self),
    {
        match self {
            ResourceState::RenderTarget => String::from_str("RenderTarget"),
            ResourceState::DepthStencil => String::from_str("DepthStencil"),
            ResourceState::DepthStencilReadOnly => String::from_str("DepthStencilReadOnly"),
            ResourceState::Present => String::from_str("Present"),
            ResourceState::UnorderedAccess => String::from_str("UnorderedAccess"),
            ResourceState::ShaderResource => String::from_str("ShaderResource"),
            ResourceState::VertexConstantBuffer => String::from_str("VertexConstantBuffer"),
            ResourceState::IndexBuffer => String::from_str("IndexBuffer"),
            ResourceState::ResolveSrc => String::from_str("ResolveSrc"),
            ResourceState::ResolveDst => String::from_str("ResolveDst"),
            ResourceState::CopySrc => String::from_str("CopySrc"),
            ResourceState::CopyDst => String::from_str("CopyDst"),
            ResourceState::GenericRead => String::from_str("GenericRead"),
            ResourceState::IndirectArgument => String::from_str("IndirectArgument"),
            ResourceState::AccelerationStructure => String::from_str("AccelerationStructure"),
        }
    }
}

/// ome resources may contain subresources for resolving
#[derive(Copy, Clone, PartialEq, Eq, Structural)]
pub enum Subresource {
    /// The resource itself for example a multi-sample texture has x number of MSAA samples
    Resource,
    /// The sub resource for example an MSAA texture will also create a non-MSAA subresource for resolving in to.
    ResolveResource,
}

/// Info to control mapping of resources for read/write access
#[derive(Copy, Clone, PartialEq, Eq, Structural)]
pub struct MapInfo {
    /// Sub resource to map ie. mip level, cubemap face, array slice
    pub subresource: u32,
    /// Range start of data we wish to read, for write-only access supply 0
    pub read_start: usize,
    /// Range end of data we wish to read, for write only access supply 0, to read the whole resource supply usize::MAX
    pub read_end: usize,
}

impl Default for MapInfo {
    fn default() -> (info: MapInfo)
        ensures
            info == (MapInfo { subresource: 0, read_start: 0, read_end: 0 }),
    {
        MapInfo { subresource: 0, read_start: 0, read_end: 0 }
    }
}

/// Info to control writing of mapped resources
#[derive(Copy, Clone, PartialEq, Eq, Structural)]
pub struct UnmapInfo {
    /// Sub resource to map ie. mip level, cubemap face, array slice
    pub subresource: u32,
    /// Range start of data we have written to the buffer, supply 0 for read-only
    pub write_start: usize,
    /// Range end of data we have written to the buffer, supply 0 for read only
    pub write_end: usize,
}

/// Enum to differentiate between render and compute pipelines but also still work on them generically
#[derive(Copy, Clone, PartialEq, Eq, Structural)]
pub enum PipelineType {
    Render,
    Compute,
}

/// A pipeline trait for shared functionality between Compute and Render pipelines
pub trait Pipeline {
    /// Returns the `PipelineSlotInfo` of which slot to bind a heap to based on the reequested `register` and `descriptor_type`
    /// if `None` is returned the pipeline does not contain bindings for the requested information
    fn get_pipeline_slot(&self, register: u32, space: u32, descriptor_type: DescriptorType) -> Option<&PipelineSlotInfo>;
    /// Returns a vec of all pipeline slot indices
    fn get_pipeline_slots(&self) -> &Vec<u32>;
    /// Returns the pipeline type
    fn get_pipeline_type() -> PipelineType;
}

/// Different types of arguments which can be changed through execute indirect calls
#[derive(Clone, Copy, PartialEq, Eq, Structural)]
pub enum IndirectArgumentType {
    /// Used to issue indirect `draw` calls
    Draw,
    /// Used to issue indirect `draw_indexed` calls
    DrawIndexed,
    /// Used to issue indirect compute `dispatch` calls
    Dispatch,
    /// Used to change a vertex buffer binding
    VertexBuffer,
    /// Used to change an index buffer binding
    IndexBuffer,
    /// Used to change push constants
    PushConstants,
    /// Used to change constant buffer binding
    ConstantBuffer,
    /// Used to change a shader resource view binding
    ShaderResource,
    /// Userd to change an unordered access view binding
    UnorderedAccess,
}

/// Arguments to change push constants during an `execute_indirect` call when `Constant` is the `IndirectArgumentType`
#[derive(Clone, Copy, PartialEq, Eq, Structural)]
pub struct IndirectPushConstantsArguments {
    /// The pipeline slot to modify
    pub slot: u32,
    /// Offset in 32bit values
    pub offset: u32,
    /// Number of 32bit values
    pub num_values: u32,
}

/// Arguments to change a buffer during an `execute_indirect` call when `ConstantBuffer`, `ShaderResource` or `UnorderedAccess`
/// are the `IndirectArgumentType`
#[derive(Clone, Copy, PartialEq, Eq, Structural)]
pub struct IndirectBufferArguments {
    /// The pipeline layout slot or the vertex buffer / index buffer slot
    pub slot: u32,
}

/// This can be used for `Draw`, `DrawIndexed`, or `Dispatch` `IndirectArgumentType`
#[derive(Clone, Copy, PartialEq, Eq, Structural)]
pub struct IndirectNoArguments;

/// The data of an `IndirectArgument`, selected by its `IndirectArgumentType`
#[derive(Clone, Copy, PartialEq, Eq, Structural)]
pub enum IndirectTypeArguments {
    PushConstants(IndirectPushConstantsArguments),
    Buffer(IndirectBufferArguments),
}

/// Pair of `IndirectArgumentType` and `IndirectTypeArguments` where the type selects the data
#[derive(Clone, Copy, PartialEq, Eq, Structural)]
pub struct IndirectArgument {
    pub argument_type: IndirectArgumentType,
    pub arguments: Option<IndirectTypeArguments>,
}

/// Structure of arguments which can be used to execute `draw_instanced` calls indirectly
#[derive(Clone, Copy, PartialEq, Eq, Structural)]
pub struct DrawArguments {
    pub vertex_count_per_instance: u32,
    pub instance_count: u32,
    pub start_vertex_location: u32,
    pub start_instance_location: u32,
}

/// Structure of arguments which can be used to execute `draw_indexed_instanced` calls indirectly
#[derive(Clone, Copy, PartialEq, Eq, Structural)]
pub struct DrawIndexedArguments {
    pub index_count_per_instance: u32,
    pub instance_count: u32,
    pub start_index_location: u32,
    pub base_vertex_location: i32,
    pub start_instance_location: u32,
}

/// Structure of arguments which can be used to execute `dispatch` calls indirectly
#[derive(Clone, Copy, PartialEq, Eq, Structural)]
pub struct DispatchArguments {
    pub thread_group_count_x: u32,
    pub thread_group_count_y: u32,
    pub thread_group_count_z: u32,
}

/// Structure of arguments which can be used to change a vertex buffer during `execute_indirect`
#[derive(Clone, Copy, PartialEq, Eq, Structural)]
pub struct VertexBufferView {
    pub location: u64,
    pub size_bytes: u32,
    pub stride_bytes: u32,
}

/// Structure of arguments which can be used to change an index buffer during `execute_indirect`
#[derive(Clone, Copy, PartialEq, Eq, Structural)]
pub struct IndexBufferView {
    pub location: u64,
    pub size_bytes: u32,
    pub format: u32,
}

/// Results from an issued ReadBackRequest
#[derive(Clone)]
pub struct ReadBackData {
    /// Slice of data bytes
    pub data: Vec<u8>,
    /// GPU format to interperet the data
    pub format: Format,
    /// Total size of data (should be == data.len())
    pub size: usize,
    /// Pitch of a row of data
    pub row_pitch: usize,
    /// Pitch of a slice (3D texture or array level, cubemap face etc)
    pub slice_pitch: usize,
}

/// Bit set of the shader stages and features a device supports.
#[derive(Copy, Clone, PartialEq, Eq, Structural)]
pub struct DeviceFeatureFlags {
    pub bits: u32,
}

impl DeviceFeatureFlags {
    pub const NONE: u32 = 0;
    pub const RAYTRACING: u32 = 1;
    pub const MESH_SAHDER: u32 = 2;
}

/// Shader compilation flags.
#[derive(Copy, Clone, PartialEq, Eq, Structural)]
pub struct ShaderCompileFlags {
    pub bits: u32,
}

impl ShaderCompileFlags {
    /// No flags, default compilation.
    pub const NONE: u32 = 0b00000000;
    /// Generates shader with debug info
    pub const DEBUG: u32 = 0b00000001;
    /// Skips optimization for easier debuggability, deterministic results and faster compilation.
    pub const SKIP_OPTIMIZATION: u32 = 0b00000010;

    /// Flags with exactly the bits of `bits` set.
    pub fn from_bits(bits: u32) -> (flags: ShaderCompileFlags)
        ensures
            flags.bits == bits,
    {
        ShaderCompileFlags { bits }
    }

    /// All bits of `other` are set in `self`.
    pub fn contains(&self, other: u32) -> (c: bool)
        ensures
            c == (self.bits & other == other),
    {
        self.bits & other == other
    }
}

/// Render target write mask flags.
#[derive(Copy, Clone, PartialEq, Eq, Structural)]
pub struct WriteMask {
    pub bits: u8,
}

impl WriteMask {
    /// Write no colour channels
    pub const NONE: u8 = 0;
    /// Write the red colour channel
    pub const RED: u8 = 1;
    /// Write the green colour channel
    pub const GREEN: u8 = 2;
    /// Write the blue colour channel
    pub const BLUE: u8 = 4;
    /// Write the alpha channel
    pub const ALPHA: u8 = 8;
    /// Write (RED|GREEN|BLUE|ALPHA)
    pub const ALL: u8 = 0b1111;

    /// Flags with exactly the bits of `bits` set.
    pub fn from_bits(bits: u8) -> (flags: WriteMask)
        ensures
            flags.bits == bits,
    {
        WriteMask { bits }
    }

    /// All bits of `other` are set in `self`.
    pub fn contains(&self, other: u8) -> (c: bool)
        ensures
            c == (self.bits & other == other),
    {
        self.bits & other == other
    }
}

/// Convert from WritMask bit mask to raw u8
impl From<WriteMask> for u8 {
    fn from(mask: WriteMask) -> (bits: u8) {
        mask.bits
    }
}

impl vstd::std_specs::convert::FromSpecImpl<WriteMask> for u8 {
    open spec fn obeys_from_spec() -> bool {
        true
    }

    open spec fn from_spec(mask: WriteMask) -> u8 {
        mask.bits
    }
}

/// CPU Access flags for buffers or textures.
#[derive(Copy, Clone, PartialEq, Eq, Structural)]
pub struct CpuAccessFlags {
    pub bits: u8,
}

impl CpuAccessFlags {
    /// No CPUT access required, use this for best performance if you do not need to write data to a resource
    pub const NONE: u8 = 1;
    /// CPU will read data from the resource
    pub const READ: u8 = 2;
    /// CPU will write data to the resourc
    pub const WRITE: u8 = 4;
    /// Must be used in conjunction with READ or WRITE, the resource will mapped once and never un-mapped
    pub const PERSISTENTLY_MAPPED: u8 = 8;

    /// Flags with exactly the bits of `bits` set.
    pub fn from_bits(bits: u8) -> (flags: CpuAccessFlags)
        ensures
            flags.bits == bits,
    {
        CpuAccessFlags { bits }
    }

    /// All bits of `other` are set in `self`.
    pub fn contains(&self, other: u8) -> (c: bool)
        ensures
            c == (self.bits & other == other),
    {
        self.bits & other == other
    }
}

/// Textures can be used in one or more of the following ways
#[derive(Copy, Clone, Debug, PartialEq, Eq, Structural)]
pub struct TextureUsage {
    pub bits: u32,
}

impl TextureUsage {
    /// Texture will be only used for data storage and not used on any GPU pipeline stages
    pub const NONE: u32 = 0;
    /// Texture will be sampled in a shader
    pub const SHADER_RESOURCE: u32 = 1;
    /// Used as a read-writable resource in compute shaders
    pub const UNORDERED_ACCESS: u32 = 2;
    /// Used as a colour render target
    pub const RENDER_TARGET: u32 = 4;
    /// Used as a depth stencil buffer
    pub const DEPTH_STENCIL: u32 = 8;
    /// Used as a target for hardware assisted video decoding operations
    pub const VIDEO_DECODE_TARGET: u32 = 16;
    /// Indicates the texture will have mip-maps generated at run time
    pub const GENERATE_MIP_MAPS: u32 = 32;

    /// Flags with exactly the bits of `bits` set.
    pub fn from_bits(bits: u32) -> (flags: TextureUsage)
        ensures
            flags.bits == bits,
    {
        TextureUsage { bits }
    }

    /// All bits of `other` are set in `self`.
    pub fn contains(&self, other: u32) -> (c: bool)
        ensures
            c == (self.bits & other == other),
    {
        self.bits & other == other
    }
}

/// Describes how a buffer will be used on the GPU.
#[derive(Copy, Clone, PartialEq, Eq, Structural)]
pub struct BufferUsage {
    pub bits: u32,
}

impl BufferUsage {
    /// Used to simply store data (query results, copy buffers etc)
    pub const NONE: u32 = 0;
    /// Used as a Vertex buffer binding
    pub const VERTEX: u32 = 1;
    /// Used as a Vertex buffer binding
    pub const INDEX: u32 = 2;
    /// Used as constant buffer for shader data
    pub const CONSTANT_BUFFER: u32 = 4;
    /// Texture will be sampled in a shader
    pub const SHADER_RESOURCE: u32 = 8;
    /// Used as a read-writable resource in compute shaders
    pub const UNORDERED_ACCESS: u32 = 16;
    /// Used as indirect arguments for `execute_indirect`
    pub const INDIRECT_ARGUMENT_BUFFER: u32 = 32;
    /// Used in shader as `AppendStructuredBuffer` and contains a counter element
    pub const APPEND_COUNTER: u32 = 64;
    /// Upload only buffer, can be used for acceleration structure geometry or to copy data
    pub const UPLOAD: u32 = 128;
    /// Only create the buffer and no views
    pub const BUFFER_ONLY: u32 = 256;

    /// Flags with exactly the bits of `bits` set.
    pub fn from_bits(bits: u32) -> (flags: BufferUsage)
        ensures
            flags.bits == bits,
    {
        BufferUsage { bits }
    }

    /// All bits of `other` are set in `self`.
    pub fn contains(&self, other: u32) -> (c: bool)
        ensures
            c == (self.bits & other == other),
    {
        self.bits & other == other
    }
}


/// Flags for raytracing geometry
#[derive(Copy, Clone, PartialEq, Eq, Structural)]
pub struct RaytracingGeometryFlags {
    pub bits: u8,
}

impl RaytracingGeometryFlags {
    /// No flags
    pub const NONE: u8 = 0;
    /// Specifies the implementation must only call the any-hit shader a single time for each primitive in this geometry
    pub const NO_DUPLICATE_ANY_HIT: u8 = 1;
    /// Opque Geometry specifies no anyhit shader is called
    pub const OPAQUE: u8 = 2;

    /// Flags with exactly the bits of `bits` set.
    pub fn from_bits(bits: u8) -> (flags: RaytracingGeometryFlags)
        ensures
            flags.bits == bits,
    {
        RaytracingGeometryFlags { bits }
    }

    /// All bits of `other` are set in `self`.
    pub fn contains(&self, other: u8) -> (c: bool)
        ensures
            c == (self.bits & other == other),
    {
        self.bits & other == other
    }
}

/// Flags for building ray tracing acelleration structures
#[derive(Copy, Clone, PartialEq, Eq, Structural)]
pub struct AccelerationStructureBuildFlags {
    pub bits: u8,
}

impl AccelerationStructureBuildFlags {
    pub const NONE: u8 = 0;
    pub const ALLOW_COMPACTION: u8 = 2;
    pub const ALLOW_UPDATE: u8 = 4;
    pub const MINIMIZE_MEMORY: u8 = 8;
    pub const PERFORM_UPDATE: u8 = 16;
    pub const PREFER_FAST_BUILD: u8 = 32;
    pub const PREFER_FAST_TRACE: u8 = 64;

    /// Flags with exactly the bits of `bits` set.
    pub fn from_bits(bits: u8) -> (flags: AccelerationStructureBuildFlags)
        ensures
            flags.bits == bits,
    {
        AccelerationStructureBuildFlags { bits }
    }

    /// All bits of `other` are set in `self`.
    pub fn contains(&self, other: u8) -> (c: bool)
        ensures
            c == (self.bits & other == other),
    {
        self.bits & other == other
    }
}

/// The texture description `TextureInfo::default` gives: a single 1x1 RGBA8n 2D shader resource.
pub open spec fn default_texture_info() -> TextureInfo {
    TextureInfo {
        tex_type: TextureType::Texture2D,
        format: Format::RGBA8n,
        width: 1,
        height: 1,
        depth: 1,
        array_layers: 1,
        mip_levels: 1,
        samples: 1,
        usage: TextureUsage { bits: TextureUsage::SHADER_RESOURCE },
        initial_state: ResourceState::ShaderResource,
    }
}

/// Useful defaults for quick creation of `TextureInfo`
impl Default for TextureInfo {
    fn default() -> (info: TextureInfo)
        ensures
            info == default_texture_info(),
    {
        TextureInfo {
            tex_type: TextureType::Texture2D,
            format: Format::RGBA8n,
            width: 1,
            height: 1,
            depth: 1,
            array_layers: 1,
            mip_levels: 1,
            samples: 1,
            usage: TextureUsage { bits: TextureUsage::SHADER_RESOURCE },
            initial_state: ResourceState::ShaderResource,
        }
    }
}

/// Stencil state that keeps every value and always passes.
pub open spec fn keep_always_stencil() -> StencilInfo {
    StencilInfo {
        fail: StencilOp::Keep,
        depth_fail: StencilOp::Keep,
        pass: StencilOp::Keep,
        func: ComparisonFunc::Always,
    }
}

/// Useful defaults for depth stencil state on a pipeline state object, no depth test or write
impl Default for DepthStencilInfo {
    fn default() -> (info: DepthStencilInfo)
        ensures
            info == (DepthStencilInfo {
                depth_enabled: false,
                depth_write_mask: DepthWriteMask::Zero,
                depth_func: ComparisonFunc::Always,
                stencil_enabled: false,
                stencil_read_mask: 0,
                stencil_write_mask: 0,
                front_face: keep_always_stencil(),
                back_face: keep_always_stencil(),
            }),
    {
        DepthStencilInfo {
            depth_enabled: false,
            depth_write_mask: DepthWriteMask::Zero,
            depth_func: ComparisonFunc::Always,
            stencil_enabled: false,
            stencil_read_mask: 0,
            stencil_write_mask: 0,
            front_face: StencilInfo {
                fail: StencilOp::Keep,
                depth_fail: StencilOp::Keep,
                pass: StencilOp::Keep,
                func: ComparisonFunc::Always,
            },
            back_face: StencilInfo {
                fail: StencilOp::Keep,
                depth_fail: StencilOp::Keep,
                pass: StencilOp::Keep,
                func: ComparisonFunc::Always,
            },
        }
    }
}

/// Useful defaults for blend state on a pipeline state object, no blending
impl Default for RenderTargetBlendInfo {
    fn default() -> (info: RenderTargetBlendInfo)
        ensures
            info == (RenderTargetBlendInfo {
                blend_enabled: false,
                logic_op_enabled: false,
                src_blend: BlendFactor::Zero,
                dst_blend: BlendFactor::Zero,
                blend_op: BlendOp::Add,
                src_blend_alpha: BlendFactor::Zero,
                dst_blend_alpha: BlendFactor::Zero,
                blend_op_alpha: BlendOp::Add,
                logic_op: LogicOp::Clear,
                write_mask: WriteMask { bits: WriteMask::ALL },
            }),
    {
        RenderTargetBlendInfo {
            blend_enabled: false,
            logic_op_enabled: false,
            src_blend: BlendFactor::Zero,
            dst_blend: BlendFactor::Zero,
            blend_op: BlendOp::Add,
            src_blend_alpha: BlendFactor::Zero,
            dst_blend_alpha: BlendFactor::Zero,
            blend_op_alpha: BlendOp::Add,
            logic_op: LogicOp::Clear,
            write_mask: WriteMask { bits: WriteMask::ALL },
        }
    }
}

/// Pipeline statistics with every counter zero.
pub open spec fn zero_stats() -> PipelineStatistics {
    PipelineStatistics {
        input_assembler_vertices: 0,
        input_assembler_primitives: 0,
        vertex_shader_invocations: 0,
        pixel_shader_primitives: 0,
        compute_shader_invocations: 0,
    }
}

/// Every counter of `a` plus the same counter of `b` fits in a `u64`.
pub open spec fn stats_sum_fits(a: PipelineStatistics, b: PipelineStatistics) -> bool {
    &&& a.input_assembler_vertices + b.input_assembler_vertices <= u64::MAX
    &&& a.input_assembler_primitives + b.input_assembler_primitives <= u64::MAX
    &&& a.vertex_shader_invocations + b.vertex_shader_invocations <= u64::MAX
    &&& a.pixel_shader_primitives + b.pixel_shader_primitives <= u64::MAX
    &&& a.compute_shader_invocations + b.compute_shader_invocations <= u64::MAX
}

/// Counter by counter sum of two sets of pipeline statistics.
pub open spec fn stats_sum(a: PipelineStatistics, b: PipelineStatistics) -> PipelineStatistics {
    PipelineStatistics {
        input_assembler_vertices: (a.input_assembler_vertices + b.input_assembler_vertices) as u64,
        input_assembler_primitives: (a.input_assembler_primitives + b.input_assembler_primitives) as u64,
        vertex_shader_invocations: (a.vertex_shader_invocations + b.vertex_shader_invocations) as u64,
        pixel_shader_primitives: (a.pixel_shader_primitives + b.pixel_shader_primitives) as u64,
        compute_shader_invocations: (a.compute_shader_invocations + b.compute_shader_invocations) as u64,
    }
}

/// Pipeline stats initialised to zero
impl Default for PipelineStatistics {
    fn default() -> (stats: PipelineStatistics)
        ensures
            stats == zero_stats(),
    {
        PipelineStatistics {
            input_assembler_vertices: 0,
            input_assembler_primitives: 0,
            vertex_shader_invocations: 0,
            pixel_shader_primitives: 0,
            compute_shader_invocations: 0,
        }
    }
}

impl PipelineStatistics {
    /// Ability to add 2 pipeline stats to accumulate
    pub fn add(self, other: PipelineStatistics) -> (sum: PipelineStatistics)
        requires
            stats_sum_fits(self, other),
        ensures
            sum == stats_sum(self, other),
    {
        PipelineStatistics {
            input_assembler_vertices: self.input_assembler_vertices + other.input_assembler_vertices,
            input_assembler_primitives: self.input_assembler_primitives + other.input_assembler_primitives,
            vertex_shader_invocations: self.vertex_shader_invocations + other.vertex_shader_invocations,
            pixel_shader_primitives: self.pixel_shader_primitives + other.pixel_shader_primitives,
            compute_shader_invocations: self.compute_shader_invocations + other.compute_shader_invocations,
        }
    }

    /// Ability to add_assign 2 pipeline stats to accumulate
    pub fn add_assign(&mut self, other: PipelineStatistics)
        requires
            stats_sum_fits(*old(self), other),
        ensures
            *final(self) == stats_sum(*old(self), other),
    {
        self.input_assembler_vertices = self.input_assembler_vertices + other.input_assembler_vertices;
        self.input_assembler_primitives = self.input_assembler_primitives + other.input_assembler_primitives;
        self.vertex_shader_invocations = self.vertex_shader_invocations + other.vertex_shader_invocations;
        self.pixel_shader_primitives = self.pixel_shader_primitives + other.pixel_shader_primitives;
        self.compute_shader_invocations = self.compute_shader_invocations + other.compute_shader_invocations;
    }
}

/// Accumulating statistics does not depend on the order of the two operands, and zero statistics
/// (what `PipelineStatistics::default` gives) leave the other operand unchanged.
pub proof fn lemma_stats_sum_commutes_with_zero_identity(a: PipelineStatistics, b: PipelineStatistics)
    ensures
        stats_sum_fits(a, b) == stats_sum_fits(b, a),
        stats_sum(a, b) == stats_sum(b, a),
        stats_sum_fits(zero_stats(), a),
        stats_sum(zero_stats(), a) == a,
{
}

/// Accumulating three sets of statistics gives the same totals whichever pair is summed first.
pub proof fn lemma_stats_sum_associates(a: PipelineStatistics, b: PipelineStatistics, c: PipelineStatistics)
    requires
        stats_sum_fits(a, b),
        stats_sum_fits(stats_sum(a, b), c),
    ensures
        stats_sum_fits(b, c),
        stats_sum_fits(a, stats_sum(b, c)),
        stats_sum(stats_sum(a, b), c) == stats_sum(a, stats_sum(b, c)),
{
}

} // verus!
