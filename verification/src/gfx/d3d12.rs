//! Backend independent parts of the Direct3D 12 backend: DXGI format codes, adapter vendor
//! classification, buffer size rules and indirect argument sizes.

use vstd::prelude::*;

pub mod render_pass;
pub mod query;
pub mod resources;
pub mod root_signature;
pub mod upload;
pub mod states;

use vstd::layout::size_of;
use vstd::string::*;

use crate::Error;
use crate::text::{append_decimal, decimal};
use super::{BufferUsage, Format, IndirectArgumentType, ShaderCompileFlags};
use super::format::{align_pow2, align_pow2_bits, is_block_compressed, is_depth, is_pow2_u64, lemma_align_pow2_bits_bound,
    lemma_align_pow2_agrees_with_align, lemma_align_up_is_least_multiple};

verus! {

pub const DXGI_FORMAT_UNKNOWN: u32 = 0;
pub const DXGI_FORMAT_R32G32B32A32_FLOAT: u32 = 2;
pub const DXGI_FORMAT_R32G32B32A32_UINT: u32 = 3;
pub const DXGI_FORMAT_R32G32B32A32_SINT: u32 = 4;
pub const DXGI_FORMAT_R32G32B32_FLOAT: u32 = 6;
pub const DXGI_FORMAT_R32G32B32_UINT: u32 = 7;
pub const DXGI_FORMAT_R32G32B32_SINT: u32 = 8;
pub const DXGI_FORMAT_R16G16B16A16_FLOAT: u32 = 10;
pub const DXGI_FORMAT_R16G16B16A16_UINT: u32 = 12;
pub const DXGI_FORMAT_R16G16B16A16_SINT: u32 = 14;
pub const DXGI_FORMAT_R32G32_FLOAT: u32 = 16;
pub const DXGI_FORMAT_R32G32_UINT: u32 = 17;
pub const DXGI_FORMAT_R32G32_SINT: u32 = 18;
pub const DXGI_FORMAT_D32_FLOAT_S8X24_UINT: u32 = 20;
pub const DXGI_FORMAT_R8G8B8A8_UNORM: u32 = 28;
pub const DXGI_FORMAT_R8G8B8A8_UNORM_SRGB: u32 = 29;
pub const DXGI_FORMAT_R8G8B8A8_UINT: u32 = 30;
pub const DXGI_FORMAT_R8G8B8A8_SINT: u32 = 32;
pub const DXGI_FORMAT_R16G16_FLOAT: u32 = 34;
pub const DXGI_FORMAT_R16G16_UINT: u32 = 36;
pub const DXGI_FORMAT_R16G16_SINT: u32 = 38;
pub const DXGI_FORMAT_D32_FLOAT: u32 = 40;
pub const DXGI_FORMAT_R32_FLOAT: u32 = 41;
pub const DXGI_FORMAT_R32_UINT: u32 = 42;
pub const DXGI_FORMAT_R32_SINT: u32 = 43;
pub const DXGI_FORMAT_D24_UNORM_S8_UINT: u32 = 45;
pub const DXGI_FORMAT_R24_UNORM_X8_TYPELESS: u32 = 46;
pub const DXGI_FORMAT_R16_FLOAT: u32 = 54;
pub const DXGI_FORMAT_D16_UNORM: u32 = 55;
pub const DXGI_FORMAT_R16_UNORM: u32 = 56;
pub const DXGI_FORMAT_R16_UINT: u32 = 57;
pub const DXGI_FORMAT_R16_SINT: u32 = 59;
pub const DXGI_FORMAT_BC1_UNORM: u32 = 71;
pub const DXGI_FORMAT_BC1_UNORM_SRGB: u32 = 72;
pub const DXGI_FORMAT_BC2_UNORM: u32 = 74;
pub const DXGI_FORMAT_BC2_UNORM_SRGB: u32 = 75;
pub const DXGI_FORMAT_BC3_UNORM: u32 = 77;
pub const DXGI_FORMAT_BC3_UNORM_SRGB: u32 = 78;
pub const DXGI_FORMAT_BC4_UNORM: u32 = 80;
pub const DXGI_FORMAT_BC5_UNORM: u32 = 83;
pub const DXGI_FORMAT_B8G8R8A8_UNORM: u32 = 87;
pub const DXGI_FORMAT_B8G8R8X8_UNORM: u32 = 88;
pub const DXGI_FORMAT_B8G8R8A8_UNORM_SRGB: u32 = 91;
pub const DXGI_FORMAT_B8G8R8X8_UNORM_SRGB: u32 = 93;

/// The DXGI format code a resource of `format` is created with.
pub open spec fn dxgi_code(format: Format) -> u32 {
    match format {
        Format::Unknown => DXGI_FORMAT_UNKNOWN,
        Format::R16n => DXGI_FORMAT_R16_UNORM,
        Format::R16u => DXGI_FORMAT_R16_UINT,
        Format::R16i => DXGI_FORMAT_R16_SINT,
        Format::R16f => DXGI_FORMAT_R16_FLOAT,
        Format::R32u => DXGI_FORMAT_R32_UINT,
        Format::R32i => DXGI_FORMAT_R32_SINT,
        Format::R32f => DXGI_FORMAT_R32_FLOAT,
        Format::RG16u => DXGI_FORMAT_R16G16_UINT,
        Format::RG16i => DXGI_FORMAT_R16G16_SINT,
        Format::RG16f => DXGI_FORMAT_R16G16_FLOAT,
        Format::RG32u => DXGI_FORMAT_R32G32_UINT,
        Format::RG32i => DXGI_FORMAT_R32G32_SINT,
        Format::RG32f => DXGI_FORMAT_R32G32_FLOAT,
        Format::RGB32u => DXGI_FORMAT_R32G32B32_UINT,
        Format::RGB32i => DXGI_FORMAT_R32G32B32_SINT,
        Format::RGB32f => DXGI_FORMAT_R32G32B32_FLOAT,
        Format::RGBA8nSRGB => DXGI_FORMAT_R8G8B8A8_UNORM_SRGB,
        Format::RGBA8n => DXGI_FORMAT_R8G8B8A8_UNORM,
        Format::RGBA8u => DXGI_FORMAT_R8G8B8A8_UINT,
        Format::RGBA8i => DXGI_FORMAT_R8G8B8A8_SINT,
        Format::BGRA8n => DXGI_FORMAT_B8G8R8A8_UNORM,
        Format::BGRX8n => DXGI_FORMAT_B8G8R8X8_UNORM,
        Format::BGRA8nSRGB => DXGI_FORMAT_B8G8R8A8_UNORM_SRGB,
        Format::BGRX8nSRGB => DXGI_FORMAT_B8G8R8X8_UNORM_SRGB,
        Format::RGBA16u => DXGI_FORMAT_R16G16B16A16_UINT,
        Format::RGBA16i => DXGI_FORMAT_R16G16B16A16_SINT,
        Format::RGBA16f => DXGI_FORMAT_R16G16B16A16_FLOAT,
        Format::RGBA32u => DXGI_FORMAT_R32G32B32A32_UINT,
        Format::RGBA32i => DXGI_FORMAT_R32G32B32A32_SINT,
        Format::RGBA32f => DXGI_FORMAT_R32G32B32A32_FLOAT,
        Format::D32fS8X24u => DXGI_FORMAT_D32_FLOAT_S8X24_UINT,
        Format::D32f => DXGI_FORMAT_D32_FLOAT,
        Format::D24nS8u => DXGI_FORMAT_D24_UNORM_S8_UINT,
        Format::D16n => DXGI_FORMAT_D16_UNORM,
        Format::BC1n => DXGI_FORMAT_BC1_UNORM,
        Format::BC1nSRGB => DXGI_FORMAT_BC1_UNORM_SRGB,
        Format::BC2n => DXGI_FORMAT_BC2_UNORM,
        Format::BC2nSRGB => DXGI_FORMAT_BC2_UNORM_SRGB,
        Format::BC3n => DXGI_FORMAT_BC3_UNORM,
        Format::BC3nSRGB => DXGI_FORMAT_BC3_UNORM_SRGB,
        Format::BC4n => DXGI_FORMAT_BC4_UNORM,
        Format::BC5n => DXGI_FORMAT_BC5_UNORM,
    }
}

/// The DXGI format code a shader resource view of `format` reads through: depth formats are
/// viewed as their colour equivalents.
pub open spec fn dxgi_srv_code(format: Format) -> u32 {
    match format {
        Format::D32fS8X24u => DXGI_FORMAT_D32_FLOAT_S8X24_UINT,
        Format::D32f => DXGI_FORMAT_R32_FLOAT,
        Format::D24nS8u => DXGI_FORMAT_R24_UNORM_X8_TYPELESS,
        Format::D16n => DXGI_FORMAT_R16_UNORM,
        _ => dxgi_code(format),
    }
}

/// Converts a `Format` to the DXGI format code of the resource.
pub fn to_dxgi_format(format: Format) -> (code: u32)
    ensures
        code == dxgi_code(format),
{
    match format {
        Format::Unknown => DXGI_FORMAT_UNKNOWN,
        Format::R16n => DXGI_FORMAT_R16_UNORM,
        Format::R16u => DXGI_FORMAT_R16_UINT,
        Format::R16i => DXGI_FORMAT_R16_SINT,
        Format::R16f => DXGI_FORMAT_R16_FLOAT,
        Format::R32u => DXGI_FORMAT_R32_UINT,
        Format::R32i => DXGI_FORMAT_R32_SINT,
        Format::R32f => DXGI_FORMAT_R32_FLOAT,
        Format::RG16u => DXGI_FORMAT_R16G16_UINT,
        Format::RG16i => DXGI_FORMAT_R16G16_SINT,
        Format::RG16f => DXGI_FORMAT_R16G16_FLOAT,
        Format::RG32u => DXGI_FORMAT_R32G32_UINT,
        Format::RG32i => DXGI_FORMAT_R32G32_SINT,
        Format::RG32f => DXGI_FORMAT_R32G32_FLOAT,
        Format::RGB32u => DXGI_FORMAT_R32G32B32_UINT,
        Format::RGB32i => DXGI_FORMAT_R32G32B32_SINT,
        Format::RGB32f => DXGI_FORMAT_R32G32B32_FLOAT,
        Format::RGBA8nSRGB => DXGI_FORMAT_R8G8B8A8_UNORM_SRGB,
        Format::RGBA8n => DXGI_FORMAT_R8G8B8A8_UNORM,
        Format::RGBA8u => DXGI_FORMAT_R8G8B8A8_UINT,
        Format::RGBA8i => DXGI_FORMAT_R8G8B8A8_SINT,
        Format::BGRA8n => DXGI_FORMAT_B8G8R8A8_UNORM,
        Format::BGRX8n => DXGI_FORMAT_B8G8R8X8_UNORM,
        Format::BGRA8nSRGB => DXGI_FORMAT_B8G8R8A8_UNORM_SRGB,
        Format::BGRX8nSRGB => DXGI_FORMAT_B8G8R8X8_UNORM_SRGB,
        Format::RGBA16u => DXGI_FORMAT_R16G16B16A16_UINT,
        Format::RGBA16i => DXGI_FORMAT_R16G16B16A16_SINT,
        Format::RGBA16f => DXGI_FORMAT_R16G16B16A16_FLOAT,
        Format::RGBA32u => DXGI_FORMAT_R32G32B32A32_UINT,
        Format::RGBA32i => DXGI_FORMAT_R32G32B32A32_SINT,
        Format::RGBA32f => DXGI_FORMAT_R32G32B32A32_FLOAT,
        Format::D32fS8X24u => DXGI_FORMAT_D32_FLOAT_S8X24_UINT,
        Format::D32f => DXGI_FORMAT_D32_FLOAT,
        Format::D24nS8u => DXGI_FORMAT_D24_UNORM_S8_UINT,
        Format::D16n => DXGI_FORMAT_D16_UNORM,
        Format::BC1n => DXGI_FORMAT_BC1_UNORM,
        Format::BC1nSRGB => DXGI_FORMAT_BC1_UNORM_SRGB,
        Format::BC2n => DXGI_FORMAT_BC2_UNORM,
        Format::BC2nSRGB => DXGI_FORMAT_BC2_UNORM_SRGB,
        Format::BC3n => DXGI_FORMAT_BC3_UNORM,
        Format::BC3nSRGB => DXGI_FORMAT_BC3_UNORM_SRGB,
        Format::BC4n => DXGI_FORMAT_BC4_UNORM,
        Format::BC5n => DXGI_FORMAT_BC5_UNORM,
    }
}

/// Converts a `Format` to the DXGI format code used by shader resource views of it.
pub fn to_dxgi_format_srv(format: Format) -> (code: u32)
    ensures
        code == dxgi_srv_code(format),
{
    match format {
        Format::D32fS8X24u => DXGI_FORMAT_D32_FLOAT_S8X24_UINT,
        Format::D32f => DXGI_FORMAT_R32_FLOAT,
        Format::D24nS8u => DXGI_FORMAT_R24_UNORM_X8_TYPELESS,
        Format::D16n => DXGI_FORMAT_R16_UNORM,
        _ => to_dxgi_format(format),
    }
}

/// Distinct formats are created with distinct DXGI codes.
pub proof fn lemma_dxgi_code_injective(a: Format, b: Format)
    ensures
        dxgi_code(a) == dxgi_code(b) ==> a == b,
{
}

/// The number of a block compressed format (BC1 to BC5).
pub open spec fn bc_number(format: Format) -> nat {
    match format {
        Format::BC1n | Format::BC1nSRGB => 1,
        Format::BC2n | Format::BC2nSRGB => 2,
        Format::BC3n | Format::BC3nSRGB => 3,
        Format::BC4n => 4,
        _ => 5,
    }
}

/// Whether a block compressed format is read as sRGB.
pub open spec fn bc_srgb(format: Format) -> bool {
    format == Format::BC1nSRGB || format == Format::BC2nSRGB || format == Format::BC3nSRGB
}

/// DXGI numbers each block compressed format in a run of three codes (typeless, unorm, then
/// sRGB or snorm) starting from BC1 at 70: a block compressed format is created with the unorm
/// code of its number, or the sRGB one right after it, and is read by shaders the same way.
pub proof fn lemma_bc_dxgi_codes(format: Format)
    requires
        is_block_compressed(format),
    ensures
        dxgi_code(format) == 68 + 3 * bc_number(format) + if bc_srgb(format) { 1nat } else { 0nat },
        dxgi_srv_code(format) == dxgi_code(format),
{
}

/// Shaders read colour formats as they are stored, and depth formats through the colour view
/// of their depth (and stencil) bits: 32 bit float depth as R32 float, 24 bit depth as R24
/// unorm, 16 bit depth as R16 unorm.
pub proof fn lemma_srv_formats_read_the_stored_bits(format: Format)
    ensures
        !is_depth(format) ==> dxgi_srv_code(format) == dxgi_code(format),
        format == Format::D32f ==> dxgi_srv_code(format) == DXGI_FORMAT_R32_FLOAT,
        format == Format::D24nS8u ==> dxgi_srv_code(format) == DXGI_FORMAT_R24_UNORM_X8_TYPELESS,
        format == Format::D16n ==> dxgi_srv_code(format) == DXGI_FORMAT_R16_UNORM,
{
}

/// Alignment in bytes of constant buffer data.
pub const D3D12_CONSTANT_BUFFER_DATA_PLACEMENT_ALIGNMENT: u64 = 256;
/// Alignment in bytes of the counter of an append / unordered access buffer.
pub const D3D12_UAV_COUNTER_PLACEMENT_ALIGNMENT: u64 = 4096;
/// Shader compiler flag: compile with debug information.
pub const D3DCOMPILE_DEBUG: u32 = 1;
/// Shader compiler flag: skip optimisation.
pub const D3DCOMPILE_SKIP_OPTIMIZATION: u32 = 4;

/// GPU vendors distinguished when choosing an adapter.
#[derive(Copy, Clone, PartialEq, Eq, Structural)]
pub enum Vendor {
    Unknown,
    Intel,
    Amd,
    Nvidia,
}

/// The vendor a PCI vendor id belongs to.
pub open spec fn vendor_of(vendor_id: u32) -> Vendor {
    if vendor_id == 0x163C || vendor_id == 0x8086 || vendor_id == 0x8087 {
        Vendor::Intel
    } else if vendor_id == 0x1002 || vendor_id == 0x1022 {
        Vendor::Amd
    } else if vendor_id == 0x10DE {
        Vendor::Nvidia
    } else {
        Vendor::Unknown
    }
}

/// Classifies a PCI vendor id.
pub fn to_vendor(vendor_id: u32) -> (vendor: Vendor)
    ensures
        vendor == vendor_of(vendor_id),
{
    match vendor_id {
        0x163C | 0x8086 | 0x8087 => Vendor::Intel,
        0x1002 | 0x1022 => Vendor::Amd,
        0x10DE => Vendor::Nvidia,
        _ => Vendor::Unknown,
    }
}

/// Whether adapters of `vendor` are taken to be discrete GPUs: AMD and NVIDIA ones are.
pub fn is_discrete_gpu(vendor: Vendor) -> (discrete: bool)
    ensures
        discrete == (vendor == Vendor::Amd || vendor == Vendor::Nvidia),
{
    match vendor {
        Vendor::Unknown => false,
        Vendor::Intel => false,
        Vendor::Amd => true,
        Vendor::Nvidia => true,
    }
}

/// The D3D compiler flags requested by `flags`.
pub open spec fn compile_flag_bits(flags: ShaderCompileFlags) -> u32 {
    (if flags.bits & ShaderCompileFlags::SKIP_OPTIMIZATION == ShaderCompileFlags::SKIP_OPTIMIZATION {
        D3DCOMPILE_SKIP_OPTIMIZATION
    } else {
        0u32
    }) | (if flags.bits & ShaderCompileFlags::DEBUG == ShaderCompileFlags::DEBUG { D3DCOMPILE_DEBUG } else { 0u32 })
}

/// Converts shader compile flags to D3D compiler flags.
pub fn to_d3d12_compile_flags(flags: &ShaderCompileFlags) -> (d3d12_flags: u32)
    ensures
        d3d12_flags == compile_flag_bits(*flags),
{
    let mut d3d12_flags: u32 = 0;
    if flags.contains(ShaderCompileFlags::SKIP_OPTIMIZATION) {
        d3d12_flags = d3d12_flags | D3DCOMPILE_SKIP_OPTIMIZATION;
    }
    if flags.contains(ShaderCompileFlags::DEBUG) {
        d3d12_flags = d3d12_flags | D3DCOMPILE_DEBUG;
    }
    proof {
        assert(0u32 | 4u32 == 4u32) by (bit_vector);
        assert(4u32 | 0u32 == 4u32) by (bit_vector);
        assert(0u32 | 1u32 == 1u32) by (bit_vector);
        assert(0u32 | 0u32 == 0u32) by (bit_vector);
    }
    d3d12_flags
}

/// Size in bytes a buffer of `size_bytes` bytes of data occupies: constant buffers are padded to
/// the constant buffer alignment; append buffers are padded to the counter alignment and followed
/// by a `u32` counter.
pub open spec fn aligned_buffer_size(size_bytes: usize, usage: BufferUsage) -> int {
    if usage.bits & BufferUsage::CONSTANT_BUFFER == BufferUsage::CONSTANT_BUFFER {
        align_pow2_bits(size_bytes as u64, D3D12_CONSTANT_BUFFER_DATA_PLACEMENT_ALIGNMENT) as int
    } else if usage.bits & BufferUsage::APPEND_COUNTER == BufferUsage::APPEND_COUNTER {
        align_pow2_bits(size_bytes as u64, D3D12_UAV_COUNTER_PLACEMENT_ALIGNMENT) as int + 4
    } else {
        size_bytes as int
    }
}

/// The padded size of buffer data holds the data: a constant buffer is the data rounded up
/// to the constant buffer alignment, an append buffer the data rounded up to the counter
/// alignment followed by the four byte counter, and any other buffer just the data.
pub proof fn lemma_aligned_size_covers_data(size_bytes: usize, usage: BufferUsage)
    requires
        size_bytes + D3D12_UAV_COUNTER_PLACEMENT_ALIGNMENT + 4 <= usize::MAX,
    ensures
        aligned_buffer_size(size_bytes, usage) >= size_bytes,
        usage.bits & BufferUsage::CONSTANT_BUFFER == BufferUsage::CONSTANT_BUFFER ==> {
            &&& aligned_buffer_size(size_bytes, usage) % 256 == 0
            &&& aligned_buffer_size(size_bytes, usage) < size_bytes + 256
        },
        usage.bits & BufferUsage::CONSTANT_BUFFER != BufferUsage::CONSTANT_BUFFER
            && usage.bits & BufferUsage::APPEND_COUNTER == BufferUsage::APPEND_COUNTER ==> {
            &&& aligned_buffer_size(size_bytes, usage) - 4 >= size_bytes
            &&& (aligned_buffer_size(size_bytes, usage) - 4) % 4096 == 0
            &&& aligned_buffer_size(size_bytes, usage) - 4 < size_bytes + 4096
        },
        usage.bits & BufferUsage::CONSTANT_BUFFER != BufferUsage::CONSTANT_BUFFER
            && usage.bits & BufferUsage::APPEND_COUNTER != BufferUsage::APPEND_COUNTER
            ==> aligned_buffer_size(size_bytes, usage) == size_bytes,
{
    vstd::arithmetic::power2::lemma2_to64();
    assert(256u64 == vstd::arithmetic::power2::pow2(8));
    assert(4096u64 == vstd::arithmetic::power2::pow2(12));
    assert(is_pow2_u64(256));
    assert(is_pow2_u64(4096));
    lemma_align_pow2_agrees_with_align(size_bytes as u64, 256);
    lemma_align_pow2_agrees_with_align(size_bytes as u64, 4096);
    lemma_align_up_is_least_multiple(size_bytes as nat, 256);
    lemma_align_up_is_least_multiple(size_bytes as nat, 4096);
}

/// Pads the size of buffer data as its usage requires.
pub fn align_buffer_data_size(size_bytes: usize, usage: BufferUsage) -> (size: usize)
    requires
        size_bytes + D3D12_UAV_COUNTER_PLACEMENT_ALIGNMENT + 4 <= usize::MAX,
    ensures
        size == aligned_buffer_size(size_bytes, usage),
{
    if usage.contains(BufferUsage::CONSTANT_BUFFER) {
        let aligned: u64 = align_pow2(size_bytes as u64, D3D12_CONSTANT_BUFFER_DATA_PLACEMENT_ALIGNMENT);
        proof {
            lemma_align_pow2_bits_bound(size_bytes as u64, D3D12_CONSTANT_BUFFER_DATA_PLACEMENT_ALIGNMENT);
        }
        aligned as usize
    } else if usage.contains(BufferUsage::APPEND_COUNTER) {
        let aligned: u64 = align_pow2(size_bytes as u64, D3D12_UAV_COUNTER_PLACEMENT_ALIGNMENT);
        proof {
            lemma_align_pow2_bits_bound(size_bytes as u64, D3D12_UAV_COUNTER_PLACEMENT_ALIGNMENT);
        }
        aligned as usize + 4
    } else {
        size_bytes
    }
}

/// Bytes of one indirect command of `argument_type`; only draw, indexed draw and dispatch
/// commands are supported (the others panic, so they are excluded).
pub open spec fn indirect_command_size(argument_type: IndirectArgumentType) -> usize {
    match argument_type {
        IndirectArgumentType::Draw => 16,
        IndirectArgumentType::DrawIndexed => 20,
        _ => 12,
    }
}

/// Size of the indirect draw command in bytes
pub fn get_indirect_command_size(argument_type: IndirectArgumentType) -> (size: usize)
    requires
        argument_type == IndirectArgumentType::Draw || argument_type == IndirectArgumentType::DrawIndexed
            || argument_type == IndirectArgumentType::Dispatch,
    ensures
        size == indirect_command_size(argument_type),
{
    match argument_type {
        IndirectArgumentType::Draw => 16,
        IndirectArgumentType::DrawIndexed => 20,
        _ => 12,
    }
}

/// Message of the error for data of `data_size` bytes given for a resource of `expected` bytes.
pub open spec fn data_size_mismatch_message(data_size: nat, expected: nat) -> Seq<char> {
    "data size: ("@ + decimal(data_size) + ") bytes does not match expected size: ("@ + decimal(expected)
        + ") bytes"@
}

/// validates the length of data is consistent with a known size_bytes of a buffer or texture
pub fn validate_data_size<T: Sized>(size_bytes: usize, data: Option<&[T]>) -> (result: Result<(), Error>)
    requires
        data matches Some(d) ==> d@.len() * size_of::<T>() <= usize::MAX,
    ensures
        match data {
            Some(d) => if d@.len() * size_of::<T>() == size_bytes {
                result is Ok
            } else {
                result matches Err(e) && e.msg@ == data_size_mismatch_message(
                    d@.len() * size_of::<T>(), size_bytes as nat)
            },
            None => result is Ok,
        },
{
    if let Some(data) = data {
        let elem: usize = core::mem::size_of::<T>();
        let data_size_bytes: usize = data.len() * elem;
        if data_size_bytes != size_bytes {
            let mut msg: String = String::from_str("data size: (");
            append_decimal(&mut msg, data_size_bytes as u64);
            msg.append(") bytes does not match expected size: (");
            append_decimal(&mut msg, size_bytes as u64);
            msg.append(") bytes");
            return Err(Error { msg });
        }
    }
    Ok(())
}

/// Precompiled shader byte code is accepted when it is longer than its 4 byte `DXBC` tag and
/// starts with it.
pub open spec fn is_dxbc(src: Seq<u8>) -> bool {
    src.len() > 4 && src[0] == 0x44u8 && src[1] == 0x58u8 && src[2] == 0x42u8 && src[3] == 0x43u8
}

/// Message of the error for byte code that is not precompiled D3D shader byte code.
pub open spec fn invalid_bytecode_message() -> Seq<char> {
    "hotline_rs::gfx::d3d12: shader byte code (src) is not valid"@
}

/// Takes precompiled shader byte code: a copy of `src` when it is `DXBC` byte code, else the
/// invalid byte code error.
pub fn precompiled_shader(src: &[u8]) -> (bytes: Result<Vec<u8>, Error>)
    ensures
        is_dxbc(src@) ==> (bytes matches Ok(b) && b@ == src@),
        !is_dxbc(src@) ==> (bytes matches Err(e) && e.msg@ == invalid_bytecode_message()),
{
    if src.len() > 4 && src[0] == 0x44 && src[1] == 0x58 && src[2] == 0x42 && src[3] == 0x43 {
        let mut bytes: Vec<u8> = Vec::new();
        let mut i: usize = 0;
        while i < src.len()
            invariant
                i <= src@.len(),
                bytes@ == src@.take(i as int),
            decreases src@.len() - i,
        {
            bytes.push(src[i]);
            i = i + 1;
            assert(bytes@ =~= src@.take(i as int));
        }
        assert(src@.take(src@.len() as int) =~= src@);
        return Ok(bytes);
    }
    Err(Error { msg: String::from_str("hotline_rs::gfx::d3d12: shader byte code (src) is not valid") })
}

/// An adapter as the factory enumerates it: its description, whether it is a software
/// adapter, and its PCI vendor id.
pub struct AdapterDesc {
    pub description: String,
    pub software: bool,
    pub vendor_id: u32,
}

/// Index of the last adapter described as `name`.
pub open spec fn last_named(adapters: Seq<AdapterDesc>, name: Seq<char>) -> Option<nat>
    decreases adapters.len(),
{
    if adapters.len() == 0 {
        None
    } else if adapters.last().description@ == name {
        Some((adapters.len() - 1) as nat)
    } else {
        last_named(adapters.drop_last(), name)
    }
}

/// Index of the first hardware (not software) adapter.
pub open spec fn first_hardware(adapters: Seq<AdapterDesc>) -> Option<nat>
    decreases adapters.len(),
{
    if adapters.len() == 0 {
        None
    } else {
        match first_hardware(adapters.drop_last()) {
            Some(i) => Some(i),
            None => if !adapters.last().software { Some((adapters.len() - 1) as nat) } else { None },
        }
    }
}

/// The adapter is hardware from a vendor of discrete GPUs.
pub open spec fn discrete_hardware(adapter: AdapterDesc) -> bool {
    !adapter.software && (vendor_of(adapter.vendor_id) == Vendor::Amd || vendor_of(adapter.vendor_id) == Vendor::Nvidia)
}

/// Index of the last discrete hardware adapter.
pub open spec fn last_discrete(adapters: Seq<AdapterDesc>) -> Option<nat>
    decreases adapters.len(),
{
    if adapters.len() == 0 {
        None
    } else if discrete_hardware(adapters.last()) {
        Some((adapters.len() - 1) as nat)
    } else {
        last_discrete(adapters.drop_last())
    }
}

/// The adapter picked without a requested name: the first hardware adapter, unless it is not
/// a discrete GPU and a discrete one exists, in which case the last discrete one.
pub open spec fn auto_selection(adapters: Seq<AdapterDesc>) -> Option<nat> {
    match first_hardware(adapters) {
        None => None,
        Some(f) => if discrete_hardware(adapters[f as int]) {
            Some(f)
        } else {
            match last_discrete(adapters) {
                Some(d) => Some(d),
                None => Some(f),
            }
        },
    }
}

/// The adapter a device is created on: the last one described as the requested name, or
/// the automatic choice without a request; adapter 0 when neither picks one.
pub open spec fn selected_adapter(adapters: Seq<AdapterDesc>, requested: Option<Seq<char>>) -> nat {
    let picked: Option<nat> = match requested {
        Some(name) => last_named(adapters, name),
        None => auto_selection(adapters),
    };
    match picked {
        Some(i) => i,
        None => 0,
    }
}

/// The adapter index `selected` is the one `picked` names.
spec fn same_index(selected: Option<usize>, picked: Option<nat>) -> bool {
    match (selected, picked) {
        (Some(s), Some(p)) => s == p,
        (None, None) => true,
        _ => false,
    }
}

/// Picks the adapter to create the device on (see `selected_adapter`).
pub fn select_adapter(adapters: &Vec<AdapterDesc>, requested: &Option<String>) -> (index: usize)
    ensures
        index == selected_adapter(adapters@, match requested {
            Some(name) => Some(name@),
            None => None,
        }),
{
    let ghost wanted: Option<Seq<char>> = match requested {
        Some(name) => Some(name@),
        None => None,
    };
    let mut selected: Option<usize> = None;
    let mut selected_discrete: bool = false;
    let mut i: usize = 0;
    while i < adapters.len()
        invariant
            i <= adapters@.len(),
            wanted == match requested {
                Some(name) => Some(name@),
                None => None::<Seq<char>>,
            },
            wanted is Some ==> same_index(selected, last_named(adapters@.take(i as int), wanted->0)),
            wanted is None ==> same_index(selected, auto_selection(adapters@.take(i as int))),
            wanted is None ==> (first_hardware(adapters@.take(i as int)) matches Some(f)
                ==> selected_discrete == discrete_hardware(adapters@[f as int])),
        decreases adapters@.len() - i,
    {
        let adapter: &AdapterDesc = &adapters[i];
        let ghost prefix: Seq<AdapterDesc> = adapters@.take(i as int);
        let ghost next: Seq<AdapterDesc> = adapters@.take(i + 1);
        proof {
            assert(next.drop_last() =~= prefix);
            assert(next.last() == adapters@[i as int]);
            lemma_first_hardware_in_range(prefix);
            lemma_first_hardware_in_range(next);
            lemma_last_discrete_in_range(prefix);
            lemma_last_discrete_in_range(next);
        }
        match requested {
            Some(name) => {
                if adapter.description == *name {
                    selected = Some(i);
                }
            },
            None => {
                if !adapter.software {
                    let vendor: Vendor = to_vendor(adapter.vendor_id);
                    let discrete: bool = is_discrete_gpu(vendor);
                    if selected.is_none() {
                        selected = Some(i);
                        selected_discrete = discrete;
                    } else if !selected_discrete && discrete {
                        selected = Some(i);
                    }
                }
            },
        }
        i = i + 1;
    }
    assert(adapters@.take(adapters@.len() as int) =~= adapters@);
    match selected {
        Some(index) => index,
        None => 0,
    }
}

proof fn lemma_first_hardware_in_range(adapters: Seq<AdapterDesc>)
    ensures
        first_hardware(adapters) matches Some(f) ==> f < adapters.len() && !adapters[f as int].software,
    decreases adapters.len(),
{
    if adapters.len() > 0 {
        lemma_first_hardware_in_range(adapters.drop_last());
    }
}

proof fn lemma_last_discrete_in_range(adapters: Seq<AdapterDesc>)
    ensures
        last_discrete(adapters) matches Some(d) ==> d < adapters.len() && discrete_hardware(adapters[d as int]),
        last_discrete(adapters) is Some ==> first_hardware(adapters) is Some,
    decreases adapters.len(),
{
    if adapters.len() > 0 {
        lemma_last_discrete_in_range(adapters.drop_last());
    }
}


proof fn lemma_last_named_found(adapters: Seq<AdapterDesc>, name: Seq<char>, i: int)
    requires
        0 <= i < adapters.len(),
        adapters[i].description@ == name,
    ensures
        last_named(adapters, name) matches Some(k) && i <= k < adapters.len() && adapters[k as int].description@ == name,
    decreases adapters.len(),
{
    if adapters.last().description@ != name {
        assert(i < adapters.len() - 1);
        assert(adapters.drop_last()[i] == adapters[i]);
        lemma_last_named_found(adapters.drop_last(), name, i);
    }
}

/// A device asked for an adapter that exists gets one of that description.
pub proof fn lemma_requested_adapter_selected(adapters: Seq<AdapterDesc>, name: Seq<char>, i: int)
    requires
        0 <= i < adapters.len(),
        adapters[i].description@ == name,
    ensures
        selected_adapter(adapters, Some(name)) < adapters.len(),
        adapters[selected_adapter(adapters, Some(name)) as int].description@ == name,
{
    lemma_last_named_found(adapters, name, i);
}

/// Without a request, a discrete GPU is preferred: when there is a discrete hardware adapter
/// the one picked is a discrete hardware adapter.
pub proof fn lemma_discrete_gpu_preferred(adapters: Seq<AdapterDesc>)
    requires
        last_discrete(adapters) is Some,
    ensures
        selected_adapter(adapters, None) < adapters.len(),
        discrete_hardware(adapters[selected_adapter(adapters, None) as int]),
{
    lemma_last_discrete_in_range(adapters);
    lemma_first_hardware_in_range(adapters);
}

} // verus!
