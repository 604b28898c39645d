//! Image descriptions: turning the header of a DDS file or a decoded RGBA8 image into a
//! `TextureInfo`, choosing the file format an image is written as, and recovering image
//! extents from GPU read back data.

use vstd::prelude::*;

use crate::Error;
use crate::gfx::{Format, ReadBackData, ResourceState, TextureInfo, TextureType, TextureUsage};
use crate::gfx::format::{format_block_size, format_components, is_block_compressed, row_pitch,
    block_size_for_format, components_for_format, is_plain_colour, texel_layout, format_channel_bits, ChannelType};
use crate::gfx::d3d12::{
    dxgi_code,
    DXGI_FORMAT_B8G8R8A8_UNORM, DXGI_FORMAT_B8G8R8A8_UNORM_SRGB, DXGI_FORMAT_B8G8R8X8_UNORM, DXGI_FORMAT_B8G8R8X8_UNORM_SRGB, DXGI_FORMAT_D16_UNORM, DXGI_FORMAT_D24_UNORM_S8_UINT, DXGI_FORMAT_D32_FLOAT, DXGI_FORMAT_R16G16B16A16_FLOAT, DXGI_FORMAT_R16G16B16A16_SINT, DXGI_FORMAT_R16G16B16A16_UINT, DXGI_FORMAT_R16G16_FLOAT, DXGI_FORMAT_R16G16_SINT, DXGI_FORMAT_R16G16_UINT, DXGI_FORMAT_R16_FLOAT, DXGI_FORMAT_R16_SINT, DXGI_FORMAT_R16_UINT, DXGI_FORMAT_R16_UNORM, DXGI_FORMAT_R32G32B32A32_FLOAT, DXGI_FORMAT_R32G32B32A32_SINT, DXGI_FORMAT_R32G32B32A32_UINT, DXGI_FORMAT_R32G32B32_FLOAT, DXGI_FORMAT_R32G32B32_SINT, DXGI_FORMAT_R32G32B32_UINT, DXGI_FORMAT_R32G32_FLOAT, DXGI_FORMAT_R32G32_SINT, DXGI_FORMAT_R32G32_UINT, DXGI_FORMAT_R32_FLOAT, DXGI_FORMAT_R32_SINT, DXGI_FORMAT_R32_UINT, DXGI_FORMAT_R8G8B8A8_SINT, DXGI_FORMAT_R8G8B8A8_UINT, DXGI_FORMAT_R8G8B8A8_UNORM, DXGI_FORMAT_R8G8B8A8_UNORM_SRGB, DXGI_FORMAT_UNKNOWN,
};

verus! {

/// Minimal header to describe image data, with a `TextureInfo` and a `Vec<u8>` of actual image data.
pub struct ImageData {
    /// gfx::TextureInfo describing the texture
    pub info: TextureInfo,
    /// Vector of linear image data tightly packed
    pub data: Vec<u8>,
}

/// Legacy (pre DX10) Direct3D formats a DDS header can name.
#[derive(Copy, Clone, Debug, PartialEq, Eq, Structural)]
pub enum D3DFormat {
    A8B8G8R8,
    G16R16,
    A2B10G10R10,
    A1R5G5B5,
    R5G6B5,
    A8,
    A8R8G8B8,
    X8R8G8B8,
    X8B8G8R8,
    A2R10G10B10,
    R8G8B8,
    X1R5G5B5,
    A4R4G4B4,
    X4R4G4B4,
    A8R3G3B2,
    A8L8,
    L16,
    L8,
    A4L4,
    DXT1,
    DXT3,
    DXT5,
    R8G8_B8G8,
    G8R8_G8B8,
    A16B16G16R16,
    Q16W16V16U16,
    R16F,
    G16R16F,
    A16B16G16R16F,
    R32F,
    G32R32F,
    A32B32G32R32F,
    DXT2,
    DXT4,
    UYVY,
    YUY2,
    CXV8U8,
}

/// `caps` bit: the surface is more than a single plain image (mips, cube faces or volume).
pub const DDS_CAPS_COMPLEX: u32 = 0x8;
/// `caps2` bits: all six cube map faces are present.
pub const DDS_CAPS2_CUBEMAP_ALL_FACES: u32 = 0xFC00;

/// The parts of a DDS file header that describe the surface it holds.
#[derive(Copy, Clone, PartialEq, Eq, Structural)]
pub struct DdsDesc {
    /// Raw `caps` flag bits of the header.
    pub caps: u32,
    /// Raw `caps2` flag bits of the header.
    pub caps2: u32,
    pub width: u32,
    pub height: u32,
    pub depth: u32,
    pub array_layers: u32,
    pub mip_levels: u32,
    /// Legacy Direct3D format the header names, if any.
    pub d3d_format: Option<D3DFormat>,
    /// DXGI format code the header names, if any.
    pub dxgi_format: Option<u32>,
}

/// Header values of a DDS file as the DDS reader reports them.
#[derive(Copy, Clone, Debug, PartialEq, Eq, Structural)]
pub struct DdsHeader {
    /// Raw `caps` flag bits.
    pub caps: u32,
    /// Raw `caps2` flag bits.
    pub caps2: u32,
    pub width: u32,
    pub height: u32,
    pub depth: u32,
    pub array_layers: u32,
    pub mip_levels: u32,
    /// Position of the legacy Direct3D format in the reader's list of formats (the order of
    /// `D3DFormat`), if the header names one.
    pub d3d_format: Option<u32>,
    /// DXGI format code, if the header names one.
    pub dxgi_format: Option<u32>,
}

/// The legacy Direct3D format at position `index` of the reader's list of formats.
pub open spec fn d3d_format_at(index: u32) -> Option<D3DFormat> {
    match index {
        0 => Some(D3DFormat::A8B8G8R8),
        1 => Some(D3DFormat::G16R16),
        2 => Some(D3DFormat::A2B10G10R10),
        3 => Some(D3DFormat::A1R5G5B5),
        4 => Some(D3DFormat::R5G6B5),
        5 => Some(D3DFormat::A8),
        6 => Some(D3DFormat::A8R8G8B8),
        7 => Some(D3DFormat::X8R8G8B8),
        8 => Some(D3DFormat::X8B8G8R8),
        9 => Some(D3DFormat::A2R10G10B10),
        10 => Some(D3DFormat::R8G8B8),
        11 => Some(D3DFormat::X1R5G5B5),
        12 => Some(D3DFormat::A4R4G4B4),
        13 => Some(D3DFormat::X4R4G4B4),
        14 => Some(D3DFormat::A8R3G3B2),
        15 => Some(D3DFormat::A8L8),
        16 => Some(D3DFormat::L16),
        17 => Some(D3DFormat::L8),
        18 => Some(D3DFormat::A4L4),
        19 => Some(D3DFormat::DXT1),
        20 => Some(D3DFormat::DXT3),
        21 => Some(D3DFormat::DXT5),
        22 => Some(D3DFormat::R8G8_B8G8),
        23 => Some(D3DFormat::G8R8_G8B8),
        24 => Some(D3DFormat::A16B16G16R16),
        25 => Some(D3DFormat::Q16W16V16U16),
        26 => Some(D3DFormat::R16F),
        27 => Some(D3DFormat::G16R16F),
        28 => Some(D3DFormat::A16B16G16R16F),
        29 => Some(D3DFormat::R32F),
        30 => Some(D3DFormat::G32R32F),
        31 => Some(D3DFormat::A32B32G32R32F),
        32 => Some(D3DFormat::DXT2),
        33 => Some(D3DFormat::DXT4),
        34 => Some(D3DFormat::UYVY),
        35 => Some(D3DFormat::YUY2),
        36 => Some(D3DFormat::CXV8U8),
        _ => None,
    }
}

/// Returns the legacy Direct3D format at position `index` of the reader's list of formats.
pub fn d3d_format_from_index(index: u32) -> (format: Option<D3DFormat>)
    ensures
        format == d3d_format_at(index),
{
    match index {
        0 => Some(D3DFormat::A8B8G8R8),
        1 => Some(D3DFormat::G16R16),
        2 => Some(D3DFormat::A2B10G10R10),
        3 => Some(D3DFormat::A1R5G5B5),
        4 => Some(D3DFormat::R5G6B5),
        5 => Some(D3DFormat::A8),
        6 => Some(D3DFormat::A8R8G8B8),
        7 => Some(D3DFormat::X8R8G8B8),
        8 => Some(D3DFormat::X8B8G8R8),
        9 => Some(D3DFormat::A2R10G10B10),
        10 => Some(D3DFormat::R8G8B8),
        11 => Some(D3DFormat::X1R5G5B5),
        12 => Some(D3DFormat::A4R4G4B4),
        13 => Some(D3DFormat::X4R4G4B4),
        14 => Some(D3DFormat::A8R3G3B2),
        15 => Some(D3DFormat::A8L8),
        16 => Some(D3DFormat::L16),
        17 => Some(D3DFormat::L8),
        18 => Some(D3DFormat::A4L4),
        19 => Some(D3DFormat::DXT1),
        20 => Some(D3DFormat::DXT3),
        21 => Some(D3DFormat::DXT5),
        22 => Some(D3DFormat::R8G8_B8G8),
        23 => Some(D3DFormat::G8R8_G8B8),
        24 => Some(D3DFormat::A16B16G16R16),
        25 => Some(D3DFormat::Q16W16V16U16),
        26 => Some(D3DFormat::R16F),
        27 => Some(D3DFormat::G16R16F),
        28 => Some(D3DFormat::A16B16G16R16F),
        29 => Some(D3DFormat::R32F),
        30 => Some(D3DFormat::G32R32F),
        31 => Some(D3DFormat::A32B32G32R32F),
        32 => Some(D3DFormat::DXT2),
        33 => Some(D3DFormat::DXT4),
        34 => Some(D3DFormat::UYVY),
        35 => Some(D3DFormat::YUY2),
        36 => Some(D3DFormat::CXV8U8),
        _ => None,
    }
}

/// The surface description of a DDS header.
pub open spec fn dds_desc(header: DdsHeader) -> DdsDesc {
    DdsDesc {
        caps: header.caps,
        caps2: header.caps2,
        width: header.width,
        height: header.height,
        depth: header.depth,
        array_layers: header.array_layers,
        mip_levels: header.mip_levels,
        d3d_format: match header.d3d_format {
            Some(index) => d3d_format_at(index),
            None => None,
        },
        dxgi_format: header.dxgi_format,
    }
}

/// Returns the surface description of a DDS header.
pub fn dds_desc_from_header(header: &DdsHeader) -> (desc: DdsDesc)
    ensures
        desc == dds_desc(*header),
{
    DdsDesc {
        caps: header.caps,
        caps2: header.caps2,
        width: header.width,
        height: header.height,
        depth: header.depth,
        array_layers: header.array_layers,
        mip_levels: header.mip_levels,
        d3d_format: match header.d3d_format {
            Some(index) => d3d_format_from_index(index),
            None => None,
        },
        dxgi_format: header.dxgi_format,
    }
}

/// What the DDS reader makes of `bytes`: the header it reports and the pixel data that
/// follows the header, or the message of the error it stops with.
pub uninterp spec fn dds_read(bytes: Seq<u8>) -> Result<(DdsHeader, Seq<u8>), Seq<char>>;

/// Reads a DDS file from `bytes` with `ddsfile::Dds::read`, and reports its header through
/// the reader's accessors (`get_width`, `get_height`, `get_depth`, `get_num_array_layers`,
/// `get_num_mipmap_levels`, `get_d3d_format`, `get_dxgi_format`, the `caps` and `caps2`
/// bits) together with its data; on failure it reports the reader error's message. The
/// contract claims only that the outcome depends on the bytes alone (`dds_read`).
#[verifier::external_body]
fn read_dds(bytes: &[u8]) -> (read: Result<(DdsHeader, Vec<u8>), String>)
    ensures
        match read {
            Ok((header, data)) => dds_read(bytes@) == Ok::<(DdsHeader, Seq<u8>), Seq<char>>((header, data@)),
            Err(msg) => dds_read(bytes@) == Err::<(DdsHeader, Seq<u8>), Seq<char>>(msg@),
        },
{
    match ddsfile::Dds::read(bytes) {
        Ok(dds) => Ok((DdsHeader {
            caps: dds.header.caps.bits(), caps2: dds.header.caps2.bits(), width: dds.get_width(),
            height: dds.get_height(), depth: dds.get_depth(), array_layers: dds.get_num_array_layers(),
            mip_levels: dds.get_num_mipmap_levels(), d3d_format: dds.get_d3d_format().map(|f| f as u32),
            dxgi_format: dds.get_dxgi_format().map(|f| f as u32),
        }, dds.data)),
        Err(e) => Err(e.to_string()),
    }
}

/// Texture dimension of a 1D or 2D surface with `height` rows and `layers` array layers.
pub open spec fn flat_texture_type(height: u32, layers: u32) -> TextureType {
    if height == 1 {
        if layers > 1 { TextureType::Texture1DArray } else { TextureType::Texture1D }
    } else if layers > 1 {
        TextureType::Texture2DArray
    } else {
        TextureType::Texture2D
    }
}

/// Texture dimension of the surface a DDS header describes.
pub open spec fn dds_texture_type(dds: DdsDesc) -> TextureType {
    if dds.caps & DDS_CAPS_COMPLEX == DDS_CAPS_COMPLEX {
        if dds.caps2 & DDS_CAPS2_CUBEMAP_ALL_FACES == DDS_CAPS2_CUBEMAP_ALL_FACES {
            if dds.array_layers > 6 { TextureType::TextureCubeArray } else { TextureType::TextureCube }
        } else if dds.depth > 1 {
            TextureType::Texture3D
        } else {
            flat_texture_type(dds.height, dds.array_layers)
        }
    } else {
        flat_texture_type(dds.height, dds.array_layers)
    }
}

/// Convert ddsfile to gfx::TextureType
pub fn to_gfx_texture_type(dds: &DdsDesc) -> (tex_type: TextureType)
    ensures
        tex_type == dds_texture_type(*dds),
{
    if dds.caps & DDS_CAPS_COMPLEX == DDS_CAPS_COMPLEX {
        if dds.caps2 & DDS_CAPS2_CUBEMAP_ALL_FACES == DDS_CAPS2_CUBEMAP_ALL_FACES {
            if dds.array_layers > 6 {
                TextureType::TextureCubeArray
            } else {
                TextureType::TextureCube
            }
        } else if dds.depth > 1 {
            TextureType::Texture3D
        } else if dds.height == 1 {
            if dds.array_layers > 1 {
                TextureType::Texture1DArray
            } else {
                TextureType::Texture1D
            }
        } else if dds.array_layers > 1 {
            TextureType::Texture2DArray
        } else {
            TextureType::Texture2D
        }
    } else if dds.height == 1 {
        if dds.array_layers > 1 {
            TextureType::Texture1DArray
        } else {
            TextureType::Texture1D
        }
    } else if dds.array_layers > 1 {
        TextureType::Texture2DArray
    } else {
        TextureType::Texture2D
    }
}

/// The `Format` a legacy Direct3D format loads as; `None` for the formats that are not supported.
pub open spec fn d3d_format_to_format(format: D3DFormat) -> Option<Format> {
    match format {
        D3DFormat::A8B8G8R8 => Some(Format::RGBA8n),
        D3DFormat::R16F => Some(Format::R16f),
        D3DFormat::G16R16F => Some(Format::RG16f),
        D3DFormat::A16B16G16R16F => Some(Format::RGBA16f),
        D3DFormat::R32F => Some(Format::R32f),
        D3DFormat::G32R32F => Some(Format::RG32f),
        D3DFormat::A32B32G32R32F => Some(Format::RGBA32f),
        _ => None,
    }
}

/// The `Format` a DXGI format code loads as; `None` for the codes that are not supported.
pub open spec fn dxgi_code_to_format(code: u32) -> Option<Format> {
    if code == DXGI_FORMAT_UNKNOWN { Some(Format::Unknown) }
    else if code == DXGI_FORMAT_R32G32B32A32_FLOAT { Some(Format::RGBA32f) }
    else if code == DXGI_FORMAT_R32G32B32A32_UINT { Some(Format::RGBA32u) }
    else if code == DXGI_FORMAT_R32G32B32A32_SINT { Some(Format::RGBA32i) }
    else if code == DXGI_FORMAT_R32G32B32_FLOAT { Some(Format::RGB32f) }
    else if code == DXGI_FORMAT_R32G32B32_UINT { Some(Format::RGB32u) }
    else if code == DXGI_FORMAT_R32G32B32_SINT { Some(Format::RGB32i) }
    else if code == DXGI_FORMAT_R16G16B16A16_FLOAT { Some(Format::RGBA16f) }
    else if code == DXGI_FORMAT_R16G16B16A16_UINT { Some(Format::RGBA16u) }
    else if code == DXGI_FORMAT_R16G16B16A16_SINT { Some(Format::RGBA16i) }
    else if code == DXGI_FORMAT_R32G32_FLOAT { Some(Format::RG32f) }
    else if code == DXGI_FORMAT_R32G32_UINT { Some(Format::RG32u) }
    else if code == DXGI_FORMAT_R32G32_SINT { Some(Format::RG32i) }
    else if code == DXGI_FORMAT_R8G8B8A8_UNORM { Some(Format::RGBA8n) }
    else if code == DXGI_FORMAT_R8G8B8A8_UNORM_SRGB { Some(Format::RGBA8nSRGB) }
    else if code == DXGI_FORMAT_R8G8B8A8_UINT { Some(Format::RGBA8u) }
    else if code == DXGI_FORMAT_R8G8B8A8_SINT { Some(Format::RGBA8i) }
    else if code == DXGI_FORMAT_R16G16_FLOAT { Some(Format::RG16f) }
    else if code == DXGI_FORMAT_R16G16_UINT { Some(Format::RG16u) }
    else if code == DXGI_FORMAT_R16G16_SINT { Some(Format::RG16i) }
    else if code == DXGI_FORMAT_D32_FLOAT { Some(Format::D32f) }
    else if code == DXGI_FORMAT_R32_FLOAT { Some(Format::R32f) }
    else if code == DXGI_FORMAT_R32_UINT { Some(Format::R32u) }
    else if code == DXGI_FORMAT_R32_SINT { Some(Format::R32i) }
    else if code == DXGI_FORMAT_D24_UNORM_S8_UINT { Some(Format::D24nS8u) }
    else if code == DXGI_FORMAT_R16_FLOAT { Some(Format::R16f) }
    else if code == DXGI_FORMAT_D16_UNORM { Some(Format::D16n) }
    else if code == DXGI_FORMAT_R16_UNORM { Some(Format::R16n) }
    else if code == DXGI_FORMAT_R16_UINT { Some(Format::R16u) }
    else if code == DXGI_FORMAT_R16_SINT { Some(Format::R16i) }
    else if code == DXGI_FORMAT_B8G8R8A8_UNORM { Some(Format::BGRA8n) }
    else if code == DXGI_FORMAT_B8G8R8X8_UNORM { Some(Format::BGRX8n) }
    else if code == DXGI_FORMAT_B8G8R8A8_UNORM_SRGB { Some(Format::BGRA8nSRGB) }
    else if code == DXGI_FORMAT_B8G8R8X8_UNORM_SRGB { Some(Format::BGRX8nSRGB) }
    else { None }
}

/// Channels, bytes per channel and channel type of the legacy Direct3D formats with plain
/// channels of equal width, as their names give them.
pub open spec fn d3d_texel_layout(format: D3DFormat) -> Option<(nat, nat, ChannelType)> {
    match format {
        D3DFormat::A8B8G8R8 | D3DFormat::A8R8G8B8 | D3DFormat::X8R8G8B8 | D3DFormat::X8B8G8R8 => Some((4, 1, ChannelType::Unorm)),
        D3DFormat::G16R16 => Some((2, 2, ChannelType::Unorm)),
        D3DFormat::A16B16G16R16 => Some((4, 2, ChannelType::Unorm)),
        D3DFormat::R8G8B8 => Some((3, 1, ChannelType::Unorm)),
        D3DFormat::A8 | D3DFormat::L8 => Some((1, 1, ChannelType::Unorm)),
        D3DFormat::L16 => Some((1, 2, ChannelType::Unorm)),
        D3DFormat::R16F => Some((1, 2, ChannelType::Float)),
        D3DFormat::G16R16F => Some((2, 2, ChannelType::Float)),
        D3DFormat::A16B16G16R16F => Some((4, 2, ChannelType::Float)),
        D3DFormat::R32F => Some((1, 4, ChannelType::Float)),
        D3DFormat::G32R32F => Some((2, 4, ChannelType::Float)),
        D3DFormat::A32B32G32R32F => Some((4, 4, ChannelType::Float)),
        _ => None,
    }
}

/// A legacy Direct3D format loads as a plain colour format with the same channels, channel
/// width and channel type, so its texels keep their size.
pub proof fn lemma_legacy_dds_format_keeps_texel_layout(format: D3DFormat)
    requires
        d3d_format_to_format(format) is Some,
    ensures
        ({
            let loaded: Format = d3d_format_to_format(format)->Some_0;
            &&& is_plain_colour(loaded)
            &&& d3d_texel_layout(format) == Some(texel_layout(loaded))
            &&& format_block_size(loaded) == texel_layout(loaded).0 * texel_layout(loaded).1
        }),
{
    let loaded: Format = d3d_format_to_format(format)->Some_0;
    assert(format_channel_bits(loaded) / 8 == if format_channel_bits(loaded) == 8 { 1nat }
        else if format_channel_bits(loaded) == 16 { 2nat } else { 4nat });
}

/// Loading a DXGI format and naming the loaded format's DXGI format again gives the code back:
/// every supported code loads as the format whose DXGI format it is.
pub proof fn lemma_dxgi_format_loads_as_itself(code: u32)
    requires
        dxgi_code_to_format(code) is Some,
    ensures
        dxgi_code(dxgi_code_to_format(code)->Some_0) == code,
{
}

/// Every format whose DXGI format is supported by the loader loads back as itself.
pub proof fn lemma_format_round_trips_through_dxgi(format: Format)
    requires
        dxgi_code_to_format(dxgi_code(format)) is Some,
    ensures
        dxgi_code_to_format(dxgi_code(format)) == Some(format),
{
}

/// The `Format` a DDS surface loads as: its legacy Direct3D format if it names one, otherwise
/// its DXGI format; `None` when that format is not supported or the header names neither.
pub open spec fn dds_format(dds: DdsDesc) -> Option<Format> {
    match dds.d3d_format {
        Some(d3d) => d3d_format_to_format(d3d),
        None => match dds.dxgi_format {
            Some(code) => dxgi_code_to_format(code),
            None => None,
        },
    }
}

fn d3d_to_gfx_format(format: D3DFormat) -> (gfx_format: Option<Format>)
    ensures
        gfx_format == d3d_format_to_format(format),
{
    match format {
        D3DFormat::A8B8G8R8 => Some(Format::RGBA8n),
        D3DFormat::R16F => Some(Format::R16f),
        D3DFormat::G16R16F => Some(Format::RG16f),
        D3DFormat::A16B16G16R16F => Some(Format::RGBA16f),
        D3DFormat::R32F => Some(Format::R32f),
        D3DFormat::G32R32F => Some(Format::RG32f),
        D3DFormat::A32B32G32R32F => Some(Format::RGBA32f),
        _ => None,
    }
}

/// Converts a DXGI format code to the `Format` it loads as, if it is supported.
pub fn dxgi_to_gfx_format(code: u32) -> (format: Option<Format>)
    ensures
        format == dxgi_code_to_format(code),
{
    if code == DXGI_FORMAT_UNKNOWN { Some(Format::Unknown) }
    else if code == DXGI_FORMAT_R32G32B32A32_FLOAT { Some(Format::RGBA32f) }
    else if code == DXGI_FORMAT_R32G32B32A32_UINT { Some(Format::RGBA32u) }
    else if code == DXGI_FORMAT_R32G32B32A32_SINT { Some(Format::RGBA32i) }
    else if code == DXGI_FORMAT_R32G32B32_FLOAT { Some(Format::RGB32f) }
    else if code == DXGI_FORMAT_R32G32B32_UINT { Some(Format::RGB32u) }
    else if code == DXGI_FORMAT_R32G32B32_SINT { Some(Format::RGB32i) }
    else if code == DXGI_FORMAT_R16G16B16A16_FLOAT { Some(Format::RGBA16f) }
    else if code == DXGI_FORMAT_R16G16B16A16_UINT { Some(Format::RGBA16u) }
    else if code == DXGI_FORMAT_R16G16B16A16_SINT { Some(Format::RGBA16i) }
    else if code == DXGI_FORMAT_R32G32_FLOAT { Some(Format::RG32f) }
    else if code == DXGI_FORMAT_R32G32_UINT { Some(Format::RG32u) }
    else if code == DXGI_FORMAT_R32G32_SINT { Some(Format::RG32i) }
    else if code == DXGI_FORMAT_R8G8B8A8_UNORM { Some(Format::RGBA8n) }
    else if code == DXGI_FORMAT_R8G8B8A8_UNORM_SRGB { Some(Format::RGBA8nSRGB) }
    else if code == DXGI_FORMAT_R8G8B8A8_UINT { Some(Format::RGBA8u) }
    else if code == DXGI_FORMAT_R8G8B8A8_SINT { Some(Format::RGBA8i) }
    else if code == DXGI_FORMAT_R16G16_FLOAT { Some(Format::RG16f) }
    else if code == DXGI_FORMAT_R16G16_UINT { Some(Format::RG16u) }
    else if code == DXGI_FORMAT_R16G16_SINT { Some(Format::RG16i) }
    else if code == DXGI_FORMAT_D32_FLOAT { Some(Format::D32f) }
    else if code == DXGI_FORMAT_R32_FLOAT { Some(Format::R32f) }
    else if code == DXGI_FORMAT_R32_UINT { Some(Format::R32u) }
    else if code == DXGI_FORMAT_R32_SINT { Some(Format::R32i) }
    else if code == DXGI_FORMAT_D24_UNORM_S8_UINT { Some(Format::D24nS8u) }
    else if code == DXGI_FORMAT_R16_FLOAT { Some(Format::R16f) }
    else if code == DXGI_FORMAT_D16_UNORM { Some(Format::D16n) }
    else if code == DXGI_FORMAT_R16_UNORM { Some(Format::R16n) }
    else if code == DXGI_FORMAT_R16_UINT { Some(Format::R16u) }
    else if code == DXGI_FORMAT_R16_SINT { Some(Format::R16i) }
    else if code == DXGI_FORMAT_B8G8R8A8_UNORM { Some(Format::BGRA8n) }
    else if code == DXGI_FORMAT_B8G8R8X8_UNORM { Some(Format::BGRX8n) }
    else if code == DXGI_FORMAT_B8G8R8A8_UNORM_SRGB { Some(Format::BGRA8nSRGB) }
    else if code == DXGI_FORMAT_B8G8R8X8_UNORM_SRGB { Some(Format::BGRX8nSRGB) }
    else { None }
}

/// The `Format` a DDS surface loads as, or `None` when it is not supported.
pub fn gfx_format_for_dds(dds: &DdsDesc) -> (format: Option<Format>)
    ensures
        format == dds_format(*dds),
{
    match dds.d3d_format {
        Some(d3d) => d3d_to_gfx_format(d3d),
        None => match dds.dxgi_format {
            Some(code) => dxgi_to_gfx_format(code),
            None => None,
        },
    }
}

/// Convert ddsfile format D3D or DXGI to gfx::Format.. gfx does not expose all formats. this may grow over time.
pub fn to_gfx_format(dds: &DdsDesc) -> (format: Format)
    requires
        dds_format(*dds) is Some,
    ensures
        dds_format(*dds) == Some(format),
{
    match gfx_format_for_dds(dds) {
        Some(format) => format,
        None => Format::Unknown,
    }
}

/// The texture description a supported DDS surface loads with.
pub open spec fn dds_texture_info(dds: DdsDesc) -> TextureInfo
    recommends
        dds_format(dds) is Some,
{
    TextureInfo {
        tex_type: dds_texture_type(dds),
        format: dds_format(dds).unwrap(),
        width: dds.width as u64,
        height: dds.height as u64,
        depth: dds.depth,
        array_layers: dds.array_layers,
        mip_levels: dds.mip_levels,
        samples: 1,
        usage: TextureUsage { bits: TextureUsage::SHADER_RESOURCE },
        initial_state: ResourceState::ShaderResource,
    }
}

/// Image data for a loaded DDS file: its surface description and its pixel data as stored.
pub fn dds_image_data(dds: &DdsDesc, data: Vec<u8>) -> (image: ImageData)
    requires
        dds_format(*dds) is Some,
    ensures
        image.info == dds_texture_info(*dds),
        image.data@ == data@,
{
    ImageData {
        info: TextureInfo {
            tex_type: to_gfx_texture_type(dds),
            format: to_gfx_format(dds),
            width: dds.width as u64,
            height: dds.height as u64,
            depth: dds.depth,
            array_layers: dds.array_layers,
            mip_levels: dds.mip_levels,
            samples: 1,
            usage: TextureUsage::from_bits(TextureUsage::SHADER_RESOURCE),
            initial_state: ResourceState::ShaderResource,
        },
        data,
    }
}

/// Loads the DDS file in `bytes`: the reader's error when it cannot read them, `None` when
/// the surface's format has no texture format (see `dds_format`), else the image data of the
/// surface and its pixel data.
pub fn load_dds(bytes: &[u8]) -> (image: Result<Option<ImageData>, Error>)
    ensures
        match dds_read(bytes@) {
            Err(msg) => image matches Err(e) && e.msg@ == msg,
            Ok((header, data)) => if dds_format(dds_desc(header)) is Some {
                image matches Ok(Some(img)) && img.info == dds_texture_info(dds_desc(header)) && img.data@ == data
            } else {
                image matches Ok(None)
            },
        },
{
    match read_dds(bytes) {
        Err(msg) => Err(Error { msg }),
        Ok((header, data)) => {
            let desc: DdsDesc = dds_desc_from_header(&header);
            if gfx_format_for_dds(&desc).is_some() {
                Ok(Some(dds_image_data(&desc, data)))
            } else {
                Ok(None)
            }
        },
    }
}

/// The texture description of a decoded `width` x `height` RGBA8 image: the default
/// description with the format and extents replaced.
pub open spec fn rgba8_texture_info(width: i32, height: i32) -> TextureInfo {
    TextureInfo {
        format: Format::RGBA8n,
        width: width as u64,
        height: height as u64,
        ..crate::gfx::default_texture_info()
    }
}

/// Image data for a decoded image of `width` x `height` tightly packed RGBA8 texels.
pub fn rgba8_image_data(width: i32, height: i32, data: Vec<u8>) -> (image: ImageData)
    ensures
        image.info == rgba8_texture_info(width, height),
        image.data@ == data@,
{
    let default_info: TextureInfo = TextureInfo::default();
    ImageData {
        info: TextureInfo {
            format: Format::RGBA8n,
            width: width as u64,
            height: height as u64,
            ..default_info
        },
        data,
    }
}


/// Loading a DDS surface stored in the DXGI format a `Format` is created with gives that `Format`
/// back; this holds for every format except the block compressed ones and `D32fS8X24u`, which
/// loading does not support.
pub proof fn lemma_dxgi_format_round_trip(format: Format)
    ensures
        !is_block_compressed(format) && format != Format::D32fS8X24u
            ==> dxgi_code_to_format(dxgi_code(format)) == Some(format),
        is_block_compressed(format) || format == Format::D32fS8X24u
            ==> dxgi_code_to_format(dxgi_code(format)) is None,
{
}

/// Every supported DXGI code loads as the `Format` whose resources are created with that code.
pub proof fn lemma_dxgi_code_recovered(code: u32)
    ensures
        dxgi_code_to_format(code) matches Some(format) ==> dxgi_code(format) == code,
{
}

/// The format GPU read back data is interpreted as when written to an image: `Unknown` is
/// treated as RGBA8n.
pub open spec fn readback_format(format: Format) -> Format {
    if format == Format::Unknown { Format::RGBA8n } else { format }
}

/// Extent of an image written from GPU read back data, as (width, height, components):
/// texels per row from the row pitch, rows per slice from the slice pitch.
pub open spec fn readback_extent(data: ReadBackData) -> (u64, u64, u32)
    recommends
        data.row_pitch > 0,
{
    let format: Format = readback_format(data.format);
    (
        (data.row_pitch / format_block_size(format) as usize) as u64,
        (data.slice_pitch / data.row_pitch) as u64,
        format_components(format) as u32,
    )
}

/// Width, height and component count of the image formed by GPU read back data, which accounts for
/// the row and slice pitch of the data.
pub fn readback_image_extent(data: &ReadBackData) -> (extent: (u64, u64, u32))
    requires
        data.row_pitch > 0,
    ensures
        extent == readback_extent(*data),
{
    let fmt: Format = if data.format == Format::Unknown {
        Format::RGBA8n
    } else {
        data.format
    };
    let block: u32 = block_size_for_format(fmt);
    let w: usize = data.row_pitch / block as usize;
    let h: usize = data.slice_pitch / data.row_pitch;
    let c: u32 = components_for_format(fmt);
    (w as u64, h as u64, c)
}

/// For read back data whose row pitch is the tight row pitch of an uncompressed image, the width
/// recovered from the pitch is the width of the image.
pub proof fn lemma_readback_width_recovers_row_pitch(format: Format, width: u64)
    requires
        !is_block_compressed(format),
        format != Format::Unknown,
        width >= 1,
        row_pitch(format, width as nat) <= usize::MAX,
    ensures
        row_pitch(format, width as nat) / format_block_size(format) == width,
{
    let bs: int = format_block_size(format) as int;
    let w: int = width as int;
    assert(bs > 0);
    assert(row_pitch(format, width as nat) == bs * w);
    assert((bs * w) / bs == w) by (nonlinear_arith)
        requires bs > 0;
}


/// `a` and `b` hold the same characters.
fn str_eq(a: &str, b: &str) -> (equal: bool)
    ensures
        equal == (a@ == b@),
{
    let a_owned: String = String::from_str(a);
    let b_owned: String = String::from_str(b);
    a_owned == b_owned
}

/// `filename` ends with the `.dds` extension (compared case sensitively).
pub open spec fn is_dds_path(filename: Seq<char>) -> bool {
    filename.len() >= 4 && filename.subrange(filename.len() - 4, filename.len() as int) == ".dds"@
}

/// Whether `filename` names a DDS file, which is loaded by its header rather than decoded.
pub fn is_dds_filename(filename: &str) -> (dds: bool)
    ensures
        dds == is_dds_path(filename@),
{
    proof {
        reveal_strlit(".dds");
    }
    let len: usize = filename.unicode_len();
    if len < 4 {
        return false;
    }
    let dds: bool = filename.get_char(len - 4) == '.' && filename.get_char(len - 3) == 'd'
        && filename.get_char(len - 2) == 'd' && filename.get_char(len - 1) == 's';
    proof {
        let tail: Seq<char> = filename@.subrange(len - 4, len as int);
        if dds {
            assert(tail =~= ".dds"@);
        } else {
            if tail == ".dds"@ {
                assert(tail[0] == filename@[len - 4]);
                assert(tail[1] == filename@[len - 3]);
                assert(tail[2] == filename@[len - 2]);
                assert(tail[3] == filename@[len - 1]);
            }
        }
    }
    dds
}

/// Image file formats an image can be written as, chosen by the file name's extension.
#[derive(Copy, Clone, Debug, PartialEq, Eq, Structural)]
pub enum ImageFileKind {
    Png,
    Bmp,
    Tga,
    Jpg,
}

/// The extension of `path` as `std::path::Path::extension` computes it (the part of the file
/// name after its last `.`), or `None` where it finds no extension.
pub uninterp spec fn path_extension(path: Seq<char>) -> Option<Seq<char>>;

/// Calls `std::path::Path::extension` on `filename`. The contract claims only that the result
/// is `path_extension` of the file name; what that extension is, is left to `std`.
#[verifier::external_body]
fn file_extension(filename: &str) -> (ext: Option<&str>)
    ensures
        match ext {
            Some(e) => path_extension(filename@) == Some(e@),
            None => path_extension(filename@) is None,
        },
{
    match std::path::Path::new(filename).extension() {
        Some(e) => e.to_str(),
        None => None,
    }
}

/// The image file format an extension selects, if it is one of png, bmp, tga or jpg.
pub open spec fn extension_kind(ext: Seq<char>) -> Option<ImageFileKind> {
    if ext == "png"@ {
        Some(ImageFileKind::Png)
    } else if ext == "bmp"@ {
        Some(ImageFileKind::Bmp)
    } else if ext == "tga"@ {
        Some(ImageFileKind::Tga)
    } else if ext == "jpg"@ {
        Some(ImageFileKind::Jpg)
    } else {
        None
    }
}

/// Message of the error for an extension that names no supported image format.
pub open spec fn unsupported_format_message(ext: Seq<char>) -> Seq<char> {
    "hotline_rs::image: Image format '"@ + ext + "' is not supported"@
}

/// Message of the error for a file name without an extension.
pub open spec fn missing_extension_message(filename: Seq<char>) -> Seq<char> {
    "hotline_rs::image: Filename '"@ + filename + "' has no extension!"@
}

/// Chooses the image file format to write `filename` as from its extension (png, bmp, tga and
/// jpg are supported); `ext` is the extension `std::path` finds in `filename`.
pub fn image_kind_for_extension(filename: &str, ext: Option<&str>) -> (kind: Result<ImageFileKind, Error>)
    ensures
        match ext {
            Some(e) => match extension_kind(e@) {
                Some(k) => kind == Ok::<ImageFileKind, Error>(k),
                None => kind matches Err(err) && err.msg@ == unsupported_format_message(e@),
            },
            None => kind matches Err(err) && err.msg@ == missing_extension_message(filename@),
        },
{
    match ext {
        Some(e) => {
            if str_eq(e, "png") {
                Ok(ImageFileKind::Png)
            } else if str_eq(e, "bmp") {
                Ok(ImageFileKind::Bmp)
            } else if str_eq(e, "tga") {
                Ok(ImageFileKind::Tga)
            } else if str_eq(e, "jpg") {
                Ok(ImageFileKind::Jpg)
            } else {
                let mut msg: String = String::from_str("hotline_rs::image: Image format '");
                msg.append(e);
                msg.append("' is not supported");
                Err(Error { msg })
            }
        },
        None => {
            let mut msg: String = String::from_str("hotline_rs::image: Filename '");
            msg.append(filename);
            msg.append("' has no extension!");
            Err(Error { msg })
        },
    }
}

/// Writes a buffer of image data to a file. The type of image format written is determined by
/// filename ext; this chooses it: png, bmp, tga and jpg are supported.
pub fn image_kind_for_filename(filename: &str) -> (kind: Result<ImageFileKind, Error>)
    ensures
        match path_extension(filename@) {
            Some(e) => match extension_kind(e) {
                Some(k) => kind == Ok::<ImageFileKind, Error>(k),
                None => kind matches Err(err) && err.msg@ == unsupported_format_message(e),
            },
            None => kind matches Err(err) && err.msg@ == missing_extension_message(filename@),
        },
{
    let ext: Option<&str> = file_extension(filename);
    image_kind_for_extension(filename, ext)
}

} // verus!
