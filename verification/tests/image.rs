use hotline::gfx::d3d12::{to_dxgi_format, DXGI_FORMAT_BC1_UNORM, DXGI_FORMAT_R8G8B8A8_UNORM};
use hotline::gfx::{Format, ReadBackData, ResourceState, TextureType, TextureUsage};
use hotline::image::{
    dds_image_data, dxgi_to_gfx_format, gfx_format_for_dds, image_kind_for_extension,
    image_kind_for_filename, is_dds_filename, readback_image_extent, rgba8_image_data,
    to_gfx_format, to_gfx_texture_type, D3DFormat, DdsDesc, ImageFileKind,
    DDS_CAPS2_CUBEMAP_ALL_FACES, DDS_CAPS_COMPLEX,
};

fn desc(caps: u32, caps2: u32, height: u32, depth: u32, layers: u32) -> DdsDesc {
    DdsDesc {
        caps,
        caps2,
        width: 64,
        height,
        depth,
        array_layers: layers,
        mip_levels: 1,
        d3d_format: None,
        dxgi_format: Some(DXGI_FORMAT_R8G8B8A8_UNORM),
    }
}

#[test]
fn texture_types_of_dds_surfaces() {
    let cube = DDS_CAPS_COMPLEX;
    let faces = DDS_CAPS2_CUBEMAP_ALL_FACES;
    assert!(to_gfx_texture_type(&desc(cube, faces, 64, 1, 6)) == TextureType::TextureCube);
    assert!(to_gfx_texture_type(&desc(cube, faces, 64, 1, 12)) == TextureType::TextureCubeArray);
    assert!(to_gfx_texture_type(&desc(cube, 0, 64, 8, 1)) == TextureType::Texture3D);
    assert!(to_gfx_texture_type(&desc(cube, 0, 1, 1, 4)) == TextureType::Texture1DArray);
    assert!(to_gfx_texture_type(&desc(0, 0, 1, 1, 1)) == TextureType::Texture1D);
    assert!(to_gfx_texture_type(&desc(0, 0, 64, 1, 3)) == TextureType::Texture2DArray);
    assert!(to_gfx_texture_type(&desc(0, 0, 64, 1, 1)) == TextureType::Texture2D);
    // cube faces without the complex cap are a plain 2D array
    assert!(to_gfx_texture_type(&desc(0, faces, 64, 1, 6)) == TextureType::Texture2DArray);
    // depth without the complex cap is ignored
    assert!(to_gfx_texture_type(&desc(0, 0, 64, 8, 1)) == TextureType::Texture2D);
}

#[test]
fn formats_of_dds_surfaces() {
    let mut d = desc(0, 0, 64, 1, 1);
    assert!(to_gfx_format(&d) == Format::RGBA8n);
    d.d3d_format = Some(D3DFormat::A16B16G16R16F);
    assert!(to_gfx_format(&d) == Format::RGBA16f);
    // a legacy format wins over the dxgi one, and unsupported legacy formats are rejected
    d.d3d_format = Some(D3DFormat::DXT1);
    assert!(gfx_format_for_dds(&d).is_none());
    d.d3d_format = None;
    d.dxgi_format = Some(DXGI_FORMAT_BC1_UNORM);
    assert!(gfx_format_for_dds(&d).is_none());
    d.dxgi_format = None;
    assert!(gfx_format_for_dds(&d).is_none());
}

#[test]
fn dxgi_codes_round_trip() {
    let all = [
        Format::Unknown, Format::R16n, Format::R16u, Format::R16i, Format::R16f, Format::R32u,
        Format::R32i, Format::R32f, Format::RG16f, Format::RG16u, Format::RG16i, Format::RG32u,
        Format::RG32i, Format::RG32f, Format::RGB32u, Format::RGB32i, Format::RGB32f,
        Format::RGBA8nSRGB, Format::RGBA8n, Format::RGBA8u, Format::RGBA8i, Format::BGRA8n,
        Format::BGRX8n, Format::BGRA8nSRGB, Format::BGRX8nSRGB, Format::RGBA16u, Format::RGBA16i,
        Format::RGBA16f, Format::RGBA32u, Format::RGBA32i, Format::RGBA32f, Format::D32f,
        Format::D24nS8u, Format::D16n,
    ];
    for f in all {
        assert!(dxgi_to_gfx_format(to_dxgi_format(f)) == Some(f));
    }
    for f in [Format::D32fS8X24u, Format::BC1n, Format::BC3nSRGB, Format::BC5n] {
        assert!(dxgi_to_gfx_format(to_dxgi_format(f)).is_none());
    }
}

#[test]
fn image_data_descriptions() {
    let d = desc(DDS_CAPS_COMPLEX, DDS_CAPS2_CUBEMAP_ALL_FACES, 32, 1, 6);
    let image = dds_image_data(&d, vec![1, 2, 3]);
    assert!(image.info.tex_type == TextureType::TextureCube);
    assert!(image.info.format == Format::RGBA8n);
    assert_eq!((image.info.width, image.info.height, image.info.array_layers), (64, 32, 6));
    assert_eq!(image.info.samples, 1);
    assert!(image.info.usage.contains(TextureUsage::SHADER_RESOURCE));
    assert!(image.info.initial_state == ResourceState::ShaderResource);
    assert_eq!(image.data, vec![1, 2, 3]);

    let decoded = rgba8_image_data(3, 2, vec![0; 24]);
    assert!(decoded.info.format == Format::RGBA8n);
    assert_eq!((decoded.info.width, decoded.info.height, decoded.info.depth), (3, 2, 1));
    assert!(decoded.info.tex_type == TextureType::Texture2D);
    assert_eq!(decoded.data.len(), 24);
}

#[test]
fn dds_file_names() {
    assert!(is_dds_filename("textures/sky.dds"));
    assert!(is_dds_filename(".dds"));
    assert!(!is_dds_filename("textures/sky.DDS"));
    assert!(!is_dds_filename("dds"));
    assert!(!is_dds_filename("sky.dds.png"));
}

#[test]
fn image_file_kinds() {
    assert!(image_kind_for_filename("out/frame.png").ok() == Some(ImageFileKind::Png));
    assert!(image_kind_for_filename("frame.bmp").ok() == Some(ImageFileKind::Bmp));
    assert!(image_kind_for_filename("frame.tga").ok() == Some(ImageFileKind::Tga));
    assert!(image_kind_for_filename("a.b/frame.jpg").ok() == Some(ImageFileKind::Jpg));
    match image_kind_for_filename("frame.gif") {
        Err(e) => assert_eq!(e.msg, "hotline_rs::image: Image format 'gif' is not supported"),
        Ok(_) => panic!("gif is not supported"),
    }
    match image_kind_for_filename("frame") {
        Err(e) => assert_eq!(e.msg, "hotline_rs::image: Filename 'frame' has no extension!"),
        Ok(_) => panic!("no extension"),
    }
    // a leading dot is no extension
    assert!(image_kind_for_filename(".png").is_err());
    assert!(image_kind_for_extension("x", Some("tga")).ok() == Some(ImageFileKind::Tga));
}

#[test]
fn readback_extents() {
    let data = ReadBackData {
        data: vec![0; 16],
        format: Format::Unknown,
        size: 4096,
        row_pitch: 256,
        slice_pitch: 256 * 8,
    };
    // unknown is read as RGBA8n: 64 texels of 4 bytes, 8 rows, 4 components
    assert_eq!(readback_image_extent(&data), (64, 8, 4));
    let data = ReadBackData { format: Format::RGBA32f, ..data };
    assert_eq!(readback_image_extent(&data), (16, 8, 4));
    let data = ReadBackData { format: Format::RGB32f, row_pitch: 120, slice_pitch: 1200, ..data };
    assert_eq!(readback_image_extent(&data), (10, 10, 3));
}

use ddsfile::{Dds, DxgiFormat, NewD3dParams, NewDxgiParams};
use hotline::image::{d3d_format_from_index, load_dds};

fn dds_bytes(dds: &Dds) -> Vec<u8> {
    let mut bytes: Vec<u8> = Vec::new();
    dds.write(&mut bytes).unwrap();
    bytes
}

#[test]
fn legacy_dds_files_load() {
    let mut dds = Dds::new_d3d(NewD3dParams {
        height: 4,
        width: 8,
        depth: None,
        format: ddsfile::D3DFormat::A8B8G8R8,
        mipmap_levels: None,
        caps2: None,
    })
    .unwrap();
    for (i, b) in dds.data.iter_mut().enumerate() {
        *b = i as u8;
    }
    let image = load_dds(&dds_bytes(&dds)).ok().flatten().unwrap();
    assert!(image.info.format == Format::RGBA8n);
    assert!(image.info.tex_type == TextureType::Texture2D);
    assert_eq!((image.info.width, image.info.height, image.info.depth), (8, 4, 1));
    assert_eq!((image.info.array_layers, image.info.mip_levels, image.info.samples), (1, 1, 1));
    assert_eq!(image.data, dds.data);
}

#[test]
fn dxgi_dds_files_load() {
    let dds = Dds::new_dxgi(NewDxgiParams {
        height: 2,
        width: 2,
        depth: None,
        format: DxgiFormat::R32G32B32A32_Float,
        mipmap_levels: None,
        array_layers: Some(3),
        caps2: None,
        is_cubemap: false,
        resource_dimension: ddsfile::D3D10ResourceDimension::Texture2D,
        alpha_mode: ddsfile::AlphaMode::Unknown,
    })
    .unwrap();
    let image = load_dds(&dds_bytes(&dds)).ok().flatten().unwrap();
    assert!(image.info.format == Format::RGBA32f);
    assert_eq!(image.info.array_layers, 3);
    assert!(image.info.tex_type == TextureType::Texture2DArray);
    assert_eq!(image.data.len(), dds.data.len());
}

#[test]
fn unsupported_and_broken_dds_files() {
    let dds = Dds::new_d3d(NewD3dParams {
        height: 4,
        width: 4,
        depth: None,
        format: ddsfile::D3DFormat::DXT1,
        mipmap_levels: None,
        caps2: None,
    })
    .unwrap();
    assert!(matches!(load_dds(&dds_bytes(&dds)), Ok(None)));
    match load_dds(b"not a dds file at all") {
        Err(err) => assert_eq!(err.msg, "Bad Magic Number"),
        Ok(_) => panic!("bytes without the DDS magic number loaded"),
    }
}

#[test]
fn legacy_formats_by_reader_position() {
    assert!(d3d_format_from_index(0) == Some(D3DFormat::A8B8G8R8));
    assert!(d3d_format_from_index(19) == Some(D3DFormat::DXT1));
    assert!(d3d_format_from_index(36) == Some(D3DFormat::CXV8U8));
    assert!(d3d_format_from_index(37).is_none());
    assert!(d3d_format_from_index(ddsfile::D3DFormat::R32F as u32) == Some(D3DFormat::R32F));
}
