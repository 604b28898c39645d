use hotline::gfx::d3d12::upload::{fill_upload_buffer, plan_texture_upload, SubresourceUpload};
use hotline::gfx::{Format, ResourceState, TextureInfo, TextureType, TextureUsage};

fn info(format: Format, width: u64, height: u64, mips: u32, layers: u32) -> TextureInfo {
    TextureInfo {
        tex_type: if layers > 1 { TextureType::Texture2DArray } else { TextureType::Texture2D },
        format,
        width,
        height,
        depth: 1,
        array_layers: layers,
        mip_levels: mips,
        samples: 1,
        usage: TextureUsage::from_bits(TextureUsage::SHADER_RESOURCE),
        initial_state: ResourceState::ShaderResource,
    }
}

#[test]
fn uploads_walk_layers_then_mips() {
    let uploads = plan_texture_upload(&info(Format::RGBA8n, 64, 32, 3, 2));
    assert_eq!(uploads.len(), 6);
    assert_eq!(
        uploads[0],
        SubresourceUpload {
            subresource: 0,
            data_offset: 0,
            width: 64,
            height: 32,
            depth: 1,
            row_pitch: 256,
            upload_pitch: 256,
            footprint_width: 64,
            footprint_height: 32,
            upload_size: 8192,
            copy_size: 8192,
        }
    );
    assert_eq!((uploads[1].data_offset, uploads[1].row_pitch, uploads[1].upload_pitch), (8192, 128, 256));
    assert_eq!((uploads[1].upload_size, uploads[1].copy_size), (4096, 2048));
    assert_eq!((uploads[2].data_offset, uploads[2].width, uploads[2].height), (10240, 16, 8));
    assert_eq!((uploads[3].subresource, uploads[3].data_offset), (3, 10752));
    assert_eq!((uploads[5].subresource, uploads[5].data_offset), (5, 10752 + 10240));
}

#[test]
fn compressed_uploads_use_whole_blocks() {
    let uploads = plan_texture_upload(&info(Format::BC1n, 16, 16, 1, 1));
    assert_eq!(uploads.len(), 1);
    let u = uploads[0];
    assert_eq!((u.row_pitch, u.upload_pitch, u.copy_size), (32, 256, 128));
    assert_eq!((u.footprint_width, u.footprint_height, u.upload_size), (16, 16, 4096));
    let tiny = plan_texture_upload(&info(Format::BC1n, 2, 2, 1, 1))[0];
    assert_eq!((tiny.footprint_width, tiny.footprint_height, tiny.row_pitch), (4, 4, 8));
}

#[test]
fn upload_buffers_pad_rows() {
    let texture = info(Format::RGBA8n, 64, 32, 3, 1);
    let uploads = plan_texture_upload(&texture);
    let data: Vec<u8> = (0..10752u32).map(|i| (i % 251) as u8).collect();
    let whole = fill_upload_buffer(&data, &uploads[0]);
    assert_eq!(whole.len(), 8192);
    assert_eq!(&whole[..], &data[..8192]);
    let padded = fill_upload_buffer(&data, &uploads[1]);
    assert_eq!(padded.len(), 4096);
    for y in 0..16usize {
        assert_eq!(&padded[y * 256..y * 256 + 128], &data[8192 + y * 128..8192 + (y + 1) * 128]);
        assert!(padded[y * 256 + 128..(y + 1) * 256].iter().all(|b| *b == 0));
    }
}
