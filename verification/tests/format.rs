use hotline::gfx::format::{
    align, align_pow2, block_size_for_format, components_for_format, mip_levels_for_dimension,
    num_32bit_constants, row_pitch_for_format, size_for_format, size_for_format_mipped,
    slice_pitch_for_format, texels_per_block_for_format,
};
use hotline::gfx::Format;

#[test]
fn block_sizes_of_formats() {
    assert_eq!(block_size_for_format(Format::Unknown), 0);
    assert_eq!(block_size_for_format(Format::R16n), 2);
    assert_eq!(block_size_for_format(Format::RGBA8n), 4);
    assert_eq!(block_size_for_format(Format::RGB32f), 12);
    assert_eq!(block_size_for_format(Format::RGBA32f), 16);
    assert_eq!(block_size_for_format(Format::D24nS8u), 4);
    assert_eq!(block_size_for_format(Format::D32f), 4);
    assert_eq!(block_size_for_format(Format::BC1n), 8);
    assert_eq!(block_size_for_format(Format::BC2nSRGB), 16);
    assert_eq!(block_size_for_format(Format::BC5n), 16);
}

#[test]
fn texels_per_block_and_components() {
    assert_eq!(texels_per_block_for_format(Format::BC3n), 4);
    assert_eq!(texels_per_block_for_format(Format::RGBA8n), 1);
    assert_eq!(components_for_format(Format::RGB32u), 3);
    assert_eq!(components_for_format(Format::RGBA16f), 4);
    assert_eq!(components_for_format(Format::BC2n), 4);
    assert_eq!(components_for_format(Format::D32fS8X24u), 2);
    assert_eq!(components_for_format(Format::Unknown), 0);
}

#[test]
fn pitches_of_uncompressed_images() {
    assert_eq!(row_pitch_for_format(Format::RGBA8n, 256), 1024);
    assert_eq!(slice_pitch_for_format(Format::RGBA8n, 256, 128), 1024 * 128);
    assert_eq!(size_for_format(Format::RGBA8n, 256, 128, 4), 1024 * 128 * 4);
    // zero extents still count one block
    assert_eq!(row_pitch_for_format(Format::R32f, 0), 4);
}

#[test]
fn pitches_of_block_compressed_images() {
    // 64 texels wide = 16 blocks of 8 bytes
    assert_eq!(row_pitch_for_format(Format::BC1n, 64), 128);
    assert_eq!(slice_pitch_for_format(Format::BC1n, 64, 64), 128 * 16);
    // narrower than a block still takes one block
    assert_eq!(row_pitch_for_format(Format::BC3n, 2), 16);
}

#[test]
fn single_slice_volume_is_slice_pitch() {
    for &(w, h) in &[(1u64, 1u64), (7, 3), (640, 480)] {
        assert_eq!(size_for_format(Format::RGBA16f, w, h, 1), slice_pitch_for_format(Format::RGBA16f, w, h));
    }
}

#[test]
fn mipped_sizes() {
    // single level with layers: the level size times the layers
    assert_eq!(size_for_format_mipped(Format::RGBA8n, 4, 4, 1, 6, 1), 64 * 6);
    // 4x4 -> 2x2 -> 1x1
    assert_eq!(size_for_format_mipped(Format::RGBA8n, 4, 4, 1, 1, 3), 64 + 16 + 4);
    // extents clamp at one
    assert_eq!(size_for_format_mipped(Format::R32f, 1, 1, 1, 1, 4), 16);
    assert_eq!(size_for_format_mipped(Format::R32f, 8, 8, 8, 2, 0), 0);
}

#[test]
fn mip_levels() {
    assert_eq!(mip_levels_for_dimension(1, 1), 1);
    assert_eq!(mip_levels_for_dimension(0, 0), 1);
    assert_eq!(mip_levels_for_dimension(256, 256), 9);
    assert_eq!(mip_levels_for_dimension(1024, 512), 11);
    assert_eq!(mip_levels_for_dimension(1000, 3), 10);
}

#[test]
fn alignment_rounds_up() {
    assert_eq!(align(0, 16), 0);
    assert_eq!(align(1, 16), 16);
    assert_eq!(align(16, 16), 16);
    assert_eq!(align(17, 16), 32);
    assert_eq!(align(10, 3), 12);
    assert_eq!(align_pow2(1, 256), 256);
    assert_eq!(align_pow2(256, 256), 256);
    assert_eq!(align_pow2(257, 256), 512);
    assert_eq!(align_pow2(0, 1), 0);
}

#[test]
fn align_pow2_agrees_with_align_for_powers_of_two() {
    for value in [0u64, 1, 5, 255, 256, 4095, 4097, 123456] {
        for shift in 0..13 {
            let a = 1u64 << shift;
            assert_eq!(align_pow2(value, a), align(value, a));
        }
    }
}

#[test]
fn align_pow2_with_other_alignments_uses_the_bit_formula() {
    // 3 is not a power of two: (10 + 2) & !2
    assert_eq!(align_pow2(10, 3), 12 & !2);
}

#[test]
fn constants_for_push() {
    let v: [u32; 6] = [0; 6];
    assert_eq!(num_32bit_constants(&v), 6);
    let b: u8 = 0;
    assert_eq!(num_32bit_constants(&b), 0);
    let q: [u64; 3] = [0; 3];
    assert_eq!(num_32bit_constants(&q), 6);
}
