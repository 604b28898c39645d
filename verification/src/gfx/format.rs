//! Per-format block sizes and the byte sizes of images laid out in a format.

use vstd::prelude::*;

use vstd::arithmetic::power2::{pow2, lemma2_to64, lemma_pow2_unfold};
use vstd::bits::{low_bits_mask, lemma_u64_low_bits_mask_is_mod, lemma_u64_pow2_no_overflow};

use vstd::layout::size_of;

use super::Format;

verus! {

/// Bytes in one block of `format`: a texel, a compressed block of texels, or a buffer element.
pub open spec fn format_block_size(format: Format) -> nat {
    match format {
        Format::Unknown => 0,
        Format::R16n | Format::R16u | Format::R16i | Format::R16f => 2,
        Format::R32u | Format::R32i | Format::R32f => 4,
        Format::RG16u | Format::RG16i | Format::RG16f => 4,
        Format::RG32u | Format::RG32i | Format::RG32f => 8,
        Format::RGBA8nSRGB | Format::RGBA8n | Format::RGBA8u | Format::RGBA8i => 4,
        Format::BGRA8n | Format::BGRX8n | Format::BGRA8nSRGB | Format::BGRX8nSRGB => 4,
        Format::RGB32u | Format::RGB32i | Format::RGB32f => 12,
        Format::RGBA16u | Format::RGBA16i | Format::RGBA16f => 8,
        Format::RGBA32u | Format::RGBA32i | Format::RGBA32f => 16,
        Format::D32fS8X24u => 8,
        Format::D32f => 4,
        Format::D24nS8u => 4,
        Format::D16n => 2,
        Format::BC1n | Format::BC1nSRGB => 8,
        Format::BC2n | Format::BC2nSRGB => 16,
        Format::BC3n | Format::BC3nSRGB => 16,
        Format::BC4n => 8,
        Format::BC5n => 16,
    }
}

/// Whether `format` is one of the block compressed (BCn) formats.
pub open spec fn is_block_compressed(format: Format) -> bool {
    match format {
        Format::BC1n | Format::BC1nSRGB | Format::BC2n | Format::BC2nSRGB
        | Format::BC3n | Format::BC3nSRGB | Format::BC4n | Format::BC5n => true,
        _ => false,
    }
}

/// Texels along each edge of one block: 4 for block compressed formats, 1 otherwise.
pub open spec fn format_texels_per_block(format: Format) -> nat {
    if is_block_compressed(format) { 4 } else { 1 }
}

/// Returns the 'block size' (texel, compressed block of texels or single buffer element) for a given format
pub fn block_size_for_format(format: Format) -> (size: u32)
    ensures
        size == format_block_size(format),
{
    match format {
        Format::Unknown => 0,
        Format::R16n => 2,
        Format::R16u => 2,
        Format::R16i => 2,
        Format::R16f => 2,
        Format::R32u => 4,
        Format::R32i => 4,
        Format::R32f => 4,
        Format::RG16u => 4,
        Format::RG16i => 4,
        Format::RG16f => 4,
        Format::RG32u => 8,
        Format::RG32i => 8,
        Format::RG32f => 8,
        Format::RGBA8nSRGB => 4,
        Format::RGBA8n => 4,
        Format::RGBA8u => 4,
        Format::RGBA8i => 4,
        Format::BGRA8n => 4,
        Format::BGRX8n => 4,
        Format::BGRA8nSRGB => 4,
        Format::BGRX8nSRGB => 4,
        Format::RGB32u => 12,
        Format::RGB32i => 12,
        Format::RGB32f => 12,
        Format::RGBA16u => 8,
        Format::RGBA16i => 8,
        Format::RGBA16f => 8,
        Format::RGBA32u => 16,
        Format::RGBA32i => 16,
        Format::RGBA32f => 16,
        Format::D32fS8X24u => 8,
        Format::D32f => 4,
        Format::D24nS8u => 4,
        Format::D16n => 2,
        Format::BC1n => 8,
        Format::BC1nSRGB => 8,
        Format::BC2n => 16,
        Format::BC2nSRGB => 16,
        Format::BC3n => 16,
        Format::BC3nSRGB => 16,
        Format::BC4n => 8,
        Format::BC5n => 16,
    }
}

/// Returns the number of texels (texel x texel) in each block for the specified texture format
pub fn texels_per_block_for_format(format: Format) -> (texels: u64)
    ensures
        texels == format_texels_per_block(format),
{
    match format {
        Format::BC1n => 4,
        Format::BC1nSRGB => 4,
        Format::BC2n => 4,
        Format::BC2nSRGB => 4,
        Format::BC3n => 4,
        Format::BC3nSRGB => 4,
        Format::BC4n => 4,
        Format::BC5n => 4,
        _ => 1,
    }
}


/// Colour (or depth / stencil) components stored per texel of `format`: RGBA = 4, RGB = 3.
pub open spec fn format_components(format: Format) -> nat {
    match format {
        Format::Unknown => 0,
        Format::R16n | Format::R16u | Format::R16i | Format::R16f => 1,
        Format::R32u | Format::R32i | Format::R32f => 1,
        Format::RG16u | Format::RG16i | Format::RG16f => 2,
        Format::RG32u | Format::RG32i | Format::RG32f => 2,
        Format::RGBA8nSRGB | Format::RGBA8n | Format::RGBA8u | Format::RGBA8i => 4,
        Format::BGRA8n | Format::BGRX8n | Format::BGRA8nSRGB | Format::BGRX8nSRGB => 4,
        Format::RGB32u | Format::RGB32i | Format::RGB32f => 3,
        Format::RGBA16u | Format::RGBA16i | Format::RGBA16f => 4,
        Format::RGBA32u | Format::RGBA32i | Format::RGBA32f => 4,
        Format::D32fS8X24u => 2,
        Format::D32f => 1,
        Format::D24nS8u => 2,
        Format::D16n => 1,
        Format::BC1n | Format::BC1nSRGB => 4,
        Format::BC2n | Format::BC2nSRGB => 4,
        Format::BC3n | Format::BC3nSRGB => 4,
        Format::BC4n => 1,
        Format::BC5n => 2,
    }
}

/// Returns the number of components for a given format. ie RGBA = 4 and RGB = 3
pub fn components_for_format(format: Format) -> (components: u32)
    ensures
        components == format_components(format),
{
    match format {
        Format::Unknown => 0,
        Format::R16n => 1,
        Format::R16u => 1,
        Format::R16i => 1,
        Format::R16f => 1,
        Format::R32u => 1,
        Format::R32i => 1,
        Format::R32f => 1,
        Format::RG16u => 2,
        Format::RG16i => 2,
        Format::RG16f => 2,
        Format::RG32u => 2,
        Format::RG32i => 2,
        Format::RG32f => 2,
        Format::RGBA8nSRGB => 4,
        Format::RGBA8n => 4,
        Format::RGBA8u => 4,
        Format::RGBA8i => 4,
        Format::BGRA8n => 4,
        Format::BGRX8n => 4,
        Format::BGRA8nSRGB => 4,
        Format::BGRX8nSRGB => 4,
        Format::RGB32u => 3,
        Format::RGB32i => 3,
        Format::RGB32f => 3,
        Format::RGBA16u => 4,
        Format::RGBA16i => 4,
        Format::RGBA16f => 4,
        Format::RGBA32u => 4,
        Format::RGBA32i => 4,
        Format::RGBA32f => 4,
        Format::D32fS8X24u => 2,
        Format::D32f => 1,
        Format::D24nS8u => 2,
        Format::D16n => 1,
        Format::BC1n => 4,
        Format::BC1nSRGB => 4,
        Format::BC2n => 4,
        Format::BC2nSRGB => 4,
        Format::BC3n => 4,
        Format::BC3nSRGB => 4,
        Format::BC4n => 1,
        Format::BC5n => 2,
    }
}

/// `max(a, b)` on naturals.
pub open spec fn max_nat(a: nat, b: nat) -> nat {
    if a >= b { a } else { b }
}

/// Number of blocks spanning `extent` texels in `format`; never less than one block.
pub open spec fn blocks_for_extent(format: Format, extent: nat) -> nat {
    max_nat(extent / format_texels_per_block(format), 1)
}

/// Bytes in one row of blocks of an image `width` texels wide.
pub open spec fn row_pitch(format: Format, width: nat) -> nat {
    format_block_size(format) * blocks_for_extent(format, width)
}

/// Bytes in one 2D slice of an image of `width` x `height` texels.
pub open spec fn slice_pitch(format: Format, width: nat, height: nat) -> nat {
    row_pitch(format, width) * blocks_for_extent(format, height)
}

/// Bytes in a 3D image of `width` x `height` x `depth` texels.
pub open spec fn volume_size(format: Format, width: nat, height: nat, depth: nat) -> nat {
    slice_pitch(format, width, height) * depth
}

proof fn lemma_blocks_bounds(format: Format, extent: nat)
    ensures
        1 <= blocks_for_extent(format, extent),
        blocks_for_extent(format, extent) <= max_nat(extent, 1),
{
    let tpb = format_texels_per_block(format);
    assert(extent / tpb <= extent) by (nonlinear_arith)
        requires tpb >= 1;
}

/// Blocks covering `extent` texels: `max(extent / tpb, 1)` in machine integers.
fn blocks_u64(extent: u64, tpb: u64, Ghost(format): Ghost<Format>) -> (blocks: u64)
    requires
        tpb == format_texels_per_block(format),
    ensures
        blocks == blocks_for_extent(format, extent as nat),
{
    let b: u64 = extent / tpb;
    if b > 1 { b } else { 1 }
}

/// Returns the row pitch of an image in bytes: width * block size
pub fn row_pitch_for_format(format: Format, width: u64) -> (pitch: u64)
    requires
        row_pitch(format, width as nat) <= u64::MAX,
    ensures
        pitch == row_pitch(format, width as nat),
{
    let tpb: u64 = texels_per_block_for_format(format);
    let blocks: u64 = blocks_u64(width, tpb, Ghost(format));
    block_size_for_format(format) as u64 * blocks
}

proof fn lemma_mul_le_when_factor_pos(a: nat, b: nat)
    requires
        b >= 1,
    ensures
        a <= a * b,
{
    assert(a <= a * b) by (nonlinear_arith)
        requires b >= 1;
}

/// Returns the slice pitch of an image in bytes: width * height * block size, a slice is a single 2D image
/// or a single slice of a 3D texture or texture array
pub fn slice_pitch_for_format(format: Format, width: u64, height: u64) -> (pitch: u64)
    requires
        slice_pitch(format, width as nat, height as nat) <= u64::MAX,
    ensures
        pitch == slice_pitch(format, width as nat, height as nat),
{
    let tpb: u64 = texels_per_block_for_format(format);
    let bw: u64 = blocks_u64(width, tpb, Ghost(format));
    let bh: u64 = blocks_u64(height, tpb, Ghost(format));
    proof {
        lemma_blocks_bounds(format, height as nat);
        lemma_mul_le_when_factor_pos(row_pitch(format, width as nat), bh as nat);
    }
    let row: u64 = block_size_for_format(format) as u64 * bw;
    row * bh
}

/// Return the size in bytes of a 3 dimensional resource: width * height * depth block size
pub fn size_for_format(format: Format, width: u64, height: u64, depth: u32) -> (size: u64)
    requires
        slice_pitch(format, width as nat, height as nat) <= u64::MAX,
        volume_size(format, width as nat, height as nat, depth as nat) <= u64::MAX,
    ensures
        size == volume_size(format, width as nat, height as nat, depth as nat),
{
    let slice: u64 = slice_pitch_for_format(format, width, height);
    slice * depth as u64
}


/// A 3D image one slice deep takes exactly one slice pitch: `size_for_format(f, w, h, 1)` equals
/// `slice_pitch_for_format(f, w, h)`.
pub proof fn lemma_single_slice_volume(format: Format, width: nat, height: nat)
    ensures
        volume_size(format, width, height, 1) == slice_pitch(format, width, height),
{
}

/// For uncompressed formats the pitches are the plain products the documentation gives:
/// width * block size per row, and width * height * block size per slice, for non-zero extents.
pub proof fn lemma_uncompressed_pitches(format: Format, width: nat, height: nat)
    requires
        !is_block_compressed(format),
        width >= 1,
        height >= 1,
    ensures
        row_pitch(format, width) == width * format_block_size(format),
        slice_pitch(format, width, height) == width * height * format_block_size(format),
{
    let bs: int = format_block_size(format) as int;
    assert(blocks_for_extent(format, width) == width);
    assert(blocks_for_extent(format, height) == height);
    assert(bs * width * height == width * height * bs) by (nonlinear_arith);
}

/// Next mip extent: half the extent, never below one.
pub open spec fn half_extent(extent: nat) -> nat {
    max_nat(extent / 2, 1)
}

/// Total bytes of `mips` mip levels, each holding `layers` array layers, starting at
/// `width` x `height` x `depth` and halving every dimension (clamped at one) per level.
pub open spec fn mipped_size(format: Format, width: nat, height: nat, depth: nat, layers: nat, mips: nat) -> nat
    decreases mips,
{
    if mips == 0 {
        0
    } else {
        volume_size(format, width, height, depth) * layers
            + mipped_size(format, half_extent(width), half_extent(height), half_extent(depth), layers, (mips - 1) as nat)
    }
}

/// Every intermediate product and running total of `size_for_format_mipped` fits in a `u64`,
/// given `total` bytes already accumulated.
pub open spec fn mipped_size_fits(format: Format, width: nat, height: nat, depth: nat, layers: nat, mips: nat, total: nat) -> bool
    decreases mips,
{
    if mips == 0 {
        total <= u64::MAX
    } else {
        let level: nat = volume_size(format, width, height, depth) * layers;
        &&& slice_pitch(format, width, height) <= u64::MAX
        &&& volume_size(format, width, height, depth) <= u64::MAX
        &&& level <= u64::MAX
        &&& total + level <= u64::MAX
        &&& mipped_size_fits(format, half_extent(width), half_extent(height), half_extent(depth), layers, (mips - 1) as nat, total + level)
    }
}

/// Return the size in bytes of up to dimensional resource: width * height * depth block size
/// for each mip level and account for array layers
pub fn size_for_format_mipped(format: Format, width: u64, height: u64, depth: u32, array_layers: u32, mips: u32) -> (size: u64)
    requires
        mipped_size_fits(format, width as nat, height as nat, depth as nat, array_layers as nat, mips as nat, 0),
    ensures
        size == mipped_size(format, width as nat, height as nat, depth as nat, array_layers as nat, mips as nat),
{
    let mut total: u64 = 0;
    let mut mip_width: u64 = width;
    let mut mip_height: u64 = height;
    let mut mip_depth: u32 = depth;
    let mut i: u32 = 0;
    while i < mips
        invariant
            i <= mips,
            mipped_size_fits(format, mip_width as nat, mip_height as nat, mip_depth as nat, array_layers as nat, (mips - i) as nat, total as nat),
            total + mipped_size(format, mip_width as nat, mip_height as nat, mip_depth as nat, array_layers as nat, (mips - i) as nat)
                == mipped_size(format, width as nat, height as nat, depth as nat, array_layers as nat, mips as nat),
        decreases mips - i,
    {
        let level: u64 = size_for_format(format, mip_width, mip_height, mip_depth) * array_layers as u64;
        total = total + level;
        mip_width = if mip_width / 2 > 1 { mip_width / 2 } else { 1 };
        mip_height = if mip_height / 2 > 1 { mip_height / 2 } else { 1 };
        mip_depth = if mip_depth / 2 > 1 { mip_depth / 2 } else { 1 };
        i = i + 1;
    }
    total
}

/// A single mip level of `layers` layers takes the size of the level times the layers:
/// `size_for_format_mipped(f, w, h, d, l, 1) == size_for_format(f, w, h, d) * l`.
pub proof fn lemma_single_mip_level(format: Format, width: nat, height: nat, depth: nat, layers: nat)
    ensures
        mipped_size(format, width, height, depth, layers, 1) == volume_size(format, width, height, depth) * layers,
{
    assert(mipped_size(format, half_extent(width), half_extent(height), half_extent(depth), layers, 0) == 0);
}

/// Adding mip levels never makes a mip chain smaller.
pub proof fn lemma_mipped_size_grows(format: Format, width: nat, height: nat, depth: nat, layers: nat, mips: nat)
    ensures
        mipped_size(format, width, height, depth, layers, mips)
            <= mipped_size(format, width, height, depth, layers, mips + 1),
    decreases mips,
{
    if mips > 0 {
        lemma_mipped_size_grows(format, half_extent(width), half_extent(height), half_extent(depth), layers, (mips - 1) as nat);
        assert((mips + 1 - 1) as nat == mips);
    }
}

/// `floor(log2(n))`, taking zero and one to zero.
pub open spec fn log2_floor(n: nat) -> nat
    decreases n,
{
    if n <= 1 { 0 } else { 1 + log2_floor(n / 2) }
}

/// Length of a full mip chain for a 2D image: `floor(log2(max(width, height))) + 1`.
pub open spec fn mip_chain_length(width: nat, height: nat) -> nat {
    log2_floor(max_nat(width, height)) + 1
}

proof fn lemma_log2_floor_bound(n: nat, k: nat)
    requires
        n < pow2(k),
    ensures
        log2_floor(n) <= k,
    decreases n,
{
    if n > 1 {
        if k == 0 {
            lemma_pow2_unfold_zero();
        } else {
            lemma_pow2_unfold(k);
            lemma_log2_floor_bound(n / 2, (k - 1) as nat);
        }
    }
}

proof fn lemma_pow2_unfold_zero()
    ensures
        pow2(0) == 1,
{
    lemma2_to64();
}

/// Halving an extent `k` times, clamped at one.
pub open spec fn halved(extent: nat, k: nat) -> nat
    decreases k,
{
    if k == 0 { extent } else { half_extent(halved(extent, (k - 1) as nat)) }
}

proof fn lemma_halved_shift(extent: nat, k: nat)
    requires
        extent >= 2,
    ensures
        halved(extent, k + 1) == halved(extent / 2, k),
    decreases k,
{
    if k > 0 {
        lemma_halved_shift(extent, (k - 1) as nat);
        assert(halved(extent, k + 1) == half_extent(halved(extent, k)));
        assert(halved(extent / 2, k) == half_extent(halved(extent / 2, (k - 1) as nat)));
    } else {
        assert(halved(extent, 1) == half_extent(halved(extent, 0)));
        assert(halved(extent, 0) == extent);
    }
}

/// The mip chain `mip_levels_for_dimension` counts ends in a 1x1 level: halving the larger
/// extent once per level after the first reaches exactly one.
pub proof fn lemma_mip_chain_ends_at_one(extent: nat)
    ensures
        halved(extent, log2_floor(extent)) == 1 || extent == 0,
    decreases extent,
{
    if extent >= 2 {
        lemma_mip_chain_ends_at_one(extent / 2);
        lemma_halved_shift(extent, log2_floor(extent / 2));
        assert(extent / 2 >= 1);
    } else if extent == 1 {
    }
}

/// Returns the number of mip levels required for a 2D texture
pub fn mip_levels_for_dimension(width: u64, height: u64) -> (levels: u32)
    ensures
        levels == mip_chain_length(width as nat, height as nat),
{
    let mut v: u64 = if width > height { width } else { height };
    let mut log: u32 = 0;
    proof {
        lemma2_to64();
        lemma_log2_floor_bound(v as nat, 64);
    }
    while v > 1
        invariant
            log + log2_floor(v as nat) == log2_floor(max_nat(width as nat, height as nat)),
            log2_floor(max_nat(width as nat, height as nat)) <= 64,
        decreases v,
    {
        v = v / 2;
        log = log + 1;
    }
    log + 1
}


/// Least multiple of `align` that is not below `value`.
pub open spec fn align_up(value: nat, align: nat) -> nat
    recommends
        align > 0,
{
    ((value + align - 1) / align as int) as nat * align
}

/// `align` is a power of two representable in a `u64`.
pub open spec fn is_pow2_u64(align: u64) -> bool {
    exists|k: nat| k < 64 && align == pow2(k)
}

/// The bit formula `align_pow2` evaluates: `(value + (align - 1)) & !(align - 1)`.
pub open spec fn align_pow2_bits(value: u64, align: u64) -> u64
    recommends
        align >= 1,
        value + align - 1 <= u64::MAX,
{
    ((value + (align - 1)) as u64) & !((align - 1) as u64)
}

/// `align_up` is the least multiple of `align` that is at least `value`.
pub proof fn lemma_align_up_is_least_multiple(value: nat, align: nat)
    requires
        align > 0,
    ensures
        align_up(value, align) % align == 0,
        value <= align_up(value, align),
        align_up(value, align) < value + align,
        value % align == 0 ==> align_up(value, align) == value,
        value % align != 0 ==> align_up(value, align) == (value / align + 1) * align,
{
    let v: int = value as int;
    let a: int = align as int;
    let q: int = (v + a - 1) / a;
    let d: int = v / a;
    let r: int = v % a;
    assert(align_up(value, align) == q * a);
    assert(v == d * a + r && 0 <= r < a) by (nonlinear_arith)
        requires a > 0, d == v / a, r == v % a;
    if r == 0 {
        assert(q == d) by (nonlinear_arith)
            requires a > 0, q == (v + a - 1) / a, v == d * a;
        assert(q * a % a == 0) by (nonlinear_arith)
            requires a > 0;
    } else {
        assert(q == d + 1) by (nonlinear_arith)
            requires a > 0, q == (v + a - 1) / a, v == d * a + r, 0 < r < a;
        assert(q * a == d * a + a) by (nonlinear_arith)
            requires q == d + 1;
        assert(q * a % a == 0) by (nonlinear_arith)
            requires a > 0;
    }
}

/// Aligns value to the alignment specified by align. value must be a power of 2
pub fn align_pow2(value: u64, align: u64) -> (aligned: u64)
    requires
        align >= 1,
        value + align - 1 <= u64::MAX,
    ensures
        aligned == align_pow2_bits(value, align),
        is_pow2_u64(align) ==> aligned == align_up(value as nat, align as nat),
{
    let aligned: u64 = (value + (align - 1)) & !(align - 1);
    proof {
        if is_pow2_u64(align) {
            lemma_align_pow2_rounds_up(value, align);
        }
    }
    aligned
}

/// For a power of two alignment the bit formula of `align_pow2` rounds up to the alignment.
pub proof fn lemma_align_pow2_rounds_up(value: u64, align: u64)
    requires
        is_pow2_u64(align),
        value + align - 1 <= u64::MAX,
    ensures
        align_pow2_bits(value, align) == align_up(value as nat, align as nat),
{
    let k: nat = choose|k: nat| k < 64 && align == pow2(k);
    lemma_u64_pow2_no_overflow(k);
    let x: u64 = (value + (align - 1)) as u64;
    let m: u64 = (align - 1) as u64;
    assert(low_bits_mask(k) == m);
    lemma_u64_low_bits_mask_is_mod(x, k);
    assert(x & m == x % align);
    assert((x & !m) + (x & m) == x) by (bit_vector);
    assert(x as int - x as int % align as int == (x as int / align as int) * align) by (nonlinear_arith)
        requires align > 0;
}

/// The bit formula of `align_pow2` never exceeds `value + align - 1`.
pub proof fn lemma_align_pow2_bits_bound(value: u64, align: u64)
    requires
        align >= 1,
        value + align - 1 <= u64::MAX,
    ensures
        align_pow2_bits(value, align) <= value + align - 1,
{
    let x: u64 = (value + (align - 1)) as u64;
    let m: u64 = (align - 1) as u64;
    assert(x & !m <= x) by (bit_vector);
}

/// Aligns value to the alignment specified by align. value can be non-power of 2
pub fn align(value: u64, alignment: u64) -> (aligned: u64)
    requires
        alignment > 0,
        align_up(value as nat, alignment as nat) <= u64::MAX,
    ensures
        aligned == align_up(value as nat, alignment as nat),
        aligned % alignment == 0,
        value <= aligned,
        aligned < value + alignment,
{
    proof {
        lemma_align_up_is_least_multiple(value as nat, alignment as nat);
    }
    let div: u64 = value / alignment;
    let rem: u64 = value % alignment;
    if rem != 0 {
        return (div + 1) * alignment;
    }
    value
}

/// Where `align_pow2` and `align` are both defined and the alignment is a power of two they agree.
pub proof fn lemma_align_pow2_agrees_with_align(value: u64, align: u64)
    requires
        is_pow2_u64(align),
        value + align - 1 <= u64::MAX,
    ensures
        align_pow2_bits(value, align) == align_up(value as nat, align as nat),
        align_up(value as nat, align as nat) % align as nat == 0,
{
    lemma_align_pow2_rounds_up(value, align);
    let k: nat = choose|k: nat| k < 64 && align == pow2(k);
    lemma_u64_pow2_no_overflow(k);
    lemma_align_up_is_least_multiple(value as nat, align as nat);
}

/// For the supplied sized struct `&_` returns the number of 32bit constants required for use as `push_constants`
pub fn num_32bit_constants<T: Sized>(_value: &T) -> (count: u32)
    ensures
        count == (size_of::<T>() / 4) as u32,
{
    (core::mem::size_of::<T>() / 4) as u32
}

/// How the value stored in each channel of a colour format is read.
#[derive(Copy, Clone, Debug, PartialEq, Eq, Structural)]
pub enum ChannelType {
    /// Unsigned integer read as a value in [0, 1].
    Unorm,
    /// Unsigned integer read as an sRGB encoded value in [0, 1].
    UnormSrgb,
    /// Unsigned integer.
    Uint,
    /// Signed integer.
    Sint,
    /// Floating point.
    Float,
}

/// Formats that hold plain colour channels: neither unknown, depth / stencil nor block
/// compressed.
pub open spec fn is_plain_colour(format: Format) -> bool {
    match format {
        Format::Unknown | Format::D32fS8X24u | Format::D32f | Format::D24nS8u | Format::D16n => false,
        _ => !is_block_compressed(format),
    }
}

/// Bits of one channel of a plain colour format: the width its name gives (8, 16 or 32).
pub open spec fn format_channel_bits(format: Format) -> nat {
    match format {
        Format::R16n | Format::R16u | Format::R16i | Format::R16f => 16,
        Format::RG16u | Format::RG16i | Format::RG16f => 16,
        Format::RGBA16u | Format::RGBA16i | Format::RGBA16f => 16,
        Format::RGBA8nSRGB | Format::RGBA8n | Format::RGBA8u | Format::RGBA8i => 8,
        Format::BGRA8n | Format::BGRX8n | Format::BGRA8nSRGB | Format::BGRX8nSRGB => 8,
        _ => 32,
    }
}

/// How the channels of a plain colour format are read: the suffix of its name (`n`, `nSRGB`,
/// `u`, `i` or `f`).
pub open spec fn format_channel_type(format: Format) -> ChannelType {
    match format {
        Format::R16n | Format::RGBA8n | Format::BGRA8n | Format::BGRX8n => ChannelType::Unorm,
        Format::RGBA8nSRGB | Format::BGRA8nSRGB | Format::BGRX8nSRGB => ChannelType::UnormSrgb,
        Format::R16u | Format::R32u | Format::RG16u | Format::RG32u | Format::RGB32u | Format::RGBA8u
        | Format::RGBA16u | Format::RGBA32u => ChannelType::Uint,
        Format::R16i | Format::R32i | Format::RG16i | Format::RG32i | Format::RGB32i | Format::RGBA8i
        | Format::RGBA16i | Format::RGBA32i => ChannelType::Sint,
        _ => ChannelType::Float,
    }
}

/// The texel layout of a plain colour format: (channels, bytes per channel, channel type).
pub open spec fn texel_layout(format: Format) -> (nat, nat, ChannelType) {
    (format_components(format), format_channel_bits(format) / 8, format_channel_type(format))
}

/// A texel of a plain colour format holds each of its channels once: its block is a single
/// texel whose bytes are the channel count times the bytes of one channel, so a row of
/// `width` texels takes that many bytes per texel (at least one texel's worth).
pub proof fn lemma_plain_colour_texel_bytes(format: Format, width: nat)
    requires
        is_plain_colour(format),
    ensures
        format_texels_per_block(format) == 1,
        format_block_size(format) * 8 == format_components(format) * format_channel_bits(format),
        row_pitch(format, width) == format_components(format) * (format_channel_bits(format) / 8) * max_nat(width, 1),
{
    assert(width / 1 == width);
}

/// Bits a depth format gives to depth, to stencil and leaves unused, in that order.
pub open spec fn depth_stencil_bits(format: Format) -> (nat, nat, nat) {
    match format {
        Format::D32fS8X24u => (32, 8, 24),
        Format::D32f => (32, 0, 0),
        Format::D24nS8u => (24, 8, 0),
        _ => (16, 0, 0),
    }
}

/// Formats that hold depth (and maybe stencil).
pub open spec fn is_depth(format: Format) -> bool {
    format == Format::D32fS8X24u || format == Format::D32f || format == Format::D24nS8u || format == Format::D16n
}

/// A depth texel holds its depth, its stencil and its unused bits and nothing else, and has a
/// component for depth and one more when it has stencil.
pub proof fn lemma_depth_texel_bytes(format: Format)
    requires
        is_depth(format),
    ensures
        ({
            let (depth, stencil, unused) = depth_stencil_bits(format);
            &&& format_block_size(format) * 8 == depth + stencil + unused
            &&& format_components(format) == if stencil > 0 { 2nat } else { 1nat }
            &&& format_texels_per_block(format) == 1
        }),
{
}

/// Bytes of one 4 x 4 block of a block compressed format: 8 bytes of colour end points and
/// indices (or of one channel), and 8 more for formats with a separately coded alpha or a
/// second channel (BC2, BC3 and BC5). BC1 to BC3 hold RGBA, BC4 one channel and BC5 two.
pub proof fn lemma_compressed_block_bytes(format: Format)
    requires
        is_block_compressed(format),
    ensures
        format_texels_per_block(format) == 4,
        format_block_size(format) == if format == Format::BC1n || format == Format::BC1nSRGB
            || format == Format::BC4n { 8nat } else { 16nat },
        format_components(format) == if format == Format::BC4n { 1nat } else if format == Format::BC5n {
            2nat
        } else {
            4nat
        },
{
}

} // verus!
