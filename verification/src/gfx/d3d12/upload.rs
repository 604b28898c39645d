//! How initial texture data reaches a Direct3D 12 texture: one upload per subresource (layer
//! by layer, mip by mip), each read from its place in the tightly packed image data and
//! written to an upload buffer whose rows are padded to the texture data pitch alignment.

use vstd::prelude::*;
use vstd::arithmetic::power2::{pow2, lemma2_to64};

use crate::gfx::TextureInfo;
use crate::gfx::format::{
    align_pow2, align_up, format_texels_per_block, halved, half_extent, is_block_compressed, is_pow2_u64,
    lemma_single_slice_volume, max_nat,
    row_pitch,
    row_pitch_for_format, size_for_format, slice_pitch, slice_pitch_for_format, texels_per_block_for_format,
    volume_size,
};

verus! {

/// Row pitch alignment of texture data in upload buffers.
pub const D3D12_TEXTURE_DATA_PITCH_ALIGNMENT: u64 = 256;

/// The upload of one subresource.
#[derive(Copy, Clone, Debug, PartialEq, Eq, Structural)]
pub struct SubresourceUpload {
    /// Subresource index: `layer * mip_levels + mip`.
    pub subresource: u32,
    /// Byte offset of the subresource's data in the image data.
    pub data_offset: u64,
    /// Extents of the mip.
    pub width: u64,
    pub height: u64,
    pub depth: u32,
    /// Bytes in a row of blocks of the data.
    pub row_pitch: u64,
    /// Bytes in a row of the upload buffer: the row pitch aligned up to 256.
    pub upload_pitch: u64,
    /// Extents of the copy footprint: never below one block.
    pub footprint_width: u64,
    pub footprint_height: u64,
    /// Bytes of the upload buffer: footprint height x upload pitch x depth.
    pub upload_size: u64,
    /// Bytes copied in one go when the data rows need no padding.
    pub copy_size: u64,
}

/// Bytes of the first `mips` mips of one layer in the image data, each a single slice.
pub open spec fn mips_bytes(info: TextureInfo, mips: nat) -> nat
    decreases mips,
{
    if mips == 0 {
        0
    } else {
        mips_bytes(info, (mips - 1) as nat) + slice_pitch(info.format,
            halved(info.width as nat, (mips - 1) as nat), halved(info.height as nat, (mips - 1) as nat))
    }
}

/// Bytes of the upload buffer of mip `mip`.
pub open spec fn mip_upload_bytes(info: TextureInfo, mip: nat) -> nat {
    let tpb: nat = format_texels_per_block(info.format);
    max_nat(halved(info.height as nat, mip), tpb) * align_up(row_pitch(info.format, halved(info.width as nat, mip)),
        D3D12_TEXTURE_DATA_PITCH_ALIGNMENT as nat) * halved(info.depth as nat, mip)
}

/// The upload of mip `mip` of layer `layer`.
pub open spec fn subresource_upload(info: TextureInfo, layer: nat, mip: nat) -> SubresourceUpload {
    let w: nat = halved(info.width as nat, mip);
    let h: nat = halved(info.height as nat, mip);
    let d: nat = halved(info.depth as nat, mip);
    let tpb: nat = format_texels_per_block(info.format);
    let row: nat = row_pitch(info.format, w);
    SubresourceUpload {
        subresource: (layer * info.mip_levels + mip) as u32,
        data_offset: (layer * mips_bytes(info, info.mip_levels as nat) + mips_bytes(info, mip)) as u64,
        width: w as u64,
        height: h as u64,
        depth: d as u32,
        row_pitch: row as u64,
        upload_pitch: align_up(row, D3D12_TEXTURE_DATA_PITCH_ALIGNMENT as nat) as u64,
        footprint_width: max_nat(w, tpb) as u64,
        footprint_height: max_nat(h, tpb) as u64,
        upload_size: mip_upload_bytes(info, mip) as u64,
        copy_size: volume_size(info.format, w, h, d) as u64,
    }
}

/// Every size and offset of the uploads of `info` fits a `u64`, and every subresource
/// index a `u32`.
pub open spec fn upload_fits(info: TextureInfo) -> bool {
    &&& info.array_layers * info.mip_levels <= u32::MAX
    &&& info.array_layers * mips_bytes(info, info.mip_levels as nat) <= u64::MAX
    &&& forall|mip: nat| mip < info.mip_levels ==> {
        let w: nat = halved(info.width as nat, mip);
        let h: nat = halved(info.height as nat, mip);
        &&& row_pitch(info.format, w) + D3D12_TEXTURE_DATA_PITCH_ALIGNMENT <= u64::MAX
        &&& slice_pitch(info.format, w, h) <= u64::MAX
        &&& volume_size(info.format, w, h, halved(info.depth as nat, mip)) <= u64::MAX
        &&& #[trigger] mip_upload_bytes(info, mip) <= u64::MAX
    }
}

proof fn lemma_mips_bytes_grow(info: TextureInfo, a: nat, b: nat)
    requires
        a <= b,
    ensures
        mips_bytes(info, a) <= mips_bytes(info, b),
    decreases b,
{
    if a < b {
        lemma_mips_bytes_grow(info, a, (b - 1) as nat);
    }
}

proof fn lemma_slice_at_least_row(info: TextureInfo, w: nat, h: nat)
    ensures
        row_pitch(info.format, w) <= slice_pitch(info.format, w, h),
{
    let bh: nat = max_nat(h / format_texels_per_block(info.format), 1);
    assert(row_pitch(info.format, w) <= row_pitch(info.format, w) * bh) by (nonlinear_arith)
        requires bh >= 1;
}

/// Plans the uploads of the initial data of a texture: for each layer, for each mip, the
/// subresource, where its data starts in the image data (right after the previous mip's
/// single slice), the mip's extents, pitches and upload buffer size.
pub fn plan_texture_upload(info: &TextureInfo) -> (uploads: Vec<SubresourceUpload>)
    requires
        upload_fits(*info),
    ensures
        uploads@.len() == info.array_layers * info.mip_levels,
        forall|layer: int, mip: int| 0 <= layer < info.array_layers && 0 <= mip < info.mip_levels
            ==> #[trigger] uploads@[layer * info.mip_levels + mip] == subresource_upload(*info, layer as nat, mip as nat),
{
    proof {
        lemma2_to64();
        assert(is_pow2_u64(D3D12_TEXTURE_DATA_PITCH_ALIGNMENT)) by {
            assert(D3D12_TEXTURE_DATA_PITCH_ALIGNMENT == pow2(8));
        }
    }
    let mips: u32 = info.mip_levels;
    let layers: u32 = info.array_layers;
    let ghost total: nat = mips_bytes(*info, mips as nat);
    let tpb: u64 = texels_per_block_for_format(info.format);
    let mut uploads: Vec<SubresourceUpload> = Vec::new();
    let mut offset: u64 = 0;
    let mut layer: u32 = 0;
    while layer < layers
        invariant
            upload_fits(*info),
            is_pow2_u64(D3D12_TEXTURE_DATA_PITCH_ALIGNMENT),
            mips == info.mip_levels,
            layers == info.array_layers,
            total == mips_bytes(*info, mips as nat),
            tpb == format_texels_per_block(info.format),
            layer <= layers,
            offset == layer * total,
            uploads@.len() == layer * mips,
            forall|l: int, m: int| 0 <= l < layer && 0 <= m < mips
                ==> #[trigger] uploads@[l * mips + m] == subresource_upload(*info, l as nat, m as nat),
        decreases layers - layer,
    {
        proof {
            assert((layer + 1) * total <= layers * total) by (nonlinear_arith)
                requires layer + 1 <= layers;
            assert((layer + 1) * total == layer * total + total) by (nonlinear_arith);
            assert(layer * mips + mips == (layer + 1) * mips) by (nonlinear_arith);
            assert((layer + 1) * mips <= layers * mips) by (nonlinear_arith)
                requires layer + 1 <= layers;
        }
        let mut mip_width: u64 = info.width;
        let mut mip_height: u64 = info.height;
        let mut mip_depth: u32 = info.depth;
        let mut mip: u32 = 0;
        while mip < mips
            invariant
                upload_fits(*info),
                is_pow2_u64(D3D12_TEXTURE_DATA_PITCH_ALIGNMENT),
                mips == info.mip_levels,
                layers == info.array_layers,
                total == mips_bytes(*info, mips as nat),
                tpb == format_texels_per_block(info.format),
                layer < layers,
                (layer + 1) * total <= layers * total,
                (layer + 1) * total == layer * total + total,
                (layer + 1) * mips <= layers * mips,
                layer * mips + mips == (layer + 1) * mips,
                mip <= mips,
                offset == layer * total + mips_bytes(*info, mip as nat),
                mip_width == halved(info.width as nat, mip as nat),
                mip_height == halved(info.height as nat, mip as nat),
                mip_depth == halved(info.depth as nat, mip as nat),
                uploads@.len() == layer * mips + mip,
                forall|l: int, m: int| 0 <= l < layer && 0 <= m < mips
                    ==> #[trigger] uploads@[l * mips + m] == subresource_upload(*info, l as nat, m as nat),
                forall|m: int| 0 <= m < mip ==> #[trigger] uploads@[layer * mips + m] == subresource_upload(*info, layer as nat, m as nat),
            decreases mips - mip,
        {
            let ghost w: nat = mip_width as nat;
            let ghost h: nat = mip_height as nat;
            assert(mip_upload_bytes(*info, mip as nat) <= u64::MAX);
            proof {
                lemma_slice_at_least_row(*info, w, h);
                lemma_mips_bytes_grow(*info, (mip + 1) as nat, mips as nat);
            }
            let row: u64 = row_pitch_for_format(info.format, mip_width);
            let upload_pitch: u64 = align_pow2(row, D3D12_TEXTURE_DATA_PITCH_ALIGNMENT);
            let footprint_width: u64 = if mip_width > tpb { mip_width } else { tpb };
            let footprint_height: u64 = if mip_height > tpb { mip_height } else { tpb };
            proof {
                let a: nat = footprint_height as nat;
                let b: nat = upload_pitch as nat;
                let c: nat = mip_depth as nat;
                assert(a * b <= a * b * c || c == 0) by (nonlinear_arith)
                    requires c >= 1 || c == 0;
                assert(a * b * c <= u64::MAX);
                if c == 0 {
                    assert(a * b * c == 0) by (nonlinear_arith) requires c == 0;
                }
            }
            let upload_size: u64 = if mip_depth == 0 { 0 } else { footprint_height * upload_pitch * mip_depth as u64 };
            let copy_size: u64 = size_for_format(info.format, mip_width, mip_height, mip_depth);
            let slice: u64 = slice_pitch_for_format(info.format, mip_width, mip_height);
            let subresource: u32 = layer * mips + mip;
            let upload = SubresourceUpload {
                subresource,
                data_offset: offset,
                width: mip_width,
                height: mip_height,
                depth: mip_depth,
                row_pitch: row,
                upload_pitch,
                footprint_width,
                footprint_height,
                upload_size,
                copy_size,
            };
            assert(upload == subresource_upload(*info, layer as nat, mip as nat));
            let ghost before: Seq<SubresourceUpload> = uploads@;
            uploads.push(upload);
            proof {
                assert forall|l: int, m: int| 0 <= l < layer && 0 <= m < mips
                    implies #[trigger] uploads@[l * mips + m] == subresource_upload(*info, l as nat, m as nat) by {
                    assert(l * mips + m < layer * mips) by (nonlinear_arith)
                        requires 0 <= l < layer, 0 <= m < mips;
                    assert(uploads@[l * mips + m] == before[l * mips + m]);
                }
            }
            offset = offset + slice;
            proof {
                assert(halved(info.width as nat, (mip + 1) as nat) == half_extent(w));
                assert(halved(info.height as nat, (mip + 1) as nat) == half_extent(h));
                assert(halved(info.depth as nat, (mip + 1) as nat) == half_extent(mip_depth as nat));
            }
            mip_width = if mip_width / 2 > 1 { mip_width / 2 } else { 1 };
            mip_height = if mip_height / 2 > 1 { mip_height / 2 } else { 1 };
            mip_depth = if mip_depth / 2 > 1 { mip_depth / 2 } else { 1 };
            mip = mip + 1;
        }
        layer = layer + 1;
    }
    uploads
}

proof fn lemma_halved_bound(extent: nat, k: nat)
    ensures
        halved(extent, k) <= max_nat(extent, 1),
        extent == 1 ==> halved(extent, k) == 1,
    decreases k,
{
    if k > 0 {
        lemma_halved_bound(extent, (k - 1) as nat);
    }
}

/// The uploads planned for a single sliced, uncompressed texture read only the image data
/// it is created with: given data of exactly the size of all mips of all layers, each upload
/// reads within it.
pub proof fn lemma_planned_uploads_read_within_data(info: TextureInfo, layer: nat, mip: nat)
    requires
        upload_fits(info),
        !is_block_compressed(info.format),
        info.depth == 1,
        layer < info.array_layers,
        mip < info.mip_levels,
    ensures
        upload_reads_within(subresource_upload(info, layer, mip),
            (info.array_layers * mips_bytes(info, info.mip_levels as nat)) as nat),
{
    let total: nat = mips_bytes(info, info.mip_levels as nat);
    let w: nat = halved(info.width as nat, mip);
    let h: nat = halved(info.height as nat, mip);
    let up: SubresourceUpload = subresource_upload(info, layer, mip);
    let slice: nat = slice_pitch(info.format, w, h);
    let row: nat = row_pitch(info.format, w);
    assert(mip_upload_bytes(info, mip) <= u64::MAX);
    lemma_halved_bound(info.depth as nat, mip);
    lemma_halved_bound(info.height as nat, mip);
    lemma_mips_bytes_grow(info, (mip + 1) as nat, info.mip_levels as nat);
    assert(mips_bytes(info, (mip + 1) as nat) == mips_bytes(info, mip) + slice);
    assert(layer * total + total <= info.array_layers * total) by (nonlinear_arith)
        requires layer < info.array_layers;
    assert(layer * total + mips_bytes(info, mip) + slice <= info.array_layers * total);
    assert(up.data_offset == layer * total + mips_bytes(info, mip));
    lemma_single_slice_volume(info.format, w, h);
    assert(up.copy_size == slice);
    assert(h * row <= slice) by (nonlinear_arith)
        requires slice == row * max_nat(h / 1, 1), row >= 0;
    assert(up.height == h && up.row_pitch == row);
}

/// The data rows of the upload need no padding, so the subresource is copied in one go.
pub open spec fn copies_whole(upload: SubresourceUpload) -> bool {
    upload.row_pitch == upload.upload_pitch
}

/// The image data an upload reads lies within `data_len` bytes: the whole copy, or `height`
/// rows of `row_pitch` bytes.
pub open spec fn upload_reads_within(upload: SubresourceUpload, data_len: nat) -> bool {
    if copies_whole(upload) {
        upload.data_offset + upload.copy_size <= data_len
    } else {
        upload.data_offset + upload.height * upload.row_pitch <= data_len
    }
}

/// Byte `j` of the upload buffer of `upload` filled from `data`: a whole copy puts the first
/// `copy_size` bytes of the subresource's data first; a padded copy puts data row `y` at the
/// start of buffer row `y` for each of the `height` rows. Bytes no row covers are zero.
pub open spec fn upload_byte(data: Seq<u8>, upload: SubresourceUpload, j: int) -> u8 {
    if copies_whole(upload) {
        if j < upload.copy_size { data[upload.data_offset + j] } else { 0 }
    } else {
        let y: int = j / upload.upload_pitch as int;
        let x: int = j % upload.upload_pitch as int;
        if y < upload.height && x < upload.row_pitch { data[upload.data_offset + y * upload.row_pitch + x] } else { 0 }
    }
}

/// Fills the upload buffer of `upload` from the image data `data` (see `upload_byte`). The
/// data must hold every byte the upload reads, and the buffer must hold the whole copy.
pub fn fill_upload_buffer(data: &[u8], upload: &SubresourceUpload) -> (buffer: Vec<u8>)
    requires
        upload_reads_within(*upload, data@.len()),
        upload.upload_pitch > 0,
        copies_whole(*upload) ==> upload.copy_size <= upload.upload_size,
        upload.upload_size <= usize::MAX,
    ensures
        buffer@.len() == upload.upload_size,
        forall|j: int| 0 <= j < upload.upload_size ==> #[trigger] buffer@[j] == upload_byte(data@, *upload, j),
{
    let size: usize = upload.upload_size as usize;
    let whole: bool = upload.row_pitch == upload.upload_pitch;
    let data_len: usize = data.len();
    let mut buffer: Vec<u8> = Vec::new();
    let mut j: usize = 0;
    while j < size
        invariant
            size == upload.upload_size,
            data@.len() == data_len,
            whole == copies_whole(*upload),
            upload_reads_within(*upload, data@.len()),
            upload.upload_pitch > 0,
            whole ==> upload.copy_size <= upload.upload_size,
            j <= size,
            buffer@.len() == j,
            forall|k: int| 0 <= k < j ==> #[trigger] buffer@[k] == upload_byte(data@, *upload, k),
        decreases size - j,
    {
        let byte: u8 = if whole {
            if (j as u64) < upload.copy_size {
                assert(upload.data_offset + j < data@.len());
                data[(upload.data_offset + j as u64) as usize]
            } else {
                0
            }
        } else {
            let y: u64 = j as u64 / upload.upload_pitch;
            let x: u64 = j as u64 % upload.upload_pitch;
            if y < upload.height && x < upload.row_pitch {
                proof {
                    assert(y * upload.row_pitch + x < upload.height * upload.row_pitch) by (nonlinear_arith)
                        requires y < upload.height, x < upload.row_pitch;
                    assert(y * upload.row_pitch <= y * upload.row_pitch + x);
                    assert(upload.data_offset + y * upload.row_pitch + x < data@.len());
                }
                let row_start: u64 = y * upload.row_pitch;
                data[(upload.data_offset + row_start + x) as usize]
            } else {
                0
            }
        };
        buffer.push(byte);
        j = j + 1;
    }
    buffer
}

} // verus!
