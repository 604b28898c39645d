//! What a Direct3D 12 render pass decides from its description: how each target is accessed
//! when the pass begins, and the sample count its targets share.

use vstd::prelude::*;
use vstd::string::*;

use crate::Error;
use crate::text::{append_decimal, decimal};

verus! {

pub const D3D12_RENDER_PASS_BEGINNING_ACCESS_TYPE_DISCARD: i32 = 0;
pub const D3D12_RENDER_PASS_BEGINNING_ACCESS_TYPE_PRESERVE: i32 = 1;
pub const D3D12_RENDER_PASS_BEGINNING_ACCESS_TYPE_CLEAR: i32 = 2;
pub const D3D12_RENDER_PASS_ENDING_ACCESS_TYPE_PRESERVE: i32 = 1;

/// How render targets are accessed when the pass begins: cleared when a clear colour is
/// given, else discarded when the pass discards, else preserved.
pub open spec fn target_begin_access(clear: bool, discard: bool) -> i32 {
    if clear {
        D3D12_RENDER_PASS_BEGINNING_ACCESS_TYPE_CLEAR
    } else if discard {
        D3D12_RENDER_PASS_BEGINNING_ACCESS_TYPE_DISCARD
    } else {
        D3D12_RENDER_PASS_BEGINNING_ACCESS_TYPE_PRESERVE
    }
}

/// Returns how the render targets of a pass are accessed when it begins; `clear` tells
/// whether the pass has a clear colour.
pub fn render_target_begin_access(clear: bool, discard: bool) -> (access: i32)
    ensures
        access == target_begin_access(clear, discard),
{
    if clear {
        D3D12_RENDER_PASS_BEGINNING_ACCESS_TYPE_CLEAR
    } else if discard {
        D3D12_RENDER_PASS_BEGINNING_ACCESS_TYPE_DISCARD
    } else {
        D3D12_RENDER_PASS_BEGINNING_ACCESS_TYPE_PRESERVE
    }
}

/// How depth and stencil are accessed when the pass begins, given whether the pass has a
/// depth stencil clear and, if so, whether it clears depth and whether it clears stencil.
/// Without a clear both are discarded when the pass discards; with one, each is cleared when
/// its clear value is given and preserved otherwise.
pub open spec fn depth_stencil_access(ds_clear: Option<(bool, bool)>, discard: bool) -> (i32, i32) {
    match ds_clear {
        None => if discard {
            (D3D12_RENDER_PASS_BEGINNING_ACCESS_TYPE_DISCARD, D3D12_RENDER_PASS_BEGINNING_ACCESS_TYPE_DISCARD)
        } else {
            (D3D12_RENDER_PASS_BEGINNING_ACCESS_TYPE_PRESERVE, D3D12_RENDER_PASS_BEGINNING_ACCESS_TYPE_PRESERVE)
        },
        Some((depth, stencil)) => (
            if depth { D3D12_RENDER_PASS_BEGINNING_ACCESS_TYPE_CLEAR } else { D3D12_RENDER_PASS_BEGINNING_ACCESS_TYPE_PRESERVE },
            if stencil { D3D12_RENDER_PASS_BEGINNING_ACCESS_TYPE_CLEAR } else { D3D12_RENDER_PASS_BEGINNING_ACCESS_TYPE_PRESERVE },
        ),
    }
}

/// Returns how the depth and the stencil of a pass's depth stencil target are accessed when
/// it begins (see `depth_stencil_access`).
pub fn depth_stencil_begin_access(ds_clear: Option<(bool, bool)>, discard: bool) -> (access: (i32, i32))
    ensures
        access == depth_stencil_access(ds_clear, discard),
{
    let mut depth: i32 = D3D12_RENDER_PASS_BEGINNING_ACCESS_TYPE_PRESERVE;
    let mut stencil: i32 = D3D12_RENDER_PASS_BEGINNING_ACCESS_TYPE_PRESERVE;
    match ds_clear {
        None => {
            if discard {
                depth = D3D12_RENDER_PASS_BEGINNING_ACCESS_TYPE_DISCARD;
                stencil = D3D12_RENDER_PASS_BEGINNING_ACCESS_TYPE_DISCARD;
            }
        },
        Some((clear_depth, clear_stencil)) => {
            if clear_depth {
                depth = D3D12_RENDER_PASS_BEGINNING_ACCESS_TYPE_CLEAR;
            }
            if clear_stencil {
                stencil = D3D12_RENDER_PASS_BEGINNING_ACCESS_TYPE_CLEAR;
            }
        },
    }
    (depth, stencil)
}

/// Index of the first target whose sample count differs from the first target's.
pub open spec fn first_mismatch(counts: Seq<u32>) -> Option<nat>
    decreases counts.len(),
{
    if counts.len() <= 1 {
        None
    } else {
        match first_mismatch(counts.drop_last()) {
            Some(i) => Some(i),
            None => if counts.last() != counts[0] { Some((counts.len() - 1) as nat) } else { None },
        }
    }
}

/// Message of the error for targets of differing sample counts.
pub open spec fn sample_mismatch_message(expected: u32, found: u32) -> Seq<char> {
    "Sample counts must match on all targets: expected "@ + decimal(expected as nat) + " samples, found "@
        + decimal(found as nat)
}

/// The sample count of a pass whose render targets have `counts` samples: all targets must
/// share the first one's count (the first that differs is reported); a pass without targets
/// is single sampled.
pub fn pass_sample_count(counts: &Vec<u32>) -> (count: Result<u32, Error>)
    ensures
        match first_mismatch(counts@) {
            Some(i) => count matches Err(e) && e.msg@ == sample_mismatch_message(counts@[0], counts@[i as int]),
            None => count == Ok::<u32, Error>(if counts@.len() == 0 { 1u32 } else { counts@[0] }),
        },
{
    if counts.len() == 0 {
        return Ok(1);
    }
    let expected: u32 = counts[0];
    let mut i: usize = 1;
    while i < counts.len()
        invariant
            1 <= i <= counts@.len(),
            expected == counts@[0],
            first_mismatch(counts@.take(i as int)) is None,
        decreases counts@.len() - i,
    {
        proof {
            let next: Seq<u32> = counts@.take(i + 1);
            assert(next.drop_last() =~= counts@.take(i as int));
            assert(next.last() == counts@[i as int]);
            assert(next[0] == counts@[0]);
        }
        if counts[i] != expected {
            proof {
                lemma_first_mismatch_prefix(counts@, i + 1);
            }
            let mut msg: String = String::from_str("Sample counts must match on all targets: expected ");
            append_decimal(&mut msg, expected as u64);
            msg.append(" samples, found ");
            append_decimal(&mut msg, counts[i] as u64);
            return Err(Error { msg });
        }
        i = i + 1;
    }
    assert(counts@.take(counts@.len() as int) =~= counts@);
    Ok(expected)
}

proof fn lemma_first_mismatch_prefix(counts: Seq<u32>, m: int)
    requires
        1 <= m <= counts.len(),
        first_mismatch(counts.take(m)) is Some,
    ensures
        first_mismatch(counts) == first_mismatch(counts.take(m)),
    decreases counts.len(),
{
    if m < counts.len() {
        assert(counts.drop_last().take(m) =~= counts.take(m));
        lemma_first_mismatch_prefix(counts.drop_last(), m);
        assert(counts.drop_last()[0] == counts[0]);
    } else {
        assert(counts.take(m) =~= counts);
    }
}

} // verus!
