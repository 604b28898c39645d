//! Query results as Direct3D 12 writes them: timestamps and pipeline statistics read back
//! from GPU memory as little endian 64 bit counters.

use vstd::prelude::*;

use crate::gfx::PipelineStatistics;

verus! {

/// Bytes of one timestamp query result.
pub const TIMESTAMP_SIZE_BYTES: usize = 8;

/// Bytes of one pipeline statistics query result: eleven 64 bit counters (input assembler
/// vertices and primitives, vertex shader invocations, geometry shader invocations and
/// primitives, clipper invocations and primitives, pixel, hull, domain and compute shader
/// invocations).
pub const PIPELINE_STATISTICS_SIZE_BYTES: usize = 88;

/// Byte offsets of the counters read from a pipeline statistics result.
pub const IA_VERTICES_OFFSET: usize = 0;
pub const IA_PRIMITIVES_OFFSET: usize = 8;
pub const VS_INVOCATIONS_OFFSET: usize = 16;
pub const PS_INVOCATIONS_OFFSET: usize = 56;
pub const CS_INVOCATIONS_OFFSET: usize = 80;

/// The little endian number held by the `n` bytes of `bytes` from `at`.
pub open spec fn le_value(bytes: Seq<u8>, at: int, n: nat) -> nat
    decreases n,
{
    if n == 0 {
        0
    } else {
        bytes[at] as nat + 256 * le_value(bytes, at + 1, (n - 1) as nat)
    }
}

/// The little endian 64 bit number at byte `at`.
pub open spec fn le_u64(bytes: Seq<u8>, at: int) -> nat {
    le_value(bytes, at, 8)
}

/// `256` to the power `n`.
spec fn byte_power(n: nat) -> nat
    decreases n,
{
    if n == 0 { 1 } else { 256 * byte_power((n - 1) as nat) }
}

proof fn lemma_byte_power_grows(a: nat, b: nat)
    requires
        a <= b,
    ensures
        byte_power(a) <= byte_power(b),
    decreases b,
{
    if a < b {
        lemma_byte_power_grows(a, (b - 1) as nat);
    }
}

proof fn lemma_le_value_bound(bytes: Seq<u8>, at: int, n: nat)
    ensures
        le_value(bytes, at, n) < byte_power(n),
    decreases n,
{
    if n > 0 {
        lemma_le_value_bound(bytes, at + 1, (n - 1) as nat);
        let rest: nat = le_value(bytes, at + 1, (n - 1) as nat);
        let p: nat = byte_power((n - 1) as nat);
        assert(bytes[at] as nat + 256 * rest < 256 * p) by (nonlinear_arith)
            requires rest < p, bytes[at] < 256;
    }
}

/// Reads the little endian 64 bit number at byte `at`.
pub fn read_u64_le(bytes: &[u8], at: usize) -> (value: u64)
    requires
        at + 8 <= bytes@.len(),
    ensures
        value == le_u64(bytes@, at as int),
{
    proof {
        reveal_with_fuel(byte_power, 9);
        assert(byte_power(8) == 0x1_0000_0000_0000_0000);
    }
    let len: usize = bytes.len();
    let mut value: u64 = 0;
    let mut k: usize = 8;
    while k > 0
        invariant
            k <= 8,
            len == bytes@.len(),
            at + 8 <= bytes@.len(),
            value == le_value(bytes@, at + k, (8 - k) as nat),
            byte_power(8) == 0x1_0000_0000_0000_0000,
        decreases k,
    {
        k = k - 1;
        proof {
            lemma_le_value_bound(bytes@, at + k, (8 - k) as nat);
            assert(le_value(bytes@, at + k, (8 - k) as nat) == bytes@[at + k] as nat + 256 * le_value(bytes@,
                at + k + 1, (8 - k - 1) as nat));
            lemma_byte_power_grows((8 - k) as nat, 8);
            assert(256 * value + bytes@[at + k] <= u64::MAX);
        }
        value = bytes[at + k] as u64 + 256 * value;
    }
    value
}

/// The pipeline statistics a query result holds.
pub open spec fn statistics_of(bytes: Seq<u8>) -> PipelineStatistics {
    PipelineStatistics {
        input_assembler_vertices: le_u64(bytes, IA_VERTICES_OFFSET as int) as u64,
        input_assembler_primitives: le_u64(bytes, IA_PRIMITIVES_OFFSET as int) as u64,
        vertex_shader_invocations: le_u64(bytes, VS_INVOCATIONS_OFFSET as int) as u64,
        pixel_shader_primitives: le_u64(bytes, PS_INVOCATIONS_OFFSET as int) as u64,
        compute_shader_invocations: le_u64(bytes, CS_INVOCATIONS_OFFSET as int) as u64,
    }
}

/// Reads the pipeline statistics of a query result read back from the GPU.
pub fn pipeline_statistics_from_bytes(bytes: &[u8]) -> (stats: PipelineStatistics)
    requires
        bytes@.len() >= PIPELINE_STATISTICS_SIZE_BYTES,
    ensures
        stats == statistics_of(bytes@),
{
    PipelineStatistics {
        input_assembler_vertices: read_u64_le(bytes, IA_VERTICES_OFFSET),
        input_assembler_primitives: read_u64_le(bytes, IA_PRIMITIVES_OFFSET),
        vertex_shader_invocations: read_u64_le(bytes, VS_INVOCATIONS_OFFSET),
        pixel_shader_primitives: read_u64_le(bytes, PS_INVOCATIONS_OFFSET),
        compute_shader_invocations: read_u64_le(bytes, CS_INVOCATIONS_OFFSET),
    }
}

} // verus!
