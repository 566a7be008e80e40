//! Laws that relate several calls of the normalizers and the assembler.

use vstd::prelude::*;
use crate::cpu::mean;
use crate::memory::{scaled, ScaledMemory};
use crate::snapshot::{assembled, ReadingsView, SnapshotView};
use crate::temperature::{converted, millidegrees_of};
use crate::uptime::uptime_text;

verus! {

/// What the normalizers return for one set of inputs.
pub struct Normalized {
    pub average: u32,
    pub memory: ScaledMemory,
    pub uptime: Seq<char>,
    pub parsed: Option<i64>,
    pub temperature: i64,
}

/// `out` is what the averager, the memory scaler, the uptime formatter and
/// the temperature converter promise for `shares`, `bytes`, `seconds` and
/// `raw`.
pub open spec fn normalizes(
    shares: Seq<u32>,
    bytes: u64,
    seconds: u64,
    raw: Seq<u8>,
    out: Normalized,
) -> bool {
    &&& out.average == mean(shares)
    &&& out.memory == scaled(bytes)
    &&& out.uptime == uptime_text(seconds as nat)
    &&& out.parsed == millidegrees_of(raw)
    &&& out.temperature == converted(raw)
}

/// Normalizers keep no hidden state: whatever two rounds of calls on the
/// same inputs return, they return the same.
pub proof fn lemma_normalizers_repeat(
    shares: Seq<u32>,
    bytes: u64,
    seconds: u64,
    raw: Seq<u8>,
    first: Normalized,
    second: Normalized,
)
    requires
        normalizes(shares, bytes, seconds, raw, first),
        normalizes(shares, bytes, seconds, raw, second),
    ensures
        first == second,
{
}

/// Assembling the same readings twice gives the same snapshot.
pub proof fn lemma_assembly_repeats(readings: ReadingsView, first: SnapshotView, second: SnapshotView)
    requires
        first == assembled(readings),
        second == assembled(readings),
    ensures
        first == second,
{
}

} // verus!
