//! Scaling of byte counts to a magnitude and a unit label for display.

use vstd::prelude::*;
use vstd::string::*;

verus! {

/// Byte counts below this many bytes are shown in bytes.
pub const KILO: u64 = 1000;

/// Byte counts below this many bytes are shown in kilobytes.
pub const MEGA: u64 = 1000000;

/// The unit a scaled byte count is expressed in. Units are decimal:
/// a kilobyte is 1000 bytes and a megabyte is 1000000 bytes.
#[derive(Clone, Copy, Debug, PartialEq, Eq, Structural)]
pub enum MemoryUnit {
    B,
    KB,
    MB,
}

/// A byte count reduced to a magnitude in a chosen unit.
///
/// The magnitude is the byte count divided by the unit's size and truncated:
/// it is meant for display and is lossy on purpose.
#[derive(Clone, Copy, Debug, PartialEq, Eq, Structural)]
pub struct ScaledMemory {
    pub magnitude: u64,
    pub unit: MemoryUnit,
}

/// The unit in which a count of `bytes` bytes is shown.
pub open spec fn unit_of(bytes: nat) -> MemoryUnit {
    if bytes < 1000 {
        MemoryUnit::B
    } else if bytes < 1000000 {
        MemoryUnit::KB
    } else {
        MemoryUnit::MB
    }
}

/// The number of bytes that one of `unit` stands for.
pub open spec fn unit_size(unit: MemoryUnit) -> nat {
    match unit {
        MemoryUnit::B => 1,
        MemoryUnit::KB => 1000,
        MemoryUnit::MB => 1000000,
    }
}

/// The magnitude shown for `bytes` bytes: the count in its unit, truncated.
pub open spec fn magnitude_of(bytes: nat) -> nat {
    bytes / unit_size(unit_of(bytes))
}

/// The label printed behind a magnitude.
pub open spec fn unit_label(unit: MemoryUnit) -> Seq<char> {
    match unit {
        MemoryUnit::B => seq!['B'],
        MemoryUnit::KB => seq!['K', 'B'],
        MemoryUnit::MB => seq!['M', 'B'],
    }
}

/// The scaled form of `bytes` bytes.
pub open spec fn scaled(bytes: u64) -> ScaledMemory {
    ScaledMemory { magnitude: magnitude_of(bytes as nat) as u64, unit: unit_of(bytes as nat) }
}

impl MemoryUnit {
    /// The label of this unit as text: "B", "KB" or "MB".
    pub fn label(&self) -> (text: String)
        ensures
            text@ == unit_label(*self),
    {
        proof {
            reveal_strlit("B");
            reveal_strlit("KB");
            reveal_strlit("MB");
        }
        let text = match self {
            MemoryUnit::B => String::from_str("B"),
            MemoryUnit::KB => String::from_str("KB"),
            MemoryUnit::MB => String::from_str("MB"),
        };
        assert(text@ =~= unit_label(*self));
        text
    }
}

impl ScaledMemory {
    /// A scaled value is well formed when its magnitude is one that scaling
    /// can produce in its unit: below 1000 in bytes, 1 to 999 in kilobytes,
    /// at least 1 in megabytes.
    pub open spec fn wf(&self) -> bool {
        match self.unit {
            MemoryUnit::B => self.magnitude < 1000,
            MemoryUnit::KB => 1 <= self.magnitude < 1000,
            MemoryUnit::MB => 1 <= self.magnitude,
        }
    }
}

/// Scales a byte count for display: below 1000 it stays in bytes, below
/// 1000000 it becomes whole kilobytes, and from there on whole megabytes.
/// Division truncates.
pub fn scale_memory(bytes: u64) -> (out: ScaledMemory)
    ensures
        out == scaled(bytes),
        out.unit == unit_of(bytes as nat),
        out.magnitude == magnitude_of(bytes as nat),
        out.wf(),
        bytes < 1000 ==> out.unit == MemoryUnit::B && out.magnitude == bytes,
        1000 <= bytes < 1000000 ==> out.unit == MemoryUnit::KB && out.magnitude == bytes / 1000,
        1000000 <= bytes ==> out.unit == MemoryUnit::MB && out.magnitude == bytes / 1000000,
{
    if bytes < KILO {
        ScaledMemory { magnitude: bytes, unit: MemoryUnit::B }
    } else if bytes < MEGA {
        ScaledMemory { magnitude: bytes / KILO, unit: MemoryUnit::KB }
    } else {
        ScaledMemory { magnitude: bytes / MEGA, unit: MemoryUnit::MB }
    }
}

/// Scales a byte count and renders its unit as text: the magnitude of
/// [`scale_memory`] with the label "B", "KB" or "MB".
pub fn formate_memory(value: u64) -> (out: (u64, String))
    ensures
        out.0 == magnitude_of(value as nat),
        out.1@ == unit_label(unit_of(value as nat)),
        value < 1000 ==> out.0 == value && out.1@ == seq!['B'],
        1000 <= value < 1000000 ==> out.0 == value / 1000 && out.1@ == seq!['K', 'B'],
        1000000 <= value ==> out.0 == value / 1000000 && out.1@ == seq!['M', 'B'],
{
    let scaled = scale_memory(value);
    (scaled.magnitude, scaled.unit.label())
}

/// Scaling never shows more than the raw count, and what it drops is less
/// than one unit: the magnitude times the unit's size is at most `bytes`,
/// and exceeds it by less than the unit's size when increased by one.
pub proof fn lemma_scaling_truncates(bytes: u64)
    ensures
        magnitude_of(bytes as nat) * unit_size(unit_of(bytes as nat)) <= bytes,
        bytes < (magnitude_of(bytes as nat) + 1) * unit_size(unit_of(bytes as nat)),
        scaled(bytes).wf(),
{
    let size = unit_size(unit_of(bytes as nat));
    assert(size == 1 || size == 1000 || size == 1000000);
    assert(bytes as nat == size * (bytes as nat / size) + bytes as nat % size) by {
        vstd::arithmetic::div_mod::lemma_fundamental_div_mod(bytes as int, size as int);
    }
    assert((magnitude_of(bytes as nat) + 1) * size == magnitude_of(bytes as nat) * size + size)
        by (nonlinear_arith);
    assert(magnitude_of(bytes as nat) * size == size * (bytes as nat / size)) by (nonlinear_arith)
        requires magnitude_of(bytes as nat) == bytes as nat / size;
}

} // verus!
