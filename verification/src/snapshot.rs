//! Assembly of one snapshot from one set of raw readings.
//!
//! A reading that could not be taken degrades its own field to a documented
//! default and leaves every other field as it would have been.

use vstd::prelude::*;
use crate::cpu::{all_at_least, all_at_most, average_usage, lemma_mean_within_bounds, mean};
use crate::memory::{scale_memory, scaled, ScaledMemory};
use crate::temperature::{convert_temperature, converted, UNREADABLE_MILLIDEGREES};
use crate::uptime::{formate_time, uptime_text};

verus! {

/// A facility of the operating system that a reader asks.
#[derive(Clone, Copy, Debug, PartialEq, Eq, Structural)]
pub enum Facility {
    /// The thermal sensor's file.
    ThermalSensor,
    /// The host's name.
    HostName,
    /// The figures on RAM.
    Memory,
    /// The figures on swap.
    Swap,
}

/// A reader could not obtain its value: `source` names the facility that
/// was unavailable. The assembler recovers from it with a default.
#[derive(Clone, Copy, Debug, PartialEq, Eq, Structural)]
pub struct ReadError {
    pub source: Facility,
}

/// The amount shown for a "used" figure that could not be read.
pub const UNREADABLE_BYTES: u64 = 0;

/// What the readers obtained from the host, before any normalizing.
pub struct RawReadings {
    /// The busy share of each logical core, in hundredths of a percent.
    pub core_shares: Vec<u32>,
    /// Bytes of RAM.
    pub total_memory: u64,
    /// Bytes of RAM in use, or the error where the host's figures disagree.
    pub used_memory: Result<u64, ReadError>,
    /// Bytes of swap.
    pub total_swap: u64,
    /// Bytes of swap in use, or the error where the host's figures disagree.
    pub used_swap: Result<u64, ReadError>,
    /// Raw text of the thermal sensor, or why it could not be read.
    pub temperature: Result<Vec<u8>, ReadError>,
    /// Whole seconds since boot.
    pub uptime_seconds: u64,
    /// The host's name, or the error where the operating system reports none.
    pub hostname: Result<String, ReadError>,
}

/// The state of the machine at one moment, ready for display.
pub struct Snapshot {
    /// The mean busy share of the logical cores, in hundredths of a
    /// percent; zero on a machine that reports no core.
    pub cpu_usage: u32,
    pub total_memory: ScaledMemory,
    pub used_memory: ScaledMemory,
    pub total_swap: ScaledMemory,
    pub used_swap: ScaledMemory,
    /// Whole millidegrees Celsius; [`UNREADABLE_MILLIDEGREES`] if unreadable.
    pub temperature_millidegrees: i64,
    /// Nonzero segments of the uptime, largest unit first.
    pub uptime: String,
    pub hostname: Option<String>,
}

/// Raw readings as mathematical values.
pub struct ReadingsView {
    pub core_shares: Seq<u32>,
    pub total_memory: u64,
    pub used_memory: Result<u64, ReadError>,
    pub total_swap: u64,
    pub used_swap: Result<u64, ReadError>,
    pub temperature: Result<Seq<u8>, ReadError>,
    pub uptime_seconds: u64,
    pub hostname: Result<Seq<char>, ReadError>,
}

/// A snapshot as mathematical values.
pub struct SnapshotView {
    pub cpu_usage: nat,
    pub total_memory: ScaledMemory,
    pub used_memory: ScaledMemory,
    pub total_swap: ScaledMemory,
    pub used_swap: ScaledMemory,
    pub temperature_millidegrees: i64,
    pub uptime: Seq<char>,
    pub hostname: Option<Seq<char>>,
}

/// A reading of raw text as a sequence of bytes, or its error.
pub open spec fn text_view(text: Result<Vec<u8>, ReadError>) -> Result<Seq<u8>, ReadError> {
    match text {
        Ok(bytes) => Ok(bytes@),
        Err(error) => Err(error),
    }
}

/// A reading of a name as a sequence of characters, or its error.
pub open spec fn reading_view(name: Result<String, ReadError>) -> Result<Seq<char>, ReadError> {
    match name {
        Ok(text) => Ok(text@),
        Err(error) => Err(error),
    }
}

/// A name as a sequence of characters, where there is one.
pub open spec fn name_view(name: Option<String>) -> Option<Seq<char>> {
    match name {
        Some(text) => Some(text@),
        None => None,
    }
}

impl View for RawReadings {
    type V = ReadingsView;

    open spec fn view(&self) -> ReadingsView {
        ReadingsView {
            core_shares: self.core_shares@,
            total_memory: self.total_memory,
            used_memory: self.used_memory,
            total_swap: self.total_swap,
            used_swap: self.used_swap,
            temperature: text_view(self.temperature),
            uptime_seconds: self.uptime_seconds,
            hostname: reading_view(self.hostname),
        }
    }
}

impl View for Snapshot {
    type V = SnapshotView;

    open spec fn view(&self) -> SnapshotView {
        SnapshotView {
            cpu_usage: self.cpu_usage as nat,
            total_memory: self.total_memory,
            used_memory: self.used_memory,
            total_swap: self.total_swap,
            used_swap: self.used_swap,
            temperature_millidegrees: self.temperature_millidegrees,
            uptime: self.uptime@,
            hostname: name_view(self.hostname),
        }
    }
}

impl SnapshotView {
    /// Every memory field is a value that scaling can produce, and the
    /// uptime is the text of some number of seconds.
    pub open spec fn wf(&self) -> bool {
        &&& self.total_memory.wf()
        &&& self.used_memory.wf()
        &&& self.total_swap.wf()
        &&& self.used_swap.wf()
        &&& exists|seconds: u64| self.uptime == #[trigger] uptime_text(seconds as nat)
    }
}

/// The temperature shown for a sensor reading: the default where the sensor
/// could not be read or its text holds no whole number.
pub open spec fn temperature_or_default(text: Result<Seq<u8>, ReadError>) -> i64 {
    match text {
        Ok(bytes) => converted(bytes),
        Err(_) => UNREADABLE_MILLIDEGREES,
    }
}

/// The bytes shown for a "used" figure: the default where the host's
/// figures gave none.
pub open spec fn bytes_or_default(bytes: Result<u64, ReadError>) -> u64 {
    match bytes {
        Ok(count) => count,
        Err(_) => UNREADABLE_BYTES,
    }
}

/// What is in use of `total` when `unused` of it is not: their difference,
/// or a read error naming `source` where more is unused than there is.
pub open spec fn used_of(total: u64, unused: u64, source: Facility) -> Result<u64, ReadError> {
    if unused <= total {
        Ok((total - unused) as u64)
    } else {
        Err(ReadError { source })
    }
}

/// A "used" figure that can come of a total: a count of at most `total`, or
/// a read error that names `source`.
pub open spec fn used_within(used: Result<u64, ReadError>, total: u64, source: Facility) -> bool {
    match used {
        Ok(count) => count <= total,
        Err(error) => error.source == source,
    }
}

/// The host name shown for a reading: absent where it could not be read.
pub open spec fn name_or_absent(name: Result<Seq<char>, ReadError>) -> Option<Seq<char>> {
    match name {
        Ok(text) => Some(text),
        Err(_) => None,
    }
}

/// The snapshot that a set of readings gives: each field normalized on its
/// own, from its own reading.
pub open spec fn assembled(readings: ReadingsView) -> SnapshotView {
    SnapshotView {
        cpu_usage: mean(readings.core_shares),
        total_memory: scaled(readings.total_memory),
        used_memory: scaled(bytes_or_default(readings.used_memory)),
        total_swap: scaled(readings.total_swap),
        used_swap: scaled(bytes_or_default(readings.used_swap)),
        temperature_millidegrees: temperature_or_default(readings.temperature),
        uptime: uptime_text(readings.uptime_seconds as nat),
        hostname: name_or_absent(readings.hostname),
    }
}

/// Forms a "used" figure from the two figures that the host reports: what
/// is left of `total` without `unused`. A host that reports more unused
/// than there is gives no figure but a read error that names `source`.
pub fn used_bytes(total: u64, unused: u64, source: Facility) -> (used: Result<u64, ReadError>)
    ensures
        used == used_of(total, unused, source),
        used_within(used, total, source),
        unused <= total ==> used == Ok::<u64, ReadError>((total - unused) as u64),
        unused > total ==> used == Err::<u64, ReadError>(ReadError { source }),
{
    if unused <= total {
        Ok(total - unused)
    } else {
        Err(ReadError { source })
    }
}

fn bytes_or(bytes: Result<u64, ReadError>) -> (count: u64)
    ensures
        count == bytes_or_default(bytes),
{
    match bytes {
        Ok(count) => count,
        Err(_) => UNREADABLE_BYTES,
    }
}

/// Normalizes each reading and gathers the results. This always succeeds:
/// the CPU usage is the mean of the cores' shares, zero where there is no
/// core; an unreadable or malformed temperature becomes
/// [`UNREADABLE_MILLIDEGREES`], an unreadable "used" figure becomes
/// [`UNREADABLE_BYTES`], an unreadable host name is left out, and no other
/// field is affected.
pub fn assemble(readings: RawReadings) -> (snapshot: Snapshot)
    ensures
        snapshot@ == assembled(readings@),
        snapshot@.wf(),
        snapshot.cpu_usage == mean(readings@.core_shares),
        readings@.core_shares.len() == 0 ==> snapshot.cpu_usage == 0,
        forall|bound: nat|
            readings@.core_shares.len() > 0 && all_at_most(readings@.core_shares, bound)
                ==> snapshot.cpu_usage <= bound,
        forall|bound: nat|
            readings@.core_shares.len() > 0 && all_at_least(readings@.core_shares, bound)
                ==> snapshot.cpu_usage >= bound,
{
    let RawReadings {
        core_shares,
        total_memory,
        used_memory,
        total_swap,
        used_swap,
        temperature,
        uptime_seconds,
        hostname,
    } = readings;
    let temperature_millidegrees: i64 = match &temperature {
        Ok(text) => convert_temperature(text.as_slice()),
        Err(_) => UNREADABLE_MILLIDEGREES,
    };
    let hostname: Option<String> = match hostname {
        Ok(name) => Some(name),
        Err(_) => None,
    };
    let snapshot = Snapshot {
        cpu_usage: average_usage(core_shares.as_slice()),
        total_memory: scale_memory(total_memory),
        used_memory: scale_memory(bytes_or(used_memory)),
        total_swap: scale_memory(total_swap),
        used_swap: scale_memory(bytes_or(used_swap)),
        temperature_millidegrees,
        uptime: formate_time(uptime_seconds),
        hostname,
    };
    proof {
        lemma_assembled_wf(readings@);
    }
    snapshot
}

/// Takes every reading from the host once, on a handle that lives for this
/// call alone, beside the sensor reading and the cores' busy shares that the
/// caller took. What the host reports is not known in advance. The caller's
/// readings are handed on as they came; each "used" figure is formed from
/// the total read and the unused amount read, so it is at most the total;
/// a host without a name gives a read error that names that facility.
pub fn read_host(temperature: Result<Vec<u8>, ReadError>, core_shares: Vec<u32>) -> (readings:
    RawReadings)
    ensures
        readings@.temperature == text_view(temperature),
        readings@.core_shares == core_shares@,
        used_within(readings@.used_memory, readings@.total_memory, Facility::Memory),
        used_within(readings@.used_swap, readings@.total_swap, Facility::Swap),
        readings@.hostname is Err ==> readings@.hostname == Err::<Seq<char>, ReadError>(
            ReadError { source: Facility::HostName },
        ),
{
    let mut system = sysinfo::System::new();
    system.refresh_memory();
    let total_memory: u64 = system.total_memory();
    let available_memory: u64 = system.available_memory();
    let total_swap: u64 = system.total_swap();
    let free_swap: u64 = system.free_swap();
    let hostname: Result<String, ReadError> = match sysinfo::System::host_name() {
        Some(name) => Ok(name),
        None => Err(ReadError { source: Facility::HostName }),
    };
    RawReadings {
        core_shares,
        total_memory,
        used_memory: used_bytes(total_memory, available_memory, Facility::Memory),
        total_swap,
        used_swap: used_bytes(total_swap, free_swap, Facility::Swap),
        temperature,
        uptime_seconds: sysinfo::System::uptime(),
        hostname,
    }
}

/// The snapshot of the host as of now: reads the host once and assembles
/// what it reported with the sensor reading and the cores' busy shares
/// given. Whatever the host reports, the result is the assembly of some
/// readings that hold what was given, so it is well formed, its temperature
/// follows from the sensor reading alone, and its CPU usage is the mean of
/// the shares given: zero for no core, and within any bounds of the shares.
pub fn pi_data(temperature: Result<Vec<u8>, ReadError>, core_shares: Vec<u32>) -> (snapshot:
    Snapshot)
    ensures
        exists|readings: ReadingsView|
            readings.temperature == text_view(temperature) && readings.core_shares
                == core_shares@ && snapshot@ == #[trigger] assembled(readings),
        snapshot@.temperature_millidegrees == temperature_or_default(text_view(temperature)),
        snapshot.cpu_usage == mean(core_shares@),
        core_shares@.len() == 0 ==> snapshot.cpu_usage == 0,
        forall|bound: nat|
            core_shares@.len() > 0 && all_at_most(core_shares@, bound) ==> snapshot.cpu_usage
                <= bound,
        forall|bound: nat|
            core_shares@.len() > 0 && all_at_least(core_shares@, bound) ==> snapshot.cpu_usage
                >= bound,
        snapshot@.wf(),
{
    let readings = read_host(temperature, core_shares);
    assemble(readings)
}

/// Whatever the readings, their snapshot is well formed.
pub proof fn lemma_assembled_wf(readings: ReadingsView)
    ensures
        assembled(readings).wf(),
{
    crate::memory::lemma_scaling_truncates(readings.total_memory);
    crate::memory::lemma_scaling_truncates(bytes_or_default(readings.used_memory));
    crate::memory::lemma_scaling_truncates(readings.total_swap);
    crate::memory::lemma_scaling_truncates(bytes_or_default(readings.used_swap));
    assert(assembled(readings).uptime == uptime_text(readings.uptime_seconds as nat));
}

/// The CPU usage of a snapshot lies between the least and the greatest of
/// the cores' shares: with every share between `low` and `high`, on a
/// machine with at least one core, so is the usage. With shares up to 10000
/// the usage is at most 10000.
pub proof fn lemma_cpu_usage_within_cores(readings: ReadingsView, low: nat, high: nat)
    requires
        readings.core_shares.len() > 0,
        all_at_least(readings.core_shares, low),
        all_at_most(readings.core_shares, high),
    ensures
        low <= assembled(readings).cpu_usage <= high,
{
    lemma_mean_within_bounds(readings.core_shares, low, high);
}

/// A failing reader degrades its own field and no other. With the sensor
/// unreadable, for whatever reason, the snapshot is still well formed, shows
/// the default temperature, and agrees in every other field with the
/// snapshot that the same readings give with the sensor readable. The same
/// holds of an unreadable host name and of an unreadable "used" figure.
pub proof fn lemma_failure_degrades_one_field(readings: ReadingsView, error: ReadError)
    ensures
        ({
            let full = assembled(readings);
            let degraded = assembled(ReadingsView { temperature: Err(error), ..readings });
            &&& degraded.wf()
            &&& degraded == (SnapshotView {
                temperature_millidegrees: UNREADABLE_MILLIDEGREES,
                ..full
            })
        }),
        ({
            let full = assembled(readings);
            let unnamed = assembled(ReadingsView { hostname: Err(error), ..readings });
            &&& unnamed.wf()
            &&& unnamed == (SnapshotView { hostname: None, ..full })
        }),
        ({
            let full = assembled(readings);
            let degraded = assembled(ReadingsView { used_memory: Err(error), ..readings });
            &&& degraded.wf()
            &&& degraded == (SnapshotView { used_memory: scaled(UNREADABLE_BYTES), ..full })
        }),
        ({
            let full = assembled(readings);
            let degraded = assembled(ReadingsView { used_swap: Err(error), ..readings });
            &&& degraded.wf()
            &&& degraded == (SnapshotView { used_swap: scaled(UNREADABLE_BYTES), ..full })
        }),
{
    lemma_assembled_wf(ReadingsView { temperature: Err(error), ..readings });
    lemma_assembled_wf(ReadingsView { hostname: Err(error), ..readings });
    lemma_assembled_wf(ReadingsView { used_memory: Err(error), ..readings });
    lemma_assembled_wf(ReadingsView { used_swap: Err(error), ..readings });
}

} // verus!
