//! Point-in-time host telemetry: raw operating-system counters are turned into
//! display-ready values and gathered into one immutable [`Snapshot`].
//!
//! The normalizers are pure functions whose contracts pin their results down;
//! the assembler applies them to one set of raw readings and substitutes a
//! documented default for a reading that could not be taken.

pub mod cpu;
pub mod dashboard;
pub mod host;
pub mod laws;
pub mod memory;
pub mod snapshot;
pub mod temperature;
pub mod uptime;

pub use cpu::{average_usage, FULLY_BUSY};
pub use dashboard::{index, DASHBOARD};
pub use memory::{formate_memory, scale_memory, MemoryUnit, ScaledMemory};
pub use snapshot::{
    assemble, pi_data, read_host, used_bytes, Facility, RawReadings, ReadError, Snapshot,
    UNREADABLE_BYTES,
};
pub use temperature::{convert_temperature, parse_millidegrees, UNREADABLE_MILLIDEGREES};
pub use uptime::{decimal_text, formate_time};
