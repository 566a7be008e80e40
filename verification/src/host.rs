//! The host's telemetry interface, as the `sysinfo` crate offers it on Linux.
//!
//! Nothing here is proved. What a reading holds depends on the machine and
//! the moment, so no contract says anything about a value read. Only
//! functions that hand back a stored figure are called: the crate's own
//! "used" figures are differences that it forms unguarded, so the library
//! forms them itself from the two figures read.

use vstd::prelude::*;

verus! {

/// `sysinfo::System`: a handle on the host's counters, opaque to the verifier.
#[verifier::external_type_specification]
#[verifier::external_body]
pub struct ExSystem(sysinfo::System);

/// `System::new` creates a handle with nothing loaded.
pub assume_specification[ sysinfo::System::new ]() -> (system: sysinfo::System);

/// `System::refresh_memory` reads the figures on RAM and swap anew.
pub assume_specification[ sysinfo::System::refresh_memory ](system: &mut sysinfo::System);

/// `System::total_memory` returns the size of the RAM in bytes.
pub assume_specification[ sysinfo::System::total_memory ](system: &sysinfo::System) -> (bytes: u64);

/// `System::available_memory` returns the amount of RAM in bytes that is
/// available for use.
pub assume_specification[ sysinfo::System::available_memory ](system: &sysinfo::System) -> (bytes: u64);

/// `System::total_swap` returns the size of the swap in bytes.
pub assume_specification[ sysinfo::System::total_swap ](system: &sysinfo::System) -> (bytes: u64);

/// `System::free_swap` returns the amount of free swap in bytes.
pub assume_specification[ sysinfo::System::free_swap ](system: &sysinfo::System) -> (bytes: u64);

/// `System::uptime` returns the time since boot in seconds.
pub assume_specification[ sysinfo::System::uptime ]() -> (seconds: u64);

/// `System::host_name` returns the host's name, or nothing where the
/// operating system reports none.
pub assume_specification[ sysinfo::System::host_name ]() -> (name: Option<String>);

} // verus!
