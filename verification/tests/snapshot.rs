use pi_status::{
    assemble, formate_time, index, pi_data, read_host, scale_memory, used_bytes, Facility,
    MemoryUnit, RawReadings, ReadError, ScaledMemory, DASHBOARD, UNREADABLE_BYTES,
};

const NO_SENSOR: ReadError = ReadError { source: Facility::ThermalSensor };

fn text(raw: &[u8]) -> Result<Vec<u8>, ReadError> {
    Ok(raw.to_vec())
}

fn readings(temperature: Result<Vec<u8>, ReadError>, name: Option<&str>) -> RawReadings {
    let hostname = match name {
        Some(name) => Ok(name.to_string()),
        None => Err(ReadError { source: Facility::HostName }),
    };
    RawReadings {
        core_shares: vec![5000, 10000],
        total_memory: 8000000000,
        used_memory: Ok(999999),
        total_swap: 512,
        used_swap: Ok(0),
        temperature,
        uptime_seconds: 86461,
        hostname,
    }
}

#[test]
fn assemble_normalizes_each_field() {
    let snapshot = assemble(readings(text(b"45000\n"), Some("pi")));
    assert_eq!(snapshot.cpu_usage, 7500);
    assert_eq!(snapshot.cpu_usage as f32 / 100.0, 75.0);
    assert_eq!(snapshot.total_memory, ScaledMemory { magnitude: 8000, unit: MemoryUnit::MB });
    assert_eq!(snapshot.used_memory, ScaledMemory { magnitude: 999, unit: MemoryUnit::KB });
    assert_eq!(snapshot.total_swap, ScaledMemory { magnitude: 512, unit: MemoryUnit::B });
    assert_eq!(snapshot.used_swap, ScaledMemory { magnitude: 0, unit: MemoryUnit::B });
    assert_eq!(snapshot.temperature_millidegrees, 45000);
    assert_eq!(snapshot.uptime, "1 days, 1 minutes, 1 seconds");
    assert_eq!(snapshot.hostname, Some("pi".to_string()));
}

#[test]
fn assemble_without_temperature_fills_every_other_field() {
    let with = assemble(readings(text(b"45000"), Some("pi")));
    let without = assemble(readings(Err(NO_SENSOR), Some("pi")));
    assert_eq!(without.temperature_millidegrees, 0);
    assert_eq!(without.cpu_usage, with.cpu_usage);
    assert_eq!(without.total_memory, with.total_memory);
    assert_eq!(without.used_memory, with.used_memory);
    assert_eq!(without.total_swap, with.total_swap);
    assert_eq!(without.used_swap, with.used_swap);
    assert_eq!(without.uptime, with.uptime);
    assert_eq!(without.hostname, with.hostname);
}

#[test]
fn assemble_with_malformed_temperature_gives_the_default() {
    let snapshot = assemble(readings(text(b"not-a-number"), None));
    assert_eq!(snapshot.temperature_millidegrees, 0);
    assert_eq!(snapshot.uptime, "1 days, 1 minutes, 1 seconds");
}

#[test]
fn assemble_without_hostname_leaves_it_absent() {
    let snapshot = assemble(readings(text(b"45000"), None));
    assert_eq!(snapshot.hostname, None);
    assert_eq!(snapshot.temperature_millidegrees, 45000);
}

#[test]
fn assemble_without_used_figures_shows_the_default() {
    let full = assemble(readings(text(b"45000"), Some("pi")));
    let mut raw = readings(text(b"45000"), Some("pi"));
    raw.used_memory = Err(ReadError { source: Facility::Memory });
    raw.used_swap = Err(ReadError { source: Facility::Swap });
    let degraded = assemble(raw);
    assert_eq!(UNREADABLE_BYTES, 0);
    assert_eq!(degraded.used_memory, ScaledMemory { magnitude: 0, unit: MemoryUnit::B });
    assert_eq!(degraded.used_swap, ScaledMemory { magnitude: 0, unit: MemoryUnit::B });
    assert_eq!(degraded.total_memory, full.total_memory);
    assert_eq!(degraded.total_swap, full.total_swap);
    assert_eq!(degraded.cpu_usage, full.cpu_usage);
    assert_eq!(degraded.temperature_millidegrees, full.temperature_millidegrees);
    assert_eq!(degraded.uptime, full.uptime);
    assert_eq!(degraded.hostname, full.hostname);
}

#[test]
fn assemble_averages_the_cores() {
    let mut raw = readings(Err(NO_SENSOR), None);
    raw.core_shares = vec![];
    assert_eq!(assemble(raw).cpu_usage, 0);
    let mut raw = readings(Err(NO_SENSOR), None);
    raw.core_shares = vec![2500, 10000, 0, 7300];
    let snapshot = assemble(raw);
    assert_eq!(snapshot.cpu_usage, 4950);
    assert!(snapshot.cpu_usage <= 10000);
    let mut raw = readings(Err(NO_SENSOR), None);
    raw.core_shares = vec![1234];
    assert_eq!(assemble(raw).cpu_usage, 1234);
}

#[test]
fn assemble_scales_each_memory_field_on_its_own() {
    let snapshot = assemble(readings(Err(NO_SENSOR), None));
    assert_eq!(snapshot.total_memory.unit, MemoryUnit::MB);
    assert_eq!(snapshot.used_memory.unit, MemoryUnit::KB);
    assert_eq!(snapshot.total_swap.unit, MemoryUnit::B);
}

#[test]
fn assemble_gives_the_same_snapshot_twice() {
    let first = assemble(readings(text(b"1"), Some("a")));
    let second = assemble(readings(text(b"1"), Some("a")));
    assert_eq!(first.cpu_usage, second.cpu_usage);
    assert_eq!(first.temperature_millidegrees, second.temperature_millidegrees);
    assert_eq!(first.uptime, second.uptime);
    assert_eq!(first.total_memory, second.total_memory);
    assert_eq!(first.hostname, second.hostname);
}

#[test]
fn used_bytes_is_the_difference() {
    assert_eq!(used_bytes(1000, 400, Facility::Memory), Ok(600));
    assert_eq!(used_bytes(1000, 0, Facility::Memory), Ok(1000));
    assert_eq!(used_bytes(1000, 1000, Facility::Swap), Ok(0));
    assert_eq!(used_bytes(0, 0, Facility::Swap), Ok(0));
    assert_eq!(used_bytes(u64::MAX, 1, Facility::Memory), Ok(u64::MAX - 1));
}

#[test]
fn used_bytes_of_more_unused_than_total_is_a_read_error() {
    assert_eq!(
        used_bytes(1000, 1001, Facility::Memory),
        Err(ReadError { source: Facility::Memory })
    );
    assert_eq!(used_bytes(0, 1, Facility::Swap), Err(ReadError { source: Facility::Swap }));
    assert_eq!(
        used_bytes(0, u64::MAX, Facility::Swap),
        Err(ReadError { source: Facility::Swap })
    );
}

#[test]
fn read_host_hands_the_caller_readings_on() {
    let raw = read_host(text(b"45000\n"), vec![5000, 10000]);
    assert_eq!(raw.temperature, text(b"45000\n"));
    assert_eq!(raw.core_shares, vec![5000, 10000]);
    if let Err(error) = raw.hostname {
        assert_eq!(error.source, Facility::HostName);
    }
    let none = read_host(Err(NO_SENSOR), vec![]);
    assert_eq!(none.temperature, Err(NO_SENSOR));
    assert_eq!(none.core_shares, Vec::<u32>::new());
}

#[test]
fn read_host_keeps_used_figures_within_their_totals() {
    let raw = read_host(Err(NO_SENSOR), vec![]);
    match raw.used_memory {
        Ok(used) => assert!(used <= raw.total_memory),
        Err(error) => assert_eq!(error.source, Facility::Memory),
    }
    match raw.used_swap {
        Ok(used) => assert!(used <= raw.total_swap),
        Err(error) => assert_eq!(error.source, Facility::Swap),
    }
}

#[test]
fn read_host_and_assemble_agree() {
    let raw = read_host(Err(NO_SENSOR), vec![100, 300]);
    let total = raw.total_memory;
    let seconds = raw.uptime_seconds;
    let snapshot = assemble(raw);
    assert_eq!(snapshot.total_memory, scale_memory(total));
    assert_eq!(snapshot.uptime, formate_time(seconds));
    assert_eq!(snapshot.cpu_usage, 200);
}

#[test]
fn pi_data_succeeds_without_a_sensor() {
    let snapshot = pi_data(Err(NO_SENSOR), vec![5000, 10000]);
    assert_eq!(snapshot.temperature_millidegrees, 0);
    assert_eq!(snapshot.cpu_usage, 7500);
    let fields = [
        snapshot.total_memory,
        snapshot.used_memory,
        snapshot.total_swap,
        snapshot.used_swap,
    ];
    for field in fields {
        match field.unit {
            MemoryUnit::B => assert!(field.magnitude < 1000),
            MemoryUnit::KB => assert!(1 <= field.magnitude && field.magnitude < 1000),
            MemoryUnit::MB => assert!(1 <= field.magnitude),
        }
    }
    for part in snapshot.uptime.split(", ").filter(|part| !part.is_empty()) {
        assert!(!part.starts_with('0'));
    }
}

#[test]
fn pi_data_of_no_core_has_zero_usage() {
    let snapshot = pi_data(Err(NO_SENSOR), vec![]);
    assert_eq!(snapshot.cpu_usage, 0);
    assert_eq!(snapshot.cpu_usage as f32 / 100.0, 0.0);
}

#[test]
fn pi_data_averages_the_cores() {
    let snapshot = pi_data(Err(NO_SENSOR), vec![5000, 10000]);
    assert_eq!(snapshot.cpu_usage, 7500);
    assert_eq!(snapshot.cpu_usage as f32 / 100.0, 75.0);
    let shares: Vec<u32> = vec![0, 10000, 2500, 7300, 9999];
    let snapshot = pi_data(Err(NO_SENSOR), shares.clone());
    assert_eq!(snapshot.cpu_usage, 5959);
    assert!(*shares.iter().min().unwrap() <= snapshot.cpu_usage);
    assert!(snapshot.cpu_usage <= *shares.iter().max().unwrap());
    assert!(snapshot.cpu_usage <= 10000);
}

#[test]
fn pi_data_takes_the_temperature_from_the_text() {
    assert_eq!(pi_data(text(b"45000\n"), vec![]).temperature_millidegrees, 45000);
    assert_eq!(pi_data(text(b"not-a-number"), vec![]).temperature_millidegrees, 0);
}

#[test]
fn index_is_the_dashboard_page() {
    let page = index();
    assert_eq!(page, DASHBOARD);
    assert_eq!(page, index());
    assert!(page.contains("<!DOCTYPE html>"));
    assert!(page.contains("fetch('/status/pi-data')"));
    assert!(page.contains("setInterval(fetchPiData, 1000);"));
    for id in ["cpu-usage", "cpu-temperature", "uptime", "total-memory", "used-memory", "total-swap", "used-swap"] {
        assert!(page.contains(&format!("id=\"{}\"", id)));
    }
}
