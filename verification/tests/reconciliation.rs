//! Multi-source reconciliation: the disk-type precedence chain, the
//! graphics-memory preference, and the monitor's positional correlation.

use cirg::disk_info::{disk_type_tables, guess_disk_type, resolve_disk_type, DiskInfo};
use cirg::gpu_info::{GpuInfo, VramReading};
use cirg::monitor_info::{DisplayMode, MonitorInfo};
use cirg::table::StrEntry;
use cirg::value::{Field, Record, Value};

fn record(fields: Vec<(&str, Value)>) -> Record {
    Record {
        fields: fields
            .into_iter()
            .map(|(k, v)| Field { key: String::from(k), val: v })
            .collect(),
    }
}

fn entry(k: &str, v: &str) -> StrEntry {
    StrEntry { key: String::from(k), val: String::from(v) }
}

#[test]
fn serial_match_wins_over_conflicting_index_match() {
    let serial_tab = vec![entry("S123", "SSD")];
    let devid_tab = vec![entry("0", "HDD")];
    // both keys match the same drive; the serial-keyed result wins
    let got = resolve_disk_type(&serial_tab, &devid_tab, "S123", 0, "Some HDD Model");
    assert_eq!(got, "SSD");
}

#[test]
fn index_match_used_when_serial_absent() {
    let serial_tab = vec![entry("OTHER", "SSD")];
    let devid_tab = vec![entry("1", "HDD")];
    let got = resolve_disk_type(&serial_tab, &devid_tab, "S999", 1, "Plain Model");
    assert_eq!(got, "HDD");
}

#[test]
fn heuristic_resolves_nvme_when_no_key_matches() {
    let serial_tab: Vec<StrEntry> = vec![];
    let devid_tab: Vec<StrEntry> = vec![];
    let got = resolve_disk_type(&serial_tab, &devid_tab, "S1", 5, "Samsung NVMe 970");
    assert_eq!(got, "SSD");
    let unknown = resolve_disk_type(&serial_tab, &devid_tab, "S1", 5, "Seagate Barracuda");
    assert_eq!(unknown, "Unknown");
}

#[test]
fn model_heuristic_is_case_insensitive() {
    assert_eq!(guess_disk_type("fast ssd drive"), "SSD");
    assert_eq!(guess_disk_type("NVME thing"), "SSD");
    assert_eq!(guess_disk_type("nvm express"), "SSD");
    assert_eq!(guess_disk_type("spinning rust"), "Unknown");
}

#[test]
fn type_tables_trim_serials_and_skip_empty() {
    let rows = vec![
        record(vec![
            ("MediaType", Value::UI2(4)),
            ("SerialNumber", Value::Str(String::from("  S1  "))),
            ("DeviceId", Value::Str(String::from("0"))),
        ]),
        record(vec![
            ("MediaType", Value::UI2(3)),
            ("SerialNumber", Value::Str(String::from("   "))),
            ("DeviceId", Value::Str(String::from("1"))),
        ]),
    ];
    let (serial_tab, devid_tab) = disk_type_tables(&rows);
    assert_eq!(serial_tab.len(), 1);
    assert_eq!(serial_tab[0].key, "S1");
    assert_eq!(serial_tab[0].val, "SSD");
    assert_eq!(devid_tab.len(), 2);
    assert_eq!(devid_tab[1].val, "HDD");
}

#[test]
fn repeated_serial_keeps_the_later_row() {
    // two secondary rows with the same trimmed serial: the later one's
    // medium decides, as in the keyed store the rows fill
    let rows = vec![
        record(vec![
            ("MediaType", Value::UI2(3)),
            ("SerialNumber", Value::Str(String::from("DUP"))),
            ("DeviceId", Value::Str(String::from("0"))),
        ]),
        record(vec![
            ("MediaType", Value::UI2(4)),
            ("SerialNumber", Value::Str(String::from(" DUP "))),
            ("DeviceId", Value::Str(String::from("0"))),
        ]),
    ];
    let (serial_tab, devid_tab) = disk_type_tables(&rows);
    let got = resolve_disk_type(&serial_tab, &devid_tab, "DUP", 9, "Model");
    assert_eq!(got, "SSD");
    // the index-keyed table behaves the same way
    let by_index = resolve_disk_type(&serial_tab, &devid_tab, "NONE", 0, "Model");
    assert_eq!(by_index, "SSD");
}

#[test]
fn disk_build_joins_sources() {
    let msft = vec![record(vec![
        ("MediaType", Value::UI2(4)),
        ("SerialNumber", Value::Str(String::from("SER"))),
        ("DeviceId", Value::Str(String::from("0"))),
    ])];
    let phys = vec![record(vec![
        ("Model", Value::Str(String::from("Disk Model"))),
        ("SerialNumber", Value::Str(String::from(" SER "))),
        ("Index", Value::UI4(0)),
        ("Size", Value::Str(String::from("1073741824"))),
        ("InterfaceType", Value::Str(String::from("SCSI"))),
        ("Status", Value::Str(String::from("OK"))),
    ])];
    let log = vec![record(vec![
        ("DeviceID", Value::Str(String::from("C:"))),
        ("VolumeName", Value::Str(String::from("System"))),
        ("FileSystem", Value::Str(String::from("NTFS"))),
        ("Size", Value::UI8(200)),
        ("FreeSpace", Value::UI8(50)),
    ])];
    let info = DiskInfo::build(&phys, &log, &msft);
    assert_eq!(info.physical_disks.len(), 1);
    let d = &info.physical_disks[0];
    assert_eq!(d.disk_type, "SSD");
    // one binary gigabyte, in millionths
    assert_eq!(d.size_gb_micro, 1_000_000);
    assert_eq!(d.interface_type, "SCSI");
    let v = &info.logical_disks[0];
    assert_eq!(v.usage_pct_micro, 75_000_000);
    assert_eq!(v.device_id, "C:");
}

#[test]
fn store_vram_preferred_when_nonzero() {
    let readings = vec![
        VramReading { desc: String::from("Card A"), size: Some(8 * 1024 * 1024 * 1024) },
        VramReading { desc: String::from("Card B"), size: Some(0) },
        VramReading { desc: String::from("Card C"), size: None },
    ];
    let rows = vec![
        record(vec![
            ("Name", Value::Str(String::from("Card A"))),
            ("AdapterRAM", Value::UI4(1024 * 1024)),
        ]),
        record(vec![
            ("Name", Value::Str(String::from("Card B"))),
            ("AdapterRAM", Value::UI4(2 * 1024 * 1024)),
        ]),
    ];
    let info = GpuInfo::build(&rows, &readings);
    // the 64-bit store reading lifts the primary field's ceiling
    assert_eq!(info.adapters[0].adapter_ram_mb, 8 * 1024);
    // a zero store reading is ignored in favor of the primary field
    assert_eq!(info.adapters[1].adapter_ram_mb, 2);
}

#[test]
fn repeated_description_keeps_the_later_reading() {
    let readings = vec![
        VramReading { desc: String::from("Card"), size: Some(1024 * 1024) },
        VramReading { desc: String::from("Card"), size: Some(2 * 1024 * 1024) },
    ];
    let rows = vec![record(vec![
        ("Name", Value::Str(String::from("Card"))),
        ("AdapterRAM", Value::UI4(512 * 1024)),
    ])];
    let info = GpuInfo::build(&rows, &readings);
    assert_eq!(info.adapters[0].adapter_ram_mb, 2);
}

#[test]
fn gpu_row_normalization() {
    let rows = vec![record(vec![
        ("Name", Value::Str(String::from("Card"))),
        ("Availability", Value::UI2(3)),
        ("CurrentHorizontalResolution", Value::UI4(1920)),
        ("CurrentVerticalResolution", Value::UI4(1080)),
        ("CurrentRefreshRate", Value::UI4(60)),
        ("DriverDate", Value::Str(String::from("20240115000000.000000-000"))),
        ("DriverVersion", Value::Str(String::from("1.2.3"))),
    ])];
    let info = GpuInfo::build(&rows, &vec![]);
    let a = &info.adapters[0];
    assert_eq!(a.availability, "Running/Full Power");
    assert_eq!(a.resolution, "1920x1080");
    assert_eq!(a.driver_date, "2024-01-15");
    assert_eq!(a.refresh_rate, 60);
}

#[test]
fn monitors_correlate_positionally_and_degrade() {
    let name_bytes = |s: &str| {
        Value::Array(s.bytes().map(Value::UI1).collect())
    };
    let rows = vec![
        record(vec![
            ("ManufacturerName", name_bytes("DEL")),
            ("UserFriendlyName", name_bytes("Monitor One")),
            ("SerialNumberID", name_bytes("SN1")),
            ("YearOfManufacture", Value::UI2(2021)),
        ]),
        record(vec![
            ("ManufacturerName", name_bytes("AUS")),
            ("UserFriendlyName", name_bytes("Monitor Two")),
            ("SerialNumberID", name_bytes("SN2")),
            ("YearOfManufacture", Value::UI2(2022)),
        ]),
    ];
    // only one active display was enumerated: the second monitor must not
    // borrow its mode
    let modes = vec![DisplayMode { resolution: String::from("2560x1440"), refresh_rate: 144 }];
    let info = MonitorInfo::build(&rows, &modes);
    assert_eq!(info.monitors.len(), 2);
    assert_eq!(info.monitors[0].resolution, "2560x1440");
    assert_eq!(info.monitors[0].refresh_rate, 144);
    assert_eq!(info.monitors[0].manufacturer, "DEL");
    assert_eq!(info.monitors[1].resolution, "N/A");
    assert_eq!(info.monitors[1].refresh_rate, 0);
    assert_eq!(info.monitors[1].year_of_manufacture, 2022);
}
