//! The identity probes and the civil-time model they parse into.

use cirg::computer_info::{BIOSInfo, ComputerInfo, OSInfo, OsStoreReadings};
use cirg::network_info::NetworkInfo;
use cirg::errors::ProbeError;
use cirg::time::{
    day_before, epoch_seconds, format_stamp, parse_date8, parse_stamp14, seconds_between,
    DateStamp,
};
use cirg::value::{Field, Record, Value};

fn record(fields: Vec<(&str, Value)>) -> Record {
    Record {
        fields: fields
            .into_iter()
            .map(|(k, v)| Field { key: String::from(k), val: v })
            .collect(),
    }
}

fn s(v: &str) -> Value {
    Value::Str(String::from(v))
}

fn stamp(y: i64, mo: u32, d: u32, h: u32, mi: u32, se: u32) -> DateStamp {
    DateStamp { year: y, month: mo, day: d, hour: h, minute: mi, second: se }
}

#[test]
fn stamp_parsing() {
    let st = parse_stamp14("20240229123456.000000+060").expect("leap day parses");
    assert_eq!((st.year, st.month, st.day), (2024, 2, 29));
    assert_eq!((st.hour, st.minute, st.second), (12, 34, 56));
    // a non-leap year has no such day
    assert!(parse_stamp14("20230229123456").is_none());
    assert!(parse_stamp14("2024022912345x").is_none());
    assert!(parse_stamp14("short").is_none());
    let d = parse_date8("20231105").expect("date parses");
    assert_eq!((d.year, d.month, d.day), (2023, 11, 5));
    assert!(parse_date8("20231340").is_none());
}

#[test]
fn epoch_and_differences() {
    assert_eq!(epoch_seconds(&stamp(1970, 1, 1, 0, 0, 0)), 0);
    assert_eq!(epoch_seconds(&stamp(1970, 1, 2, 0, 0, 0)), 86400);
    // a known modern instant
    assert_eq!(epoch_seconds(&stamp(2024, 1, 1, 0, 0, 0)), 1704067200);
    let boot = stamp(2024, 1, 1, 0, 0, 0);
    let now = stamp(2024, 1, 2, 3, 0, 5);
    assert_eq!(seconds_between(&boot, &now), 86400 + 3 * 3600 + 5);
}

#[test]
fn day_stepping_rolls_boundaries() {
    let mid = day_before(&stamp(2024, 3, 1, 8, 0, 0));
    assert_eq!((mid.year, mid.month, mid.day), (2024, 2, 29));
    let newyear = day_before(&stamp(2024, 1, 1, 8, 0, 0));
    assert_eq!((newyear.year, newyear.month, newyear.day), (2023, 12, 31));
    let plain = day_before(&stamp(2024, 5, 10, 8, 0, 0));
    assert_eq!((plain.year, plain.month, plain.day), (2024, 5, 9));
}

#[test]
fn stamp_rendering_pads() {
    assert_eq!(format_stamp(&stamp(987, 6, 5, 4, 3, 2)), "0987-06-05T04:03:02");
    assert_eq!(format_stamp(&stamp(2024, 12, 31, 23, 59, 59)), "2024-12-31T23:59:59");
}

#[test]
fn os_record_requires_its_sources() {
    let os_rows = vec![record(vec![
        ("Caption", s("OS Eleven")),
        ("OSArchitecture", s("64-bit")),
        ("InstallDate", s("20230301120000.000000+000")),
        ("LastBootUpTime", s("20240101000000.000000+000")),
        ("Version", s("10.0.22631")),
    ])];
    let tz_rows = vec![record(vec![("Caption", s("(UTC+01:00) Vienna"))])];
    let store = Some(OsStoreReadings {
        display_version: Some(String::from("23H2")),
        build_lab: None,
    });
    let now = stamp(2024, 1, 2, 0, 0, 0);
    let os = OSInfo::build(&os_rows, store, &tz_rows, &now).expect("all sources present");
    assert_eq!(os.name, "OS Eleven");
    assert_eq!(os.version, "23H2");
    assert_eq!(os.build_lab, "N/A");
    assert_eq!(os.uptime, 86400);
    assert_eq!(os.timezone, "(UTC+01:00) Vienna");
    assert_eq!((os.install_date.year, os.install_date.month), (2023, 3));

    // the store key failing to open is probe-fatal
    assert_eq!(
        OSInfo::build(&os_rows, None, &tz_rows, &now).map(|o| o.name),
        Err(ProbeError::SourceUnavailable)
    );
    // no system row at all is probe-fatal
    assert_eq!(
        OSInfo::build(
            &vec![],
            Some(OsStoreReadings { display_version: None, build_lab: None }),
            &tz_rows,
            &now
        )
        .map(|o| o.name),
        Err(ProbeError::NoData)
    );
}

#[test]
fn bios_and_computer_records() {
    let bios_rows = vec![record(vec![
        ("Manufacturer", s("Firmware Co")),
        ("SMBIOSBIOSVersion", s("F.42")),
        ("ReleaseDate", s("20220304000000.000000+000")),
    ])];
    let bios = BIOSInfo::build(&bios_rows).expect("complete row");
    assert_eq!((bios.release_date.year, bios.release_date.month, bios.release_date.day), (2022, 3, 4));

    // a missing release date defaults to the epoch date
    let dateless = vec![record(vec![
        ("Manufacturer", s("Firmware Co")),
        ("SMBIOSBIOSVersion", s("F.42")),
    ])];
    let d = BIOSInfo::build(&dateless).expect("date is optional");
    assert_eq!((d.release_date.year, d.release_date.month, d.release_date.day), (1970, 1, 1));

    let os_rows = vec![record(vec![
        ("Caption", s("OS")),
        ("OSArchitecture", s("64-bit")),
        ("InstallDate", s("20230301120000")),
        ("LastBootUpTime", s("20240101000000")),
    ])];
    let tz_rows = vec![record(vec![("Caption", s("UTC"))])];
    let now = stamp(2024, 1, 2, 0, 0, 0);
    let os = OSInfo::build(
        &os_rows,
        Some(OsStoreReadings { display_version: None, build_lab: Some(String::from("bl")) }),
        &tz_rows,
        &now,
    )
    .expect("ok");

    let cs_rows = vec![record(vec![
        ("Name", s("HOST-1")),
        ("PartOfDomain", Value::Bool(false)),
        ("Workgroup", s("WORKGROUP")),
        ("Manufacturer", s("Box Builder")),
        ("SystemType", s("x64-based PC")),
    ])];
    let computer = ComputerInfo::build(&cs_rows, os, d).expect("complete row");
    assert_eq!(computer.domain, "WORKGROUP (Workgroup)");
    // no display version in the store and none in the row: empty
    assert_eq!(computer.operating_system.version, "");
    assert_eq!(computer.operating_system.build_lab, "bl");
    assert_eq!(computer.bios.version, "F.42");

    // a machine in a domain reports the domain itself
    let in_domain = vec![record(vec![
        ("Name", s("HOST-2")),
        ("PartOfDomain", Value::Bool(true)),
        ("Domain", s("corp.example")),
        ("Manufacturer", s("Box Builder")),
        ("SystemType", s("x64-based PC")),
    ])];
    let os2 = OSInfo::build(
        &vec![record(vec![
            ("Caption", s("OS")),
            ("OSArchitecture", s("64-bit")),
            ("InstallDate", s("20230301120000")),
            ("LastBootUpTime", s("20240101000000")),
        ])],
        Some(OsStoreReadings { display_version: None, build_lab: None }),
        &vec![record(vec![("Caption", s("UTC"))])],
        &now,
    )
    .expect("ok");
    let bios2 = BIOSInfo::build(&dateless).expect("ok");
    let c2 = ComputerInfo::build(&in_domain, os2, bios2).expect("complete row");
    assert_eq!(c2.domain, "corp.example");

    // identity fields are required
    let nameless = vec![record(vec![("PartOfDomain", Value::Bool(false))])];
    let os3 = OSInfo::build(
        &vec![record(vec![
            ("Caption", s("OS")),
            ("OSArchitecture", s("64-bit")),
            ("InstallDate", s("20230301120000")),
            ("LastBootUpTime", s("20240101000000")),
        ])],
        Some(OsStoreReadings { display_version: None, build_lab: None }),
        &vec![record(vec![("Caption", s("UTC"))])],
        &now,
    )
    .expect("ok");
    let bios3 = BIOSInfo::build(&dateless).expect("ok");
    assert_eq!(
        ComputerInfo::build(&nameless, os3, bios3).map(|c| c.name),
        Err(ProbeError::MissingField)
    );
}

#[test]
fn event_window_start_is_well_formed() {
    let start = cirg::time::default_event_window_start();
    // one day before now: nineteen characters in stamp form
    assert_eq!(start.len(), 19);
    let bytes = start.as_bytes();
    assert_eq!(bytes[4], b'-');
    assert_eq!(bytes[7], b'-');
    assert_eq!(bytes[10], b'T');
    assert_eq!(bytes[13], b':');
    assert_eq!(bytes[16], b':');
}

#[test]
fn network_adapters_join_by_index() {
    let adapter_rows = vec![record(vec![
        ("Index", Value::UI4(7)),
        ("NetConnectionID", s("Ethernet")),
        ("Speed", Value::Str(String::from("1000000000"))),
        ("MACAddress", s("AA:BB")),
    ])];
    let config_rows = vec![record(vec![
        ("Index", Value::UI4(7)),
        ("Description", s("Intel NIC")),
        (
            "IPAddress",
            Value::Array(vec![s("192.168.0.2"), s("fe80::1")].into_iter().collect()),
        ),
        ("DNSServerSearchOrder", Value::Array(vec![s("1.1.1.1")])),
        ("DefaultIPGateway", Value::Array(vec![s("192.168.0.1")])),
        ("DHCPEnabled", Value::Bool(true)),
    ])];
    let info = NetworkInfo::build(&adapter_rows, &config_rows);
    let a = &info.adapters[0];
    assert_eq!(a.name, "Ethernet");
    assert_eq!(a.speed, "1.0 Gbps");
    assert_eq!(a.mac_address, "AA:BB");
    assert_eq!(a.ipv4_addresses, vec![String::from("192.168.0.2")]);
    assert_eq!(a.ipv6_addresses, vec![String::from("fe80::1")]);
    assert_eq!(a.gateway, "192.168.0.1");
    assert!(a.dhcp_enabled);

    // an unmatched index degrades the joined fields, not the row
    let orphan = vec![record(vec![("Index", Value::UI4(9)), ("Description", s("Other"))])];
    let info2 = NetworkInfo::build(&adapter_rows, &orphan);
    assert_eq!(info2.adapters[0].name, "");
    assert_eq!(info2.adapters[0].speed, "N/A");

    // an index listed twice keeps the later inventory row
    let doubled = vec![
        record(vec![("Index", Value::UI4(7)), ("NetConnectionID", s("Old"))]),
        record(vec![("Index", Value::UI4(7)), ("NetConnectionID", s("New"))]),
    ];
    let info3 = NetworkInfo::build(&doubled, &config_rows);
    assert_eq!(info3.adapters[0].name, "New");
}
