//! The identity probes: machine identity, operating system, and firmware.
//! These are single-row probes whose identity fields are required: a row
//! that lacks them is a failed probe, not a defaulted record.

use vstd::prelude::*;
use crate::errors::ProbeError;
use crate::time::{
    parse_date8, parse_stamp14, parsed_date, parsed_stamp, seconds_between, seconds_between_spec,
    stamp_valid, DateStamp,
};
use crate::value::{spec_get_bool, str_field, Record};

verus! {

/// The machine-identity category.
pub struct ComputerInfo {
    /// The machine's name.
    pub name: String,
    /// The domain, or the workgroup marked as one.
    pub domain: String,
    /// The system's maker.
    pub manufacturer: String,
    /// The system type.
    pub system_type: String,
    /// The operating-system record.
    pub operating_system: OSInfo,
    /// The firmware record.
    pub bios: BIOSInfo,
}

/// The operating-system category.
pub struct OSInfo {
    /// The edition's name.
    pub name: String,
    /// The display version, or the build version where none is set.
    pub version: String,
    /// The detailed build text, or "N/A".
    pub build_lab: String,
    /// The architecture text.
    pub architecture: String,
    /// When the system was installed.
    pub install_date: DateStamp,
    /// When the system last booted.
    pub last_boot_date: DateStamp,
    /// Seconds since the last boot, against the given clock.
    pub uptime: u64,
    /// The time zone's caption.
    pub timezone: String,
}

/// The firmware category.
pub struct BIOSInfo {
    /// The firmware's maker.
    pub manufacturer: String,
    /// The firmware version.
    pub version: String,
    /// The firmware's release date; the epoch date where none was given.
    pub release_date: DateStamp,
}

/// The configuration-store readings the operating-system probe joins in,
/// where its key could be opened.
pub struct OsStoreReadings {
    /// The display version, where the store holds one.
    pub display_version: Option<String>,
    /// The detailed build text, where the store holds one.
    pub build_lab: Option<String>,
}

/// The fields of the operating-system record, at the specification level.
pub struct OsFields {
    /// Edition text.
    pub name: Seq<char>,
    /// Version text.
    pub version: Seq<char>,
    /// Build text.
    pub build_lab: Seq<char>,
    /// Architecture text.
    pub architecture: Seq<char>,
    /// Install stamp.
    pub install_date: DateStamp,
    /// Boot stamp.
    pub last_boot_date: DateStamp,
    /// Uptime seconds.
    pub uptime: u64,
    /// Time zone text.
    pub timezone: Seq<char>,
}

impl OSInfo {
    /// The record's fields as sequences.
    pub open spec fn view_fields(self) -> OsFields {
        OsFields {
            name: self.name@,
            version: self.version@,
            build_lab: self.build_lab@,
            architecture: self.architecture@,
            install_date: self.install_date,
            last_boot_date: self.last_boot_date,
            uptime: self.uptime,
            timezone: self.timezone@,
        }
    }
}

/// The view of an optional string.
pub open spec fn opt_text(s: Option<String>) -> Option<Seq<char>> {
    match s {
        Some(x) => Some(x@),
        None => None,
    }
}

/// What the operating-system probe yields: the store's key must open and
/// the system and time-zone rows must exist; the edition, architecture,
/// install and boot stamps and the time-zone caption are required; the
/// version falls back from the store to the row to empty, and the build
/// text to "N/A".
pub open spec fn os_result(
    os_rows: Seq<Record>,
    store: Option<OsStoreReadings>,
    tz_rows: Seq<Record>,
    now: DateStamp,
) -> Result<OsFields, ProbeError> {
    if os_rows.len() == 0 {
        Err(ProbeError::NoData)
    } else {
        let row = os_rows[0];
        match store {
            None => Err(ProbeError::SourceUnavailable),
            Some(reg) => match str_field(row, "Caption"@) {
                None => Err(ProbeError::MissingField),
                Some(name) => match str_field(row, "OSArchitecture"@) {
                    None => Err(ProbeError::MissingField),
                    Some(arch) => match str_field(row, "InstallDate"@) {
                        None => Err(ProbeError::MissingField),
                        Some(inst) => match parsed_stamp(inst) {
                            None => Err(ProbeError::MissingField),
                            Some(install_date) => match str_field(row, "LastBootUpTime"@) {
                                None => Err(ProbeError::MissingField),
                                Some(boot) => match parsed_stamp(boot) {
                                    None => Err(ProbeError::MissingField),
                                    Some(last_boot_date) => {
                                        if tz_rows.len() == 0 {
                                            Err(ProbeError::NoData)
                                        } else {
                                            match str_field(tz_rows[0], "Caption"@) {
                                                None => Err(ProbeError::MissingField),
                                                Some(tz) => Ok(
                                                    OsFields {
                                                        name: name,
                                                        version: match opt_text(
                                                            reg.display_version,
                                                        ) {
                                                            Some(v) => v,
                                                            None => match str_field(
                                                                row,
                                                                "Version"@,
                                                            ) {
                                                                Some(v) => v,
                                                                None => Seq::<char>::empty(),
                                                            },
                                                        },
                                                        build_lab: match opt_text(reg.build_lab) {
                                                            Some(b) => b,
                                                            None => "N/A"@,
                                                        },
                                                        architecture: arch,
                                                        install_date: install_date,
                                                        last_boot_date: last_boot_date,
                                                        uptime: seconds_between_spec(
                                                            last_boot_date,
                                                            now,
                                                        ),
                                                        timezone: tz,
                                                    },
                                                ),
                                            }
                                        }
                                    },
                                },
                            },
                        },
                    },
                },
            },
        }
    }
}

impl OSInfo {
    /// Normalizes the operating-system row, the store readings, and the
    /// time-zone row, computing the uptime against the given clock.
    pub fn build(
        os_rows: &Vec<Record>,
        store: Option<OsStoreReadings>,
        tz_rows: &Vec<Record>,
        now: &DateStamp,
    ) -> (r: Result<OSInfo, ProbeError>)
        requires
            stamp_valid(*now),
        ensures
            match os_result(os_rows@, store, tz_rows@, *now) {
                Ok(f) => (r matches Ok(os) && os.view_fields() == f),
                Err(e) => r == Err::<OSInfo, ProbeError>(e),
            },
    {
        if os_rows.len() == 0 {
            return Err(ProbeError::NoData);
        }
        let row = &os_rows[0];
        let reg = match store {
            None => {
                return Err(ProbeError::SourceUnavailable);
            },
            Some(reg) => reg,
        };
        let name = match row.get_string("Caption") {
            Ok(s) => s,
            Err(_) => {
                return Err(ProbeError::MissingField);
            },
        };
        let architecture = match row.get_string("OSArchitecture") {
            Ok(s) => s,
            Err(_) => {
                return Err(ProbeError::MissingField);
            },
        };
        let install_raw = match row.get_string("InstallDate") {
            Ok(s) => s,
            Err(_) => {
                return Err(ProbeError::MissingField);
            },
        };
        let install_date = match parse_stamp14(install_raw.as_str()) {
            Some(d) => d,
            None => {
                return Err(ProbeError::MissingField);
            },
        };
        let boot_raw = match row.get_string("LastBootUpTime") {
            Ok(s) => s,
            Err(_) => {
                return Err(ProbeError::MissingField);
            },
        };
        let last_boot_date = match parse_stamp14(boot_raw.as_str()) {
            Some(d) => d,
            None => {
                return Err(ProbeError::MissingField);
            },
        };
        if tz_rows.len() == 0 {
            return Err(ProbeError::NoData);
        }
        let timezone = match tz_rows[0].get_string("Caption") {
            Ok(s) => s,
            Err(_) => {
                return Err(ProbeError::MissingField);
            },
        };
        let version: String = match reg.display_version {
            Some(v) => v,
            None => match row.get_string("Version") {
                Ok(v) => v,
                Err(_) => String::new(),
            },
        };
        let build_lab: String = match reg.build_lab {
            Some(b) => b,
            None => String::from_str("N/A"),
        };
        let uptime = seconds_between(&last_boot_date, now);
        Ok(
            OSInfo {
                name,
                version,
                build_lab,
                architecture,
                install_date,
                last_boot_date,
                uptime,
                timezone,
            },
        )
    }
}

/// The fields of the firmware record, at the specification level.
pub struct BiosFields {
    /// Maker text.
    pub manufacturer: Seq<char>,
    /// Version text.
    pub version: Seq<char>,
    /// Release stamp.
    pub release_date: DateStamp,
}

impl BIOSInfo {
    /// The record's fields as sequences.
    pub open spec fn view_fields(self) -> BiosFields {
        BiosFields {
            manufacturer: self.manufacturer@,
            version: self.version@,
            release_date: self.release_date,
        }
    }
}

/// The epoch date: what the release date reads when the source gives none.
pub open spec fn epoch_date() -> DateStamp {
    DateStamp { year: 1970, month: 1, day: 1, hour: 0, minute: 0, second: 0 }
}

/// What the firmware probe yields: maker and version are required; a
/// release date, where given, must parse, and where absent reads as the
/// epoch date.
pub open spec fn bios_result(rows: Seq<Record>) -> Result<BiosFields, ProbeError> {
    if rows.len() == 0 {
        Err(ProbeError::NoData)
    } else {
        let row = rows[0];
        match str_field(row, "Manufacturer"@) {
            None => Err(ProbeError::MissingField),
            Some(manufacturer) => match str_field(row, "SMBIOSBIOSVersion"@) {
                None => Err(ProbeError::MissingField),
                Some(version) => match str_field(row, "ReleaseDate"@) {
                    Some(raw) => match parsed_date(raw) {
                        Some(d) => Ok(
                            BiosFields { manufacturer, version, release_date: d },
                        ),
                        None => Err(ProbeError::MissingField),
                    },
                    None => Ok(
                        BiosFields { manufacturer, version, release_date: epoch_date() },
                    ),
                },
            },
        }
    }
}

impl BIOSInfo {
    /// Normalizes the firmware row.
    pub fn build(rows: &Vec<Record>) -> (r: Result<BIOSInfo, ProbeError>)
        ensures
            match bios_result(rows@) {
                Ok(f) => (r matches Ok(b) && b.view_fields() == f),
                Err(e) => r == Err::<BIOSInfo, ProbeError>(e),
            },
    {
        if rows.len() == 0 {
            return Err(ProbeError::NoData);
        }
        let row = &rows[0];
        let manufacturer = match row.get_string("Manufacturer") {
            Ok(s) => s,
            Err(_) => {
                return Err(ProbeError::MissingField);
            },
        };
        let version = match row.get_string("SMBIOSBIOSVersion") {
            Ok(s) => s,
            Err(_) => {
                return Err(ProbeError::MissingField);
            },
        };
        let release_date: DateStamp = match row.get_string("ReleaseDate") {
            Ok(raw) => match parse_date8(raw.as_str()) {
                Some(d) => d,
                None => {
                    return Err(ProbeError::MissingField);
                },
            },
            Err(_) => DateStamp { year: 1970, month: 1, day: 1, hour: 0, minute: 0, second: 0 },
        };
        Ok(BIOSInfo { manufacturer, version, release_date })
    }
}

/// The fields of the machine record, at the specification level.
pub struct ComputerFields {
    /// Name text.
    pub name: Seq<char>,
    /// Domain or workgroup text.
    pub domain: Seq<char>,
    /// Maker text.
    pub manufacturer: Seq<char>,
    /// System type text.
    pub system_type: Seq<char>,
}

impl ComputerInfo {
    /// The record's own fields as sequences.
    pub open spec fn view_own_fields(self) -> ComputerFields {
        ComputerFields {
            name: self.name@,
            domain: self.domain@,
            manufacturer: self.manufacturer@,
            system_type: self.system_type@,
        }
    }
}

/// What the machine probe yields from its row: name, domain membership,
/// maker and type are required; a machine outside a domain reads its
/// workgroup, marked as one.
pub open spec fn computer_result(rows: Seq<Record>) -> Result<ComputerFields, ProbeError> {
    if rows.len() == 0 {
        Err(ProbeError::NoData)
    } else {
        let row = rows[0];
        match str_field(row, "Name"@) {
            None => Err(ProbeError::MissingField),
            Some(name) => match spec_get_bool(row, "PartOfDomain"@) {
                Err(_) => Err(ProbeError::MissingField),
                Ok(part) => {
                    let domain = if part {
                        str_field(row, "Domain"@)
                    } else {
                        match str_field(row, "Workgroup"@) {
                            Some(w) => Some(w + " (Workgroup)"@),
                            None => None,
                        }
                    };
                    match domain {
                        None => Err(ProbeError::MissingField),
                        Some(domain) => match str_field(row, "Manufacturer"@) {
                            None => Err(ProbeError::MissingField),
                            Some(manufacturer) => match str_field(row, "SystemType"@) {
                                None => Err(ProbeError::MissingField),
                                Some(system_type) => Ok(
                                    ComputerFields { name, domain, manufacturer, system_type },
                                ),
                            },
                        },
                    }
                },
            },
        }
    }
}

impl ComputerInfo {
    /// Normalizes the machine row and attaches the operating-system and
    /// firmware records.
    pub fn build(rows: &Vec<Record>, operating_system: OSInfo, bios: BIOSInfo) -> (r: Result<
        ComputerInfo,
        ProbeError,
    >)
        ensures
            match computer_result(rows@) {
                Ok(f) => (r matches Ok(c) && c.view_own_fields() == f && c.operating_system
                    == operating_system && c.bios == bios),
                Err(e) => r == Err::<ComputerInfo, ProbeError>(e),
            },
    {
        if rows.len() == 0 {
            return Err(ProbeError::NoData);
        }
        let row = &rows[0];
        let name = match row.get_string("Name") {
            Ok(s) => s,
            Err(_) => {
                return Err(ProbeError::MissingField);
            },
        };
        let part = match row.get_bool("PartOfDomain") {
            Ok(b) => b,
            Err(_) => {
                return Err(ProbeError::MissingField);
            },
        };
        let domain: String = if part {
            match row.get_string("Domain") {
                Ok(s) => s,
                Err(_) => {
                    return Err(ProbeError::MissingField);
                },
            }
        } else {
            match row.get_string("Workgroup") {
                Ok(mut s) => {
                    s.append(" (Workgroup)");
                    s
                },
                Err(_) => {
                    return Err(ProbeError::MissingField);
                },
            }
        };
        let manufacturer = match row.get_string("Manufacturer") {
            Ok(s) => s,
            Err(_) => {
                return Err(ProbeError::MissingField);
            },
        };
        let system_type = match row.get_string("SystemType") {
            Ok(s) => s,
            Err(_) => {
                return Err(ProbeError::MissingField);
            },
        };
        Ok(ComputerInfo { name, domain, manufacturer, system_type, operating_system, bios })
    }
}

} // verus!
