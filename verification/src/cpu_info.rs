//! The processor probe: the first processor row, normalized. A source
//! with no processor row at all is a probe failure, not a default record.

use vstd::prelude::*;
use crate::errors::ProbeError;
use crate::value::{
    bool_or, get_bool_or, get_string_or_empty, get_u16_or, get_u32_or, str_or_empty, u16_or,
    u32_or, Record,
};

verus! {

/// The processor category.
pub struct CpuInfo {
    /// The marketing name.
    pub name: String,
    /// Physical cores.
    pub cores: u32,
    /// Logical processors.
    pub logical_processors: u32,
    /// Rated clock, in megahertz.
    pub max_clock_mhz: u32,
    /// Current clock, in megahertz.
    pub current_clock_mhz: u32,
    /// The socket's designation.
    pub socket: String,
    /// Second-level cache, in kilobytes.
    pub l2_cache_kb: u32,
    /// Third-level cache, in kilobytes.
    pub l3_cache_kb: u32,
    /// The architecture, as a word.
    pub architecture: String,
    /// Whether virtualization firmware is enabled.
    pub virtualization: bool,
    /// The status word.
    pub status: String,
    /// Current load, in percent.
    pub load_pct: u16,
}

/// The word an architecture code stands for.
pub open spec fn arch_word(code: u16) -> Seq<char> {
    if code == 0 {
        "x86"@
    } else if code == 5 {
        "ARM"@
    } else if code == 6 {
        "ia64"@
    } else if code == 9 {
        "x64"@
    } else if code == 12 {
        "ARM64"@
    } else {
        "Unknown"@
    }
}

/// The fields of the record, at the specification level.
pub struct CpuFields {
    /// Name text.
    pub name: Seq<char>,
    /// Physical cores.
    pub cores: u32,
    /// Logical processors.
    pub logical_processors: u32,
    /// Rated clock.
    pub max_clock_mhz: u32,
    /// Current clock.
    pub current_clock_mhz: u32,
    /// Socket text.
    pub socket: Seq<char>,
    /// Second-level cache.
    pub l2_cache_kb: u32,
    /// Third-level cache.
    pub l3_cache_kb: u32,
    /// Architecture text.
    pub architecture: Seq<char>,
    /// Virtualization flag.
    pub virtualization: bool,
    /// Status text.
    pub status: Seq<char>,
    /// Load percentage.
    pub load_pct: u16,
}

impl CpuInfo {
    /// The record's fields as sequences.
    pub open spec fn view_fields(self) -> CpuFields {
        CpuFields {
            name: self.name@,
            cores: self.cores,
            logical_processors: self.logical_processors,
            max_clock_mhz: self.max_clock_mhz,
            current_clock_mhz: self.current_clock_mhz,
            socket: self.socket@,
            l2_cache_kb: self.l2_cache_kb,
            l3_cache_kb: self.l3_cache_kb,
            architecture: self.architecture@,
            virtualization: self.virtualization,
            status: self.status@,
            load_pct: self.load_pct,
        }
    }
}

/// The fields the first processor row normalizes to. The architecture code
/// defaults to the 64-bit code when the field is absent.
pub open spec fn cpu_fields(row: Record) -> CpuFields {
    CpuFields {
        name: str_or_empty(row, "Name"@),
        cores: u32_or(row, "NumberOfCores"@, 0),
        logical_processors: u32_or(row, "NumberOfLogicalProcessors"@, 0),
        max_clock_mhz: u32_or(row, "MaxClockSpeed"@, 0),
        current_clock_mhz: u32_or(row, "CurrentClockSpeed"@, 0),
        socket: str_or_empty(row, "SocketDesignation"@),
        l2_cache_kb: u32_or(row, "L2CacheSize"@, 0),
        l3_cache_kb: u32_or(row, "L3CacheSize"@, 0),
        architecture: arch_word(u16_or(row, "Architecture"@, 9)),
        virtualization: bool_or(row, "VirtualizationFirmwareEnabled"@, false),
        status: str_or_empty(row, "Status"@),
        load_pct: u16_or(row, "LoadPercentage"@, 0),
    }
}

impl CpuInfo {
    /// Normalizes the first processor row. Fails only when the source
    /// returned no row at all.
    pub fn build(rows: &Vec<Record>) -> (r: Result<CpuInfo, ProbeError>)
        ensures
            rows@.len() == 0 ==> r == Err::<CpuInfo, ProbeError>(ProbeError::NoData),
            rows@.len() > 0 ==> (r matches Ok(c) && c.view_fields() == cpu_fields(rows@[0])),
    {
        if rows.len() == 0 {
            return Err(ProbeError::NoData);
        }
        let row = &rows[0];
        let arch_code = get_u16_or(row, "Architecture", 9);
        let architecture: String = if arch_code == 0 {
            String::from_str("x86")
        } else if arch_code == 5 {
            String::from_str("ARM")
        } else if arch_code == 6 {
            String::from_str("ia64")
        } else if arch_code == 9 {
            String::from_str("x64")
        } else if arch_code == 12 {
            String::from_str("ARM64")
        } else {
            String::from_str("Unknown")
        };
        Ok(
            CpuInfo {
                name: get_string_or_empty(row, "Name"),
                cores: get_u32_or(row, "NumberOfCores", 0),
                logical_processors: get_u32_or(row, "NumberOfLogicalProcessors", 0),
                max_clock_mhz: get_u32_or(row, "MaxClockSpeed", 0),
                current_clock_mhz: get_u32_or(row, "CurrentClockSpeed", 0),
                socket: get_string_or_empty(row, "SocketDesignation"),
                l2_cache_kb: get_u32_or(row, "L2CacheSize", 0),
                l3_cache_kb: get_u32_or(row, "L3CacheSize", 0),
                architecture,
                virtualization: get_bool_or(row, "VirtualizationFirmwareEnabled", false),
                status: get_string_or_empty(row, "Status"),
                load_pct: get_u16_or(row, "LoadPercentage", 0),
            },
        )
    }
}

} // verus!
