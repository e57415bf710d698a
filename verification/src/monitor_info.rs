//! The monitor probe: identity rows decoded from byte-array descriptors,
//! correlated positionally with the active displays' current modes.
//!
//! The identity rows and the display modes come from different sources;
//! they are matched by enumeration position. A monitor without a mode at
//! its position — a count mismatch or an enumeration failure — reads
//! "N/A" rather than borrowing another monitor's mode.

use vstd::prelude::*;
use crate::value::{decoded_bytes, decode_byte_array, get_u16_or, u16_or, Record};
use crate::gpu_info::{format_resolution, resolution_text};
use crate::text::chars_string;

verus! {

/// One attached monitor.
pub struct Monitor {
    /// The maker, decoded from the descriptor.
    pub manufacturer: String,
    /// The model name, decoded from the descriptor.
    pub name: String,
    /// The serial number, decoded from the descriptor.
    pub serial_number: String,
    /// The year of manufacture.
    pub year_of_manufacture: u16,
    /// The current mode, as "width x height", or "N/A".
    pub resolution: String,
    /// The current refresh rate, in hertz.
    pub refresh_rate: u32,
}

/// The monitor category.
pub struct MonitorInfo {
    /// The monitors, in identity-source order.
    pub monitors: Vec<Monitor>,
}

/// One active display's current mode, in enumeration order.
pub struct DisplayMode {
    /// The mode, as "width x height", or "N/A".
    pub resolution: String,
    /// The refresh rate, in hertz.
    pub refresh_rate: u32,
}

impl DisplayMode {
    /// The mode an enumerated display's raw figures normalize to: the
    /// rendered "width x height" (or "N/A" when either is zero) and the
    /// refresh rate as reported.
    pub fn of_raw(width: u32, height: u32, hertz: u32) -> (r: DisplayMode)
        ensures
            r.resolution@ == resolution_text(width, height),
            r.refresh_rate == hertz,
    {
        DisplayMode { resolution: format_resolution(width, height), refresh_rate: hertz }
    }
}

/// The fields of one monitor, at the specification level.
pub struct MonitorFields {
    /// Maker text.
    pub manufacturer: Seq<char>,
    /// Model text.
    pub name: Seq<char>,
    /// Serial text.
    pub serial_number: Seq<char>,
    /// Year of manufacture.
    pub year_of_manufacture: u16,
    /// Mode text.
    pub resolution: Seq<char>,
    /// Refresh rate.
    pub refresh_rate: u32,
}

impl Monitor {
    /// The monitor's fields as sequences.
    pub open spec fn view_fields(self) -> MonitorFields {
        MonitorFields {
            manufacturer: self.manufacturer@,
            name: self.name@,
            serial_number: self.serial_number@,
            year_of_manufacture: self.year_of_manufacture,
            resolution: self.resolution@,
            refresh_rate: self.refresh_rate,
        }
    }
}

/// The decoded text of a byte-array descriptor field, empty when the key
/// is absent.
pub open spec fn descriptor_text(row: Record, key: Seq<char>) -> Seq<char> {
    match row.lookup(key) {
        Some(v) => decoded_bytes(v),
        None => Seq::<char>::empty(),
    }
}

/// The fields one identity row normalizes to, at position `idx` among the
/// display modes: a monitor past the modes' end reads "N/A" and zero.
pub open spec fn monitor_fields(row: Record, modes: Seq<(Seq<char>, u32)>, idx: int)
    -> MonitorFields {
    let mode = if 0 <= idx < modes.len() {
        modes[idx]
    } else {
        ("N/A"@, 0u32)
    };
    MonitorFields {
        manufacturer: descriptor_text(row, "ManufacturerName"@),
        name: descriptor_text(row, "UserFriendlyName"@),
        serial_number: descriptor_text(row, "SerialNumberID"@),
        year_of_manufacture: u16_or(row, "YearOfManufacture"@, 0),
        resolution: mode.0,
        refresh_rate: mode.1,
    }
}

/// The mode pairs a mode list stands for.
pub open spec fn mode_pairs(modes: Seq<DisplayMode>) -> Seq<(Seq<char>, u32)> {
    modes.map_values(|m: DisplayMode| (m.resolution@, m.refresh_rate))
}

/// Decodes one descriptor field to a string.
fn descriptor_string(row: &Record, key: &str) -> (r: String)
    ensures
        r@ == descriptor_text(*row, key@),
{
    match row.get_value(key) {
        Some(v) => {
            let chars = decode_byte_array(v);
            chars_string(&chars)
        },
        None => String::new(),
    }
}

impl MonitorInfo {
    /// Normalizes the identity rows, correlating each with the display
    /// mode at its enumeration position.
    pub fn build(rows: &Vec<Record>, modes: &Vec<DisplayMode>) -> (r: MonitorInfo)
        ensures
            r.monitors@.len() == rows@.len(),
            forall|i: int|
                0 <= i < rows@.len() ==> (#[trigger] r.monitors@[i]).view_fields()
                    == monitor_fields(rows@[i], mode_pairs(modes@), i),
    {
        let n = rows.len();
        let mut monitors: Vec<Monitor> = Vec::new();
        let mut i: usize = 0;
        while i < n
            invariant
                i <= n,
                n == rows@.len(),
                monitors@.len() == i,
                forall|k: int|
                    0 <= k < i ==> (#[trigger] monitors@[k]).view_fields() == monitor_fields(
                        rows@[k],
                        mode_pairs(modes@),
                        k,
                    ),
            decreases n - i,
        {
            let row = &rows[i];
            let (resolution, refresh_rate): (String, u32) = if i < modes.len() {
                (modes[i].resolution.clone(), modes[i].refresh_rate)
            } else {
                (String::from_str("N/A"), 0)
            };
            let monitor = Monitor {
                manufacturer: descriptor_string(row, "ManufacturerName"),
                name: descriptor_string(row, "UserFriendlyName"),
                serial_number: descriptor_string(row, "SerialNumberID"),
                year_of_manufacture: get_u16_or(row, "YearOfManufacture", 0),
                resolution,
                refresh_rate,
            };
            monitors.push(monitor);
            i = i + 1;
        }
        MonitorInfo { monitors }
    }
}

} // verus!
