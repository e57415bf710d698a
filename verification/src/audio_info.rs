//! The audio probe: one normalized device per sound-device row.

use vstd::prelude::*;
use crate::value::{get_string_or_empty, str_or_empty, Record};

verus! {

/// One audio device.
pub struct AudioDevice {
    /// The device's name.
    pub name: String,
    /// The device's maker.
    pub manufacturer: String,
    /// The device's status word.
    pub status: String,
    /// The device identifier.
    pub device_id: String,
}

/// The audio category.
pub struct AudioInfo {
    /// The devices, in source order.
    pub devices: Vec<AudioDevice>,
}

/// The fields of one device, at the specification level.
pub struct AudioFields {
    /// Name text.
    pub name: Seq<char>,
    /// Maker text.
    pub manufacturer: Seq<char>,
    /// Status text.
    pub status: Seq<char>,
    /// Device identifier text.
    pub device_id: Seq<char>,
}

impl AudioDevice {
    /// The device's fields as sequences.
    pub open spec fn view_fields(self) -> AudioFields {
        AudioFields {
            name: self.name@,
            manufacturer: self.manufacturer@,
            status: self.status@,
            device_id: self.device_id@,
        }
    }
}

/// The fields one row normalizes to: every missing or mistyped field is
/// replaced by empty text.
pub open spec fn audio_fields(row: Record) -> AudioFields {
    AudioFields {
        name: str_or_empty(row, "Name"@),
        manufacturer: str_or_empty(row, "Manufacturer"@),
        status: str_or_empty(row, "Status"@),
        device_id: str_or_empty(row, "DeviceID"@),
    }
}

impl AudioInfo {
    /// Normalizes the sound-device rows, one device per row.
    pub fn build(rows: &Vec<Record>) -> (r: AudioInfo)
        ensures
            r.devices@.len() == rows@.len(),
            forall|i: int|
                0 <= i < rows@.len() ==> (#[trigger] r.devices@[i]).view_fields() == audio_fields(
                    rows@[i],
                ),
    {
        let n = rows.len();
        let mut devices: Vec<AudioDevice> = Vec::new();
        let mut i: usize = 0;
        while i < n
            invariant
                i <= n,
                n == rows@.len(),
                devices@.len() == i,
                forall|k: int|
                    0 <= k < i ==> (#[trigger] devices@[k]).view_fields() == audio_fields(
                        rows@[k],
                    ),
            decreases n - i,
        {
            let row = &rows[i];
            let device = AudioDevice {
                name: get_string_or_empty(row, "Name"),
                manufacturer: get_string_or_empty(row, "Manufacturer"),
                status: get_string_or_empty(row, "Status"),
                device_id: get_string_or_empty(row, "DeviceID"),
            };
            devices.push(device);
            i = i + 1;
        }
        AudioInfo { devices }
    }
}

} // verus!
