//! The USB probe: attached devices, with hubs and composite shells
//! filtered out so only endpoint devices remain.

use vstd::prelude::*;
use crate::text::{contains_seq, contains_sub, str_chars};
use crate::value::{get_string_or_empty, str_or_empty, Record};

verus! {

/// One attached USB device.
pub struct UsbDevice {
    /// The device's name.
    pub name: String,
    /// The plug-and-play device identifier.
    pub device_id: String,
    /// The device's maker.
    pub manufacturer: String,
    /// The device's status word.
    pub status: String,
}

/// The USB category.
pub struct UsbInfo {
    /// The endpoint devices, in source order.
    pub devices: Vec<UsbDevice>,
}

/// The fields of one device, at the specification level.
pub struct UsbFields {
    /// Name text.
    pub name: Seq<char>,
    /// Device identifier text.
    pub device_id: Seq<char>,
    /// Maker text.
    pub manufacturer: Seq<char>,
    /// Status text.
    pub status: Seq<char>,
}

impl UsbDevice {
    /// The device's fields as sequences.
    pub open spec fn view_fields(self) -> UsbFields {
        UsbFields {
            name: self.name@,
            device_id: self.device_id@,
            manufacturer: self.manufacturer@,
            status: self.status@,
        }
    }
}

/// Whether a row is a hub or composite shell rather than a device of its
/// own: its name names a root hub, a generic hub, or a composite device.
pub open spec fn is_hub_row(row: Record) -> bool {
    let name = str_or_empty(row, "Name"@);
    contains_seq(name, "Root Hub"@) || contains_seq(name, "Generic Hub"@) || contains_seq(
        name,
        "USB Composite Device"@,
    )
}

/// The fields one row normalizes to.
pub open spec fn usb_fields(row: Record) -> UsbFields {
    UsbFields {
        name: str_or_empty(row, "Name"@),
        device_id: str_or_empty(row, "PNPDeviceID"@),
        manufacturer: str_or_empty(row, "Manufacturer"@),
        status: str_or_empty(row, "Status"@),
    }
}

/// The devices the rows contribute: hubs and composite shells are skipped.
pub open spec fn usb_devices(rows: Seq<Record>) -> Seq<UsbFields>
    decreases rows.len(),
{
    if rows.len() == 0 {
        Seq::<UsbFields>::empty()
    } else {
        usb_devices(rows.drop_last()) + (if is_hub_row(rows.last()) {
            Seq::<UsbFields>::empty()
        } else {
            seq![usb_fields(rows.last())]
        })
    }
}

impl UsbInfo {
    /// Normalizes the USB rows, skipping hub and composite-shell rows.
    pub fn build(rows: &Vec<Record>) -> (r: UsbInfo)
        ensures
            r.devices@.len() == usb_devices(rows@).len(),
            forall|i: int|
                0 <= i < r.devices@.len() ==> (#[trigger] r.devices@[i]).view_fields()
                    == usb_devices(rows@)[i],
    {
        let root_hub = str_chars("Root Hub");
        let generic_hub = str_chars("Generic Hub");
        let composite = str_chars("USB Composite Device");
        let n = rows.len();
        let mut devices: Vec<UsbDevice> = Vec::new();
        let mut i: usize = 0;
        proof {
            assert(rows@.subrange(0, 0).len() == 0);
        }
        while i < n
            invariant
                i <= n,
                n == rows@.len(),
                root_hub@ == "Root Hub"@,
                generic_hub@ == "Generic Hub"@,
                composite@ == "USB Composite Device"@,
                devices@.len() == usb_devices(rows@.subrange(0, i as int)).len(),
                forall|k: int|
                    0 <= k < devices@.len() ==> (#[trigger] devices@[k]).view_fields()
                        == usb_devices(rows@.subrange(0, i as int))[k],
            decreases n - i,
        {
            let ghost done_next = rows@.subrange(0, i + 1 as int);
            proof {
                assert(done_next.drop_last() =~= rows@.subrange(0, i as int));
                assert(done_next.last() == rows@[i as int]);
            }
            let row = &rows[i];
            let name = get_string_or_empty(row, "Name");
            let name_chars = str_chars(name.as_str());
            let hub = contains_sub(&name_chars, &root_hub) || contains_sub(
                &name_chars,
                &generic_hub,
            ) || contains_sub(&name_chars, &composite);
            if !hub {
                let device = UsbDevice {
                    name,
                    device_id: get_string_or_empty(row, "PNPDeviceID"),
                    manufacturer: get_string_or_empty(row, "Manufacturer"),
                    status: get_string_or_empty(row, "Status"),
                };
                devices.push(device);
            }
            i = i + 1;
        }
        proof {
            assert(rows@.subrange(0, n as int) =~= rows@);
        }
        UsbInfo { devices }
    }
}

} // verus!
