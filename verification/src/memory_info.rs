//! The memory probe: one normalized slot per module row, and board-level
//! figures from the first physical-memory-array row. A missing array row
//! only defaults the board figures; it is not a failure.

use vstd::prelude::*;
use crate::units::{gb_micro, gb_of_kb};
use crate::value::{
    get_string_or_empty, get_u16_or, get_u32_or, get_u64_or, str_or_empty, u16_or, u32_or, u64_or,
    Record,
};
use crate::text::{chars_string, str_chars, trim_chars, trim_spec};

verus! {

/// One populated memory slot.
pub struct MemorySlot {
    /// The bank label.
    pub bank_label: String,
    /// The module's capacity in binary gigabytes, scaled by one million.
    pub capacity_gb_micro: u64,
    /// The configured speed, in megahertz.
    pub speed_mhz: u32,
    /// The module's generation, as a word.
    pub memory_type: String,
    /// The module's form factor, as a word.
    pub form_factor: String,
    /// The module's maker.
    pub manufacturer: String,
    /// The part number, trimmed.
    pub part_number: String,
}

/// The memory category.
pub struct MemoryInfo {
    /// The populated slots, in source order.
    pub slots: Vec<MemorySlot>,
    /// How many slots the board has.
    pub total_slots: u32,
    /// The board's maximum capacity, in whole binary gigabytes.
    pub max_capacity_gb: u64,
}

/// The fields of one slot, at the specification level.
pub struct SlotFields {
    /// Bank label text.
    pub bank_label: Seq<char>,
    /// Capacity, micro-gigabytes.
    pub capacity_gb_micro: u64,
    /// Speed in megahertz.
    pub speed_mhz: u32,
    /// Generation text.
    pub memory_type: Seq<char>,
    /// Form factor text.
    pub form_factor: Seq<char>,
    /// Maker text.
    pub manufacturer: Seq<char>,
    /// Part number text.
    pub part_number: Seq<char>,
}

impl MemorySlot {
    /// The slot's fields as sequences.
    pub open spec fn view_fields(self) -> SlotFields {
        SlotFields {
            bank_label: self.bank_label@,
            capacity_gb_micro: self.capacity_gb_micro,
            speed_mhz: self.speed_mhz,
            memory_type: self.memory_type@,
            form_factor: self.form_factor@,
            manufacturer: self.manufacturer@,
            part_number: self.part_number@,
        }
    }
}

/// The generation word a module-type code stands for.
pub open spec fn memory_type_word(code: u16) -> Seq<char> {
    if code == 20 {
        "DDR"@
    } else if code == 21 {
        "DDR2"@
    } else if code == 24 {
        "DDR3"@
    } else if code == 26 {
        "DDR4"@
    } else if code == 34 {
        "DDR5"@
    } else {
        "Unknown"@
    }
}

/// The form-factor word a code stands for.
pub open spec fn form_factor_word(code: u16) -> Seq<char> {
    if code == 8 {
        "DIMM"@
    } else if code == 12 {
        "SO-DIMM"@
    } else {
        "Unknown"@
    }
}

/// The fields one module row normalizes to.
pub open spec fn slot_fields(row: Record) -> SlotFields {
    SlotFields {
        bank_label: str_or_empty(row, "BankLabel"@),
        capacity_gb_micro: (u64_or(row, "Capacity"@, 0) * 1000000 / 0x40000000) as u64,
        speed_mhz: u32_or(row, "Speed"@, 0),
        memory_type: memory_type_word(u16_or(row, "SMBIOSMemoryType"@, 0)),
        form_factor: form_factor_word(u16_or(row, "FormFactor"@, 0)),
        manufacturer: str_or_empty(row, "Manufacturer"@),
        part_number: trim_spec(str_or_empty(row, "PartNumber"@)),
    }
}

impl MemoryInfo {
    /// Normalizes the array row (board figures) and the module rows
    /// (slots). Board figures default to zero when the array row is
    /// missing or lacks the field.
    pub fn build(array_rows: &Vec<Record>, mem_rows: &Vec<Record>) -> (r: MemoryInfo)
        ensures
            r.total_slots == if array_rows@.len() > 0 {
                u32_or(array_rows@[0], "MemoryDevices"@, 0)
            } else {
                0u32
            },
            r.max_capacity_gb == if array_rows@.len() > 0 {
                u64_or(array_rows@[0], "MaxCapacity"@, 0) / 0x100000 as u64
            } else {
                0u64
            },
            r.slots@.len() == mem_rows@.len(),
            forall|i: int|
                0 <= i < mem_rows@.len() ==> (#[trigger] r.slots@[i]).view_fields() == slot_fields(
                    mem_rows@[i],
                ),
    {
        let mut total_slots: u32 = 0;
        let mut max_capacity_gb: u64 = 0;
        if array_rows.len() > 0 {
            let array_row = &array_rows[0];
            total_slots = get_u32_or(array_row, "MemoryDevices", 0);
            let max_capacity_kb = get_u64_or(array_row, "MaxCapacity", 0);
            max_capacity_gb = gb_of_kb(max_capacity_kb);
        }
        let n = mem_rows.len();
        let mut slots: Vec<MemorySlot> = Vec::new();
        let mut i: usize = 0;
        while i < n
            invariant
                i <= n,
                n == mem_rows@.len(),
                slots@.len() == i,
                forall|k: int|
                    0 <= k < i ==> (#[trigger] slots@[k]).view_fields() == slot_fields(
                        mem_rows@[k],
                    ),
            decreases n - i,
        {
            let row = &mem_rows[i];
            let type_code = get_u16_or(row, "SMBIOSMemoryType", 0);
            let memory_type: String = if type_code == 20 {
                String::from_str("DDR")
            } else if type_code == 21 {
                String::from_str("DDR2")
            } else if type_code == 24 {
                String::from_str("DDR3")
            } else if type_code == 26 {
                String::from_str("DDR4")
            } else if type_code == 34 {
                String::from_str("DDR5")
            } else {
                String::from_str("Unknown")
            };
            let ff_code = get_u16_or(row, "FormFactor", 0);
            let form_factor: String = if ff_code == 8 {
                String::from_str("DIMM")
            } else if ff_code == 12 {
                String::from_str("SO-DIMM")
            } else {
                String::from_str("Unknown")
            };
            let part_raw = get_string_or_empty(row, "PartNumber");
            let pc = str_chars(part_raw.as_str());
            let trimmed = trim_chars(&pc);
            let slot = MemorySlot {
                bank_label: get_string_or_empty(row, "BankLabel"),
                capacity_gb_micro: gb_micro(get_u64_or(row, "Capacity", 0)),
                speed_mhz: get_u32_or(row, "Speed", 0),
                memory_type,
                form_factor,
                manufacturer: get_string_or_empty(row, "Manufacturer"),
                part_number: chars_string(&trimmed),
            };
            slots.push(slot);
            i = i + 1;
        }
        MemoryInfo { slots, total_slots, max_capacity_gb }
    }
}

} // verus!
