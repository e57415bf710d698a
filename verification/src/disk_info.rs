//! The disk probe: physical drives joined with a secondary inventory that
//! knows each drive's medium, and logical volumes with capacity figures.
//!
//! The drive's type is reconciled across the two sources with fixed
//! precedence: an exact match on the trimmed serial number wins; failing
//! that, a match of the secondary source's device index against the
//! primary's drive index; failing both, a name heuristic on the model
//! string. The chains are never mixed.

use vstd::prelude::*;
use crate::table::{str_assoc, str_table_get, StrEntry};
use crate::text::{
    chars_string, contains_seq, contains_sub, dec_rep, str_chars, trim_chars, trim_spec,
    u64_to_dec, upper_chars, upper_seq,
};
use crate::units::{gb_micro, pct_micro};
use crate::value::{str_field, str_or_empty, u16_or, u32_or, u64_or, get_string_or_empty, get_u32_or, get_u64_or, Record};

verus! {

/// One physical drive.
pub struct PhysicalDisk {
    /// The model string.
    pub model: String,
    /// The bus the drive hangs on.
    pub interface_type: String,
    /// The primary source's medium description.
    pub media_type: String,
    /// The reconciled drive type: "SSD", "HDD", "SCM" or "Unknown".
    pub disk_type: String,
    /// Capacity in binary gigabytes, scaled by one million.
    pub size_gb_micro: u64,
    /// The drive's status word.
    pub status: String,
}

/// One logical volume.
pub struct LogicalDisk {
    /// The volume's drive letter or device identifier.
    pub device_id: String,
    /// The volume label.
    pub volume_name: String,
    /// The file system's name.
    pub file_system: String,
    /// Total capacity in binary gigabytes, scaled by one million.
    pub total_gb_micro: u64,
    /// Free space in binary gigabytes, scaled by one million.
    pub free_gb_micro: u64,
    /// Used space in binary gigabytes, scaled by one million.
    pub used_gb_micro: u64,
    /// Used share of the capacity, as a percentage scaled by one million.
    pub usage_pct_micro: u64,
}

/// The disk category.
pub struct DiskInfo {
    /// The physical drives, in source order.
    pub physical_disks: Vec<PhysicalDisk>,
    /// The local fixed volumes, in source order.
    pub logical_disks: Vec<LogicalDisk>,
}

/// The fields of one physical drive, at the specification level.
pub struct PhysFields {
    /// Model text.
    pub model: Seq<char>,
    /// Interface text.
    pub interface_type: Seq<char>,
    /// Medium text.
    pub media_type: Seq<char>,
    /// Reconciled type text.
    pub disk_type: Seq<char>,
    /// Capacity, micro-gigabytes.
    pub size_gb_micro: u64,
    /// Status text.
    pub status: Seq<char>,
}

/// The fields of one logical volume, at the specification level.
pub struct LogFields {
    /// Device identifier text.
    pub device_id: Seq<char>,
    /// Volume label text.
    pub volume_name: Seq<char>,
    /// File system text.
    pub file_system: Seq<char>,
    /// Total capacity, micro-gigabytes.
    pub total_gb_micro: u64,
    /// Free space, micro-gigabytes.
    pub free_gb_micro: u64,
    /// Used space, micro-gigabytes.
    pub used_gb_micro: u64,
    /// Used share, micro-percent.
    pub usage_pct_micro: u64,
}

impl PhysicalDisk {
    /// The drive's fields as sequences.
    pub open spec fn view_fields(self) -> PhysFields {
        PhysFields {
            model: self.model@,
            interface_type: self.interface_type@,
            media_type: self.media_type@,
            disk_type: self.disk_type@,
            size_gb_micro: self.size_gb_micro,
            status: self.status@,
        }
    }
}

impl LogicalDisk {
    /// The volume's fields as sequences.
    pub open spec fn view_fields(self) -> LogFields {
        LogFields {
            device_id: self.device_id@,
            volume_name: self.volume_name@,
            file_system: self.file_system@,
            total_gb_micro: self.total_gb_micro,
            free_gb_micro: self.free_gb_micro,
            used_gb_micro: self.used_gb_micro,
            usage_pct_micro: self.usage_pct_micro,
        }
    }
}

/// The type word the secondary inventory's medium code stands for.
pub open spec fn media_word(code: u16) -> Seq<char> {
    if code == 3 {
        "HDD"@
    } else if code == 4 {
        "SSD"@
    } else if code == 5 {
        "SCM"@
    } else {
        "Unknown"@
    }
}

/// The serial-keyed entries the secondary inventory's rows contribute: one
/// per row whose serial field is present, string-tagged and nonempty after
/// trimming.
pub open spec fn serial_entries(rows: Seq<Record>) -> Seq<(Seq<char>, Seq<char>)>
    decreases rows.len(),
{
    if rows.len() == 0 {
        Seq::<(Seq<char>, Seq<char>)>::empty()
    } else {
        serial_entries(rows.drop_last()) + (match str_field(rows.last(), "SerialNumber"@) {
            Some(s) => if trim_spec(s).len() > 0 {
                seq![(trim_spec(s), media_word(u16_or(rows.last(), "MediaType"@, 0)))]
            } else {
                Seq::<(Seq<char>, Seq<char>)>::empty()
            },
            None => Seq::<(Seq<char>, Seq<char>)>::empty(),
        })
    }
}

/// The index-keyed entries the secondary inventory's rows contribute: one
/// per row whose device-identifier field is present and string-tagged.
pub open spec fn devid_entries(rows: Seq<Record>) -> Seq<(Seq<char>, Seq<char>)>
    decreases rows.len(),
{
    if rows.len() == 0 {
        Seq::<(Seq<char>, Seq<char>)>::empty()
    } else {
        devid_entries(rows.drop_last()) + (match str_field(rows.last(), "DeviceId"@) {
            Some(s) => seq![(trim_spec(s), media_word(u16_or(rows.last(), "MediaType"@, 0)))],
            None => Seq::<(Seq<char>, Seq<char>)>::empty(),
        })
    }
}

/// The pairs a table of entries stands for.
pub open spec fn table_pairs(t: Seq<StrEntry>) -> Seq<(Seq<char>, Seq<char>)> {
    t.map_values(|e: StrEntry| (e.key@, e.val@))
}

/// Builds the serial-keyed and index-keyed type tables from the secondary
/// inventory's rows.
pub fn disk_type_tables(rows: &Vec<Record>) -> (r: (Vec<StrEntry>, Vec<StrEntry>))
    ensures
        table_pairs(r.0@) == serial_entries(rows@),
        table_pairs(r.1@) == devid_entries(rows@),
{
    let n = rows.len();
    let mut serial_tab: Vec<StrEntry> = Vec::new();
    let mut devid_tab: Vec<StrEntry> = Vec::new();
    let mut i: usize = 0;
    proof {
        assert(rows@.subrange(0, 0).len() == 0);
        assert(table_pairs(serial_tab@) =~= serial_entries(rows@.subrange(0, 0)));
        assert(table_pairs(devid_tab@) =~= devid_entries(rows@.subrange(0, 0)));
    }
    while i < n
        invariant
            i <= n,
            n == rows@.len(),
            table_pairs(serial_tab@) == serial_entries(rows@.subrange(0, i as int)),
            table_pairs(devid_tab@) == devid_entries(rows@.subrange(0, i as int)),
        decreases n - i,
    {
        let ghost done_next = rows@.subrange(0, i + 1 as int);
        proof {
            assert(done_next.drop_last() =~= rows@.subrange(0, i as int));
            assert(done_next.last() == rows@[i as int]);
        }
        let row = &rows[i];
        let media_code = crate::value::get_u16_or(row, "MediaType", 0);
        let disk_type = media_type_word(media_code);
        match row.get_string("SerialNumber") {
            Ok(serial) => {
                let sc = str_chars(serial.as_str());
                let trimmed = trim_chars(&sc);
                if trimmed.len() > 0 {
                    let key = chars_string(&trimmed);
                    let ghost before = serial_tab@;
                    serial_tab.push(StrEntry { key, val: disk_type.clone() });
                    proof {
                        assert(table_pairs(serial_tab@) =~= table_pairs(before).push(
                            (trim_spec(serial@), media_word(media_code)),
                        ));
                        assert(table_pairs(before).push(
                            (trim_spec(serial@), media_word(media_code)),
                        ) =~= serial_entries(done_next));
                    }
                }
            },
            Err(_) => (),
        }
        match row.get_string("DeviceId") {
            Ok(dev_id) => {
                let dc = str_chars(dev_id.as_str());
                let trimmed = trim_chars(&dc);
                let key = chars_string(&trimmed);
                let ghost before = devid_tab@;
                devid_tab.push(StrEntry { key, val: disk_type });
                proof {
                    assert(table_pairs(devid_tab@) =~= table_pairs(before).push(
                        (trim_spec(dev_id@), media_word(media_code)),
                    ));
                    assert(table_pairs(before).push(
                        (trim_spec(dev_id@), media_word(media_code)),
                    ) =~= devid_entries(done_next));
                }
            },
            Err(_) => (),
        }
        proof {
            assert(table_pairs(serial_tab@) =~= serial_entries(done_next));
            assert(table_pairs(devid_tab@) =~= devid_entries(done_next));
        }
        i = i + 1;
    }
    proof {
        assert(rows@.subrange(0, n as int) =~= rows@);
    }
    (serial_tab, devid_tab)
}

/// The medium word as a string.
fn media_type_word(code: u16) -> (r: String)
    ensures
        r@ == media_word(code),
{
    if code == 3 {
        String::from_str("HDD")
    } else if code == 4 {
        String::from_str("SSD")
    } else if code == 5 {
        String::from_str("SCM")
    } else {
        String::from_str("Unknown")
    }
}

/// What the name heuristic decides: a model string naming a solid-state
/// medium ("SSD", "NVME" or "NVM", compared without regard to letter case)
/// is solid state; everything else is unknown.
pub open spec fn guessed_type(model: Seq<char>) -> Seq<char> {
    if contains_seq(upper_seq(model), "SSD"@) || contains_seq(upper_seq(model), "NVME"@)
        || contains_seq(upper_seq(model), "NVM"@) {
        "SSD"@
    } else {
        "Unknown"@
    }
}

/// Applies the name heuristic to a model string.
pub fn guess_disk_type(model: &str) -> (r: String)
    ensures
        r@ == guessed_type(model@),
{
    let mc = str_chars(model);
    let upper = upper_chars(&mc);
    let ssd = str_chars("SSD");
    let nvme = str_chars("NVME");
    let nvm = str_chars("NVM");
    if contains_sub(&upper, &ssd) || contains_sub(&upper, &nvme) || contains_sub(&upper, &nvm) {
        String::from_str("SSD")
    } else {
        String::from_str("Unknown")
    }
}

/// Last-match lookup among specification-level pairs: a key entered twice
/// keeps the later row's value, as in the keyed store the rows fill.
pub open spec fn pairs_assoc(t: Seq<(Seq<char>, Seq<char>)>, key: Seq<char>) -> Option<Seq<char>>
    decreases t.len(),
{
    if t.len() == 0 {
        None
    } else if t.last().0 == key {
        Some(t.last().1)
    } else {
        pairs_assoc(t.drop_last(), key)
    }
}

/// Entry-table lookup and pair lookup agree.
pub proof fn lemma_table_assoc(t: Seq<StrEntry>, key: Seq<char>)
    ensures
        str_assoc(t, key) == pairs_assoc(table_pairs(t), key),
    decreases t.len(),
{
    if t.len() > 0 {
        lemma_table_assoc(t.drop_last(), key);
        assert(table_pairs(t).drop_last() =~= table_pairs(t.drop_last()));
        assert(table_pairs(t).last() == (t.last().key@, t.last().val@));
    }
}

/// The reconciled type of one drive. Precedence is fixed: the serial-keyed
/// match, else the index-keyed match on the drive index's decimal text,
/// else the name heuristic. Matches are never mixed.
pub open spec fn resolved_type(
    serial_tab: Seq<(Seq<char>, Seq<char>)>,
    devid_tab: Seq<(Seq<char>, Seq<char>)>,
    serial: Seq<char>,
    index: u32,
    model: Seq<char>,
) -> Seq<char> {
    match pairs_assoc(serial_tab, serial) {
        Some(t) => t,
        None => match pairs_assoc(devid_tab, dec_rep(index as int)) {
            Some(t) => t,
            None => guessed_type(model),
        },
    }
}

/// A serial-keyed match decides the drive type by itself: whatever the
/// index-keyed table holds — even a conflicting entry for the same drive —
/// and whatever the model string suggests, the serial-keyed value wins.
pub proof fn lemma_serial_precedence(
    serial_tab: Seq<(Seq<char>, Seq<char>)>,
    devid_tab: Seq<(Seq<char>, Seq<char>)>,
    serial: Seq<char>,
    index: u32,
    model: Seq<char>,
    t: Seq<char>,
)
    requires
        pairs_assoc(serial_tab, serial) == Some(t),
    ensures
        resolved_type(serial_tab, devid_tab, serial, index, model) == t,
{
}

/// An index-keyed match is used exactly when the serial is absent from the
/// serial-keyed table, whatever the model string suggests.
pub proof fn lemma_index_fallback(
    serial_tab: Seq<(Seq<char>, Seq<char>)>,
    devid_tab: Seq<(Seq<char>, Seq<char>)>,
    serial: Seq<char>,
    index: u32,
    model: Seq<char>,
    t: Seq<char>,
)
    requires
        pairs_assoc(serial_tab, serial) is None,
        pairs_assoc(devid_tab, dec_rep(index as int)) == Some(t),
    ensures
        resolved_type(serial_tab, devid_tab, serial, index, model) == t,
{
}

/// The name heuristic decides only when both keyed lookups fail.
pub proof fn lemma_heuristic_last(
    serial_tab: Seq<(Seq<char>, Seq<char>)>,
    devid_tab: Seq<(Seq<char>, Seq<char>)>,
    serial: Seq<char>,
    index: u32,
    model: Seq<char>,
)
    requires
        pairs_assoc(serial_tab, serial) is None,
        pairs_assoc(devid_tab, dec_rep(index as int)) is None,
    ensures
        resolved_type(serial_tab, devid_tab, serial, index, model) == guessed_type(model),
{
}

/// Reconciles one drive's type across the two sources.
pub fn resolve_disk_type(
    serial_tab: &Vec<StrEntry>,
    devid_tab: &Vec<StrEntry>,
    serial: &str,
    index: u32,
    model: &str,
) -> (r: String)
    ensures
        r@ == resolved_type(
            table_pairs(serial_tab@),
            table_pairs(devid_tab@),
            serial@,
            index,
            model@,
        ),
{
    proof {
        lemma_table_assoc(serial_tab@, serial@);
    }
    match str_table_get(serial_tab, serial) {
        Some(t) => t,
        None => {
            let key = u64_to_dec(index as u64);
            proof {
                lemma_table_assoc(devid_tab@, key@);
            }
            match str_table_get(devid_tab, key.as_str()) {
                Some(t) => t,
                None => guess_disk_type(model),
            }
        },
    }
}

/// The fields one primary-source drive row normalizes to, given the two
/// type tables.
pub open spec fn phys_fields(
    row: Record,
    serial_tab: Seq<(Seq<char>, Seq<char>)>,
    devid_tab: Seq<(Seq<char>, Seq<char>)>,
) -> PhysFields {
    let serial = trim_spec(str_or_empty(row, "SerialNumber"@));
    let index = u32_or(row, "Index"@, u32::MAX);
    let model = str_or_empty(row, "Model"@);
    PhysFields {
        model: model,
        interface_type: str_or_empty(row, "InterfaceType"@),
        media_type: str_or_empty(row, "MediaType"@),
        disk_type: resolved_type(serial_tab, devid_tab, serial, index, model),
        size_gb_micro: (u64_or(row, "Size"@, 0) * 1000000 / 0x40000000) as u64,
        status: str_or_empty(row, "Status"@),
    }
}

/// The fields one volume row normalizes to. Used space is capacity less
/// free space, floored at zero.
pub open spec fn log_fields(row: Record) -> LogFields {
    let total = u64_or(row, "Size"@, 0);
    let free = u64_or(row, "FreeSpace"@, 0);
    let used: u64 = if free <= total {
        (total - free) as u64
    } else {
        0
    };
    LogFields {
        device_id: str_or_empty(row, "DeviceID"@),
        volume_name: str_or_empty(row, "VolumeName"@),
        file_system: str_or_empty(row, "FileSystem"@),
        total_gb_micro: (total * 1000000 / 0x40000000) as u64,
        free_gb_micro: (free * 1000000 / 0x40000000) as u64,
        used_gb_micro: (used * 1000000 / 0x40000000) as u64,
        usage_pct_micro: if total > 0 {
            (used as int * 100000000 / total as int) as u64
        } else {
            0
        },
    }
}

impl DiskInfo {
    /// Normalizes the primary source's drive and volume rows, reconciling
    /// each drive's type against the secondary inventory's rows.
    pub fn build(phys_rows: &Vec<Record>, log_rows: &Vec<Record>, msft_rows: &Vec<Record>) -> (r:
        DiskInfo)
        ensures
            r.physical_disks@.len() == phys_rows@.len(),
            forall|i: int|
                0 <= i < phys_rows@.len() ==> (#[trigger] r.physical_disks@[i]).view_fields()
                    == phys_fields(
                    phys_rows@[i],
                    serial_entries(msft_rows@),
                    devid_entries(msft_rows@),
                ),
            r.logical_disks@.len() == log_rows@.len(),
            forall|i: int|
                0 <= i < log_rows@.len() ==> (#[trigger] r.logical_disks@[i]).view_fields()
                    == log_fields(log_rows@[i]),
    {
        let (serial_tab, devid_tab) = disk_type_tables(msft_rows);
        let n = phys_rows.len();
        let mut physical_disks: Vec<PhysicalDisk> = Vec::new();
        let mut i: usize = 0;
        while i < n
            invariant
                i <= n,
                n == phys_rows@.len(),
                table_pairs(serial_tab@) == serial_entries(msft_rows@),
                table_pairs(devid_tab@) == devid_entries(msft_rows@),
                physical_disks@.len() == i,
                forall|k: int|
                    0 <= k < i ==> (#[trigger] physical_disks@[k]).view_fields() == phys_fields(
                        phys_rows@[k],
                        serial_entries(msft_rows@),
                        devid_entries(msft_rows@),
                    ),
            decreases n - i,
        {
            let row = &phys_rows[i];
            let size_bytes = get_u64_or(row, "Size", 0);
            let model = get_string_or_empty(row, "Model");
            let serial_raw = get_string_or_empty(row, "SerialNumber");
            let sc = str_chars(serial_raw.as_str());
            let trimmed = trim_chars(&sc);
            let serial = chars_string(&trimmed);
            let index = get_u32_or(row, "Index", u32::MAX);
            let disk_type = resolve_disk_type(
                &serial_tab,
                &devid_tab,
                serial.as_str(),
                index,
                model.as_str(),
            );
            let disk = PhysicalDisk {
                model,
                interface_type: get_string_or_empty(row, "InterfaceType"),
                media_type: get_string_or_empty(row, "MediaType"),
                disk_type,
                size_gb_micro: gb_micro(size_bytes),
                status: get_string_or_empty(row, "Status"),
            };
            physical_disks.push(disk);
            i = i + 1;
        }
        let m = log_rows.len();
        let mut logical_disks: Vec<LogicalDisk> = Vec::new();
        let mut j: usize = 0;
        while j < m
            invariant
                j <= m,
                m == log_rows@.len(),
                logical_disks@.len() == j,
                forall|k: int|
                    0 <= k < j ==> (#[trigger] logical_disks@[k]).view_fields() == log_fields(
                        log_rows@[k],
                    ),
            decreases m - j,
        {
            let row = &log_rows[j];
            let total = get_u64_or(row, "Size", 0);
            let free = get_u64_or(row, "FreeSpace", 0);
            let used: u64 = if free <= total {
                total - free
            } else {
                0
            };
            let vol = LogicalDisk {
                device_id: get_string_or_empty(row, "DeviceID"),
                volume_name: get_string_or_empty(row, "VolumeName"),
                file_system: get_string_or_empty(row, "FileSystem"),
                total_gb_micro: gb_micro(total),
                free_gb_micro: gb_micro(free),
                used_gb_micro: gb_micro(used),
                usage_pct_micro: pct_micro(used, total),
            };
            logical_disks.push(vol);
            j = j + 1;
        }
        DiskInfo { physical_disks, logical_disks }
    }
}

} // verus!
