//! The graphics probe: one adapter per video-controller row, with the
//! memory size reconciled against a configuration-store reading.
//!
//! The primary source caps its memory field at 32 bits, so a store-sourced
//! 64-bit byte count — keyed by the adapter's description, exact match —
//! is preferred whenever it is present and nonzero; only then does the
//! primary field stand.

use vstd::prelude::*;
use crate::table::{u64_assoc, u64_table_get, U64Entry};
use crate::text::{append_chars, chars_string, dec_rep, str_chars, subvec, u64_dec_chars};
use crate::units::mb_of_bytes;
use crate::value::{
    get_string_or_empty, get_u16_or, get_u32_or, get_u64_or, str_or_empty, u16_or, u32_or, u64_or,
    Record,
};

verus! {

/// One graphics adapter.
pub struct GpuAdapter {
    /// The adapter's name.
    pub name: String,
    /// The driver version.
    pub driver_version: String,
    /// The driver date, reformatted with dashes where it carries one.
    pub driver_date: String,
    /// Adapter memory, in whole binary megabytes.
    pub adapter_ram_mb: u64,
    /// The current mode, as "width x height", or "N/A".
    pub resolution: String,
    /// The current refresh rate, in hertz.
    pub refresh_rate: u32,
    /// The adapter's status word.
    pub status: String,
    /// The availability, as a word.
    pub availability: String,
}

/// The graphics category.
pub struct GpuInfo {
    /// The adapters, in source order.
    pub adapters: Vec<GpuAdapter>,
}

/// One configuration-store memory reading: an adapter description and the
/// 64-bit byte count stored for it, where one was readable.
pub struct VramReading {
    /// The adapter description the reading is keyed by.
    pub desc: String,
    /// The byte count, where the store held one.
    pub size: Option<u64>,
}

/// The fields of one adapter, at the specification level.
pub struct GpuFields {
    /// Name text.
    pub name: Seq<char>,
    /// Driver version text.
    pub driver_version: Seq<char>,
    /// Driver date text.
    pub driver_date: Seq<char>,
    /// Memory, whole megabytes.
    pub adapter_ram_mb: u64,
    /// Mode text.
    pub resolution: Seq<char>,
    /// Refresh rate.
    pub refresh_rate: u32,
    /// Status text.
    pub status: Seq<char>,
    /// Availability text.
    pub availability: Seq<char>,
}

impl GpuAdapter {
    /// The adapter's fields as sequences.
    pub open spec fn view_fields(self) -> GpuFields {
        GpuFields {
            name: self.name@,
            driver_version: self.driver_version@,
            driver_date: self.driver_date@,
            adapter_ram_mb: self.adapter_ram_mb,
            resolution: self.resolution@,
            refresh_rate: self.refresh_rate,
            status: self.status@,
            availability: self.availability@,
        }
    }
}

/// The word an availability code stands for.
pub open spec fn availability_word(code: u16) -> Seq<char> {
    if code == 2 {
        "Unknown"@
    } else if code == 3 {
        "Running/Full Power"@
    } else if code == 4 {
        "Warning"@
    } else if code == 5 {
        "In Test"@
    } else if code == 8 {
        "Off Line"@
    } else {
        "Other"@
    }
}

/// How a mode reads: "width x height" when both are known, else "N/A".
pub open spec fn resolution_text(w: u32, h: u32) -> Seq<char> {
    if w > 0 && h > 0 {
        dec_rep(w as int) + seq!['x'] + dec_rep(h as int)
    } else {
        "N/A"@
    }
}

/// Renders a mode as text.
pub fn format_resolution(w: u32, h: u32) -> (r: String)
    ensures
        r@ == resolution_text(w, h),
{
    if w > 0 && h > 0 {
        let mut s = u64_dec_chars(w as u64);
        s.push('x');
        let hc = u64_dec_chars(h as u64);
        append_chars(&mut s, &hc);
        proof {
            assert(s@ =~= dec_rep(w as int) + seq!['x'] + dec_rep(h as int));
        }
        chars_string(&s)
    } else {
        String::from_str("N/A")
    }
}

/// How the driver date reads: a stamp of eight or more characters has
/// dashes put between year, month, and day (and loses anything beyond the
/// eighth character); shorter text stands unchanged.
pub open spec fn driver_date_text(d: Seq<char>) -> Seq<char> {
    if d.len() >= 8 {
        d.subrange(0, 4) + seq!['-'] + d.subrange(4, 6) + seq!['-'] + d.subrange(6, 8)
    } else {
        d
    }
}

/// Reformats a driver date stamp.
pub fn format_driver_date(d: &str) -> (r: String)
    ensures
        r@ == driver_date_text(d@),
{
    let dc = str_chars(d);
    if dc.len() >= 8 {
        let mut s = subvec(&dc, 0, 4);
        s.push('-');
        let mid = subvec(&dc, 4, 6);
        append_chars(&mut s, &mid);
        s.push('-');
        let day = subvec(&dc, 6, 8);
        append_chars(&mut s, &day);
        proof {
            assert(s@ =~= driver_date_text(dc@));
        }
        chars_string(&s)
    } else {
        chars_string(&dc)
    }
}

/// The keyed entries the store readings contribute: one per reading whose
/// byte count is present and nonzero.
pub open spec fn vram_entries(readings: Seq<VramReading>) -> Seq<(Seq<char>, u64)>
    decreases readings.len(),
{
    if readings.len() == 0 {
        Seq::<(Seq<char>, u64)>::empty()
    } else {
        vram_entries(readings.drop_last()) + (match readings.last().size {
            Some(v) => if v > 0 {
                seq![(readings.last().desc@, v)]
            } else {
                Seq::<(Seq<char>, u64)>::empty()
            },
            None => Seq::<(Seq<char>, u64)>::empty(),
        })
    }
}

/// The pairs an integer table stands for.
pub open spec fn u64_table_pairs(t: Seq<U64Entry>) -> Seq<(Seq<char>, u64)> {
    t.map_values(|e: U64Entry| (e.key@, e.val))
}

/// Last-match lookup among specification-level integer pairs: a
/// description read twice keeps the later reading, as in the keyed store
/// the readings fill.
pub open spec fn u64_pairs_assoc(t: Seq<(Seq<char>, u64)>, key: Seq<char>) -> Option<u64>
    decreases t.len(),
{
    if t.len() == 0 {
        None
    } else if t.last().0 == key {
        Some(t.last().1)
    } else {
        u64_pairs_assoc(t.drop_last(), key)
    }
}

/// Entry-table lookup and pair lookup agree.
pub proof fn lemma_u64_table_assoc(t: Seq<U64Entry>, key: Seq<char>)
    ensures
        u64_assoc(t, key) == u64_pairs_assoc(u64_table_pairs(t), key),
    decreases t.len(),
{
    if t.len() > 0 {
        lemma_u64_table_assoc(t.drop_last(), key);
        assert(u64_table_pairs(t).drop_last() =~= u64_table_pairs(t.drop_last()));
        assert(u64_table_pairs(t).last() == (t.last().key@, t.last().val));
    }
}

/// Builds the memory table from the store readings, keeping the nonzero
/// ones.
pub fn build_vram_table(readings: &Vec<VramReading>) -> (r: Vec<U64Entry>)
    ensures
        u64_table_pairs(r@) == vram_entries(readings@),
{
    let n = readings.len();
    let mut out: Vec<U64Entry> = Vec::new();
    let mut i: usize = 0;
    proof {
        assert(u64_table_pairs(out@) =~= vram_entries(readings@.subrange(0, 0)));
    }
    while i < n
        invariant
            i <= n,
            n == readings@.len(),
            u64_table_pairs(out@) == vram_entries(readings@.subrange(0, i as int)),
        decreases n - i,
    {
        let ghost done_next = readings@.subrange(0, i + 1 as int);
        proof {
            assert(done_next.drop_last() =~= readings@.subrange(0, i as int));
            assert(done_next.last() == readings@[i as int]);
        }
        match readings[i].size {
            Some(v) => {
                if v > 0 {
                    let ghost before = out@;
                    out.push(U64Entry { key: readings[i].desc.clone(), val: v });
                    proof {
                        assert(u64_table_pairs(out@) =~= u64_table_pairs(before).push(
                            (readings@[i as int].desc@, v),
                        ));
                        assert(u64_table_pairs(out@) =~= vram_entries(done_next));
                    }
                }
            },
            None => (),
        }
        i = i + 1;
    }
    proof {
        assert(readings@.subrange(0, n as int) =~= readings@);
    }
    out
}

/// The memory size one adapter row resolves to, in bytes: the store
/// reading keyed by the adapter's name where one exists (it is nonzero by
/// construction), else the primary source's field.
pub open spec fn resolved_vram(row: Record, table: Seq<(Seq<char>, u64)>) -> u64 {
    match u64_pairs_assoc(table, str_or_empty(row, "Name"@)) {
        Some(v) => v,
        None => u64_or(row, "AdapterRAM"@, 0),
    }
}

/// The fields one adapter row normalizes to, given the memory table.
pub open spec fn gpu_fields(row: Record, table: Seq<(Seq<char>, u64)>) -> GpuFields {
    let h = u32_or(row, "CurrentHorizontalResolution"@, 0);
    let v = u32_or(row, "CurrentVerticalResolution"@, 0);
    GpuFields {
        name: str_or_empty(row, "Name"@),
        driver_version: str_or_empty(row, "DriverVersion"@),
        driver_date: match crate::value::str_field(row, "DriverDate"@) {
            Some(d) => driver_date_text(d),
            None => Seq::<char>::empty(),
        },
        adapter_ram_mb: (resolved_vram(row, table) / 0x100000) as u64,
        resolution: resolution_text(h, v),
        refresh_rate: u32_or(row, "CurrentRefreshRate"@, 0),
        status: str_or_empty(row, "Status"@),
        availability: availability_word(u16_or(row, "Availability"@, 0)),
    }
}

impl GpuInfo {
    /// Normalizes the video-controller rows, preferring the store-sourced
    /// memory reading for each adapter.
    pub fn build(rows: &Vec<Record>, readings: &Vec<VramReading>) -> (r: GpuInfo)
        ensures
            r.adapters@.len() == rows@.len(),
            forall|i: int|
                0 <= i < rows@.len() ==> (#[trigger] r.adapters@[i]).view_fields() == gpu_fields(
                    rows@[i],
                    vram_entries(readings@),
                ),
    {
        let table = build_vram_table(readings);
        let n = rows.len();
        let mut adapters: Vec<GpuAdapter> = Vec::new();
        let mut i: usize = 0;
        while i < n
            invariant
                i <= n,
                n == rows@.len(),
                u64_table_pairs(table@) == vram_entries(readings@),
                adapters@.len() == i,
                forall|k: int|
                    0 <= k < i ==> (#[trigger] adapters@[k]).view_fields() == gpu_fields(
                        rows@[k],
                        vram_entries(readings@),
                    ),
            decreases n - i,
        {
            let row = &rows[i];
            let avail_code = get_u16_or(row, "Availability", 0);
            let availability: String = if avail_code == 2 {
                String::from_str("Unknown")
            } else if avail_code == 3 {
                String::from_str("Running/Full Power")
            } else if avail_code == 4 {
                String::from_str("Warning")
            } else if avail_code == 5 {
                String::from_str("In Test")
            } else if avail_code == 8 {
                String::from_str("Off Line")
            } else {
                String::from_str("Other")
            };
            let h_res = get_u32_or(row, "CurrentHorizontalResolution", 0);
            let v_res = get_u32_or(row, "CurrentVerticalResolution", 0);
            let name = get_string_or_empty(row, "Name");
            proof {
                lemma_u64_table_assoc(table@, name@);
            }
            let vram_bytes: u64 = match u64_table_get(&table, name.as_str()) {
                Some(v) => v,
                None => get_u64_or(row, "AdapterRAM", 0),
            };
            let driver_date: String = match row.get_string("DriverDate") {
                Ok(d) => format_driver_date(d.as_str()),
                Err(_) => String::new(),
            };
            let adapter = GpuAdapter {
                name,
                driver_version: get_string_or_empty(row, "DriverVersion"),
                driver_date,
                adapter_ram_mb: mb_of_bytes(vram_bytes),
                resolution: format_resolution(h_res, v_res),
                refresh_rate: get_u32_or(row, "CurrentRefreshRate", 0),
                status: get_string_or_empty(row, "Status"),
                availability,
            };
            adapters.push(adapter);
            i = i + 1;
        }
        GpuInfo { adapters }
    }
}

} // verus!
