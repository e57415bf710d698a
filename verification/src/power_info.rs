//! The power probe: the active power plan's name parsed from the
//! power-configuration tool's output, and battery figures from the first
//! battery row where a battery is present at all.

use vstd::prelude::*;
use crate::csv::{first_containing, position_containing};
use crate::errors::ProbeError;
use crate::text::{
    chars_string, last_index_of, lines_of, rfind_char, split_lines, str_chars, subvec, u64_to_dec,
    dec_rep,
};
use crate::value::{spec_get_u16, spec_get_u32, str_field, u16_or, Record};

verus! {

/// The power category.
pub struct PowerInfo {
    /// The active plan's name.
    pub plan: String,
    /// Battery figures, where the machine has one.
    pub battery: Option<BatteryInfo>,
}

/// Battery figures. Charge and run time are carried as text, as displayed.
pub struct BatteryInfo {
    /// The battery's name.
    pub name: String,
    /// The battery's status word.
    pub status: String,
    /// The estimated remaining charge, in percent, as text.
    pub charge_pct: String,
    /// The estimated remaining run time, in minutes, as text.
    pub run_time_mins: String,
    /// The design capacity, as text, or "Unknown".
    pub design_capacity: String,
    /// The full-charge capacity, as text, or "Unknown".
    pub full_charge_capacity: String,
    /// The battery's chemistry, as a word.
    pub chemistry: String,
}

/// The fields of the battery record, at the specification level.
pub struct BatteryFields {
    /// Name text.
    pub name: Seq<char>,
    /// Status text.
    pub status: Seq<char>,
    /// Charge text.
    pub charge_pct: Seq<char>,
    /// Run time text.
    pub run_time_mins: Seq<char>,
    /// Design capacity text.
    pub design_capacity: Seq<char>,
    /// Full-charge capacity text.
    pub full_charge_capacity: Seq<char>,
    /// Chemistry text.
    pub chemistry: Seq<char>,
}

impl BatteryInfo {
    /// The record's fields as sequences.
    pub open spec fn view_fields(self) -> BatteryFields {
        BatteryFields {
            name: self.name@,
            status: self.status@,
            charge_pct: self.charge_pct@,
            run_time_mins: self.run_time_mins@,
            design_capacity: self.design_capacity@,
            full_charge_capacity: self.full_charge_capacity@,
            chemistry: self.chemistry@,
        }
    }
}

/// What the plan parse yields: on the first line holding the scheme
/// marker, the text between the last opening and last closing parenthesis,
/// in that order; "Unknown" when no line or no such pair exists.
pub open spec fn plan_text(output: Seq<char>) -> Seq<char> {
    let lines = lines_of(output);
    match first_containing(lines, "Power Scheme GUID:"@) {
        None => "Unknown"@,
        Some(i) => {
            let line = lines[i];
            match (last_index_of(line, '('), last_index_of(line, ')')) {
                (Some(a), Some(b)) => if a < b {
                    line.subrange(a + 1, b)
                } else {
                    "Unknown"@
                },
                _ => "Unknown"@,
            }
        },
    }
}

/// Parses the active plan's name out of the power-configuration tool's
/// captured output.
pub fn parse_power_plan(output: &str) -> (r: String)
    ensures
        r@ == plan_text(output@),
{
    let text = str_chars(output);
    let lines = split_lines(&text);
    let ghost all_lines = lines_of(output@);
    let mut line_strings: Vec<String> = Vec::new();
    let n = lines.len();
    let mut i: usize = 0;
    while i < n
        invariant
            i <= n,
            n == lines@.len(),
            n == all_lines.len(),
            forall|k: int| 0 <= k < n ==> #[trigger] lines@[k]@ == all_lines[k],
            line_strings@.len() == i,
            forall|k: int| 0 <= k < i ==> #[trigger] line_strings@[k]@ == all_lines[k],
        decreases n - i,
    {
        line_strings.push(chars_string(&lines[i]));
        i = i + 1;
    }
    proof {
        assert(line_strings@.map_values(|s: String| s@) =~= all_lines);
    }
    match position_containing(&line_strings, "Power Scheme GUID:") {
        None => String::from_str("Unknown"),
        Some(p) => {
            let line = &lines[p];
            let a = rfind_char(line, '(');
            let b = rfind_char(line, ')');
            match (a, b) {
                (Some(a), Some(b)) => {
                    if a < b {
                        let piece = subvec(line, a + 1, b);
                        chars_string(&piece)
                    } else {
                        String::from_str("Unknown")
                    }
                },
                _ => String::from_str("Unknown"),
            }
        },
    }
}

/// The word a battery-chemistry code stands for.
pub open spec fn chemistry_word(code: u16) -> Seq<char> {
    if code == 1 {
        "Other"@
    } else if code == 2 {
        "Unknown"@
    } else if code == 3 {
        "Lead Acid"@
    } else if code == 4 {
        "Nickel Cadmium"@
    } else if code == 5 {
        "Nickel Metal Hydride"@
    } else if code == 6 {
        "Lithium-ion"@
    } else {
        "Other"@
    }
}

/// What the battery probe yields from its rows: no row at all means no
/// battery; a row lacking any of the required fields (name, status,
/// charge, run time) is a failed probe; the capacity fields degrade to
/// "Unknown".
pub open spec fn battery_result(rows: Seq<Record>) -> Result<BatteryFields, ProbeError> {
    if rows.len() == 0 {
        Err(ProbeError::NoData)
    } else {
        let row = rows[0];
        match str_field(row, "Name"@) {
            None => Err(ProbeError::MissingField),
            Some(name) => match str_field(row, "Status"@) {
                None => Err(ProbeError::MissingField),
                Some(status) => match spec_get_u16(row, "EstimatedChargeRemaining"@) {
                    Err(_) => Err(ProbeError::MissingField),
                    Ok(charge) => match spec_get_u32(row, "EstimatedRunTime"@) {
                        Err(_) => Err(ProbeError::MissingField),
                        Ok(run_time) => Ok(
                            BatteryFields {
                                name: name,
                                status: status,
                                charge_pct: dec_rep(charge as int),
                                run_time_mins: dec_rep(run_time as int),
                                design_capacity: match spec_get_u32(row, "DesignCapacity"@) {
                                    Ok(v) => dec_rep(v as int),
                                    Err(_) => "Unknown"@,
                                },
                                full_charge_capacity: match spec_get_u32(
                                    row,
                                    "FullChargeCapacity"@,
                                ) {
                                    Ok(v) => dec_rep(v as int),
                                    Err(_) => "Unknown"@,
                                },
                                chemistry: chemistry_word(u16_or(row, "Chemistry"@, 0)),
                            },
                        ),
                    },
                },
            },
        }
    }
}

impl BatteryInfo {
    /// Normalizes the first battery row.
    pub fn build(rows: &Vec<Record>) -> (r: Result<BatteryInfo, ProbeError>)
        ensures
            match battery_result(rows@) {
                Ok(f) => (r matches Ok(b) && b.view_fields() == f),
                Err(e) => r == Err::<BatteryInfo, ProbeError>(e),
            },
    {
        if rows.len() == 0 {
            return Err(ProbeError::NoData);
        }
        let row = &rows[0];
        let chemistry_code = crate::value::get_u16_or(row, "Chemistry", 0);
        let chemistry: String = if chemistry_code == 1 {
            String::from_str("Other")
        } else if chemistry_code == 2 {
            String::from_str("Unknown")
        } else if chemistry_code == 3 {
            String::from_str("Lead Acid")
        } else if chemistry_code == 4 {
            String::from_str("Nickel Cadmium")
        } else if chemistry_code == 5 {
            String::from_str("Nickel Metal Hydride")
        } else if chemistry_code == 6 {
            String::from_str("Lithium-ion")
        } else {
            String::from_str("Other")
        };
        let name = match row.get_string("Name") {
            Ok(s) => s,
            Err(_) => {
                return Err(ProbeError::MissingField);
            },
        };
        let status = match row.get_string("Status") {
            Ok(s) => s,
            Err(_) => {
                return Err(ProbeError::MissingField);
            },
        };
        let charge = match row.get_u16("EstimatedChargeRemaining") {
            Ok(v) => v,
            Err(_) => {
                return Err(ProbeError::MissingField);
            },
        };
        let run_time = match row.get_u32("EstimatedRunTime") {
            Ok(v) => v,
            Err(_) => {
                return Err(ProbeError::MissingField);
            },
        };
        let design_capacity = match row.get_u32("DesignCapacity") {
            Ok(v) => u64_to_dec(v as u64),
            Err(_) => String::from_str("Unknown"),
        };
        let full_charge_capacity = match row.get_u32("FullChargeCapacity") {
            Ok(v) => u64_to_dec(v as u64),
            Err(_) => String::from_str("Unknown"),
        };
        Ok(
            BatteryInfo {
                name,
                status,
                charge_pct: u64_to_dec(charge as u64),
                run_time_mins: u64_to_dec(run_time as u64),
                design_capacity,
                full_charge_capacity,
                chemistry,
            },
        )
    }
}

impl PowerInfo {
    /// Assembles the category: the plan parsed from the tool's output, and
    /// battery figures where the battery probe succeeded.
    pub fn build(plan_output: &str, battery_rows: &Vec<Record>) -> (r: PowerInfo)
        ensures
            r.plan@ == plan_text(plan_output@),
            match battery_result(battery_rows@) {
                Ok(f) => (r.battery matches Some(b) && b.view_fields() == f),
                Err(_) => r.battery is None,
            },
    {
        let plan = parse_power_plan(plan_output);
        let battery = match BatteryInfo::build(battery_rows) {
            Ok(b) => Some(b),
            Err(_) => None,
        };
        PowerInfo { plan, battery }
    }
}

} // verus!
