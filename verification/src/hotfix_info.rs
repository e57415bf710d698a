//! The hotfix probe: the most recent applied updates, capped at a fixed
//! count — a probe-local policy, not the orchestrator's.

use vstd::prelude::*;
use crate::value::{get_string_or_empty, str_or_empty, Record};

verus! {

/// One applied update.
pub struct Hotfix {
    /// The update's identifier.
    pub hotfix_id: String,
    /// What kind of update it is.
    pub description: String,
    /// Who applied it.
    pub installed_by: String,
    /// When it was applied, as the source printed it.
    pub installed_on: String,
}

/// The hotfix category.
pub struct HotfixInfo {
    /// The first updates of the source, at most twenty-five.
    pub hotfixes: Vec<Hotfix>,
}

/// The fields of one update, at the specification level.
pub struct HotfixFields {
    /// Identifier text.
    pub hotfix_id: Seq<char>,
    /// Description text.
    pub description: Seq<char>,
    /// Installer text.
    pub installed_by: Seq<char>,
    /// Date text.
    pub installed_on: Seq<char>,
}

impl Hotfix {
    /// The update's fields as sequences.
    pub open spec fn view_fields(self) -> HotfixFields {
        HotfixFields {
            hotfix_id: self.hotfix_id@,
            description: self.description@,
            installed_by: self.installed_by@,
            installed_on: self.installed_on@,
        }
    }
}

/// The fields one row normalizes to.
pub open spec fn hotfix_fields(row: Record) -> HotfixFields {
    HotfixFields {
        hotfix_id: str_or_empty(row, "HotFixID"@),
        description: str_or_empty(row, "Description"@),
        installed_by: str_or_empty(row, "InstalledBy"@),
        installed_on: str_or_empty(row, "InstalledOn"@),
    }
}

/// How many rows the probe keeps.
pub open spec fn hotfix_cap() -> int {
    25
}

impl HotfixInfo {
    /// Normalizes the update rows, keeping at most the first twenty-five.
    pub fn build(rows: &Vec<Record>) -> (r: HotfixInfo)
        ensures
            r.hotfixes@.len() == if rows@.len() <= hotfix_cap() {
                rows@.len() as int
            } else {
                hotfix_cap()
            },
            forall|i: int|
                0 <= i < r.hotfixes@.len() ==> (#[trigger] r.hotfixes@[i]).view_fields()
                    == hotfix_fields(rows@[i]),
    {
        let n = rows.len();
        let cap: usize = if n <= 25 {
            n
        } else {
            25
        };
        let mut hotfixes: Vec<Hotfix> = Vec::new();
        let mut i: usize = 0;
        while i < cap
            invariant
                i <= cap,
                cap <= n,
                n == rows@.len(),
                hotfixes@.len() == i,
                forall|k: int|
                    0 <= k < i ==> (#[trigger] hotfixes@[k]).view_fields() == hotfix_fields(
                        rows@[k],
                    ),
            decreases cap - i,
        {
            let row = &rows[i];
            let hotfix = Hotfix {
                hotfix_id: get_string_or_empty(row, "HotFixID"),
                description: get_string_or_empty(row, "Description"),
                installed_by: get_string_or_empty(row, "InstalledBy"),
                installed_on: get_string_or_empty(row, "InstalledOn"),
            };
            hotfixes.push(hotfix);
            i = i + 1;
        }
        HotfixInfo { hotfixes }
    }
}

} // verus!
