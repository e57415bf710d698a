//! The startup probe: one normalized item per startup-command row.

use vstd::prelude::*;
use crate::value::{get_string_or_empty, str_or_empty, Record};

verus! {

/// One startup item.
pub struct StartupItem {
    /// The item's name.
    pub name: String,
    /// The command it runs.
    pub command: String,
    /// Where the item is registered.
    pub location: String,
    /// The user the item belongs to.
    pub user: String,
}

/// The startup category.
pub struct StartupInfo {
    /// The items, in source order.
    pub items: Vec<StartupItem>,
}

/// The fields of one item, at the specification level.
pub struct StartupFields {
    /// Name text.
    pub name: Seq<char>,
    /// Command text.
    pub command: Seq<char>,
    /// Location text.
    pub location: Seq<char>,
    /// User text.
    pub user: Seq<char>,
}

impl StartupItem {
    /// The item's fields as sequences.
    pub open spec fn view_fields(self) -> StartupFields {
        StartupFields {
            name: self.name@,
            command: self.command@,
            location: self.location@,
            user: self.user@,
        }
    }
}

/// The fields one row normalizes to.
pub open spec fn startup_fields(row: Record) -> StartupFields {
    StartupFields {
        name: str_or_empty(row, "Name"@),
        command: str_or_empty(row, "Command"@),
        location: str_or_empty(row, "Location"@),
        user: str_or_empty(row, "User"@),
    }
}

impl StartupInfo {
    /// Normalizes the startup rows, one item per row.
    pub fn build(rows: &Vec<Record>) -> (r: StartupInfo)
        ensures
            r.items@.len() == rows@.len(),
            forall|i: int|
                0 <= i < rows@.len() ==> (#[trigger] r.items@[i]).view_fields() == startup_fields(
                    rows@[i],
                ),
    {
        let n = rows.len();
        let mut items: Vec<StartupItem> = Vec::new();
        let mut i: usize = 0;
        while i < n
            invariant
                i <= n,
                n == rows@.len(),
                items@.len() == i,
                forall|k: int|
                    0 <= k < i ==> (#[trigger] items@[k]).view_fields() == startup_fields(
                        rows@[k],
                    ),
            decreases n - i,
        {
            let row = &rows[i];
            let item = StartupItem {
                name: get_string_or_empty(row, "Name"),
                command: get_string_or_empty(row, "Command"),
                location: get_string_or_empty(row, "Location"),
                user: get_string_or_empty(row, "User"),
            };
            items.push(item);
            i = i + 1;
        }
        StartupInfo { items }
    }
}

} // verus!
