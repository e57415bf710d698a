//! The service probe: one normalized entry per service row.

use vstd::prelude::*;
use crate::value::{get_string_or_empty, str_or_empty, Record};

verus! {

/// One installed service.
pub struct Service {
    /// The service's short name.
    pub name: String,
    /// The service's display name.
    pub display_name: String,
    /// The current state word.
    pub state: String,
    /// How the service starts.
    pub start_mode: String,
    /// The account the service runs as.
    pub account: String,
    /// The executable path the service runs.
    pub path: String,
    /// The service's description.
    pub description: String,
}

/// The service category.
pub struct ServiceInfo {
    /// The services, in source order.
    pub services: Vec<Service>,
}

/// The fields of one service, at the specification level.
pub struct ServiceFields {
    /// Short name text.
    pub name: Seq<char>,
    /// Display name text.
    pub display_name: Seq<char>,
    /// State text.
    pub state: Seq<char>,
    /// Start mode text.
    pub start_mode: Seq<char>,
    /// Account text.
    pub account: Seq<char>,
    /// Path text.
    pub path: Seq<char>,
    /// Description text.
    pub description: Seq<char>,
}

impl Service {
    /// The service's fields as sequences.
    pub open spec fn view_fields(self) -> ServiceFields {
        ServiceFields {
            name: self.name@,
            display_name: self.display_name@,
            state: self.state@,
            start_mode: self.start_mode@,
            account: self.account@,
            path: self.path@,
            description: self.description@,
        }
    }
}

/// The fields one row normalizes to.
pub open spec fn service_fields(row: Record) -> ServiceFields {
    ServiceFields {
        name: str_or_empty(row, "Name"@),
        display_name: str_or_empty(row, "DisplayName"@),
        state: str_or_empty(row, "State"@),
        start_mode: str_or_empty(row, "StartMode"@),
        account: str_or_empty(row, "StartName"@),
        path: str_or_empty(row, "PathName"@),
        description: str_or_empty(row, "Description"@),
    }
}

impl ServiceInfo {
    /// Normalizes the service rows, one entry per row.
    pub fn build(rows: &Vec<Record>) -> (r: ServiceInfo)
        ensures
            r.services@.len() == rows@.len(),
            forall|i: int|
                0 <= i < rows@.len() ==> (#[trigger] r.services@[i]).view_fields()
                    == service_fields(rows@[i]),
    {
        let n = rows.len();
        let mut services: Vec<Service> = Vec::new();
        let mut i: usize = 0;
        while i < n
            invariant
                i <= n,
                n == rows@.len(),
                services@.len() == i,
                forall|k: int|
                    0 <= k < i ==> (#[trigger] services@[k]).view_fields() == service_fields(
                        rows@[k],
                    ),
            decreases n - i,
        {
            let row = &rows[i];
            let service = Service {
                name: get_string_or_empty(row, "Name"),
                display_name: get_string_or_empty(row, "DisplayName"),
                state: get_string_or_empty(row, "State"),
                start_mode: get_string_or_empty(row, "StartMode"),
                account: get_string_or_empty(row, "StartName"),
                path: get_string_or_empty(row, "PathName"),
                description: get_string_or_empty(row, "Description"),
            };
            services.push(service);
            i = i + 1;
        }
        ServiceInfo { services }
    }
}

} // verus!
