//! Point-in-time machine inventory: probe normalization, value coercion,
//! free-text parsing, and multi-source reconciliation, with verified contracts.
//!
//! The operating-system data sources themselves (the management-query
//! interface, the configuration store, platform enumeration calls, external
//! command-line tools) are consulted by the surrounding application, which
//! hands their raw rows and captured output to the functions of this crate.

use vstd::prelude::*;

pub mod audio_info;
pub mod computer_info;
pub mod cpu_info;
pub mod csv;
pub mod disk_info;
pub mod environment_info;
pub mod errors;
pub mod gpu_info;
pub mod hotfix_info;
pub mod memory_info;
pub mod monitor_info;
pub mod network_info;
pub mod power_info;
pub mod process_info;
pub mod event_log_info;
pub mod scheduled_task_info;
pub mod security_info;
pub mod service_info;
pub mod snapshot;
pub mod software_info;
pub mod startup_info;
pub mod text;
pub mod time;
pub mod table;
pub mod units;
pub mod usb_info;
pub mod users_groups_info;
pub mod value;
pub mod xml;

verus! {

/// Smallest useful start: the policy that downgrades one unit's outcome to a
/// category value. A probe error or a fault is always reduced to `None`.
pub fn unwrap_fetch<T>(result: Result<Result<T, errors::ProbeError>, errors::JoinFault>) -> (r:
    Option<T>)
    ensures
        match result {
            Ok(Ok(v)) => r == Some(v),
            _ => r is None,
        },
{
    match result {
        Ok(Ok(data)) => Some(data),
        _ => None,
    }
}

} // verus!
