//! The orchestrator's verified half: reducing each probe unit's outcome to
//! a category value and assembling the snapshot. The categories are
//! mutually independent — each snapshot field is a function of its own
//! unit's outcome alone, so forcing one probe to fail or fault cannot
//! change any other category. Assembly order is fixed by category,
//! whatever order the units finished in.

use vstd::prelude::*;
use crate::audio_info::AudioInfo;
use crate::computer_info::ComputerInfo;
use crate::cpu_info::CpuInfo;
use crate::disk_info::DiskInfo;
use crate::environment_info::EnvironmentInfo;
use crate::errors::{JoinFault, ProbeError};
use crate::event_log_info::EventLogInfo;
use crate::gpu_info::GpuInfo;
use crate::hotfix_info::HotfixInfo;
use crate::memory_info::MemoryInfo;
use crate::monitor_info::MonitorInfo;
use crate::network_info::NetworkInfo;
use crate::power_info::PowerInfo;
use crate::process_info::ProcessInfo;
use crate::scheduled_task_info::ScheduledTaskInfo;
use crate::security_info::SecurityInfo;
use crate::service_info::ServiceInfo;
use crate::software_info::SoftwareInfo;
use crate::startup_info::StartupInfo;
use crate::usb_info::UsbInfo;
use crate::users_groups_info::UsersGroupsInfo;

verus! {

/// One probe unit's outcome as the orchestrator joins it: the unit either
/// faulted, or completed with the probe's own result.
pub type Fetched<T> = Result<Result<T, ProbeError>, JoinFault>;

/// Every unit's outcome, one field per category.
pub struct Outcomes {
    /// The machine-identity unit's outcome.
    pub computer: Fetched<ComputerInfo>,
    /// The processor unit's outcome.
    pub cpu: Fetched<CpuInfo>,
    /// The graphics unit's outcome.
    pub gpu: Fetched<GpuInfo>,
    /// The memory unit's outcome.
    pub memory: Fetched<MemoryInfo>,
    /// The disk unit's outcome.
    pub disk: Fetched<DiskInfo>,
    /// The network unit's outcome.
    pub network: Fetched<NetworkInfo>,
    /// The monitor unit's outcome.
    pub monitor: Fetched<MonitorInfo>,
    /// The audio unit's outcome.
    pub audio: Fetched<AudioInfo>,
    /// The USB unit's outcome.
    pub usb: Fetched<UsbInfo>,
    /// The power unit's outcome.
    pub power: Fetched<PowerInfo>,
    /// The security unit's outcome.
    pub security: Fetched<SecurityInfo>,
    /// The process unit's outcome.
    pub process: Fetched<ProcessInfo>,
    /// The service unit's outcome.
    pub service: Fetched<ServiceInfo>,
    /// The startup unit's outcome.
    pub startup: Fetched<StartupInfo>,
    /// The software unit's outcome.
    pub software: Fetched<SoftwareInfo>,
    /// The hotfix unit's outcome.
    pub hotfix: Fetched<HotfixInfo>,
    /// The users-and-groups unit's outcome.
    pub users_groups: Fetched<UsersGroupsInfo>,
    /// The environment unit's outcome.
    pub environment: Fetched<EnvironmentInfo>,
    /// The event-log unit's outcome.
    pub event_log: Fetched<EventLogInfo>,
    /// The scheduled-task unit's outcome.
    pub scheduled_task: Fetched<ScheduledTaskInfo>,
}

/// The aggregate snapshot: one optional record per category, in fixed
/// category order. Absence of one category never implies anything about
/// another.
pub struct Snapshot {
    /// The machine-identity record, where its probe succeeded.
    pub computer: Option<ComputerInfo>,
    /// The processor record.
    pub cpu: Option<CpuInfo>,
    /// The graphics record.
    pub gpu: Option<GpuInfo>,
    /// The memory record.
    pub memory: Option<MemoryInfo>,
    /// The disk record.
    pub disk: Option<DiskInfo>,
    /// The network record.
    pub network: Option<NetworkInfo>,
    /// The monitor record.
    pub monitor: Option<MonitorInfo>,
    /// The audio record.
    pub audio: Option<AudioInfo>,
    /// The USB record.
    pub usb: Option<UsbInfo>,
    /// The power record.
    pub power: Option<PowerInfo>,
    /// The security record.
    pub security: Option<SecurityInfo>,
    /// The process record.
    pub process: Option<ProcessInfo>,
    /// The service record.
    pub service: Option<ServiceInfo>,
    /// The startup record.
    pub startup: Option<StartupInfo>,
    /// The software record.
    pub software: Option<SoftwareInfo>,
    /// The hotfix record.
    pub hotfix: Option<HotfixInfo>,
    /// The users-and-groups record.
    pub users_groups: Option<UsersGroupsInfo>,
    /// The environment record.
    pub environment: Option<EnvironmentInfo>,
    /// The event-log record.
    pub event_log: Option<EventLogInfo>,
    /// The scheduled-task record.
    pub scheduled_task: Option<ScheduledTaskInfo>,
}

/// What one unit's outcome reduces to: the record where the unit completed
/// and the probe succeeded; absence for a probe error or a fault, always.
pub open spec fn reduced<T>(o: Fetched<T>) -> Option<T> {
    match o {
        Ok(Ok(v)) => Some(v),
        _ => None,
    }
}

/// What assembly yields: each category is the reduction of its own unit's
/// outcome, and of nothing else.
pub open spec fn collect_spec(o: Outcomes) -> Snapshot {
    Snapshot {
        computer: reduced(o.computer),
        cpu: reduced(o.cpu),
        gpu: reduced(o.gpu),
        memory: reduced(o.memory),
        disk: reduced(o.disk),
        network: reduced(o.network),
        monitor: reduced(o.monitor),
        audio: reduced(o.audio),
        usb: reduced(o.usb),
        power: reduced(o.power),
        security: reduced(o.security),
        process: reduced(o.process),
        service: reduced(o.service),
        startup: reduced(o.startup),
        software: reduced(o.software),
        hotfix: reduced(o.hotfix),
        users_groups: reduced(o.users_groups),
        environment: reduced(o.environment),
        event_log: reduced(o.event_log),
        scheduled_task: reduced(o.scheduled_task),
    }
}

/// Assembles the snapshot from every unit's outcome. Assembly itself
/// cannot fail: errors and faults have already been reduced to absence.
pub fn collect(o: Outcomes) -> (s: Snapshot)
    ensures
        s == collect_spec(o),
{
    Snapshot {
        computer: crate::unwrap_fetch(o.computer),
        cpu: crate::unwrap_fetch(o.cpu),
        gpu: crate::unwrap_fetch(o.gpu),
        memory: crate::unwrap_fetch(o.memory),
        disk: crate::unwrap_fetch(o.disk),
        network: crate::unwrap_fetch(o.network),
        monitor: crate::unwrap_fetch(o.monitor),
        audio: crate::unwrap_fetch(o.audio),
        usb: crate::unwrap_fetch(o.usb),
        power: crate::unwrap_fetch(o.power),
        security: crate::unwrap_fetch(o.security),
        process: crate::unwrap_fetch(o.process),
        service: crate::unwrap_fetch(o.service),
        startup: crate::unwrap_fetch(o.startup),
        software: crate::unwrap_fetch(o.software),
        hotfix: crate::unwrap_fetch(o.hotfix),
        users_groups: crate::unwrap_fetch(o.users_groups),
        environment: crate::unwrap_fetch(o.environment),
        event_log: crate::unwrap_fetch(o.event_log),
        scheduled_task: crate::unwrap_fetch(o.scheduled_task),
    }
}

/// Law: probes are isolated. For any two collections whose outcomes agree
/// on one category — however much every other probe was forced to fail,
/// fault, or change — that category's record in the snapshot is the same.
/// So no probe's failure can change any other category's result.
pub proof fn lemma_isolation(a: Outcomes, b: Outcomes)
    ensures
        a.computer == b.computer ==> collect_spec(a).computer == collect_spec(b).computer,
        a.cpu == b.cpu ==> collect_spec(a).cpu == collect_spec(b).cpu,
        a.gpu == b.gpu ==> collect_spec(a).gpu == collect_spec(b).gpu,
        a.memory == b.memory ==> collect_spec(a).memory == collect_spec(b).memory,
        a.disk == b.disk ==> collect_spec(a).disk == collect_spec(b).disk,
        a.network == b.network ==> collect_spec(a).network == collect_spec(b).network,
        a.monitor == b.monitor ==> collect_spec(a).monitor == collect_spec(b).monitor,
        a.audio == b.audio ==> collect_spec(a).audio == collect_spec(b).audio,
        a.usb == b.usb ==> collect_spec(a).usb == collect_spec(b).usb,
        a.power == b.power ==> collect_spec(a).power == collect_spec(b).power,
        a.security == b.security ==> collect_spec(a).security == collect_spec(b).security,
        a.process == b.process ==> collect_spec(a).process == collect_spec(b).process,
        a.service == b.service ==> collect_spec(a).service == collect_spec(b).service,
        a.startup == b.startup ==> collect_spec(a).startup == collect_spec(b).startup,
        a.software == b.software ==> collect_spec(a).software == collect_spec(b).software,
        a.hotfix == b.hotfix ==> collect_spec(a).hotfix == collect_spec(b).hotfix,
        a.users_groups == b.users_groups ==> collect_spec(a).users_groups == collect_spec(
            b,
        ).users_groups,
        a.environment == b.environment ==> collect_spec(a).environment == collect_spec(
            b,
        ).environment,
        a.event_log == b.event_log ==> collect_spec(a).event_log == collect_spec(b).event_log,
        a.scheduled_task == b.scheduled_task ==> collect_spec(a).scheduled_task == collect_spec(
            b,
        ).scheduled_task,
{
}

/// Law: a unit's error or fault is always downgraded to absence, and a
/// completed, successful probe is always kept: the snapshot never drops a
/// success and never invents a record.
pub proof fn lemma_downgrade<T>(o: Fetched<T>)
    ensures
        (reduced(o) is Some) <==> (o matches Ok(p) && p is Ok),
        o matches Ok(p) ==> (p matches Ok(v) ==> reduced(o) == Some(v)),
{
}

} // verus!
