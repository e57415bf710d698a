//! The orchestrator's reduction and assembly: downgrade-to-absence and the
//! isolation of categories from one another.

use cirg::errors::{JoinFault, ProbeError};
use cirg::snapshot::{collect, Outcomes};
use cirg::unwrap_fetch;

#[test]
fn unwrap_fetch_downgrades_errors_and_faults() {
    let ok: Result<Result<u32, ProbeError>, JoinFault> = Ok(Ok(5));
    let err: Result<Result<u32, ProbeError>, JoinFault> = Ok(Err(ProbeError::SourceUnavailable));
    let fault: Result<Result<u32, ProbeError>, JoinFault> = Err(JoinFault { faulted: true });
    assert_eq!(unwrap_fetch(ok), Some(5));
    assert_eq!(unwrap_fetch(err), None);
    assert_eq!(unwrap_fetch(fault), None);
}

fn all_failed() -> Outcomes {
    Outcomes {
        computer: Ok(Err(ProbeError::SourceUnavailable)),
        cpu: Ok(Err(ProbeError::NoData)),
        gpu: Err(JoinFault { faulted: true }),
        memory: Ok(Err(ProbeError::SourceUnavailable)),
        disk: Ok(Err(ProbeError::SourceUnavailable)),
        network: Ok(Err(ProbeError::SourceUnavailable)),
        monitor: Err(JoinFault { faulted: true }),
        audio: Ok(Err(ProbeError::SourceUnavailable)),
        usb: Ok(Err(ProbeError::SourceUnavailable)),
        power: Ok(Err(ProbeError::SourceUnavailable)),
        security: Ok(Err(ProbeError::SourceUnavailable)),
        process: Ok(Err(ProbeError::SourceUnavailable)),
        service: Ok(Err(ProbeError::SourceUnavailable)),
        startup: Ok(Err(ProbeError::SourceUnavailable)),
        software: Ok(Err(ProbeError::SourceUnavailable)),
        hotfix: Ok(Err(ProbeError::SourceUnavailable)),
        users_groups: Ok(Err(ProbeError::SourceUnavailable)),
        environment: Ok(Err(ProbeError::SourceUnavailable)),
        event_log: Ok(Err(ProbeError::SourceUnavailable)),
        scheduled_task: Ok(Err(ProbeError::SourceUnavailable)),
    }
}

#[test]
fn collect_never_fails_and_downgrades_everything() {
    let s = collect(all_failed());
    assert!(s.computer.is_none());
    assert!(s.cpu.is_none());
    assert!(s.gpu.is_none());
    assert!(s.scheduled_task.is_none());
}

#[test]
fn forcing_one_probe_to_fail_leaves_the_others_alone() {
    let services = cirg::service_info::ServiceInfo::build(&vec![]);
    let audio = cirg::audio_info::AudioInfo::build(&vec![]);

    let mut a = all_failed();
    a.service = Ok(Ok(cirg::service_info::ServiceInfo::build(&vec![])));
    a.audio = Ok(Ok(audio));
    // force the disk probe to fault in one run and fail in the other
    let mut b = all_failed();
    b.service = Ok(Ok(services));
    b.audio = Ok(Ok(cirg::audio_info::AudioInfo::build(&vec![])));
    a.disk = Err(JoinFault { faulted: true });
    b.disk = Ok(Err(ProbeError::SourceUnavailable));

    let sa = collect(a);
    let sb = collect(b);
    // the categories whose outcomes agree are unchanged
    assert_eq!(sa.service.is_some(), sb.service.is_some());
    assert_eq!(
        sa.service.as_ref().map(|s| s.services.len()),
        sb.service.as_ref().map(|s| s.services.len())
    );
    assert_eq!(sa.audio.is_some(), sb.audio.is_some());
    assert!(sa.disk.is_none() && sb.disk.is_none());
    assert!(sa.cpu.is_none() && sb.cpu.is_none());
}

#[test]
fn empty_software_store_is_a_success_and_isolated() {
    // an empty configuration-store subkey yields an empty list, not an error
    let sw = cirg::software_info::SoftwareInfo::build(vec![]);
    assert!(sw.programs.is_empty());

    let mut o = all_failed();
    o.software = Ok(Ok(cirg::software_info::SoftwareInfo::build(vec![])));
    o.cpu = Ok(Ok(cirg::cpu_info::CpuInfo::build(&vec![cirg::value::Record { fields: vec![] }])
        .expect("one row suffices")));
    let s = collect(o);
    // the empty software list is present, and other categories are untouched
    assert!(s.software.is_some());
    assert_eq!(s.software.as_ref().map(|v| v.programs.len()), Some(0));
    assert!(s.cpu.is_some());
    assert!(s.disk.is_none());
}
