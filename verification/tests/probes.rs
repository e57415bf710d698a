//! Per-probe normalization: row mapping, per-row tolerance, probe-local
//! caps, sorting policies, and the single-row probes' failure conditions.

use cirg::cpu_info::CpuInfo;
use cirg::environment_info::{EnvVar, EnvironmentInfo};
use cirg::errors::ProbeError;
use cirg::hotfix_info::HotfixInfo;
use cirg::memory_info::MemoryInfo;
use cirg::power_info::{BatteryInfo, PowerInfo};
use cirg::process_info::{ProcessEntry, ProcessInfo};
use cirg::scheduled_task_info::ScheduledTaskInfo;
use cirg::software_info::{RegProgram, SoftwareInfo};
use cirg::usb_info::UsbInfo;
use cirg::users_groups_info::UsersGroupsInfo;
use cirg::value::{Field, Record, Value};

fn record(fields: Vec<(&str, Value)>) -> Record {
    Record {
        fields: fields
            .into_iter()
            .map(|(k, v)| Field { key: String::from(k), val: v })
            .collect(),
    }
}

fn s(v: &str) -> Value {
    Value::Str(String::from(v))
}

#[test]
fn cpu_requires_a_row() {
    assert_eq!(
        CpuInfo::build(&vec![]).map(|c| c.name).map_err(|e| e),
        Err(ProbeError::NoData)
    );
    let row = record(vec![
        ("Name", s("CPU Zero")),
        ("NumberOfCores", Value::UI4(8)),
        ("Architecture", Value::UI2(12)),
    ]);
    let cpu = CpuInfo::build(&vec![row]).expect("one row");
    assert_eq!(cpu.name, "CPU Zero");
    assert_eq!(cpu.cores, 8);
    assert_eq!(cpu.architecture, "ARM64");
    // a missing optional field is replaced by its default
    assert_eq!(cpu.l3_cache_kb, 0);
    assert_eq!(cpu.status, "");
}

#[test]
fn memory_codes_and_board_figures() {
    let array_rows = vec![record(vec![
        ("MemoryDevices", Value::UI4(4)),
        ("MaxCapacity", Value::UI8(128 * 1024 * 1024)),
    ])];
    let mem_rows = vec![record(vec![
        ("BankLabel", s("BANK 0")),
        ("Capacity", Value::Str(String::from("17179869184"))),
        ("Speed", Value::UI4(3200)),
        ("SMBIOSMemoryType", Value::UI2(26)),
        ("FormFactor", Value::UI2(8)),
        ("PartNumber", s(" KF432C16  ")),
    ])];
    let info = MemoryInfo::build(&array_rows, &mem_rows);
    assert_eq!(info.total_slots, 4);
    assert_eq!(info.max_capacity_gb, 128);
    let slot = &info.slots[0];
    assert_eq!(slot.capacity_gb_micro, 16_000_000);
    assert_eq!(slot.memory_type, "DDR4");
    assert_eq!(slot.form_factor, "DIMM");
    assert_eq!(slot.part_number, "KF432C16");
    // no array row: board figures default, slots still map
    let none = MemoryInfo::build(&vec![], &mem_rows);
    assert_eq!(none.total_slots, 0);
    assert_eq!(none.slots.len(), 1);
}

#[test]
fn usb_filters_hubs() {
    let rows = vec![
        record(vec![("Name", s("USB Root Hub (USB 3.0)")), ("PNPDeviceID", s("USB\\R"))]),
        record(vec![("Name", s("Gaming Mouse")), ("PNPDeviceID", s("USB\\M"))]),
        record(vec![("Name", s("USB Composite Device")), ("PNPDeviceID", s("USB\\C"))]),
        record(vec![("Name", s("Generic Hub thing")), ("PNPDeviceID", s("USB\\G"))]),
    ];
    let info = UsbInfo::build(&rows);
    assert_eq!(info.devices.len(), 1);
    assert_eq!(info.devices[0].name, "Gaming Mouse");
}

#[test]
fn hotfixes_capped_at_twenty_five() {
    let rows: Vec<Record> = (0..30)
        .map(|i| record(vec![("HotFixID", s(&format!("KB{}", i)))]))
        .collect();
    let info = HotfixInfo::build(&rows);
    assert_eq!(info.hotfixes.len(), 25);
    assert_eq!(info.hotfixes[0].hotfix_id, "KB0");
    assert_eq!(info.hotfixes[24].hotfix_id, "KB24");
}

#[test]
fn processes_sorted_by_working_set_stable_and_capped() {
    let mk = |name: &str, mem: u64| ProcessEntry {
        name: String::from(name),
        pid: 0,
        cpu_seconds: 0,
        memory_bytes: mem,
        exe_path: String::new(),
        command: String::new(),
    };
    let entries = vec![mk("small", 10), mk("big", 300), mk("tie-a", 100), mk("tie-b", 100)];
    let info = ProcessInfo::top_processes(entries);
    let names: Vec<&str> = info.processes.iter().map(|p| p.name.as_str()).collect();
    // descending, ties in enumeration order
    assert_eq!(names, vec!["big", "tie-a", "tie-b", "small"]);

    let many: Vec<ProcessEntry> = (0..40u64).map(|i| mk(&format!("p{}", i), i)).collect();
    let capped = ProcessInfo::top_processes(many);
    assert_eq!(capped.processes.len(), 30);
    assert_eq!(capped.processes[0].memory_bytes, 39);
}

#[test]
fn software_filters_dedups_and_sorts() {
    let mk = |name: Option<&str>, sys: u32, parent: &str| RegProgram {
        display_name: name.map(String::from),
        system_component: sys,
        parent_key_name: String::from(parent),
        display_version: String::from("1.0"),
        publisher: String::new(),
        install_date: String::new(),
    };
    let rows = vec![
        mk(Some("zeta"), 0, ""),
        mk(Some("Alpha"), 0, ""),
        mk(None, 0, ""),           // no display name: skipped
        mk(Some("hidden"), 1, ""), // system component: skipped
        mk(Some("child"), 0, "parent"), // child entry: skipped
        mk(Some("zeta"), 0, ""),   // duplicate name: first kept
        mk(Some("beta"), 0, ""),
    ];
    let info = SoftwareInfo::build(rows);
    let names: Vec<&str> = info.programs.iter().map(|p| p.name.as_str()).collect();
    assert_eq!(names, vec!["Alpha", "beta", "zeta"]);
}

#[test]
fn battery_requires_identity_fields() {
    // no battery row: no battery, and the power record still carries a plan
    let power = PowerInfo::build("Power Scheme GUID: g (Saver)", &vec![]);
    assert_eq!(power.plan, "Saver");
    assert!(power.battery.is_none());

    let full = vec![record(vec![
        ("Name", s("BAT1")),
        ("Status", s("OK")),
        ("EstimatedChargeRemaining", Value::UI2(88)),
        ("EstimatedRunTime", Value::UI4(120)),
        ("Chemistry", Value::UI2(6)),
    ])];
    let b = BatteryInfo::build(&full).expect("all required fields present");
    assert_eq!(b.charge_pct, "88");
    assert_eq!(b.run_time_mins, "120");
    assert_eq!(b.chemistry, "Lithium-ion");
    assert_eq!(b.design_capacity, "Unknown");

    // a required field missing fails the battery probe
    let missing = vec![record(vec![("Name", s("BAT1"))])];
    assert_eq!(
        BatteryInfo::build(&missing).map(|b| b.name),
        Err(ProbeError::MissingField)
    );
}

#[test]
fn scheduled_tasks_from_verbose_listing() {
    let out = "\"HostName\",\"TaskName\",\"Next Run Time\",\"Status\",\"Last Run Time\",\"Last Result\",\"Author\"\r\n\
               \"H\",\"\\Microsoft\\Windows\\Sys\",\"N/A\",\"Ready\",\"Never\",\"0\",\"MS\"\r\n\
               \"H\",\"\\Backups\\Nightly\",\"Tomorrow\",\"Ready\",\"Yesterday\",\"0\",\"Admin\"\r\n\
               \"short row\"\r\n";
    let info = ScheduledTaskInfo::from_output(out);
    // the folder-skipped row and the too-short row both drop out
    assert_eq!(info.tasks.len(), 1);
    assert_eq!(info.tasks[0].path, "\\Backups\\Nightly");
    assert_eq!(info.tasks[0].name, "Nightly");
    assert_eq!(info.tasks[0].state, "Ready");
    assert_eq!(info.tasks[0].next_run, "Tomorrow");
    assert_eq!(info.tasks[0].author, "Admin");
    assert_eq!(ScheduledTaskInfo::from_output("").tasks.len(), 0);
}

#[test]
fn groups_fold_their_members() {
    let user_rows = vec![record(vec![
        ("Name", s("alice")),
        ("Disabled", Value::Bool(false)),
        ("Description", s("first")),
    ])];
    let group_rows = vec![
        record(vec![("Name", s("Admins")), ("Description", s("admin group"))]),
        record(vec![("Name", s("Guests")), ("Description", s(""))]),
    ];
    let member_rows = vec![
        record(vec![
            ("GroupComponent", s("Win32_Group.Name=\"Admins\"")),
            ("PartComponent", s("Win32_UserAccount.Name=\"alice\"")),
        ]),
        record(vec![
            ("GroupComponent", s("Win32_Group.Name=\"Admins\"")),
            ("PartComponent", s("Win32_UserAccount.Name=\"bob\"")),
        ]),
    ];
    let info = UsersGroupsInfo::build(&user_rows, &group_rows, &member_rows);
    assert_eq!(info.users.len(), 1);
    assert!(!info.users[0].disabled);
    assert_eq!(info.groups[0].members, vec![String::from("alice"), String::from("bob")]);
    assert!(info.groups[1].members.is_empty());
}

#[test]
fn environment_sorted_with_later_value_winning() {
    let mk = |k: &str, v: &str| EnvVar { name: String::from(k), value: String::from(v) };
    let info = EnvironmentInfo::build(vec![
        mk("PATH", "/old"),
        mk("ARCH", "x64"),
        mk("PATH", "/new"),
    ]);
    let pairs: Vec<(&str, &str)> = info
        .variables
        .iter()
        .map(|e| (e.name.as_str(), e.value.as_str()))
        .collect();
    assert_eq!(pairs, vec![("ARCH", "x64"), ("PATH", "/new")]);
}
