//! The security fallback chains and their decoders.

use cirg::errors::ProbeError;
use cirg::security_info::{
    antivirus_from_rows, bitlocker_from_rows, rdp_enabled, secure_boot_enabled, uac_enabled,
    normalize_update, FirewallInfo, ProfileReadings, RawUpdate, SecurityInfo, TmpInfo,
};
use cirg::value::{Field, Record, Value};

fn record(fields: Vec<(&str, Value)>) -> Record {
    Record {
        fields: fields
            .into_iter()
            .map(|(k, v)| Field { key: String::from(k), val: v })
            .collect(),
    }
}

#[test]
fn store_flags_decode() {
    assert!(secure_boot_enabled(Some(1)));
    assert!(!secure_boot_enabled(Some(0)));
    assert!(!secure_boot_enabled(None));
    assert!(uac_enabled(Some(1)));
    assert!(!uac_enabled(None));
    // key present, deny flag cleared: connections allowed
    assert!(rdp_enabled(Some(Some(0))));
    // key present, deny flag missing: the default denies
    assert!(!rdp_enabled(Some(None)));
    assert!(!rdp_enabled(Some(Some(1))));
    assert!(!rdp_enabled(None));
}

#[test]
fn firewall_profiles_decode_with_defaults() {
    let got = FirewallInfo::from_profiles(
        Some(ProfileReadings { enable: Some(1), inbound: Some(1), outbound: Some(0) }),
        Some(ProfileReadings { enable: None, inbound: None, outbound: None }),
        None,
    )
    .expect("a readable profile yields a record");
    assert_eq!(got.domain_enabled, Some(true));
    assert_eq!(got.domain_inbound.as_deref(), Some("Block"));
    assert_eq!(got.domain_outbound.as_deref(), Some("Allow"));
    // missing values fall to the defaults: off, block inbound, allow outbound
    assert_eq!(got.private_enabled, Some(false));
    assert_eq!(got.private_inbound.as_deref(), Some("Block"));
    assert_eq!(got.private_outbound.as_deref(), Some("Allow"));
    assert!(got.public_enabled.is_none());
    assert!(FirewallInfo::from_profiles(None, None, None).is_none());
}

#[test]
fn tpm_store_reading_decodes_and_takes_precedence() {
    let store = TmpInfo::from_store(
        true,
        Some(String::from("2.0, 0, 1.38")),
        None,
        Some(String::from("Maker")),
        Some(1),
    )
    .expect("service present");
    assert!(store.present && store.enabled && store.ready && store.activated);
    assert_eq!(store.version, "2.0");
    assert_eq!(store.manufacturer, "Maker");

    assert!(TmpInfo::from_store(false, None, None, None, None).is_none());

    let managed = TmpInfo::from_rows(&vec![record(vec![
        ("IsReady_InitialValue", Value::Bool(true)),
        ("SpecVersion", Value::Str(String::from("1.2, x"))),
    ])])
    .expect("a row");
    assert_eq!(managed.version, "1.2");
    assert_eq!(managed.manufacturer, "Unknown");
    assert!(!managed.enabled);
    assert_eq!(
        TmpInfo::from_rows(&vec![]).map(|t| t.version),
        Err(ProbeError::NoData)
    );

    // the store-sourced reading wins the fallback chain
    let store2 = TmpInfo::from_store(true, None, Some(String::from("7")), None, None).unwrap();
    let resolved = TmpInfo::resolve(Some(store2), Some(managed)).unwrap();
    assert_eq!(resolved.version, "7");
}

#[test]
fn antivirus_line_format() {
    let rows = vec![
        record(vec![
            ("displayName", Value::Str(String::from("Defender"))),
            ("productState", Value::UI4(0x1000 | 0x0800)),
        ]),
        record(vec![
            ("displayName", Value::Str(String::from("Other AV"))),
            ("productState", Value::UI4(0)),
        ]),
        record(vec![("displayName", Value::Str(String::from("Stateless")))]),
    ];
    let got = antivirus_from_rows(&rows).expect("two products describe themselves");
    assert_eq!(
        got,
        "Defender (Enabled: true, Up-to-date: true); Other AV (Enabled: false, Up-to-date: false)"
    );
    assert!(antivirus_from_rows(&vec![]).is_none());
    let only_broken = vec![record(vec![("displayName", Value::Str(String::from("X")))])];
    assert!(antivirus_from_rows(&only_broken).is_none());
}

#[test]
fn bitlocker_any_volume() {
    let rows = vec![
        record(vec![("ProtectionStatus", Value::UI4(0))]),
        record(vec![("ProtectionStatus", Value::UI4(1))]),
    ];
    assert!(bitlocker_from_rows(&rows));
    assert!(!bitlocker_from_rows(&vec![]));
    assert!(!bitlocker_from_rows(&vec![record(vec![("ProtectionStatus", Value::UI4(2))])]));
}

#[test]
fn updates_normalize() {
    let raw = RawUpdate {
        title: String::from("Cumulative Update"),
        kb_ids: vec![String::from("5031234"), String::from("5035678")],
        severity: String::from(""),
        is_downloaded: true,
        is_mandatory: false,
        categories: vec![String::from("Security Updates")],
    };
    let item = normalize_update(raw);
    assert_eq!(item.kb_article_ids, vec![String::from("KB5031234"), String::from("KB5035678")]);
    assert!(item.severity.is_none());
    assert!(item.is_downloaded);

    let rated = RawUpdate {
        title: String::from("Fix"),
        kb_ids: vec![],
        severity: String::from("Critical"),
        is_downloaded: false,
        is_mandatory: true,
        categories: vec![],
    };
    assert_eq!(normalize_update(rated).severity.as_deref(), Some("Critical"));
}

#[test]
fn security_assembles_independent_parts() {
    let info = SecurityInfo::assemble(true, None, None, None, false, true, false, None);
    assert!(info.secure_boot);
    assert!(info.rdp_enabled);
    assert!(!info.uac);
    assert!(info.tpm.is_none());
    assert!(info.pending_updates.is_none());
}
