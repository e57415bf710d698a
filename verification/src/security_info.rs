//! The security-posture probe: a bundle of independent, privilege-gated
//! statuses. Each status is an ordered fallback chain — the high-fidelity
//! source first, a configuration-store reading or heuristic second — and
//! degrades to an explicit absent value rather than failing the probe.

use vstd::prelude::*;
use crate::errors::ProbeError;
use crate::text::{
    chars_string, find_sub, first_match, lemma_first_match_at, str_chars, subvec, trim_chars,
    trim_spec,
};
use crate::value::{bool_or, get_bool_or, spec_get_u32, str_field, Record};

verus! {

/// The security category.
pub struct SecurityInfo {
    /// Whether secure boot is enabled.
    pub secure_boot: bool,
    /// The trusted-platform-module status, where one was found.
    pub tpm: Option<TmpInfo>,
    /// The installed antivirus products, described in one line.
    pub antivirus: Option<String>,
    /// The firewall profiles, where any profile was readable.
    pub firewall: Option<FirewallInfo>,
    /// Whether account control asks before elevation.
    pub uac: bool,
    /// Whether remote desktop connections are allowed.
    pub rdp_enabled: bool,
    /// Whether any volume is protected.
    pub bit_locker: bool,
    /// The pending updates, where the updates source answered.
    pub pending_updates: Option<Vec<UpdateItem>>,
}

/// The trusted-platform-module status.
pub struct TmpInfo {
    /// Whether a module is present.
    pub present: bool,
    /// Whether it reports ready.
    pub ready: bool,
    /// Whether it is enabled.
    pub enabled: bool,
    /// Whether it is activated.
    pub activated: bool,
    /// The specification version.
    pub version: String,
    /// The maker's display name.
    pub manufacturer: String,
}

/// Per-profile firewall settings.
pub struct FirewallInfo {
    /// Whether the domain profile's firewall is on.
    pub domain_enabled: Option<bool>,
    /// The domain profile's inbound default.
    pub domain_inbound: Option<String>,
    /// The domain profile's outbound default.
    pub domain_outbound: Option<String>,
    /// Whether the private profile's firewall is on.
    pub private_enabled: Option<bool>,
    /// The private profile's inbound default.
    pub private_inbound: Option<String>,
    /// The private profile's outbound default.
    pub private_outbound: Option<String>,
    /// Whether the public profile's firewall is on.
    pub public_enabled: Option<bool>,
    /// The public profile's inbound default.
    pub public_inbound: Option<String>,
    /// The public profile's outbound default.
    pub public_outbound: Option<String>,
}

/// One pending update.
pub struct UpdateItem {
    /// The update's title.
    pub title: String,
    /// The knowledge-base identifiers, each with its prefix.
    pub kb_article_ids: Vec<String>,
    /// The vendor severity, where one is set.
    pub severity: Option<String>,
    /// Whether the payload is already downloaded.
    pub is_downloaded: bool,
    /// Whether the update is mandatory.
    pub is_mandatory: bool,
    /// The category names.
    pub categories: Vec<String>,
}

/// What a configuration-store flag decodes to: enabled exactly when the
/// stored value is one; a missing key or value reads disabled.
pub open spec fn flag_enabled(v: Option<u32>) -> bool {
    v == Some(1u32)
}

/// Decodes the secure-boot store value.
pub fn secure_boot_enabled(v: Option<u32>) -> (r: bool)
    ensures
        r == flag_enabled(v),
{
    match v {
        Some(x) => x == 1,
        None => false,
    }
}

/// Decodes the account-control store value.
pub fn uac_enabled(v: Option<u32>) -> (r: bool)
    ensures
        r == flag_enabled(v),
{
    match v {
        Some(x) => x == 1,
        None => false,
    }
}

/// What the remote-desktop reading decodes to: with the key present,
/// connections are allowed exactly when the deny flag (defaulting to one)
/// is zero; a missing key reads disallowed.
pub open spec fn rdp_enabled_spec(key: Option<Option<u32>>) -> bool {
    match key {
        Some(deny) => (match deny {
            Some(x) => x,
            None => 1u32,
        }) == 0,
        None => false,
    }
}

/// Decodes the remote-desktop store reading. The outer level says whether
/// the key was there at all; the inner, whether it held the deny flag.
pub fn rdp_enabled(key: Option<Option<u32>>) -> (r: bool)
    ensures
        r == rdp_enabled_spec(key),
{
    match key {
        Some(deny) => {
            let d: u32 = match deny {
                Some(x) => x,
                None => 1,
            };
            d == 0
        },
        None => false,
    }
}

/// One firewall profile's store readings, where its key was present.
pub struct ProfileReadings {
    /// The on/off flag.
    pub enable: Option<u32>,
    /// The default inbound action code.
    pub inbound: Option<u32>,
    /// The default outbound action code.
    pub outbound: Option<u32>,
}

/// The word an action code reads as: one blocks, everything else allows.
pub open spec fn action_word(code: u32) -> Seq<char> {
    if code == 1 {
        "Block"@
    } else {
        "Allow"@
    }
}

/// Renders an action code.
fn action_string(code: u32) -> (r: String)
    ensures
        r@ == action_word(code),
{
    if code == 1 {
        String::from_str("Block")
    } else {
        String::from_str("Allow")
    }
}

/// The inbound default of a profile: the stored code, defaulting to block.
pub open spec fn inbound_word(p: ProfileReadings) -> Seq<char> {
    action_word(
        match p.inbound {
            Some(x) => x,
            None => 1u32,
        },
    )
}

/// The outbound default of a profile: the stored code, defaulting to allow.
pub open spec fn outbound_word(p: ProfileReadings) -> Seq<char> {
    action_word(
        match p.outbound {
            Some(x) => x,
            None => 0u32,
        },
    )
}

/// Whether a profile's firewall is on: the stored flag, defaulting to off.
pub open spec fn profile_on(p: ProfileReadings) -> bool {
    (match p.enable {
        Some(x) => x,
        None => 0u32,
    }) == 1
}

impl FirewallInfo {
    /// Decodes the three profiles' store readings. The result is absent
    /// when no profile key could be opened at all.
    pub fn from_profiles(
        domain: Option<ProfileReadings>,
        private: Option<ProfileReadings>,
        public: Option<ProfileReadings>,
    ) -> (r: Option<FirewallInfo>)
        ensures
            (r is Some) == (domain is Some || private is Some || public is Some),
            r matches Some(fw) ==> {
                &&& fw.domain_enabled == (match domain { Some(p) => Some(profile_on(p)), None => None })
                &&& (match domain {
                    Some(p) => fw.domain_inbound matches Some(s) && s@ == inbound_word(p) && (
                    fw.domain_outbound matches Some(s2) && s2@ == outbound_word(p)),
                    None => fw.domain_inbound is None && fw.domain_outbound is None,
                })
                &&& fw.private_enabled == (match private { Some(p) => Some(profile_on(p)), None => None })
                &&& (match private {
                    Some(p) => fw.private_inbound matches Some(s) && s@ == inbound_word(p) && (
                    fw.private_outbound matches Some(s2) && s2@ == outbound_word(p)),
                    None => fw.private_inbound is None && fw.private_outbound is None,
                })
                &&& fw.public_enabled == (match public { Some(p) => Some(profile_on(p)), None => None })
                &&& (match public {
                    Some(p) => fw.public_inbound matches Some(s) && s@ == inbound_word(p) && (
                    fw.public_outbound matches Some(s2) && s2@ == outbound_word(p)),
                    None => fw.public_inbound is None && fw.public_outbound is None,
                })
            },
    {
        let mut fw = FirewallInfo {
            domain_enabled: None,
            domain_inbound: None,
            domain_outbound: None,
            private_enabled: None,
            private_inbound: None,
            private_outbound: None,
            public_enabled: None,
            public_inbound: None,
            public_outbound: None,
        };
        let mut has_data = false;
        match domain {
            Some(p) => {
                fw.domain_enabled = Some(
                    (match p.enable {
                        Some(x) => x,
                        None => 0,
                    }) == 1,
                );
                fw.domain_inbound = Some(
                    action_string(
                        match p.inbound {
                            Some(x) => x,
                            None => 1,
                        },
                    ),
                );
                fw.domain_outbound = Some(
                    action_string(
                        match p.outbound {
                            Some(x) => x,
                            None => 0,
                        },
                    ),
                );
                has_data = true;
            },
            None => (),
        }
        match private {
            Some(p) => {
                fw.private_enabled = Some(
                    (match p.enable {
                        Some(x) => x,
                        None => 0,
                    }) == 1,
                );
                fw.private_inbound = Some(
                    action_string(
                        match p.inbound {
                            Some(x) => x,
                            None => 1,
                        },
                    ),
                );
                fw.private_outbound = Some(
                    action_string(
                        match p.outbound {
                            Some(x) => x,
                            None => 0,
                        },
                    ),
                );
                has_data = true;
            },
            None => (),
        }
        match public {
            Some(p) => {
                fw.public_enabled = Some(
                    (match p.enable {
                        Some(x) => x,
                        None => 0,
                    }) == 1,
                );
                fw.public_inbound = Some(
                    action_string(
                        match p.inbound {
                            Some(x) => x,
                            None => 1,
                        },
                    ),
                );
                fw.public_outbound = Some(
                    action_string(
                        match p.outbound {
                            Some(x) => x,
                            None => 0,
                        },
                    ),
                );
                has_data = true;
            },
            None => (),
        }
        if has_data {
            Some(fw)
        } else {
            None
        }
    }
}

/// The view of an optional string.
pub open spec fn opt_view(s: Option<String>) -> Option<Seq<char>> {
    match s {
        Some(x) => Some(x@),
        None => None,
    }
}

/// The text before the first comma, or the whole text.
pub open spec fn first_piece(s: Seq<char>) -> Seq<char> {
    match first_match(s, seq![',']) {
        Some(i) => s.subrange(0, i),
        None => s,
    }
}

/// Cuts the text before the first comma and trims it.
fn trimmed_first_piece(s: &str) -> (r: String)
    ensures
        r@ == trim_spec(first_piece(s@)),
{
    let v = str_chars(s);
    let mut comma: Vec<char> = Vec::new();
    comma.push(',');
    proof {
        assert(comma@ =~= seq![',']);
    }
    let piece: Vec<char> = match find_sub(&v, &comma) {
        Some(i) => {
            proof {
                lemma_first_match_at(v@, comma@, 0);
            }
            subvec(&v, 0, i)
        },
        None => {
            let n = v.len();
            let whole = subvec(&v, 0, n);
            proof {
                assert(whole@ =~= v@);
            }
            whole
        },
    };
    let trimmed = trim_chars(&piece);
    chars_string(&trimmed)
}

/// The fields of the module status, at the specification level.
pub struct TmpFields {
    /// Presence flag.
    pub present: bool,
    /// Readiness flag.
    pub ready: bool,
    /// Enabled flag.
    pub enabled: bool,
    /// Activation flag.
    pub activated: bool,
    /// Version text.
    pub version: Seq<char>,
    /// Maker text.
    pub manufacturer: Seq<char>,
}

impl TmpInfo {
    /// The status's fields as sequences.
    pub open spec fn view_fields(self) -> TmpFields {
        TmpFields {
            present: self.present,
            ready: self.ready,
            enabled: self.enabled,
            activated: self.activated,
            version: self.version@,
            manufacturer: self.manufacturer@,
        }
    }
}

/// What the store-sourced module status decodes to: nothing without the
/// module's service; else present and enabled, ready and activated exactly
/// when the readiness value is one, the version cut from the stored
/// specification (or the maker's version, or "Unknown"), and the maker's
/// display name (or "Unknown").
pub open spec fn tpm_store_fields(
    service_exists: bool,
    spec_version: Option<Seq<char>>,
    manufacturer_version: Option<Seq<char>>,
    manufacturer_display: Option<Seq<char>>,
    is_ready: Option<u32>,
) -> Option<TmpFields> {
    if !service_exists {
        None
    } else {
        let ready = is_ready == Some(1u32);
        Some(
            TmpFields {
                present: true,
                ready: ready,
                enabled: true,
                activated: ready,
                version: match spec_version {
                    Some(s) => trim_spec(first_piece(s)),
                    None => match manufacturer_version {
                        Some(v) => v,
                        None => "Unknown"@,
                    },
                },
                manufacturer: match manufacturer_display {
                    Some(m) => m,
                    None => "Unknown"@,
                },
            },
        )
    }
}

impl TmpInfo {
    /// Decodes the store-sourced module status.
    pub fn from_store(
        service_exists: bool,
        spec_version: Option<String>,
        manufacturer_version: Option<String>,
        manufacturer_display: Option<String>,
        is_ready: Option<u32>,
    ) -> (r: Option<TmpInfo>)
        ensures
            match tpm_store_fields(
                service_exists,
                opt_view(spec_version),
                opt_view(manufacturer_version),
                opt_view(manufacturer_display),
                is_ready,
            ) {
                Some(f) => (r matches Some(t) && t.view_fields() == f),
                None => r is None,
            },
    {
        if !service_exists {
            return None;
        }
        let ready: bool = match is_ready {
            Some(x) => x == 1,
            None => false,
        };
        let version: String = match spec_version {
            Some(s) => trimmed_first_piece(s.as_str()),
            None => match manufacturer_version {
                Some(v) => v,
                None => String::from_str("Unknown"),
            },
        };
        let manufacturer: String = match manufacturer_display {
            Some(m) => m,
            None => String::from_str("Unknown"),
        };
        Some(TmpInfo { present: true, ready, enabled: true, activated: ready, version, manufacturer })
    }

    /// What the management-sourced module status decodes to: the first row
    /// or a failed probe, with flags defaulting to off and texts to
    /// "Unknown".
    pub open spec fn row_fields(rows: Seq<Record>) -> Result<TmpFields, ProbeError> {
        if rows.len() == 0 {
            Err(ProbeError::NoData)
        } else {
            let row = rows[0];
            Ok(
                TmpFields {
                    present: true,
                    ready: bool_or(row, "IsReady_InitialValue"@, false),
                    enabled: bool_or(row, "IsEnabled_InitialValue"@, false),
                    activated: bool_or(row, "IsActivated_InitialValue"@, false),
                    version: match str_field(row, "SpecVersion"@) {
                        Some(s) => trim_spec(first_piece(s)),
                        None => "Unknown"@,
                    },
                    manufacturer: match str_field(row, "ManufacturerIdTxt"@) {
                        Some(m) => m,
                        None => "Unknown"@,
                    },
                },
            )
        }
    }

    /// Decodes the management-sourced module status from its rows.
    pub fn from_rows(rows: &Vec<Record>) -> (r: Result<TmpInfo, ProbeError>)
        ensures
            match TmpInfo::row_fields(rows@) {
                Ok(f) => (r matches Ok(t) && t.view_fields() == f),
                Err(e) => r == Err::<TmpInfo, ProbeError>(e),
            },
    {
        if rows.len() == 0 {
            return Err(ProbeError::NoData);
        }
        let row = &rows[0];
        let version: String = match row.get_string("SpecVersion") {
            Ok(s) => trimmed_first_piece(s.as_str()),
            Err(_) => String::from_str("Unknown"),
        };
        let manufacturer: String = match row.get_string("ManufacturerIdTxt") {
            Ok(m) => m,
            Err(_) => String::from_str("Unknown"),
        };
        Ok(
            TmpInfo {
                present: true,
                ready: get_bool_or(row, "IsReady_InitialValue", false),
                enabled: get_bool_or(row, "IsEnabled_InitialValue", false),
                activated: get_bool_or(row, "IsActivated_InitialValue", false),
                version,
                manufacturer,
            },
        )
    }

    /// The fallback chain for the module status: the store-sourced reading
    /// — it needs no elevation — wins; the management-sourced one stands
    /// in only when the store had nothing.
    pub fn resolve(store: Option<TmpInfo>, managed: Option<TmpInfo>) -> (r: Option<TmpInfo>)
        ensures
            store is Some ==> r == store,
            store is None ==> r == managed,
    {
        match store {
            Some(t) => Some(t),
            None => managed,
        }
    }
}

/// The description one antivirus row contributes, where its name and state
/// both extract: the name, the enabled bit, and the freshness bit.
pub open spec fn av_item(row: Record) -> Option<Seq<char>> {
    match (str_field(row, "displayName"@), spec_get_u32(row, "productState"@)) {
        (Some(name), Ok(state)) => Some(
            name + " (Enabled: "@ + bool_word((state & 0x1000) != 0) + ", Up-to-date: "@
                + bool_word((state & 0x0800) != 0) + ")"@,
        ),
        _ => None,
    }
}

/// The word a flag reads as.
pub open spec fn bool_word(b: bool) -> Seq<char> {
    if b {
        "true"@
    } else {
        "false"@
    }
}

/// The descriptions the antivirus rows contribute, in order.
pub open spec fn av_items(rows: Seq<Record>) -> Seq<Seq<char>>
    decreases rows.len(),
{
    if rows.len() == 0 {
        Seq::<Seq<char>>::empty()
    } else {
        av_items(rows.drop_last()) + (match av_item(rows.last()) {
            Some(s) => seq![s],
            None => Seq::<Seq<char>>::empty(),
        })
    }
}

/// The items joined with a separating semicolon.
pub open spec fn joined(items: Seq<Seq<char>>) -> Seq<char>
    decreases items.len(),
{
    if items.len() == 0 {
        Seq::<char>::empty()
    } else if items.len() == 1 {
        items[0]
    } else {
        joined(items.drop_last()) + "; "@ + items.last()
    }
}

/// What the antivirus probe yields: nothing when the source has no rows or
/// none of them describes a product; else the descriptions joined in one
/// line.
pub open spec fn antivirus_text(rows: Seq<Record>) -> Option<Seq<char>> {
    if rows.len() == 0 {
        None
    } else {
        let items = av_items(rows);
        if items.len() == 0 {
            None
        } else {
            Some(joined(items))
        }
    }
}

/// Describes the installed antivirus products in one line.
pub fn antivirus_from_rows(rows: &Vec<Record>) -> (r: Option<String>)
    ensures
        match r {
            Some(s) => antivirus_text(rows@) == Some(s@),
            None => antivirus_text(rows@) is None,
        },
{
    if rows.len() == 0 {
        return None;
    }
    let n = rows.len();
    let mut items: Vec<String> = Vec::new();
    let mut i: usize = 0;
    proof {
        assert(items@.map_values(|s: String| s@) =~= av_items(rows@.subrange(0, 0)));
    }
    while i < n
        invariant
            i <= n,
            n == rows@.len(),
            items@.map_values(|s: String| s@) == av_items(rows@.subrange(0, i as int)),
        decreases n - i,
    {
        let ghost done_next = rows@.subrange(0, i + 1 as int);
        proof {
            assert(done_next.drop_last() =~= rows@.subrange(0, i as int));
            assert(done_next.last() == rows@[i as int]);
        }
        let row = &rows[i];
        match (row.get_string("displayName"), row.get_u32("productState")) {
            (Ok(name), Ok(state)) => {
                let enabled = (state & 0x1000) != 0;
                let up_to_date = (state & 0x0800) != 0;
                let mut item = name;
                item.append(" (Enabled: ");
                item.append(
                    if enabled {
                        "true"
                    } else {
                        "false"
                    },
                );
                item.append(", Up-to-date: ");
                item.append(
                    if up_to_date {
                        "true"
                    } else {
                        "false"
                    },
                );
                item.append(")");
                let ghost before = items@;
                items.push(item);
                proof {
                    assert(items@.map_values(|s: String| s@) =~= before.map_values(
                        |s: String| s@,
                    ).push(av_item(rows@[i as int])->0));
                    assert(items@.map_values(|s: String| s@) =~= av_items(done_next));
                }
            },
            _ => (),
        }
        i = i + 1;
    }
    proof {
        assert(rows@.subrange(0, n as int) =~= rows@);
    }
    if items.len() == 0 {
        return None;
    }
    let ghost all_items = av_items(rows@);
    let m = items.len();
    let mut out: String = items[0].clone();
    let mut j: usize = 1;
    while j < m
        invariant
            1 <= j <= m,
            m == items@.len(),
            m == all_items.len(),
            m >= 1,
            forall|k: int| 0 <= k < m ==> #[trigger] items@[k]@ == all_items[k],
            out@ == joined(all_items.subrange(0, j as int)),
        decreases m - j,
    {
        let ghost done_next = all_items.subrange(0, j + 1 as int);
        proof {
            assert(done_next.drop_last() =~= all_items.subrange(0, j as int));
            assert(done_next.last() == all_items[j as int]);
        }
        out.append("; ");
        out.append(items[j].as_str());
        j = j + 1;
    }
    proof {
        assert(all_items.subrange(0, m as int) =~= all_items);
        assert(all_items.subrange(0, 1)[0] == all_items[0]);
    }
    Some(out)
}

/// Whether any volume row reports its protection on.
pub open spec fn any_volume_protected(rows: Seq<Record>) -> bool {
    exists|i: int|
        0 <= i < rows.len() && spec_get_u32(#[trigger] rows[i], "ProtectionStatus"@) == Ok::<
            u32,
            crate::errors::ExtractError,
        >(1u32)
}

/// Decodes the volume rows: protected when any row says so.
pub fn bitlocker_from_rows(rows: &Vec<Record>) -> (r: bool)
    ensures
        r == any_volume_protected(rows@),
{
    let n = rows.len();
    let mut i: usize = 0;
    while i < n
        invariant
            i <= n,
            n == rows@.len(),
            forall|k: int|
                0 <= k < i ==> spec_get_u32(#[trigger] rows@[k], "ProtectionStatus"@) != Ok::<
                    u32,
                    crate::errors::ExtractError,
                >(1u32),
        decreases n - i,
    {
        match rows[i].get_u32("ProtectionStatus") {
            Ok(status) => {
                if status == 1 {
                    return true;
                }
            },
            Err(_) => (),
        }
        i = i + 1;
    }
    false
}

/// One raw pending update, as the updates source reported it.
pub struct RawUpdate {
    /// The title.
    pub title: String,
    /// The bare knowledge-base identifiers.
    pub kb_ids: Vec<String>,
    /// The vendor severity; empty means none was set.
    pub severity: String,
    /// Whether the payload is downloaded.
    pub is_downloaded: bool,
    /// Whether the update is mandatory.
    pub is_mandatory: bool,
    /// The category names.
    pub categories: Vec<String>,
}

/// The fields of one update, at the specification level.
pub struct UpdateFields {
    /// Title text.
    pub title: Seq<char>,
    /// Prefixed knowledge-base identifiers.
    pub kb_article_ids: Seq<Seq<char>>,
    /// Severity text, where one was set.
    pub severity: Option<Seq<char>>,
    /// Download flag.
    pub is_downloaded: bool,
    /// Mandatory flag.
    pub is_mandatory: bool,
    /// Category names.
    pub categories: Seq<Seq<char>>,
}

impl UpdateItem {
    /// The update's fields as sequences.
    pub open spec fn view_fields(self) -> UpdateFields {
        UpdateFields {
            title: self.title@,
            kb_article_ids: self.kb_article_ids@.map_values(|s: String| s@),
            severity: (match self.severity {
                Some(s) => Some(s@),
                None => None,
            }),
            is_downloaded: self.is_downloaded,
            is_mandatory: self.is_mandatory,
            categories: self.categories@.map_values(|s: String| s@),
        }
    }
}

/// The fields one raw update normalizes to: identifiers gain their prefix,
/// and an empty severity becomes an absent one.
pub open spec fn update_fields(u: RawUpdate) -> UpdateFields {
    UpdateFields {
        title: u.title@,
        kb_article_ids: u.kb_ids@.map_values(|s: String| "KB"@ + s@),
        severity: if u.severity@.len() == 0 {
            None
        } else {
            Some(u.severity@)
        },
        is_downloaded: u.is_downloaded,
        is_mandatory: u.is_mandatory,
        categories: u.categories@.map_values(|s: String| s@),
    }
}

/// Normalizes one raw update.
pub fn normalize_update(u: RawUpdate) -> (r: UpdateItem)
    ensures
        r.view_fields() == update_fields(u),
{
    let ghost raw = u;
    let mut kb_article_ids: Vec<String> = Vec::new();
    let n = u.kb_ids.len();
    let mut i: usize = 0;
    while i < n
        invariant
            i <= n,
            n == u.kb_ids@.len(),
            kb_article_ids@.len() == i,
            forall|k: int| 0 <= k < i ==> #[trigger] kb_article_ids@[k]@ == "KB"@ + u.kb_ids@[k]@,
        decreases n - i,
    {
        let mut id = String::from_str("KB");
        id.append(u.kb_ids[i].as_str());
        kb_article_ids.push(id);
        i = i + 1;
    }
    let severity: Option<String> = if u.severity.as_str().is_empty() {
        None
    } else {
        Some(u.severity)
    };
    let r = UpdateItem {
        title: u.title,
        kb_article_ids,
        severity,
        is_downloaded: u.is_downloaded,
        is_mandatory: u.is_mandatory,
        categories: u.categories,
    };
    proof {
        assert(r.kb_article_ids@.map_values(|s: String| s@) =~= raw.kb_ids@.map_values(
            |s: String| "KB"@ + s@,
        ));
        assert(r.categories@.map_values(|s: String| s@) =~= raw.categories@.map_values(
            |s: String| s@,
        ));
    }
    r
}

/// Normalizes the raw updates, in order.
pub fn normalize_updates(updates: Vec<RawUpdate>) -> (r: Vec<UpdateItem>)
    ensures
        r@.len() == updates@.len(),
        forall|i: int|
            0 <= i < updates@.len() ==> (#[trigger] r@[i]).view_fields() == update_fields(
                updates@[i],
            ),
{
    let ghost input = updates@;
    let mut remaining = updates;
    let initial_len = remaining.len();
    let ghost total = input.len();
    proof {
        assert(initial_len == total);
    }
    let mut out: Vec<UpdateItem> = Vec::new();
    let mut i: usize = 0;
    while remaining.len() > 0
        invariant
            i <= total,
            total <= usize::MAX,
            total == input.len(),
            i + remaining@.len() == total,
            remaining@ == input.subrange(i as int, total as int),
            out@.len() == i,
            forall|k: int|
                0 <= k < i ==> (#[trigger] out@[k]).view_fields() == update_fields(input[k]),
        decreases remaining@.len(),
    {
        proof {
            assert(remaining@[0] == input[i as int]);
        }
        let u = remaining.remove(0);
        proof {
            assert(remaining@ =~= input.subrange(i + 1 as int, total as int));
        }
        out.push(normalize_update(u));
        i = i + 1;
    }
    out
}

impl SecurityInfo {
    /// Assembles the category from its independently resolved parts.
    pub fn assemble(
        secure_boot: bool,
        tpm: Option<TmpInfo>,
        antivirus: Option<String>,
        firewall: Option<FirewallInfo>,
        uac: bool,
        rdp_enabled: bool,
        bit_locker: bool,
        pending_updates: Option<Vec<UpdateItem>>,
    ) -> (r: SecurityInfo)
        ensures
            r.secure_boot == secure_boot,
            r.tpm == tpm,
            r.antivirus == antivirus,
            r.firewall == firewall,
            r.uac == uac,
            r.rdp_enabled == rdp_enabled,
            r.bit_locker == bit_locker,
            r.pending_updates == pending_updates,
    {
        SecurityInfo {
            secure_boot,
            tpm,
            antivirus,
            firewall,
            uac,
            rdp_enabled,
            bit_locker,
            pending_updates,
        }
    }
}

} // verus!
