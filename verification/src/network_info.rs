//! The network probe: joins the adapter inventory (names, link speed,
//! hardware address) with the per-adapter IP configuration, keyed by the
//! adapter index. Addresses are split into the two address families, and
//! the link speed is rendered as a human-readable rate.

use vstd::prelude::*;
use crate::text::{append_chars, contains_seq, contains_sub, dec_rep, str_chars, u64_dec_chars, chars_string};
use crate::value::{
    bool_or, get_bool_or, get_string_or_empty, get_u32_or, get_u64_or, spec_get_u32, str_field,
    str_or_empty, string_array, u32_or, u64_or, Record,
};

verus! {

/// One configured network adapter.
pub struct NetworkAdapter {
    /// The connection name, or the device name when none is set.
    pub name: String,
    /// The adapter's description.
    pub description: String,
    /// The hardware address.
    pub mac_address: String,
    /// The link speed, as a human-readable rate.
    pub speed: String,
    /// The adapter's addresses of the four-byte family.
    pub ipv4_addresses: Vec<String>,
    /// The adapter's addresses of the sixteen-byte family.
    pub ipv6_addresses: Vec<String>,
    /// The configured name servers, in search order.
    pub dns_servers: Vec<String>,
    /// Whether addresses are leased dynamically.
    pub dhcp_enabled: bool,
    /// The first configured gateway, or empty.
    pub gateway: String,
}

/// The network category.
pub struct NetworkInfo {
    /// The adapters with IP enabled, in source order.
    pub adapters: Vec<NetworkAdapter>,
}

/// The fields of one adapter, at the specification level.
pub struct AdapterFields {
    /// Name text.
    pub name: Seq<char>,
    /// Description text.
    pub description: Seq<char>,
    /// Hardware address text.
    pub mac_address: Seq<char>,
    /// Rendered speed text.
    pub speed: Seq<char>,
    /// Four-byte-family addresses.
    pub ipv4_addresses: Seq<Seq<char>>,
    /// Sixteen-byte-family addresses.
    pub ipv6_addresses: Seq<Seq<char>>,
    /// Name servers.
    pub dns_servers: Seq<Seq<char>>,
    /// Dynamic leasing flag.
    pub dhcp_enabled: bool,
    /// Gateway text.
    pub gateway: Seq<char>,
}

impl NetworkAdapter {
    /// The adapter's fields as sequences.
    pub open spec fn view_fields(self) -> AdapterFields {
        AdapterFields {
            name: self.name@,
            description: self.description@,
            mac_address: self.mac_address@,
            speed: self.speed@,
            ipv4_addresses: self.ipv4_addresses@.map_values(|s: String| s@),
            ipv6_addresses: self.ipv6_addresses@.map_values(|s: String| s@),
            dns_servers: self.dns_servers@.map_values(|s: String| s@),
            dhcp_enabled: self.dhcp_enabled,
            gateway: self.gateway@,
        }
    }
}

/// How a bit rate reads: tenths of gigabits from one gigabit up, whole
/// megabits from one megabit, whole kilobits from one kilobit, bare bits
/// below that, and "N/A" for no rate at all. Rounding is to nearest, half
/// away from zero.
pub open spec fn speed_text(bps: u64) -> Seq<char> {
    if bps >= 1000000000 {
        let tenths = (bps + 50000000) / 100000000;
        dec_rep(tenths / 10) + seq!['.'] + dec_rep(tenths % 10) + " Gbps"@
    } else if bps >= 1000000 {
        dec_rep((bps + 500000) / 1000000) + " Mbps"@
    } else if bps >= 1000 {
        dec_rep((bps + 500) / 1000) + " Kbps"@
    } else if bps > 0 {
        dec_rep(bps as int) + " bps"@
    } else {
        "N/A"@
    }
}

/// Renders a bit rate as a human-readable text.
pub fn format_speed(bps: u64) -> (r: String)
    ensures
        r@ == speed_text(bps),
{
    if bps >= 1000000000 {
        let tenths_wide: u128 = (bps as u128 + 50000000) / 100000000;
        proof {
            assert(tenths_wide <= u64::MAX as u128) by (nonlinear_arith)
                requires
                    tenths_wide == (bps as int + 50000000) / 100000000,
                    bps <= u64::MAX,
            ;
        }
        let tenths: u64 = tenths_wide as u64;
        let mut s = u64_dec_chars(tenths / 10);
        s.push('.');
        let frac = u64_dec_chars(tenths % 10);
        append_chars(&mut s, &frac);
        let unit = str_chars(" Gbps");
        append_chars(&mut s, &unit);
        proof {
            assert(s@ =~= dec_rep(tenths as int / 10) + seq!['.'] + dec_rep(tenths as int % 10) + " Gbps"@);
        }
        chars_string(&s)
    } else if bps >= 1000000 {
        let mut s = u64_dec_chars((bps + 500000) / 1000000);
        let unit = str_chars(" Mbps");
        append_chars(&mut s, &unit);
        chars_string(&s)
    } else if bps >= 1000 {
        let mut s = u64_dec_chars((bps + 500) / 1000);
        let unit = str_chars(" Kbps");
        append_chars(&mut s, &unit);
        chars_string(&s)
    } else if bps > 0 {
        let mut s = u64_dec_chars(bps);
        let unit = str_chars(" bps");
        append_chars(&mut s, &unit);
        chars_string(&s)
    } else {
        String::from_str("N/A")
    }
}

/// One joined adapter-inventory entry: index, name, link speed, hardware
/// address.
pub struct AdapterEntry {
    /// The adapter index the entry is keyed by.
    pub index: u32,
    /// The connection or device name.
    pub name: String,
    /// The link speed in bits per second.
    pub speed: u64,
    /// The hardware address.
    pub mac: String,
}

/// The name an inventory row contributes: the connection name where it is
/// set, else the device name, else empty.
pub open spec fn adapter_name(row: Record) -> Seq<char> {
    match str_field(row, "NetConnectionID"@) {
        Some(s) => s,
        None => str_or_empty(row, "Name"@),
    }
}

/// The keyed entries the inventory rows contribute: one per row whose
/// index extracts.
pub open spec fn adapter_entries(rows: Seq<Record>) -> Seq<(u32, Seq<char>, u64, Seq<char>)>
    decreases rows.len(),
{
    if rows.len() == 0 {
        Seq::<(u32, Seq<char>, u64, Seq<char>)>::empty()
    } else {
        adapter_entries(rows.drop_last()) + (match spec_get_u32(rows.last(), "Index"@) {
            Ok(idx) => seq![
                (
                    idx,
                    adapter_name(rows.last()),
                    u64_or(rows.last(), "Speed"@, 0),
                    str_or_empty(rows.last(), "MACAddress"@),
                ),
            ],
            Err(_) => Seq::<(u32, Seq<char>, u64, Seq<char>)>::empty(),
        })
    }
}

/// Last-match lookup of an adapter entry by index: an index entered twice
/// keeps the later row's entry, as in the keyed store the rows fill.
pub open spec fn adapter_assoc(t: Seq<(u32, Seq<char>, u64, Seq<char>)>, idx: u32) -> Option<
    (u32, Seq<char>, u64, Seq<char>),
>
    decreases t.len(),
{
    if t.len() == 0 {
        None
    } else if t.last().0 == idx {
        Some(t.last())
    } else {
        adapter_assoc(t.drop_last(), idx)
    }
}

/// The entry pairs an entry table stands for.
pub open spec fn entry_tuples(t: Seq<AdapterEntry>) -> Seq<(u32, Seq<char>, u64, Seq<char>)> {
    t.map_values(|e: AdapterEntry| (e.index, e.name@, e.speed, e.mac@))
}

/// Builds the keyed adapter entries from the inventory rows.
pub fn build_adapter_entries(rows: &Vec<Record>) -> (r: Vec<AdapterEntry>)
    ensures
        entry_tuples(r@) == adapter_entries(rows@),
{
    let n = rows.len();
    let mut out: Vec<AdapterEntry> = Vec::new();
    let mut i: usize = 0;
    proof {
        assert(entry_tuples(out@) =~= adapter_entries(rows@.subrange(0, 0)));
    }
    while i < n
        invariant
            i <= n,
            n == rows@.len(),
            entry_tuples(out@) == adapter_entries(rows@.subrange(0, i as int)),
        decreases n - i,
    {
        let ghost done_next = rows@.subrange(0, i + 1 as int);
        proof {
            assert(done_next.drop_last() =~= rows@.subrange(0, i as int));
            assert(done_next.last() == rows@[i as int]);
        }
        let row = &rows[i];
        match row.get_u32("Index") {
            Ok(idx) => {
                let name = match row.get_string("NetConnectionID") {
                    Ok(s) => s,
                    Err(_) => get_string_or_empty(row, "Name"),
                };
                let speed = get_u64_or(row, "Speed", 0);
                let mac = get_string_or_empty(row, "MACAddress");
                let ghost before = out@;
                out.push(AdapterEntry { index: idx, name, speed, mac });
                proof {
                    assert(entry_tuples(out@) =~= entry_tuples(before).push(
                        (
                            idx,
                            adapter_name(rows@[i as int]),
                            u64_or(rows@[i as int], "Speed"@, 0),
                            str_or_empty(rows@[i as int], "MACAddress"@),
                        ),
                    ));
                    assert(entry_tuples(out@) =~= adapter_entries(done_next));
                }
            },
            Err(_) => (),
        }
        i = i + 1;
    }
    proof {
        assert(rows@.subrange(0, n as int) =~= rows@);
    }
    out
}

/// Looks an adapter entry up by index.
fn adapter_get(t: &Vec<AdapterEntry>, idx: u32) -> (r: Option<(String, u64, String)>)
    ensures
        match r {
            Some(e) => adapter_assoc(entry_tuples(t@), idx) == Some((idx, e.0@, e.1, e.2@)),
            None => adapter_assoc(entry_tuples(t@), idx) is None,
        },
{
    let mut i: usize = t.len();
    proof {
        assert(entry_tuples(t@).subrange(0, i as int) =~= entry_tuples(t@));
    }
    while i > 0
        invariant
            i <= t@.len(),
            adapter_assoc(entry_tuples(t@), idx) == adapter_assoc(
                entry_tuples(t@).subrange(0, i as int),
                idx,
            ),
        decreases i,
    {
        let ghost pre = entry_tuples(t@).subrange(0, i as int);
        proof {
            assert(pre.last() == entry_tuples(t@)[i - 1]);
            assert(pre.drop_last() =~= entry_tuples(t@).subrange(0, i - 1 as int));
        }
        if t[i - 1].index == idx {
            return Some((t[i - 1].name.clone(), t[i - 1].speed, t[i - 1].mac.clone()));
        }
        i = i - 1;
    }
    proof {
        assert(entry_tuples(t@).subrange(0, 0).len() == 0);
    }
    None
}

/// The string items stored under `key`, or none when the key is absent.
pub open spec fn strings_or_empty(row: Record, key: Seq<char>) -> Seq<Seq<char>> {
    match row.lookup(key) {
        Some(v) => string_array(v),
        None => Seq::<Seq<char>>::empty(),
    }
}

/// The addresses without a colon: the four-byte family.
pub open spec fn ipv4_of(ips: Seq<Seq<char>>) -> Seq<Seq<char>>
    decreases ips.len(),
{
    if ips.len() == 0 {
        Seq::<Seq<char>>::empty()
    } else {
        ipv4_of(ips.drop_last()) + (if contains_seq(ips.last(), seq![':']) {
            Seq::<Seq<char>>::empty()
        } else {
            seq![ips.last()]
        })
    }
}

/// The addresses with a colon: the sixteen-byte family.
pub open spec fn ipv6_of(ips: Seq<Seq<char>>) -> Seq<Seq<char>>
    decreases ips.len(),
{
    if ips.len() == 0 {
        Seq::<Seq<char>>::empty()
    } else {
        ipv6_of(ips.drop_last()) + (if contains_seq(ips.last(), seq![':']) {
            seq![ips.last()]
        } else {
            Seq::<Seq<char>>::empty()
        })
    }
}

/// The fields one configuration row normalizes to, given the joined
/// inventory entries.
pub open spec fn config_fields(row: Record, entries: Seq<(u32, Seq<char>, u64, Seq<char>)>)
    -> AdapterFields {
    let index = u32_or(row, "Index"@, 0);
    let joined = match adapter_assoc(entries, index) {
        Some(e) => (e.1, e.2, e.3),
        None => (Seq::<char>::empty(), 0u64, Seq::<char>::empty()),
    };
    let ips = strings_or_empty(row, "IPAddress"@);
    let gateways = strings_or_empty(row, "DefaultIPGateway"@);
    AdapterFields {
        name: joined.0,
        description: str_or_empty(row, "Description"@),
        mac_address: joined.2,
        speed: speed_text(joined.1),
        ipv4_addresses: ipv4_of(ips),
        ipv6_addresses: ipv6_of(ips),
        dns_servers: strings_or_empty(row, "DNSServerSearchOrder"@),
        dhcp_enabled: bool_or(row, "DHCPEnabled"@, false),
        gateway: if gateways.len() > 0 {
            gateways[0]
        } else {
            Seq::<char>::empty()
        },
    }
}

/// Collects the string items stored under `key`.
fn get_strings(row: &Record, key: &str) -> (r: Vec<String>)
    ensures
        r@.map_values(|s: String| s@) == strings_or_empty(*row, key@),
{
    let out: Vec<String> = match row.get_value(key) {
        Some(v) => crate::value::extract_string_array(v),
        None => Vec::new(),
    };
    proof {
        assert(out@.map_values(|s: String| s@) =~= strings_or_empty(*row, key@));
    }
    out
}

impl NetworkInfo {
    /// Normalizes the configuration rows, joining each with its inventory
    /// entry by adapter index.
    pub fn build(adapter_rows: &Vec<Record>, config_rows: &Vec<Record>) -> (r: NetworkInfo)
        ensures
            r.adapters@.len() == config_rows@.len(),
            forall|i: int|
                0 <= i < config_rows@.len() ==> (#[trigger] r.adapters@[i]).view_fields()
                    == config_fields(config_rows@[i], adapter_entries(adapter_rows@)),
    {
        let entries = build_adapter_entries(adapter_rows);
        let n = config_rows.len();
        let mut adapters: Vec<NetworkAdapter> = Vec::new();
        let mut i: usize = 0;
        while i < n
            invariant
                i <= n,
                n == config_rows@.len(),
                entry_tuples(entries@) == adapter_entries(adapter_rows@),
                adapters@.len() == i,
                forall|k: int|
                    0 <= k < i ==> (#[trigger] adapters@[k]).view_fields() == config_fields(
                        config_rows@[k],
                        adapter_entries(adapter_rows@),
                    ),
            decreases n - i,
        {
            let row = &config_rows[i];
            let index = get_u32_or(row, "Index", 0);
            let (name, speed_bps, mac) = match adapter_get(&entries, index) {
                Some(e) => e,
                None => (String::new(), 0u64, String::new()),
            };
            let ips = get_strings(row, "IPAddress");
            let mut ipv4: Vec<String> = Vec::new();
            let mut ipv6: Vec<String> = Vec::new();
            let m = ips.len();
            let mut colon: Vec<char> = Vec::new();
            colon.push(':');
            let ghost ips_spec = strings_or_empty(*row, "IPAddress"@);
            let mut j: usize = 0;
            proof {
                assert(colon@ =~= seq![':']);
                assert(ipv4@.map_values(|s: String| s@) =~= ipv4_of(ips_spec.subrange(0, 0)));
                assert(ipv6@.map_values(|s: String| s@) =~= ipv6_of(ips_spec.subrange(0, 0)));
            }
            while j < m
                invariant
                    j <= m,
                    m == ips@.len(),
                    m == ips_spec.len(),
                    colon@ == seq![':'],
                    forall|k: int| 0 <= k < m ==> #[trigger] ips@[k]@ == ips_spec[k],
                    ipv4@.map_values(|s: String| s@) == ipv4_of(ips_spec.subrange(0, j as int)),
                    ipv6@.map_values(|s: String| s@) == ipv6_of(ips_spec.subrange(0, j as int)),
                decreases m - j,
            {
                let ghost done_next = ips_spec.subrange(0, j + 1 as int);
                proof {
                    assert(done_next.drop_last() =~= ips_spec.subrange(0, j as int));
                    assert(done_next.last() == ips_spec[j as int]);
                }
                let ip_chars = str_chars(ips[j].as_str());
                let ghost v4_before = ipv4@;
                let ghost v6_before = ipv6@;
                if contains_sub(&ip_chars, &colon) {
                    ipv6.push(ips[j].clone());
                    proof {
                        assert(ipv6@.map_values(|s: String| s@) =~= v6_before.map_values(
                            |s: String| s@,
                        ).push(ips_spec[j as int]));
                        assert(ipv4@.map_values(|s: String| s@) =~= ipv4_of(done_next));
                        assert(ipv6@.map_values(|s: String| s@) =~= ipv6_of(done_next));
                    }
                } else {
                    ipv4.push(ips[j].clone());
                    proof {
                        assert(ipv4@.map_values(|s: String| s@) =~= v4_before.map_values(
                            |s: String| s@,
                        ).push(ips_spec[j as int]));
                        assert(ipv4@.map_values(|s: String| s@) =~= ipv4_of(done_next));
                        assert(ipv6@.map_values(|s: String| s@) =~= ipv6_of(done_next));
                    }
                }
                j = j + 1;
            }
            proof {
                assert(ips_spec.subrange(0, m as int) =~= ips_spec);
            }
            let dns_servers = get_strings(row, "DNSServerSearchOrder");
            let gateways = get_strings(row, "DefaultIPGateway");
            let gateway: String = if gateways.len() > 0 {
                gateways[0].clone()
            } else {
                String::new()
            };
            let adapter = NetworkAdapter {
                name,
                description: get_string_or_empty(row, "Description"),
                mac_address: mac,
                speed: format_speed(speed_bps),
                ipv4_addresses: ipv4,
                ipv6_addresses: ipv6,
                dns_servers,
                dhcp_enabled: get_bool_or(row, "DHCPEnabled", false),
                gateway,
            };
            adapters.push(adapter);
            i = i + 1;
        }
        NetworkInfo { adapters }
    }
}

} // verus!
