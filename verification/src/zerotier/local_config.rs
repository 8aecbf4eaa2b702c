//! ZeroTier local.conf — per-node configuration file.
//! See: https://docs.zerotier.com/config/
use crate::text::{chars_of, concat, lit, starts_with, starts_with_vec, string_of};
use crate::text_order::eq_vec;
use vstd::prelude::*;

verus! {

// ── Types ─────────────────────────────────────────────────────────────────────

/// The contents of local.conf. The `physical` and `virtual` sections are
/// JSON objects keyed by CIDR or node address; they are kept as key/value
/// pairs in file order, each key at most once (`well_formed`).
#[derive(Debug, Clone)]
pub struct LocalConf {
    pub physical: Vec<(String, PhysicalPathConfig)>,
    pub virtual_: Vec<(String, VirtualNodeConfig)>,
    pub settings: Option<LocalSettings>,
}

/// Physical path configuration: blacklist a CIDR from being used as a ZT path.
#[derive(Debug, Clone)]
pub struct PhysicalPathConfig {
    pub blacklist: Option<bool>,
    pub trust: Option<String>,
}

/// Virtual node config: always/never try to reach a specific ZT node directly.
#[derive(Debug, Clone)]
pub struct VirtualNodeConfig {
    pub try_: Option<Vec<String>>,
    pub blacklist: Option<bool>,
}

/// The `settings` section of local.conf.
#[derive(Debug, Clone)]
pub struct LocalSettings {
    /// Primary UDP port (0 = auto / OS-assigned). Default: 9993
    pub primary_port: Option<u16>,
    /// Secondary UDP port (0 = disabled)
    pub secondary_port: Option<u16>,
    /// Tertiary UDP port (0 = disabled)
    pub tertiary_port: Option<u16>,
    /// Enable UPnP/NAT-PMP port mapping (default: true)
    pub port_mapping_enabled: Option<bool>,
    /// Force all traffic through a TCP relay (impacts performance)
    pub force_tcp_relay: Option<bool>,
    /// Allow TCP fallback relay when UDP fails (default: true)
    pub allow_tcp_fallback_relay: Option<bool>,
    /// Custom TCP relay endpoint: "ip/port" (e.g. "1.2.3.4/443")
    pub tcp_fallback_relay: Option<String>,
    /// Interface name prefixes to ignore (e.g. ["docker", "virbr"])
    pub interface_prefix_blacklist: Option<Vec<String>>,
    /// CIDRs or IPs allowed to access the management API (default: ["127.0.0.1", "::1"])
    pub allow_management_from: Option<Vec<String>>,
    /// Specific IPs/interfaces to bind to (empty = bind all)
    pub bind: Option<Vec<String>>,
    /// Enable ZeroTier metrics endpoint (ZT >= 1.16.1, default: false)
    pub allow_metrics: Option<bool>,
}

/// Per-network local configuration (<network-id>.local.conf)
#[derive(Debug, Clone, Copy, PartialEq, Eq, Structural)]
pub struct NetworkLocalConf {
    /// Allow ZeroTier to manage IPv4/IPv6 routes (default: true)
    pub allow_managed: Option<bool>,
    /// Allow assignment of global IPs from ZeroTier (default: false)
    pub allow_global: Option<bool>,
    /// Allow ZeroTier to set a default route — required for full-tunnel VPN / Exit Node clients
    pub allow_default: Option<bool>,
    /// Allow ZeroTier to manage DNS (default: false)
    pub allow_dns: Option<bool>,
}

/// A warning about a questionable combination of settings.
#[derive(Debug, Clone)]
pub struct ValidationWarning {
    pub field: String,
    pub message: String,
}

impl Default for LocalSettings {
    fn default() -> (r: LocalSettings)
        ensures
            r.primary_port is None && r.secondary_port is None && r.tertiary_port is None,
            r.port_mapping_enabled is None && r.force_tcp_relay is None,
            r.allow_tcp_fallback_relay is None && r.tcp_fallback_relay is None,
            r.interface_prefix_blacklist is None && r.allow_management_from is None,
            r.bind is None && r.allow_metrics is None,
    {
        LocalSettings {
            primary_port: None,
            secondary_port: None,
            tertiary_port: None,
            port_mapping_enabled: None,
            force_tcp_relay: None,
            allow_tcp_fallback_relay: None,
            tcp_fallback_relay: None,
            interface_prefix_blacklist: None,
            allow_management_from: None,
            bind: None,
            allow_metrics: None,
        }
    }
}

impl Default for LocalConf {
    fn default() -> (r: LocalConf)
        ensures
            r.physical@.len() == 0,
            r.virtual_@.len() == 0,
            r.settings is None,
            r.well_formed(),
    {
        LocalConf { physical: Vec::new(), virtual_: Vec::new(), settings: None }
    }
}

/// No key occurs twice among the pairs.
pub open spec fn keys_distinct<V>(v: Seq<(String, V)>) -> bool {
    forall|i: int, j: int| 0 <= i < j < v.len() ==> (#[trigger] v[i]).0@ != (#[trigger] v[j]).0@
}

/// The pairs after setting `key` to `value`, as a map's insert does: the
/// pair with that key replaced in place, or a new pair at the end.
pub open spec fn inserted<V>(v: Seq<(String, V)>, key: String, value: V) -> Seq<(String, V)> {
    if exists|i: int| 0 <= i < v.len() && (#[trigger] v[i]).0@ == key@ {
        let i = choose|i: int| 0 <= i < v.len() && (#[trigger] v[i]).0@ == key@;
        v.update(i, (key, value))
    } else {
        v.push((key, value))
    }
}

fn insert_pair<V>(v: &mut Vec<(String, V)>, key: String, value: V)
    requires
        keys_distinct(old(v)@),
    ensures
        keys_distinct(final(v)@),
        final(v)@ == inserted(old(v)@, key, value),
{
    let mut i: usize = 0;
    while i < v.len()
        invariant
            i <= v.len(),
            v@ == old(v)@,
            keys_distinct(old(v)@),
            forall|j: int| 0 <= j < i ==> (#[trigger] v@[j]).0@ != key@,
        decreases v.len() - i,
    {
        if crate::text::str_eq(v[i].0.as_str(), key.as_str()) {
            proof {
                let c = choose|c: int| 0 <= c < v@.len() && (#[trigger] v@[c]).0@ == key@;
                assert(c == i as int) by {
                    if c != i as int {
                        assert(v@[c].0@ != v@[i as int].0@);
                    }
                }
            }
            v.set(i, (key, value));
            assert forall|a: int, b: int| 0 <= a < b < v@.len() implies (#[trigger] v@[a]).0@ != (#[trigger] v@[b]).0@ by {
                assert(old(v)@[a].0@ != old(v)@[b].0@);
            }
            return;
        }
        i += 1;
    }
    v.push((key, value));
    assert forall|a: int, b: int| 0 <= a < b < v@.len() implies (#[trigger] v@[a]).0@ != (#[trigger] v@[b]).0@ by {
        if b < old(v)@.len() {
            assert(old(v)@[a].0@ != old(v)@[b].0@);
        } else {
            assert(v@[b].0@ == key@);
            assert(old(v)@[a].0@ != key@);
        }
    }
}

impl LocalConf {
    /// Each section holds every key at most once, as the JSON objects do.
    pub open spec fn well_formed(&self) -> bool {
        keys_distinct(self.physical@) && keys_distinct(self.virtual_@)
    }

    /// Sets the physical-path settings of a CIDR (replacing those it had).
    pub fn set_physical(&mut self, cidr: String, cfg: PhysicalPathConfig)
        requires
            old(self).well_formed(),
        ensures
            final(self).well_formed(),
            final(self).physical@ == inserted(old(self).physical@, cidr, cfg),
            final(self).virtual_ == old(self).virtual_,
            final(self).settings == old(self).settings,
    {
        insert_pair(&mut self.physical, cidr, cfg);
    }

    /// Sets the settings for a node address (replacing those it had).
    pub fn set_virtual(&mut self, node: String, cfg: VirtualNodeConfig)
        requires
            old(self).well_formed(),
        ensures
            final(self).well_formed(),
            final(self).virtual_@ == inserted(old(self).virtual_@, node, cfg),
            final(self).physical == old(self).physical,
            final(self).settings == old(self).settings,
    {
        insert_pair(&mut self.virtual_, node, cfg);
    }
}

impl Default for NetworkLocalConf {
    fn default() -> (r: NetworkLocalConf)
        ensures
            r.allow_managed is None && r.allow_global is None,
            r.allow_default is None && r.allow_dns is None,
    {
        NetworkLocalConf { allow_managed: None, allow_global: None, allow_default: None, allow_dns: None }
    }
}

// ── Paths ─────────────────────────────────────────────────────────────────────

/// The ZeroTier home directory on the operating system `os`
/// (as `std::env::consts::OS` names it).
pub open spec fn zerotier_home_spec(os: Seq<char>) -> Seq<char> {
    if os == "macos"@ {
        "/Library/Application Support/ZeroTier/One"@
    } else if os == "windows"@ {
        "C:\\ProgramData\\ZeroTier\\One"@
    } else {
        "/var/lib/zerotier-one"@
    }
}

/// The path separator on `os`.
pub open spec fn separator(os: Seq<char>) -> Seq<char> {
    if os == "windows"@ {
        "\\"@
    } else {
        "/"@
    }
}

/// Returns the platform-specific ZeroTier home directory.
pub fn zerotier_home(os: &str) -> (r: String)
    ensures
        r@ == zerotier_home_spec(os@),
{
    let o = chars_of(os);
    if eq_vec(&o, &lit("macos")) {
        crate::text::owned("/Library/Application Support/ZeroTier/One")
    } else if eq_vec(&o, &lit("windows")) {
        crate::text::owned("C:\\ProgramData\\ZeroTier\\One")
    } else {
        crate::text::owned("/var/lib/zerotier-one")
    }
}

fn home_join(os: &str, file: &Vec<char>) -> (r: String)
    ensures
        r@ == zerotier_home_spec(os@) + separator(os@) + file@,
{
    let home = chars_of(zerotier_home(os).as_str());
    let sep = if eq_vec(&chars_of(os), &lit("windows")) {
        lit("\\")
    } else {
        lit("/")
    };
    string_of(&concat(&concat(&home, &sep), file))
}

/// Path of local.conf.
pub fn local_conf_path(os: &str) -> (r: String)
    ensures
        r@ == zerotier_home_spec(os@) + separator(os@) + "local.conf"@,
{
    home_join(os, &lit("local.conf"))
}

/// Path of `<network-id>.local.conf`.
pub fn network_local_conf_path(os: &str, network_id: &str) -> (r: String)
    ensures
        r@ == zerotier_home_spec(os@) + separator(os@) + network_id@ + ".local.conf"@,
{
    let name = concat(&chars_of(network_id), &lit(".local.conf"));
    home_join(os, &name)
}

// ── Conflict validation ───────────────────────────────────────────────────────

pub open spec fn force_relay_msg() -> Seq<char> {
    "forceTcpRelay=true makes portMappingEnabled irrelevant; consider disabling portMapping to reduce noise"@
}

pub open spec fn same_ports_msg() -> Seq<char> {
    "primaryPort and secondaryPort must differ"@
}

pub open spec fn zt_blacklist_msg() -> Seq<char> {
    "Blacklisting 'zt*' prefixes will prevent ZeroTier from using its own interfaces"@
}

pub open spec fn public_management_msg() -> Seq<char> {
    "Management API is accessible from non-loopback addresses — ensure network-level access control"@
}

/// An address from which management access is not loopback-only.
pub open spec fn is_non_loopback(a: Seq<char>) -> bool {
    !starts_with(a, "127."@) && !starts_with(a, "::1"@) && a != "localhost"@
}

pub open spec fn string_views(v: Seq<String>) -> Seq<Seq<char>> {
    v.map_values(|s: String| s@)
}

/// The warnings for `s`, in the order they are reported.
pub open spec fn settings_warnings(s: LocalSettings) -> Seq<(Seq<char>, Seq<char>)> {
    let w1: Seq<(Seq<char>, Seq<char>)> = if s.force_tcp_relay == Some(true)
        && s.port_mapping_enabled == Some(true) {
        seq![("forceTcpRelay"@, force_relay_msg())]
    } else {
        seq![]
    };
    let w2: Seq<(Seq<char>, Seq<char>)> = match (s.primary_port, s.secondary_port) {
        (Some(p), Some(q)) => if p != 0 && q != 0 && p == q {
            seq![("secondaryPort"@, same_ports_msg())]
        } else {
            seq![]
        },
        _ => seq![],
    };
    let w3: Seq<(Seq<char>, Seq<char>)> = match s.interface_prefix_blacklist {
        Some(b) => if exists|i: int|
            0 <= i < b@.len() && starts_with(#[trigger] b@[i]@, "zt"@) {
            seq![("interfacePrefixBlacklist"@, zt_blacklist_msg())]
        } else {
            seq![]
        },
        None => seq![],
    };
    let w4: Seq<(Seq<char>, Seq<char>)> = match s.allow_management_from {
        Some(a) => if exists|i: int| 0 <= i < a@.len() && is_non_loopback(#[trigger] a@[i]@) {
            seq![("allowManagementFrom"@, public_management_msg())]
        } else {
            seq![]
        },
        None => seq![],
    };
    w1 + w2 + w3 + w4
}

/// The blacklist warning is reported exactly when some entry of
/// `interfacePrefixBlacklist`, at any position, starts with `zt`.
pub proof fn lemma_blacklist_warning(s: LocalSettings)
    ensures
        (exists|i: int|
            0 <= i < settings_warnings(s).len() && (#[trigger] settings_warnings(s)[i]).0
                == "interfacePrefixBlacklist"@) <==> (s.interface_prefix_blacklist matches Some(b) && exists|j: int|
            0 <= j < b@.len() && starts_with(#[trigger] b@[j]@, "zt"@)),
{
    reveal_strlit("interfacePrefixBlacklist");
    reveal_strlit("forceTcpRelay");
    reveal_strlit("secondaryPort");
    reveal_strlit("allowManagementFrom");
    let w = settings_warnings(s);
    let hit = s.interface_prefix_blacklist matches Some(b) && exists|j: int|
        0 <= j < b@.len() && starts_with(#[trigger] b@[j]@, "zt"@);
    assert forall|i: int| 0 <= i < w.len() && (#[trigger] w[i]).0 == "interfacePrefixBlacklist"@ implies hit by {
        if !hit {
            assert(w[i].0 == "forceTcpRelay"@ || w[i].0 == "secondaryPort"@ || w[i].0 == "allowManagementFrom"@);
        }
    }
    if hit {
        let w1: Seq<(Seq<char>, Seq<char>)> = if s.force_tcp_relay == Some(true) && s.port_mapping_enabled == Some(true) {
            seq![("forceTcpRelay"@, force_relay_msg())]
        } else {
            seq![]
        };
        let w2: Seq<(Seq<char>, Seq<char>)> = match (s.primary_port, s.secondary_port) {
            (Some(p), Some(q)) => if p != 0 && q != 0 && p == q {
                seq![("secondaryPort"@, same_ports_msg())]
            } else {
                seq![]
            },
            _ => seq![],
        };
        let k = (w1.len() + w2.len()) as int;
        assert(w[k].0 == "interfacePrefixBlacklist"@);
    }
}

pub open spec fn warning_views(v: Seq<ValidationWarning>) -> Seq<(Seq<char>, Seq<char>)> {
    v.map_values(|w: ValidationWarning| (w.field@, w.message@))
}

fn any_starts_with(v: &Vec<String>, p: &str) -> (r: bool)
    ensures
        r == exists|i: int| 0 <= i < v@.len() && starts_with(#[trigger] v@[i]@, p@),
{
    let pv = lit(p);
    let mut i: usize = 0;
    while i < v.len()
        invariant
            i <= v.len(),
            pv@ == p@,
            forall|j: int| 0 <= j < i ==> !starts_with(#[trigger] v@[j]@, p@),
        decreases v.len() - i,
    {
        if starts_with_vec(&chars_of(v[i].as_str()), &pv) {
            return true;
        }
        i += 1;
    }
    false
}

fn any_non_loopback(v: &Vec<String>) -> (r: bool)
    ensures
        r == exists|i: int| 0 <= i < v@.len() && is_non_loopback(#[trigger] v@[i]@),
{
    let mut i: usize = 0;
    while i < v.len()
        invariant
            i <= v.len(),
            forall|j: int| 0 <= j < i ==> !is_non_loopback(#[trigger] v@[j]@),
        decreases v.len() - i,
    {
        let a = chars_of(v[i].as_str());
        if !starts_with_vec(&a, &lit("127.")) && !starts_with_vec(&a, &lit("::1")) && !eq_vec(
            &a,
            &lit("localhost"),
        ) {
            return true;
        }
        i += 1;
    }
    false
}

fn warning(field: &str, message: &str) -> (w: ValidationWarning)
    ensures
        w.field@ == field@,
        w.message@ == message@,
{
    ValidationWarning { field: crate::text::owned(field), message: crate::text::owned(message) }
}

/// Validate LocalSettings for known bad combinations.
pub fn validate_settings(s: &LocalSettings) -> (r: Vec<ValidationWarning>)
    ensures
        warning_views(r@) == settings_warnings(*s),
{
    let mut warnings: Vec<ValidationWarning> = Vec::new();
    let ghost mut expect: Seq<(Seq<char>, Seq<char>)> = seq![];

    if s.force_tcp_relay == Some(true) && s.port_mapping_enabled == Some(true) {
        warnings.push(
            warning(
                "forceTcpRelay",
                "forceTcpRelay=true makes portMappingEnabled irrelevant; consider disabling portMapping to reduce noise",
            ),
        );
    }
    if let (Some(p), Some(q)) = (s.primary_port, s.secondary_port) {
        if p != 0 && q != 0 && p == q {
            warnings.push(warning("secondaryPort", "primaryPort and secondaryPort must differ"));
        }
    }
    let w12 = warnings.len();
    if let Some(b) = &s.interface_prefix_blacklist {
        if any_starts_with(b, "zt") {
            warnings.push(
                warning(
                    "interfacePrefixBlacklist",
                    "Blacklisting 'zt*' prefixes will prevent ZeroTier from using its own interfaces",
                ),
            );
        }
    }
    let w123 = warnings.len();
    if let Some(a) = &s.allow_management_from {
        if any_non_loopback(a) {
            warnings.push(
                warning(
                    "allowManagementFrom",
                    "Management API is accessible from non-loopback addresses — ensure network-level access control",
                ),
            );
        }
    }
    assert(warning_views(warnings@) =~= settings_warnings(*s));
    warnings
}

/// Whether setting `allowDefault` has no effect in `conf` (it needs `allowManaged`).
pub fn default_without_managed(conf: &NetworkLocalConf) -> (r: bool)
    ensures
        r == (conf.allow_default == Some(true) && conf.allow_managed == Some(false)),
{
    conf.allow_default == Some(true) && conf.allow_managed == Some(false)
}

} // verus!
