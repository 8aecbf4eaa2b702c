//! The service's configuration file (`config.yml`) as data.
use crate::text::lit;
use vstd::prelude::*;

verus! {

/// The whole configuration.
#[derive(Debug, Clone)]
pub struct Config {
    pub server: ServerConfig,
    pub zerotier: ZeroTierConfig,
    pub metrics: MetricsConfig,
    pub exitnode: ExitNodeConfig,
}

/// Where the HTTP API listens.
#[derive(Debug, Clone)]
pub struct ServerConfig {
    pub host: String,
    pub port: u16,
}

#[derive(Debug, Clone)]
pub struct ZeroTierConfig {
    pub local: LocalConfig,
    pub central: CentralConfig,
}

/// How to reach the local ZeroTier service.
#[derive(Debug, Clone)]
pub struct LocalConfig {
    pub api_url: String,
    /// Path of the `authtoken.secret` file.
    pub token_file: String,
}

/// How to reach ZeroTier Central, and the tokens for it.
#[derive(Debug, Clone)]
pub struct CentralConfig {
    pub base_url: String,
    pub tokens: Vec<CentralToken>,
    pub active_token_id: String,
}

/// An API token for ZeroTier Central.
#[derive(Debug, Clone)]
pub struct CentralToken {
    pub id: String,
    pub name: String,
    /// Raw token — stored in the config file only; the API shows it masked.
    pub token: String,
    pub rate_limit: RateLimit,
    /// When the token was added (RFC 3339).
    pub created_at: String,
}

/// The request rate that a Central account allows.
#[derive(Debug, Clone, Copy, PartialEq, Eq, Structural)]
pub enum RateLimit {
    /// 20 req/s
    Free,
    /// 100 req/s
    Paid,
}

impl RateLimit {
    /// Requests per second: 20 for free accounts, 100 for paid ones.
    pub open spec fn capacity_spec(self) -> nat {
        match self {
            RateLimit::Free => 20,
            RateLimit::Paid => 100,
        }
    }

    /// Requests per second: 20 for free accounts, 100 for paid ones.
    pub fn capacity(&self) -> (r: usize)
        ensures
            r == self.capacity_spec(),
    {
        match self {
            RateLimit::Free => 20,
            RateLimit::Paid => 100,
        }
    }
}

/// The metrics poller.
#[derive(Debug, Clone)]
pub struct MetricsConfig {
    pub enabled: bool,
    /// ZeroTier metrics endpoint — e.g. `http://127.0.0.1:9993/metrics`
    pub prometheus_url: String,
    pub poll_interval_seconds: u64,
    /// Path to `metricstoken.secret` for Bearer auth on the metrics endpoint;
    /// empty to skip auth.
    pub metricstoken_file: String,
}

/// The exit node.
#[derive(Debug, Clone, Copy, PartialEq, Eq, Structural)]
pub struct ExitNodeConfig {
    pub nftables_preferred: bool,
}

// ── Defaults ─────────────────────────────────────────────────────────────────

impl Default for ServerConfig {
    fn default() -> (r: Self)
        ensures
            r.host@ == "127.0.0.1"@,
            r.port == 3000,
    {
        ServerConfig { host: "127.0.0.1".to_owned(), port: 3000 }
    }
}

impl Default for LocalConfig {
    fn default() -> (r: Self)
        ensures
            r.api_url@ == "http://127.0.0.1:9993"@,
            r.token_file@ == "/var/lib/zerotier-one/authtoken.secret"@,
    {
        LocalConfig {
            api_url: "http://127.0.0.1:9993".to_owned(),
            token_file: "/var/lib/zerotier-one/authtoken.secret".to_owned(),
        }
    }
}

impl Default for CentralConfig {
    fn default() -> (r: Self)
        ensures
            r.base_url@ == "https://api.zerotier.com/api/v1"@,
            r.tokens@.len() == 0,
            r.active_token_id@.len() == 0,
    {
        CentralConfig {
            base_url: "https://api.zerotier.com/api/v1".to_owned(),
            tokens: Vec::new(),
            active_token_id: String::new(),
        }
    }
}

impl Default for ZeroTierConfig {
    fn default() -> (r: Self)
        ensures
            r.local.api_url@ == "http://127.0.0.1:9993"@,
            r.local.token_file@ == "/var/lib/zerotier-one/authtoken.secret"@,
            r.central.base_url@ == "https://api.zerotier.com/api/v1"@,
            r.central.tokens@.len() == 0,
            r.central.active_token_id@.len() == 0,
    {
        ZeroTierConfig { local: LocalConfig::default(), central: CentralConfig::default() }
    }
}

impl Default for MetricsConfig {
    fn default() -> (r: Self)
        ensures
            r.enabled,
            r.prometheus_url@ == "http://127.0.0.1:9993/metrics"@,
            r.poll_interval_seconds == 15,
            r.metricstoken_file@ == "/var/lib/zerotier-one/metricstoken.secret"@,
    {
        MetricsConfig {
            enabled: true,
            prometheus_url: "http://127.0.0.1:9993/metrics".to_owned(),
            poll_interval_seconds: 15,
            metricstoken_file: "/var/lib/zerotier-one/metricstoken.secret".to_owned(),
        }
    }
}

impl Default for ExitNodeConfig {
    fn default() -> (r: Self)
        ensures
            r.nftables_preferred,
    {
        ExitNodeConfig { nftables_preferred: true }
    }
}

impl Default for Config {
    fn default() -> (r: Self)
        ensures
            r.server.host@ == "127.0.0.1"@,
            r.server.port == 3000,
            r.zerotier.local.api_url@ == "http://127.0.0.1:9993"@,
            r.zerotier.local.token_file@ == "/var/lib/zerotier-one/authtoken.secret"@,
            r.zerotier.central.base_url@ == "https://api.zerotier.com/api/v1"@,
            r.zerotier.central.tokens@.len() == 0,
            r.zerotier.central.active_token_id@.len() == 0,
            r.metrics.enabled,
            r.metrics.prometheus_url@ == "http://127.0.0.1:9993/metrics"@,
            r.metrics.poll_interval_seconds == 15,
            r.metrics.metricstoken_file@ == "/var/lib/zerotier-one/metricstoken.secret"@,
            r.exitnode.nftables_preferred,
    {
        Config {
            server: ServerConfig::default(),
            zerotier: ZeroTierConfig::default(),
            metrics: MetricsConfig::default(),
            exitnode: ExitNodeConfig::default(),
        }
    }
}

// ── Tokens ───────────────────────────────────────────────────────────────────

/// The number of bytes of `c` in UTF-8.
pub open spec fn utf8_len(c: char) -> nat {
    let u = c as u32;
    if u < 0x80 {
        1
    } else if u < 0x800 {
        2
    } else if u < 0x10000 {
        3
    } else {
        4
    }
}

/// The number of bytes of `s` in UTF-8.
pub open spec fn byte_len(s: Seq<char>) -> nat
    decreases s.len(),
{
    if s.len() == 0 {
        0
    } else {
        byte_len(s.drop_last()) + utf8_len(s.last())
    }
}

/// The number of bytes that the masked form of a token shows.
pub open spec fn shown_bytes(token: Seq<char>) -> nat {
    if byte_len(token) < 4 {
        byte_len(token)
    } else {
        4
    }
}

/// The first `k` characters of `token` are exactly its first
/// `shown_bytes(token)` bytes.
pub open spec fn shown_chars(token: Seq<char>, k: int) -> bool {
    0 <= k <= token.len() && byte_len(token.take(k)) == shown_bytes(token)
}

pub proof fn lemma_byte_len_grows(s: Seq<char>, i: int, j: int)
    requires
        0 <= i <= j <= s.len(),
    ensures
        byte_len(s.take(i)) <= byte_len(s.take(j)),
        i < j ==> byte_len(s.take(i)) < byte_len(s.take(j)),
    decreases j - i,
{
    if i < j {
        lemma_byte_len_grows(s, i, j - 1);
        assert(s.take(j).drop_last() =~= s.take(j - 1));
    }
}

/// A lower-case hexadecimal digit.
pub open spec fn is_lower_hex(c: char) -> bool {
    ('0' <= c && c <= '9') || ('a' <= c && c <= 'f')
}

/// The hyphenated lower-case text of a version-4 UUID: 8-4-4-4-12 hex digits,
/// the version digit `4`, and a variant digit of `8`, `9`, `a` or `b`.
pub open spec fn is_v4_uuid_text(s: Seq<char>) -> bool {
    &&& s.len() == 36
    &&& forall|i: int|
        0 <= i < 36 ==> if i == 8 || i == 13 || i == 18 || i == 23 {
            #[trigger] s[i] == '-'
        } else {
            is_lower_hex(s[i])
        }
    &&& s[14] == '4'
    &&& (s[19] == '8' || s[19] == '9' || s[19] == 'a' || s[19] == 'b')
}

/// A fresh random identifier: `uuid::Uuid::new_v4()` in its `Display` form,
/// which is the hyphenated lower-case text; `new_v4` fixes the version
/// digit to 4 and the variant digit to one of 8, 9, a, b.
#[verifier::external_body]
fn new_token_id() -> (r: String)
    ensures
        is_v4_uuid_text(r@),
{
    uuid::Uuid::new_v4().to_string()
}

/// The current time (`chrono::Utc::now()`) as RFC 3339 text, in the form
/// chrono's serde support writes. Nothing is stated about the value.
#[verifier::external_body]
fn now_rfc3339() -> (r: String) {
    chrono::Utc::now().to_rfc3339_opts(chrono::SecondsFormat::AutoSi, true)
}

/// The number of characters that make up the first `shown_bytes` bytes of
/// `t`, and whether such a prefix exists (the cut falls between characters).
fn shown_prefix(t: &Vec<char>) -> (r: (usize, bool))
    ensures
        r.1 == exists|k: int| shown_chars(t@, k),
        r.1 ==> shown_chars(t@, r.0 as int),
        r.0 <= t.len(),
{
    let ghost want = shown_bytes(t@);
    let mut k: usize = 0;
    let mut used: u64 = 0;
    let mut done = false;
    // Take characters while the bytes taken stay within the first four.
    while k < t.len() && !done
        invariant
            k <= t.len(),
            want == shown_bytes(t@),
            used == byte_len(t@.take(k as int)),
            used <= want,
            done ==> k < t.len() && byte_len(t@.take(k + 1)) > 4,
        decreases t.len() - k + (if done { 0int } else { 1int }),
    {
        let c = t[k];
        let u = c as u32;
        let w: u64 = if u < 0x80 {
            1
        } else if u < 0x800 {
            2
        } else if u < 0x10000 {
            3
        } else {
            4
        };
        assert(w == utf8_len(c));
        assert(t@.take(k + 1).drop_last() =~= t@.take(k as int));
        assert(byte_len(t@.take(k + 1)) == used + w);
        if used + w > 4 {
            done = true;
        } else {
            proof {
                lemma_byte_len_grows(t@, k + 1, t.len() as int);
                assert(t@.take(t.len() as int) =~= t@);
            }
            used = used + w;
            k += 1;
        }
    }
    let ok = !done || used == 4;
    proof {
        if !done {
            assert(t@.take(k as int) =~= t@);
        } else {
            lemma_byte_len_grows(t@, k + 1, t.len() as int);
            assert(t@.take(t.len() as int) =~= t@);
        }
        if ok {
            assert(shown_chars(t@, k as int));
        } else {
            assert forall|kk: int| !shown_chars(t@, kk) by {
                if 0 <= kk <= t.len() {
                    if kk <= k {
                        lemma_byte_len_grows(t@, kk, k as int);
                    } else {
                        lemma_byte_len_grows(t@, k + 1, kk);
                    }
                }
            }
        }
    }
    (k, ok)
}

impl CentralToken {
    /// A new token record with a fresh identifier, created now.
    pub fn new(name: String, token: String, rate_limit: RateLimit) -> (r: Self)
        ensures
            r.name == name,
            r.token == token,
            r.rate_limit == rate_limit,
            is_v4_uuid_text(r.id@),
    {
        CentralToken { id: new_token_id(), name, token, rate_limit, created_at: now_rfc3339() }
    }

    /// A field-by-field copy.
    pub fn duplicate(&self) -> (r: Self)
        ensures
            r == *self,
    {
        CentralToken {
            id: self.id.clone(),
            name: self.name.clone(),
            token: self.token.clone(),
            rate_limit: self.rate_limit,
            created_at: self.created_at.clone(),
        }
    }

    /// Whether the cut after the first four bytes falls between characters,
    /// as `masked_token` needs.
    pub fn can_mask(&self) -> (r: bool)
        ensures
            r == exists|k: int| shown_chars(self.token@, k),
    {
        let t = crate::text::chars_of(self.token.as_str());
        let (_, ok) = shown_prefix(&t);
        ok
    }

    /// The token with all but its first four bytes hidden: those bytes, then
    /// `***`. The cut must fall between characters.
    pub fn masked_token(&self) -> (r: String)
        requires
            exists|k: int| shown_chars(self.token@, k),
        ensures
            exists|k: int| shown_chars(self.token@, k) && r@ == self.token@.take(k) + "***"@,
    {
        let t = crate::text::chars_of(self.token.as_str());
        let (k, _) = shown_prefix(&t);
        let mut b = crate::text::slice(&t, 0, k);
        crate::text::push_str(&mut b, "***");
        assert(t@.subrange(0, k as int) =~= t@.take(k as int));
        crate::text::string_of(&b)
    }
}

/// The masked form of a token shows at most its first four bytes.
pub proof fn lemma_mask_shows_at_most_four_bytes(token: Seq<char>, k: int)
    requires
        shown_chars(token, k),
    ensures
        byte_len(token.take(k)) <= 4,
        byte_len(token) > 4 ==> k < token.len(),
{
    if byte_len(token) > 4 && k == token.len() {
        assert(token.take(k) =~= token);
    }
}

} // verus!
