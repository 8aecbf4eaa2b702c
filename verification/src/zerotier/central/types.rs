//! Records of the ZeroTier Central API that the service reads and shapes.
use crate::config::schema::RateLimit;
use vstd::prelude::*;

verus! {

/// A managed route of a Central network.
#[derive(Debug, Clone)]
pub struct CentralRoute {
    pub target: String,
    pub via: Option<String>,
}

/// An IP assignment pool of a Central network.
#[derive(Debug, Clone)]
pub struct CentralIpRange {
    pub start: String,
    pub end: String,
}

/// The DNS settings of a Central network; Central returns `{}` when unset.
#[derive(Debug, Clone)]
pub struct CentralDns {
    pub domain: String,
    pub servers: Vec<String>,
}

impl Default for CentralDns {
    fn default() -> (r: Self)
        ensures
            r.domain@.len() == 0,
            r.servers@.len() == 0,
    {
        CentralDns { domain: String::new(), servers: Vec::new() }
    }
}

/// A member of a Central network. The mutable fields are nested under
/// `config` in the legacy Central API.
#[derive(Debug, Clone)]
pub struct CentralMember {
    /// Member node address (10-hex-char ZeroTier address)
    pub node_id: String,
    pub name: Option<String>,
    pub description: Option<String>,
    pub network_id: Option<String>,
    pub last_online: Option<i64>,
    pub physical_address: Option<String>,
    pub client_version: Option<String>,
    pub protocol_version: Option<i32>,
    pub supports_rules_engine: Option<bool>,
    pub identity: Option<String>,
    pub config: CentralMemberConfig,
}

/// The fields nested under `member.config`.
#[derive(Debug, Clone)]
pub struct CentralMemberConfig {
    pub authorized: bool,
    pub active_bridge: bool,
    pub no_auto_assign_ips: bool,
    pub ip_assignments: Vec<String>,
    pub capabilities: Vec<i64>,
    pub tags: Vec<Vec<i64>>,
    pub sso_exempt: bool,
    /// ZT node address repeated inside config
    pub id: String,
    pub nwid: String,
}

impl CentralMember {
    pub fn authorized(&self) -> (r: bool)
        ensures
            r == self.config.authorized,
    {
        self.config.authorized
    }

    pub fn ip_assignments(&self) -> (r: &Vec<String>)
        ensures
            r == &self.config.ip_assignments,
    {
        &self.config.ip_assignments
    }

    pub fn active_bridge(&self) -> (r: bool)
        ensures
            r == self.config.active_bridge,
    {
        self.config.active_bridge
    }

    pub fn no_auto_assign_ips(&self) -> (r: bool)
        ensures
            r == self.config.no_auto_assign_ips,
    {
        self.config.no_auto_assign_ips
    }

    pub fn sso_exempt(&self) -> (r: bool)
        ensures
            r == self.config.sso_exempt,
    {
        self.config.sso_exempt
    }
}

/// A member as the frontend sees it: the top-level fields and those of
/// `config` in one flat record.
#[derive(Debug, Clone)]
pub struct CentralMemberView {
    pub node_id: String,
    pub name: Option<String>,
    pub network_id: Option<String>,
    pub last_online: Option<i64>,
    pub physical_address: Option<String>,
    pub client_version: Option<String>,
    pub authorized: bool,
    pub active_bridge: bool,
    pub no_auto_assign_ips: bool,
    pub ip_assignments: Vec<String>,
    pub sso_exempt: bool,
    pub capabilities: Vec<i64>,
    pub tags: Vec<Vec<i64>>,
}

impl From<CentralMember> for CentralMemberView {
    fn from(m: CentralMember) -> (r: Self) {
        CentralMemberView {
            node_id: m.node_id,
            name: m.name,
            network_id: m.network_id,
            last_online: m.last_online,
            physical_address: m.physical_address,
            client_version: m.client_version,
            authorized: m.config.authorized,
            active_bridge: m.config.active_bridge,
            no_auto_assign_ips: m.config.no_auto_assign_ips,
            ip_assignments: m.config.ip_assignments,
            sso_exempt: m.config.sso_exempt,
            capabilities: m.config.capabilities,
            tags: m.config.tags,
        }
    }
}

impl vstd::std_specs::convert::FromSpecImpl<CentralMember> for CentralMemberView {
    open spec fn obeys_from_spec() -> bool {
        true
    }

    open spec fn from_spec(m: CentralMember) -> Self {
        CentralMemberView {
            node_id: m.node_id,
            name: m.name,
            network_id: m.network_id,
            last_online: m.last_online,
            physical_address: m.physical_address,
            client_version: m.client_version,
            authorized: m.config.authorized,
            active_bridge: m.config.active_bridge,
            no_auto_assign_ips: m.config.no_auto_assign_ips,
            ip_assignments: m.config.ip_assignments,
            sso_exempt: m.config.sso_exempt,
            capabilities: m.config.capabilities,
            tags: m.config.tags,
        }
    }
}

/// A member update in the legacy Central API: fields wrapped in `config`.
#[derive(Debug, Clone)]
pub struct CentralMemberUpdate {
    pub config: CentralMemberUpdateConfig,
}

/// The fields of a member update; `None` leaves a field as it is.
#[derive(Debug, Clone)]
pub struct CentralMemberUpdateConfig {
    pub authorized: Option<bool>,
    pub active_bridge: Option<bool>,
    pub no_auto_assign_ips: Option<bool>,
    pub ip_assignments: Option<Vec<String>>,
    pub capabilities: Option<Vec<i64>>,
    pub tags: Option<Vec<Vec<i64>>>,
    pub sso_exempt: Option<bool>,
    pub name: Option<String>,
    pub description: Option<String>,
}

/// The plan fields of a Central account's `subscriptions` object.
#[derive(Debug, Clone)]
pub struct AccountPlan {
    /// `subscriptions.zerotier.planId` when it is a string.
    pub plan_id: Option<String>,
    /// `subscriptions.plan` when it is a string (older API versions).
    pub plan: Option<String>,
}

/// Whether a plan name is one of the paid plans.
pub open spec fn is_paid_plan(name: Seq<char>) -> bool {
    name == "paid"@ || name == "business"@ || name == "enterprise"@ || name == "pro"@
}

/// The rate limit of a plan name: `Paid` for the paid plans, else `Free`.
pub open spec fn plan_rate_limit(name: Seq<char>) -> RateLimit {
    if is_paid_plan(name) {
        RateLimit::Paid
    } else {
        RateLimit::Free
    }
}

fn plan_limit(name: &String) -> (r: RateLimit)
    ensures
        r == plan_rate_limit(name@),
{
    let paid = "paid".to_owned();
    let business = "business".to_owned();
    let enterprise = "enterprise".to_owned();
    let pro = "pro".to_owned();
    if *name == paid || *name == business || *name == enterprise || *name == pro {
        RateLimit::Paid
    } else {
        RateLimit::Free
    }
}

impl AccountPlan {
    /// The account's rate limit: from `planId`, else from `plan`, else `Free`.
    pub fn rate_limit(&self) -> (r: RateLimit)
        ensures
            r == match self.plan_id {
                Some(p) => plan_rate_limit(p@),
                None => match self.plan {
                    Some(p) => plan_rate_limit(p@),
                    None => RateLimit::Free,
                },
            },
    {
        match &self.plan_id {
            Some(p) => plan_limit(p),
            None => match &self.plan {
                Some(p) => plan_limit(p),
                None => RateLimit::Free,
            },
        }
    }
}

} // verus!
