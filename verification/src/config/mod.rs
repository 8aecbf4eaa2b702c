//! Configuration: the file's schema, its checks and environment overrides.
pub mod env;
pub mod schema;

use crate::text::{join_path, join_spec, owned};
use schema::Config;
use vstd::prelude::*;

verus! {

/// Why the configuration could not be loaded or saved.
#[derive(Debug, Clone)]
pub enum ConfigError {
    Io(String),
    Yaml(String),
    Validation(String),
}

impl ConfigError {
    pub open spec fn message_spec(&self) -> Seq<char> {
        match self {
            ConfigError::Io(m) => "IO error: "@ + m@,
            ConfigError::Yaml(m) => "YAML parse error: "@ + m@,
            ConfigError::Validation(m) => "Validation error: "@ + m@,
        }
    }

    /// The human-readable description of the error (what `Display` shows).
    pub fn message(&self) -> (r: String)
        ensures
            r@ == self.message_spec(),
    {
        let (p, m) = match self {
            ConfigError::Io(m) => ("IO error: ", m),
            ConfigError::Yaml(m) => ("YAML parse error: ", m),
            ConfigError::Validation(m) => ("Validation error: ", m),
        };
        let mut b = crate::text::lit(p);
        crate::text::push_str(&mut b, m.as_str());
        crate::text::string_of(&b)
    }
}

impl Config {
    /// The checks a loaded file must pass: a nonzero port and a host.
    pub fn validate(&self) -> (r: Result<(), ConfigError>)
        ensures
            self.server.port == 0 ==> (r matches Err(ConfigError::Validation(m))
                && m@ == "server.port must be 1–65535"@),
            self.server.port != 0 && self.server.host@.len() == 0 ==> (r matches Err(
                ConfigError::Validation(m),
            ) && m@ == "server.host must not be empty"@),
            self.server.port != 0 && self.server.host@.len() != 0 ==> r is Ok,
    {
        if self.server.port == 0 {
            return Err(ConfigError::Validation("server.port must be 1–65535".to_owned()));
        }
        if self.server.host.as_str().is_empty() {
            return Err(ConfigError::Validation("server.host must not be empty".to_owned()));
        }
        Ok(())
    }
}

/// The system-wide configuration file.
pub open spec fn system_config_spec() -> Seq<char> {
    "/etc/ztnet-box/config.yml"@
}

/// Where a configuration file is looked for, in order: `config.yml` in the
/// working directory, `~/.config/ztnet-box/config.yml` (the system file when
/// `$HOME` is unset), and the system file.
pub open spec fn config_candidates_spec(home: Option<Seq<char>>) -> Seq<Seq<char>> {
    seq![
        "config.yml"@,
        match home {
            Some(h) => join_spec(join_spec(join_spec(h, ".config"@), "ztnet-box"@), "config.yml"@),
            None => system_config_spec(),
        },
        system_config_spec(),
    ]
}

/// The places a configuration file is looked for, in order.
pub fn config_candidates(home: Option<String>) -> (r: Vec<String>)
    ensures
        r@.map_values(|s: String| s@) == config_candidates_spec(match home {
            Some(h) => Some(h@),
            None => None,
        }),
{
    let second = match &home {
        Some(h) => {
            let a = join_path(h.as_str(), ".config");
            let b = join_path(a.as_str(), "ztnet-box");
            join_path(b.as_str(), "config.yml")
        },
        None => owned("/etc/ztnet-box/config.yml"),
    };
    let mut r: Vec<String> = Vec::new();
    r.push(owned("config.yml"));
    r.push(second);
    r.push(owned("/etc/ztnet-box/config.yml"));
    let ghost hv = match home {
        Some(h) => Some(h@),
        None => None,
    };
    assert(r@.map_values(|s: String| s@) =~= config_candidates_spec(hv));
    r
}

/// The first of `candidates[i..]` whose `exists` is set; `config.yml` when
/// none is (a new file is then written there).
pub open spec fn first_existing(candidates: Seq<Seq<char>>, exists: Seq<bool>, i: int) -> Seq<char>
    decreases candidates.len() - i,
{
    if i < 0 || i >= candidates.len() {
        "config.yml"@
    } else if exists[i] {
        candidates[i]
    } else {
        first_existing(candidates, exists, i + 1)
    }
}

/// The configuration file to use, given which candidates exist.
pub fn find_config_file(candidates: &Vec<String>, exists: &Vec<bool>) -> (r: String)
    requires
        candidates.len() == exists.len(),
    ensures
        r@ == first_existing(candidates@.map_values(|s: String| s@), exists@, 0),
{
    let ghost cs = candidates@.map_values(|s: String| s@);
    let mut i: usize = 0;
    while i < candidates.len()
        invariant
            i <= candidates.len(),
            candidates.len() == exists.len(),
            cs == candidates@.map_values(|s: String| s@),
            first_existing(cs, exists@, 0) == first_existing(cs, exists@, i as int),
        decreases candidates.len() - i,
    {
        if exists[i] {
            return candidates[i].clone();
        }
        i += 1;
    }
    owned("config.yml")
}

} // verus!
