//! The background poller of the ZeroTier metrics endpoint: its decisions.
//! Every tick, the token file is read again (so a new token takes effect
//! without a restart) and the endpoint is fetched with it.
use crate::text::{chars_of, string_of, trim, trim_vec};
use vstd::prelude::*;

verus! {

/// The poller.
#[derive(Debug, Clone, Copy)]
pub struct MetricsCollector;

impl MetricsCollector {
    /// The polling period in seconds: the configured one, at least 1.
    pub fn interval_secs(configured: u64) -> (r: u64)
        ensures
            r == if configured < 1 { 1 } else { configured },
    {
        if configured < 1 {
            1
        } else {
            configured
        }
    }

    /// The bearer token from the text of the token file (`None` when it
    /// could not be read): the trimmed text, or none when that is empty.
    pub fn token_from_file(content: Option<String>) -> (r: Option<String>)
        ensures
            match content {
                Some(c) => if trim(c@).len() == 0 {
                    r is None
                } else {
                    r matches Some(t) && t@ == trim(c@)
                },
                None => r is None,
            },
    {
        match content {
            Some(c) => {
                let t = trim_vec(&chars_of(c.as_str()));
                if t.len() == 0 {
                    None
                } else {
                    Some(string_of(&t))
                }
            },
            None => None,
        }
    }
}

} // verus!
