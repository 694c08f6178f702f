//! The configuration and the rules for loading it. Reading and writing the
//! configuration file, and probing the file system for terminals, happen
//! outside this crate; the decisions about what to keep are verified here.

use vstd::prelude::*;
use crate::config::error::ConfigError;
use crate::hyprland::structs::Monitor;

verus! {

/// The service's configuration: monitors in priority order, and the
/// terminal to launch shell entities with.
#[derive(Debug, PartialEq)]
pub struct ShunpoConfig {
    pub monitor_priority: Vec<String>,
    pub terminal_path: String,
}

/// First index whose candidate is present, at or after `i`.
pub open spec fn first_present_from(present: Seq<bool>, i: int) -> Option<int>
    decreases present.len() - i,
{
    if i < 0 || i >= present.len() {
        None
    } else if present[i] {
        Some(i)
    } else {
        first_present_from(present, i + 1)
    }
}

impl ShunpoConfig {
    /// Combines a load attempt with a regenerated configuration: a loaded
    /// configuration wins; a configuration that existed but did not decode
    /// is never overwritten, so its error stands; any other load failure
    /// falls back to the regenerated one (or its own failure).
    pub fn load_or_default(
        loaded: Result<ShunpoConfig, ConfigError>,
        regenerated: Result<ShunpoConfig, ConfigError>,
    ) -> (r: Result<ShunpoConfig, ConfigError>)
        ensures
            match loaded {
                Ok(c) => r matches Ok(x) && x == c,
                Err(e) => if e == ConfigError::Deserialization {
                    r == Err::<ShunpoConfig, ConfigError>(ConfigError::Deserialization)
                } else {
                    r == regenerated
                },
            },
    {
        match loaded {
            Ok(c) => Ok(c),
            Err(ConfigError::Deserialization) => Err(ConfigError::Deserialization),
            Err(_) => regenerated,
        }
    }

    /// Whether a load failure calls for regenerating the configuration: it
    /// does unless the file existed but did not decode.
    pub fn should_regenerate(e: &ConfigError) -> (r: bool)
        ensures
            r == (*e != ConfigError::Deserialization),
    {
        match e {
            ConfigError::Deserialization => false,
            _ => true,
        }
    }

    /// The monitor priority a fresh configuration starts from: every
    /// monitor the compositor reports, in reported order.
    pub fn collect_monitors(monitors: &Vec<Monitor>) -> (r: Vec<String>)
        ensures
            r@.len() == monitors@.len(),
            forall|i: int| 0 <= i < r@.len() ==> r@[i] == monitors@[i].name,
    {
        let mut r: Vec<String> = Vec::new();
        let mut i: usize = 0;
        while i < monitors.len()
            invariant
                i <= monitors@.len(),
                r@.len() == i,
                forall|k: int| 0 <= k < i ==> r@[k] == monitors@[k].name,
            decreases monitors@.len() - i,
        {
            r.push(monitors[i].name.clone());
            i = i + 1;
        }
        r
    }

    /// Picks the first terminal candidate that is present on this machine;
    /// none present is an error.
    pub fn collect_terminals(candidates: &Vec<String>, present: &Vec<bool>) -> (r: Result<
        String,
        ConfigError,
    >)
        requires
            candidates@.len() == present@.len(),
        ensures
            match first_present_from(present@, 0) {
                Some(i) => r matches Ok(t) && t == candidates@[i],
                None => r == Err::<String, ConfigError>(ConfigError::NoSupportedTerminal),
            },
    {
        let n = candidates.len();
        let mut i: usize = 0;
        while i < n
            invariant
                i <= n,
                n == candidates@.len(),
                n == present@.len(),
                first_present_from(present@, 0) == first_present_from(present@, i as int),
            decreases n - i,
        {
            if present[i] {
                return Ok(candidates[i].clone());
            }
            i = i + 1;
        }
        Err(ConfigError::NoSupportedTerminal)
    }
}

} // verus!
