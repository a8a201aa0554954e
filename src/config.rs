//! Settings of a run: the configured limits, command-line overrides, and which
//! kind of run was asked for.
use vstd::prelude::*;

verus! {

/// The limits a check runs with.
#[derive(Debug, Clone, Copy, PartialEq, Eq, Structural)]
pub struct Config {
    /// The time budget for counting, in milliseconds.
    pub time_limit_ms: u64,
    /// The largest number of visible entries that passes.
    pub too_many_entries: usize,
}

/// The budget used when nothing is configured.
pub const DEFAULT_TIME_LIMIT_MS: u64 = 50;

/// The threshold used when nothing is configured.
pub const DEFAULT_TOO_MANY_ENTRIES: usize = 32;

impl Default for Config {
    fn default() -> (r: Config)
        ensures
            r.time_limit_ms == DEFAULT_TIME_LIMIT_MS,
            r.too_many_entries == DEFAULT_TOO_MANY_ENTRIES,
    {
        Config { time_limit_ms: DEFAULT_TIME_LIMIT_MS, too_many_entries: DEFAULT_TOO_MANY_ENTRIES }
    }
}

impl Config {
    /// This configuration with each value given on the command line in
    /// place of the configured one.
    pub fn with_overrides(&self, too_many_entries: Option<usize>, time_limit_ms: Option<u64>) -> (r: Config)
        ensures
            r.too_many_entries == match too_many_entries {
                Some(n) => n,
                None => self.too_many_entries,
            },
            r.time_limit_ms == match time_limit_ms {
                Some(ms) => ms,
                None => self.time_limit_ms,
            },
    {
        Config {
            time_limit_ms: match time_limit_ms {
                Some(ms) => ms,
                None => self.time_limit_ms,
            },
            too_many_entries: match too_many_entries {
                Some(n) => n,
                None => self.too_many_entries,
            },
        }
    }
}

/// The kind of run the command line asks for.
#[derive(Debug, Clone, Copy, PartialEq, Eq, Structural)]
pub enum Mode {
    /// Print shell completions and exit.
    Completions,
    /// Print the default configuration and exit.
    DefaultConfig,
    /// Print the number of visible entries, without a budget, and exit.
    CountOnly,
    /// Count under the budget and apply the exit policy.
    Check,
}

/// Picks the kind of run from the command-line flags; the earlier flag in
/// this list wins: completions, default configuration, count only.
pub fn select_mode(completions: bool, default_config: bool, entries: bool) -> (r: Mode)
    ensures
        r == if completions {
            Mode::Completions
        } else if default_config {
            Mode::DefaultConfig
        } else if entries {
            Mode::CountOnly
        } else {
            Mode::Check
        },
{
    if completions {
        Mode::Completions
    } else if default_config {
        Mode::DefaultConfig
    } else if entries {
        Mode::CountOnly
    } else {
        Mode::Check
    }
}

} // verus!
