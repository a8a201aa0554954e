//! A directory-entry sentinel: counts the visible entries of a directory under
//! an optional time budget and turns the outcome into a process exit code.
mod config;
mod policy;
mod scan;
mod veto;

pub use scan::{
    budget_exceeded, count_entries, deadline_index, is_hidden, is_visible,
    lemma_partial_count_is_lower_bound, lemma_unbounded_scan_counts_all,
    lemma_unbounded_scan_is_repeatable, over_budget, probe_names, scan_outcome, visible_count,
    CountResult, EntryCounter, EntryProbe,
};
pub use config::{select_mode, Config, Mode, DEFAULT_TIME_LIMIT_MS, DEFAULT_TOO_MANY_ENTRIES};
pub use policy::{
    code_of, count_only_verdict, exit_verdict, lemma_count_exit_code, lemma_verdict_precedence,
    too_many_code, too_many_entries_code, verdict_of, ScanFailed, Verdict, EXIT_FAILURE,
    EXIT_FS_DENIED, EXIT_SUCCESS, EXIT_TIME_LIMIT, MIN_TOO_MANY_CODE,
};
pub use veto::{fs_type_denied, is_denied_type, listed, trimmed};
