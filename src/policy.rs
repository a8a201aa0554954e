//! Turning the outcome of a count into a process exit code.
use vstd::prelude::*;

use crate::scan::CountResult;

verus! {

/// Exit code: the directory passed every check.
pub const EXIT_SUCCESS: u8 = 0;

/// Exit code: the directory could not be read, or another fatal error.
pub const EXIT_FAILURE: u8 = 1;

/// Exit code: the time budget ran out before every entry was seen.
pub const EXIT_TIME_LIMIT: u8 = 2;

/// Exit code: the directory lies on a filesystem type that is denied. Codes
/// from 3 up carry a count, so this shares the one spare reserved value with
/// `EXIT_TIME_LIMIT`; `Verdict` keeps the two conditions apart.
pub const EXIT_FS_DENIED: u8 = 2;

/// The smallest code that reports too many entries.
pub const MIN_TOO_MANY_CODE: u8 = 3;

/// The counter could not open or read the directory.
#[derive(Debug, Clone, Copy, PartialEq, Eq, Structural)]
pub struct ScanFailed;

/// What one run decided, before it is reduced to a byte.
#[derive(Debug, Clone, Copy, PartialEq, Eq, Structural)]
pub enum Verdict {
    Success,
    Failure,
    FilesystemDenied,
    TimeLimitExceeded,
    /// Too many entries, with the encoded count.
    TooManyEntries(u8),
}

/// A count squeezed into a byte, kept clear of the reserved low codes.
pub open spec fn too_many_code(count: int) -> int {
    let capped = if count < 255 { count } else { 255 };
    if capped < 3 { 3 } else { capped }
}

/// The byte that reports `count` entries as too many.
pub fn too_many_entries_code(count: usize) -> (r: u8)
    ensures
        r as int == too_many_code(count as int),
        MIN_TOO_MANY_CODE <= r,
{
    let capped: u8 = if count < 255 { count as u8 } else { 255 };
    if capped < MIN_TOO_MANY_CODE {
        MIN_TOO_MANY_CODE
    } else {
        capped
    }
}

/// The decision for a run, highest precedence first: a failed count, a denied
/// filesystem type, a budget that ran out, a count above the threshold.
pub open spec fn verdict_of(
    outcome: Result<CountResult, ScanFailed>,
    threshold: usize,
    fs_denied: bool,
) -> Verdict {
    match outcome {
        Err(_) => Verdict::Failure,
        Ok(counted) => if fs_denied {
            Verdict::FilesystemDenied
        } else {
            match counted {
                CountResult::TimeLimitExceeded(_) => Verdict::TimeLimitExceeded,
                CountResult::Count(c) => if c > threshold {
                    Verdict::TooManyEntries(too_many_code(c as int) as u8)
                } else {
                    Verdict::Success
                },
            }
        },
    }
}

/// The byte a verdict ends the process with.
pub open spec fn code_of(v: Verdict) -> u8 {
    match v {
        Verdict::Success => EXIT_SUCCESS,
        Verdict::Failure => EXIT_FAILURE,
        Verdict::FilesystemDenied => EXIT_FS_DENIED,
        Verdict::TimeLimitExceeded => EXIT_TIME_LIMIT,
        Verdict::TooManyEntries(code) => code,
    }
}

impl Verdict {
    /// The process exit code for this verdict.
    pub fn exit_code(&self) -> (r: u8)
        ensures
            r == code_of(*self),
    {
        match self {
            Verdict::Success => EXIT_SUCCESS,
            Verdict::Failure => EXIT_FAILURE,
            Verdict::FilesystemDenied => EXIT_FS_DENIED,
            Verdict::TimeLimitExceeded => EXIT_TIME_LIMIT,
            Verdict::TooManyEntries(code) => *code,
        }
    }
}

/// Decides a run from the counter's outcome, the largest acceptable count and
/// whether the directory's filesystem type is denied.
pub fn exit_verdict(outcome: &Result<CountResult, ScanFailed>, threshold: usize, fs_denied: bool) -> (r: Verdict)
    ensures
        r == verdict_of(*outcome, threshold, fs_denied),
{
    match outcome {
        Err(_) => Verdict::Failure,
        Ok(counted) => {
            if fs_denied {
                Verdict::FilesystemDenied
            } else {
                match counted {
                    CountResult::TimeLimitExceeded(_) => Verdict::TimeLimitExceeded,
                    CountResult::Count(c) => {
                        if *c > threshold {
                            Verdict::TooManyEntries(too_many_entries_code(*c))
                        } else {
                            Verdict::Success
                        }
                    },
                }
            }
        },
    }
}

/// Decides a run that only prints the count: a complete count succeeds, and
/// anything else fails.
pub fn count_only_verdict(outcome: &Result<CountResult, ScanFailed>) -> (r: Verdict)
    ensures
        r == (match *outcome {
            Ok(CountResult::Count(_)) => Verdict::Success,
            _ => Verdict::Failure,
        }),
{
    match outcome {
        Ok(CountResult::Count(_)) => Verdict::Success,
        _ => Verdict::Failure,
    }
}

/// A complete count exits with 0 when it is within the threshold, and with the
/// count clamped to 3..=255 when it is above.
pub proof fn lemma_count_exit_code(count: usize, threshold: usize)
    ensures
        code_of(verdict_of(Ok(CountResult::Count(count)), threshold, false)) as int == if count
            <= threshold {
            0
        } else {
            too_many_code(count as int)
        },
        count > threshold ==> code_of(verdict_of(Ok(CountResult::Count(count)), threshold, false))
            >= MIN_TOO_MANY_CODE,
{
}

/// A failed count exits with 1 whatever else holds; a denied filesystem type
/// decides before the budget and the threshold are looked at.
pub proof fn lemma_verdict_precedence(counted: CountResult, threshold: usize, fs_denied: bool)
    ensures
        verdict_of(Err(ScanFailed), threshold, fs_denied) == Verdict::Failure,
        code_of(verdict_of(Err(ScanFailed), threshold, fs_denied)) == EXIT_FAILURE,
        fs_denied ==> verdict_of(Ok(counted), threshold, fs_denied) == Verdict::FilesystemDenied,
        !fs_denied && counted is TimeLimitExceeded ==> verdict_of(Ok(counted), threshold, fs_denied)
            == Verdict::TimeLimitExceeded,
{
}

} // verus!
