use wanna_ls::{
    count_entries, count_only_verdict, exit_verdict, fs_type_denied, is_denied_type,
    too_many_entries_code, CountResult, EntryProbe, ScanFailed, Verdict, EXIT_FAILURE,
    EXIT_FS_DENIED, EXIT_SUCCESS, EXIT_TIME_LIMIT,
};

fn visible_walk(n: usize) -> Vec<EntryProbe> {
    (0..n).map(|i| EntryProbe { elapsed_nanos: 0, name: format!("entry{i}") }).collect()
}

fn code(outcome: Result<CountResult, ScanFailed>, threshold: usize, fs_denied: bool) -> u8 {
    exit_verdict(&outcome, threshold, fs_denied).exit_code()
}

#[test]
fn encoding_clamps_and_floors() {
    assert_eq!(too_many_entries_code(0), 3);
    assert_eq!(too_many_entries_code(1), 3);
    assert_eq!(too_many_entries_code(2), 3);
    assert_eq!(too_many_entries_code(3), 3);
    assert_eq!(too_many_entries_code(4), 4);
    assert_eq!(too_many_entries_code(254), 254);
    assert_eq!(too_many_entries_code(255), 255);
    assert_eq!(too_many_entries_code(256), 255);
    assert_eq!(too_many_entries_code(usize::MAX), 255);
}

#[test]
fn count_within_threshold_succeeds() {
    assert_eq!(code(Ok(CountResult::Count(0)), 0, false), 0);
    assert_eq!(code(Ok(CountResult::Count(10)), 10, false), 0);
    assert_eq!(code(Ok(CountResult::Count(11)), 10, false), 11);
    assert_eq!(code(Ok(CountResult::Count(1)), 0, false), 3);
    assert_eq!(code(Ok(CountResult::Count(1000)), 999, false), 255);
}

#[test]
fn five_entries_under_threshold_ten() {
    let outcome = count_entries(&visible_walk(5), None);
    assert_eq!(code(Ok(outcome), 10, false), 0);
}

#[test]
fn five_entries_over_threshold_three() {
    let outcome = count_entries(&visible_walk(5), None);
    assert_eq!(code(Ok(outcome), 3, false), 5);
}

#[test]
fn four_hundred_entries_saturate() {
    let outcome = count_entries(&visible_walk(400), None);
    assert_eq!(outcome, CountResult::Count(400));
    assert_eq!(code(Ok(outcome), 3, false), 255);
}

#[test]
fn zero_budget_reports_time_limit() {
    let trace = vec![EntryProbe { elapsed_nanos: 1, name: "a".to_string() }];
    let outcome = count_entries(&trace, Some(0));
    assert_eq!(outcome, CountResult::TimeLimitExceeded(0));
    assert_eq!(exit_verdict(&Ok(outcome), 32, false), Verdict::TimeLimitExceeded);
    assert_eq!(code(Ok(outcome), 32, false), 2);
}

#[test]
fn unreadable_directory_fails_with_one() {
    assert_eq!(exit_verdict(&Err(ScanFailed), 0, true), Verdict::Failure);
    assert_eq!(code(Err(ScanFailed), 0, false), 1);
    assert_eq!(code(Err(ScanFailed), 0, true), 1);
}

#[test]
fn denied_filesystem_wins_over_threshold_and_budget() {
    assert_eq!(exit_verdict(&Ok(CountResult::Count(400)), 3, true), Verdict::FilesystemDenied);
    assert_eq!(code(Ok(CountResult::Count(400)), 3, true), 2);
    assert_eq!(code(Ok(CountResult::TimeLimitExceeded(7)), 3, true), 2);
    assert_eq!(code(Ok(CountResult::Count(0)), 3, true), 2);
}

#[test]
fn verdict_codes() {
    assert_eq!(Verdict::Success.exit_code(), EXIT_SUCCESS);
    assert_eq!(Verdict::Failure.exit_code(), EXIT_FAILURE);
    assert_eq!(Verdict::FilesystemDenied.exit_code(), EXIT_FS_DENIED);
    assert_eq!(Verdict::TimeLimitExceeded.exit_code(), EXIT_TIME_LIMIT);
    assert_eq!(Verdict::TooManyEntries(77).exit_code(), 77);
    assert_eq!(EXIT_SUCCESS, 0);
    assert_eq!(EXIT_FAILURE, 1);
    assert_eq!(EXIT_TIME_LIMIT, 2);
}

#[test]
fn count_only_runs() {
    assert_eq!(count_only_verdict(&Ok(CountResult::Count(9))), Verdict::Success);
    assert_eq!(count_only_verdict(&Ok(CountResult::TimeLimitExceeded(9))), Verdict::Failure);
    assert_eq!(count_only_verdict(&Err(ScanFailed)), Verdict::Failure);
}

#[test]
fn filesystem_type_is_trimmed_before_lookup() {
    let denied = vec!["nfs".to_string(), "cifs".to_string()];
    assert!(fs_type_denied("nfs\n", &denied));
    assert!(fs_type_denied("  cifs ", &denied));
    assert!(!fs_type_denied("ext4\n", &denied));
    assert!(!fs_type_denied("nfs", &Vec::new()));
    assert!(!is_denied_type("nfs\n", &denied));
    assert!(is_denied_type("nfs", &denied));
    assert!(!is_denied_type("NFS", &denied));
}
