use eventfold::{
    cas_needs_hash, check_append_if, has_new_data, needs_rotation, wait_outcome, AppendConflict,
    AppendResult, ConditionalAppendError, LockMode, RotationStep, WaitResult,
};

#[test]
fn conditional_append_chain() {
    let l0 = b"{\"type\":\"e0\",\"data\":null,\"ts\":1}".to_vec();
    let l1 = b"{\"type\":\"e1\",\"data\":null,\"ts\":1}".to_vec();
    // e0 on the empty log.
    assert!(!cas_needs_hash(0, 0));
    assert_eq!(check_append_if(0, 0, "", None), Ok(()));
    let r0 = AppendResult::for_line(0, &l0).unwrap();
    // e1 expecting the state after e0.
    assert!(cas_needs_hash(r0.end_offset, r0.end_offset));
    let before = Some(r0.line_hash.clone());
    assert_eq!(check_append_if(r0.end_offset, r0.end_offset, &r0.line_hash, before), Ok(()));
    let r1 = AppendResult::for_line(r0.end_offset, &l1).unwrap();
    // e2 expecting the empty log: refused.
    let err = check_append_if(r1.end_offset, 0, "", None).unwrap_err();
    assert_eq!(
        err,
        AppendConflict {
            expected_offset: 0,
            actual_offset: r1.end_offset,
            expected_hash: String::new(),
            actual_hash: None,
        }
    );
}

#[test]
fn conditional_append_hash_mismatch_reports_actual_hash() {
    let err = check_append_if(50, 50, "aaaaaaaaaaaaaaaa", Some("bbbbbbbbbbbbbbbb".to_string()))
        .unwrap_err();
    assert_eq!(err.expected_offset, 50);
    assert_eq!(err.actual_offset, 50);
    assert_eq!(err.expected_hash, "aaaaaaaaaaaaaaaa");
    assert_eq!(err.actual_hash, Some("bbbbbbbbbbbbbbbb".to_string()));
}

#[test]
fn conditional_append_missing_line_counts_as_empty_hash() {
    let err = check_append_if(50, 50, "aaaaaaaaaaaaaaaa", None).unwrap_err();
    assert_eq!(err.actual_hash, Some(String::new()));
}

#[test]
fn conditional_append_same_offset_twice_second_fails() {
    let line = b"{\"type\":\"x\"}".to_vec();
    assert!(check_append_if(0, 0, "", None).is_ok());
    let r = AppendResult::for_line(0, &line).unwrap();
    let second = check_append_if(r.end_offset, 0, "", None).unwrap_err();
    assert_eq!(second.actual_offset, r.end_offset);
    assert_eq!(second.actual_hash, None);
}

#[test]
fn conditional_error_carries_conflict() {
    let c = check_append_if(3, 0, "", None).unwrap_err();
    let e = ConditionalAppendError::Conflict(c.clone());
    assert!(matches!(e, ConditionalAppendError::Conflict(ref x) if *x == c));
}

#[test]
fn rotation_threshold_decision() {
    assert!(!needs_rotation(0, 1_000_000));
    assert!(!needs_rotation(100, 99));
    assert!(needs_rotation(100, 100));
    assert!(needs_rotation(100, 101));
}

#[test]
fn wait_decisions() {
    assert_eq!(wait_outcome(0, 0), WaitResult::Timeout);
    assert_eq!(wait_outcome(0, 42), WaitResult::NewData(42));
    assert_eq!(wait_outcome(42, 42), WaitResult::Timeout);
    assert!(has_new_data(10, 9));
    assert!(!has_new_data(10, 10));
}

#[test]
fn lock_mode_default_is_flock() {
    assert_eq!(LockMode::default(), LockMode::Flock);
}

#[test]
fn rotation_steps_in_order() {
    let mut s = RotationStep::first();
    let mut seen = vec![s];
    while s != RotationStep::Done {
        s = s.next(10);
        seen.push(s);
    }
    assert_eq!(
        seen,
        vec![
            RotationStep::RefreshViews,
            RotationStep::ReadActive,
            RotationStep::ArchiveFrame,
            RotationStep::TruncateActive,
            RotationStep::ResetViews,
            RotationStep::Done,
        ]
    );
}

#[test]
fn rotation_of_empty_log_stops_after_read() {
    assert_eq!(RotationStep::ReadActive.next(0), RotationStep::Done);
}
