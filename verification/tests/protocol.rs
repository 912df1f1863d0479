use test_api::{APITask, ApiError, TaskOp, API};

fn recompute(t: &APITask) -> i8 {
    t.op.apply(&t.args)
}

#[test]
fn issued_task_has_nonempty_args_and_consistent_result() {
    let mut api = API::new();
    for _ in 0..50 {
        let t = match api.new_task() {
            Ok(t) => t,
            Err(_) => panic!("issuance failed"),
        };
        assert!(!t.args.is_empty());
        // The stored expected result must be the operation applied to the
        // operands: recomputing it and validating must succeed.
        let expected = recompute(&t);
        let r = api.validate_result(&t.task_id, &t.token, expected);
        assert!(r.is_ok());
    }
}

#[test]
fn round_trip_succeeds_and_is_repeatable() {
    let mut api = API::new();
    let t = api.new_task().expect("issuance failed");
    let expected = recompute(&t);
    assert!(api.validate_result(&t.task_id, &t.token, expected).is_ok());
    // Validation is read-only: the same submission succeeds again.
    assert!(api.validate_result(&t.task_id, &t.token, expected).is_ok());
    assert!(api.validate_result(&t.task_id, &t.token, expected).is_ok());
}

#[test]
fn tampered_token_is_rejected_whatever_else_is_right() {
    let mut api = API::new();
    let t = api.new_task().expect("issuance failed");
    let expected = recompute(&t);
    let mut tampered = t.token.clone();
    tampered.push('x');
    let r = api.validate_result(&t.task_id, &tampered, expected);
    assert!(matches!(r, Err(ApiError::AuthError)));
    let r = api.validate_result(&t.task_id, "not-a-token", expected);
    assert!(matches!(r, Err(ApiError::AuthError)));
    let r = api.validate_result(&t.task_id, "", expected);
    assert!(matches!(r, Err(ApiError::AuthError)));
}

#[test]
fn token_from_another_key_is_rejected() {
    let mut api = API::new();
    let mut other = API::new();
    let t = api.new_task().expect("issuance failed");
    let foreign = other.new_task().expect("issuance failed");
    let expected = recompute(&t);
    // A token signed by a different process's key never verifies here.
    let r = api.validate_result(&t.task_id, &foreign.token, expected);
    assert!(matches!(r, Err(ApiError::AuthError)));
}

#[test]
fn unknown_task_id_yields_not_found_after_auth() {
    let mut api = API::new();
    let t = api.new_task().expect("issuance failed");
    let r = api.validate_result("no-such-task-id", &t.token, 0);
    assert!(matches!(r, Err(ApiError::NoSuchTask)));
    // With a bad token, auth is checked first: AuthError, not NoSuchTask.
    let r = api.validate_result("no-such-task-id", "bad-token", 0);
    assert!(matches!(r, Err(ApiError::AuthError)));
}

#[test]
fn wrong_result_reports_expected_and_does_not_consume_the_task() {
    let mut api = API::new();
    let t = api.new_task().expect("issuance failed");
    let expected = recompute(&t);
    let wrong = expected.wrapping_add(1);
    match api.validate_result(&t.task_id, &t.token, wrong) {
        Err(ApiError::IncorrectResult(e)) => assert_eq!(e, expected),
        _ => panic!("expected IncorrectResult"),
    }
    // The record is untouched: the right answer still passes afterwards.
    assert!(api.validate_result(&t.task_id, &t.token, expected).is_ok());
}

#[test]
fn scenario_max_of_three_operands() {
    // The arithmetic half of the scenario, on the exact operands.
    assert_eq!(TaskOp::Max.apply(&vec![3, -1, 7]), 7);
    assert_eq!(TaskOp::Min.apply(&vec![3, -1, 7]), -1);

    // The protocol half, on a freshly issued task.
    let mut api = API::new();
    let t = api.new_task().expect("issuance failed");
    let expected = recompute(&t);
    assert!(api.validate_result(&t.task_id, &t.token, expected).is_ok());
    match api.validate_result(&t.task_id, &t.token, expected.wrapping_add(2)) {
        Err(ApiError::IncorrectResult(e)) => assert_eq!(e, expected),
        _ => panic!("expected IncorrectResult"),
    }
    let r = api.validate_result("some-other-task-id", &t.token, expected);
    assert!(matches!(r, Err(ApiError::NoSuchTask)));
    let mut broken = t.token.clone();
    broken.truncate(broken.len() - 1);
    let r = api.validate_result(&t.task_id, &broken, expected);
    assert!(matches!(r, Err(ApiError::AuthError)));
}

#[test]
fn many_issuances_produce_distinct_retrievable_tasks() {
    let mut api = API::new();
    let mut issued: Vec<APITask> = Vec::new();
    for _ in 0..100 {
        issued.push(api.new_task().expect("issuance failed"));
    }
    for i in 0..issued.len() {
        for j in 0..i {
            assert_ne!(issued[i].task_id, issued[j].task_id);
        }
    }
    // No record was lost: every task still validates with its own result.
    for t in &issued {
        let expected = recompute(t);
        assert!(api.validate_result(&t.task_id, &t.token, expected).is_ok());
    }
}
