use qb_throttler::control::{Action, ControlState, Controller};
use qb_throttler::errors::ClassifiedError;
use qb_throttler::sampler::sample_outcome;
use qb_throttler::session::login_outcome;
use qb_throttler::throttle::{apply_outcome, derive_limit, THROTTLED_UPLOAD_LIMIT};

#[test]
fn zero_sessions_lift_the_cap() {
    assert_eq!(derive_limit(0), 0);
}

#[test]
fn any_positive_count_gives_the_same_ceiling() {
    assert_eq!(derive_limit(1), THROTTLED_UPLOAD_LIMIT);
    assert_eq!(derive_limit(2), THROTTLED_UPLOAD_LIMIT);
    assert_eq!(derive_limit(1000), THROTTLED_UPLOAD_LIMIT);
    assert_eq!(derive_limit(usize::MAX), THROTTLED_UPLOAD_LIMIT);
    assert_eq!(derive_limit(1), derive_limit(1000));
}

#[test]
fn login_with_cookie_then_one_session_applies_ceiling() {
    // Login answers 200 with `Set-Cookie: SID=abc`; the sample reports one
    // session; the apply action must carry that cookie and the ceiling.
    let cred = login_outcome(200, Some(b"SID=abc".to_vec())).unwrap();
    let mut c = Controller::new();
    let a = c.on_login(Ok(cred));
    assert!(matches!(a, Action::Sample));
    let body = b"[{\"Id\":\"x\"}]".to_vec();
    let count = sample_outcome(200, &body).unwrap();
    assert_eq!(count, 1);
    let a = c.on_sample(Ok(count));
    match a {
        Action::Apply { credential, limit } => {
            assert_eq!(credential.token, b"SID=abc".to_vec());
            assert_eq!(limit, THROTTLED_UPLOAD_LIMIT);
        }
        _ => panic!("expected an apply action"),
    }
}

#[test]
fn empty_session_list_applies_limit_zero() {
    let cred = login_outcome(200, Some(b"SID=abc".to_vec())).unwrap();
    let mut c = Controller::new();
    c.on_login(Ok(cred));
    let body = b"[]".to_vec();
    let count = sample_outcome(200, &body).unwrap();
    assert_eq!(count, 0);
    let a = c.on_sample(Ok(count));
    match a {
        Action::Apply { limit, .. } => assert_eq!(limit, 0),
        _ => panic!("expected an apply action"),
    }
}

#[test]
fn rejected_login_exits_nonzero_with_no_further_calls() {
    // Login answers 403: the run ends with a non-zero status and the
    // machine's one remaining demand is to exit.
    let r = login_outcome(403, None);
    let e = r.err().unwrap();
    assert!(matches!(e, ClassifiedError::AuthRejected { status: 403 }));
    let mut c = Controller::new();
    let a = c.on_login(Err(e));
    match a {
        Action::Exit { code } => assert_ne!(code, 0),
        _ => panic!("expected an exit action"),
    }
    assert!(matches!(c.state(), ControlState::Terminated { .. }));
}

#[test]
fn missing_cookie_is_fatal() {
    let e = login_outcome(200, None).err().unwrap();
    assert!(matches!(e, ClassifiedError::ProtocolViolation));
    let mut c = Controller::new();
    let a = c.on_login(Err(e));
    assert!(matches!(a, Action::Exit { .. }));
    assert!(matches!(c.state(), ControlState::Terminated { .. }));
}

#[test]
fn unreadable_cookie_is_fatal() {
    let e = login_outcome(200, Some(vec![0x01, 0x02])).err().unwrap();
    assert!(matches!(e, ClassifiedError::ProtocolViolation));
}

#[test]
fn transient_login_failure_waits_and_retries() {
    let e = login_outcome(503, None).err().unwrap();
    assert!(matches!(e, ClassifiedError::Transient { status: Some(503), .. }));
    let mut c = Controller::new();
    let a = c.on_login(Err(e));
    assert!(matches!(a, Action::WaitThenLogin));
    assert!(matches!(c.state(), ControlState::Authenticating));
}

#[test]
fn auth_rejected_apply_returns_to_login_not_apply() {
    // An apply call answers 401 mid-poll: the next action is a fresh login
    // attempt, not a retried apply, and the process does not terminate.
    let cred = login_outcome(200, Some(b"SID=abc".to_vec())).unwrap();
    let mut c = Controller::new();
    c.on_login(Ok(cred));
    c.on_sample(Ok(1));
    let e = apply_outcome(401).err().unwrap();
    assert!(matches!(e, ClassifiedError::AuthRejected { status: 401 }));
    assert!(e.is_auth_rejection());
    assert!(!ClassifiedError::ProtocolViolation.is_auth_rejection());
    let a = c.on_apply(Err(e));
    assert!(matches!(a, Action::Login));
    assert!(matches!(c.state(), ControlState::Authenticating));
}

#[test]
fn unchanged_count_reapplies_identically() {
    // Two consecutive cycles with the same session count issue two
    // identical apply calls.
    let cred = login_outcome(200, Some(b"SID=abc".to_vec())).unwrap();
    let mut c = Controller::new();
    c.on_login(Ok(cred));
    let first = c.on_sample(Ok(3));
    let a = c.on_apply(Ok(()));
    assert!(matches!(a, Action::WaitThenSample));
    let second = c.on_sample(Ok(3));
    let (t1, l1) = match first {
        Action::Apply { credential, limit } => (credential.token, limit),
        _ => panic!("expected an apply action"),
    };
    let (t2, l2) = match second {
        Action::Apply { credential, limit } => (credential.token, limit),
        _ => panic!("expected an apply action"),
    };
    assert_eq!(t1, t2);
    assert_eq!(l1, l2);
}

#[test]
fn transient_apply_failure_keeps_polling() {
    let cred = login_outcome(200, Some(b"SID=abc".to_vec())).unwrap();
    let mut c = Controller::new();
    c.on_login(Ok(cred));
    c.on_sample(Ok(0));
    let e = apply_outcome(500).err().unwrap();
    let a = c.on_apply(Err(e));
    assert!(matches!(a, Action::WaitThenSample));
    assert!(matches!(c.state(), ControlState::Polling { .. }));
}

#[test]
fn sampling_failure_is_fatal() {
    let cred = login_outcome(200, Some(b"SID=abc".to_vec())).unwrap();
    let mut c = Controller::new();
    c.on_login(Ok(cred));
    let e = sample_outcome(500, &b"[]".to_vec()).err().unwrap();
    let a = c.on_sample(Err(e));
    match a {
        Action::Exit { code } => assert_ne!(code, 0),
        _ => panic!("expected an exit action"),
    }
    assert!(matches!(c.state(), ControlState::Terminated { .. }));
}

#[test]
fn apply_outcome_classifies_statuses() {
    assert!(apply_outcome(200).is_ok());
    assert!(matches!(
        apply_outcome(401),
        Err(ClassifiedError::AuthRejected { status: 401 })
    ));
    assert!(matches!(
        apply_outcome(403),
        Err(ClassifiedError::AuthRejected { status: 403 })
    ));
    assert!(matches!(
        apply_outcome(503),
        Err(ClassifiedError::Transient { status: Some(503), .. })
    ));
}

#[test]
fn error_messages_name_the_failure_and_its_status() {
    assert_eq!(ClassifiedError::ProtocolViolation.message(), "No Cookie Returned");
    assert_eq!(
        ClassifiedError::AuthRejected { status: 401 }.message(),
        "authentication rejected, status 401"
    );
    assert_eq!(
        apply_outcome(503).err().unwrap().message(),
        "unexpected response status 503"
    );
    let e = qb_throttler::errors::transient_from_transport(String::from("connection refused"));
    assert_eq!(e.message(), "connection refused");
    assert_eq!(e.status(), None);
}

#[test]
fn errors_carry_the_received_status() {
    assert_eq!(apply_outcome(401).err().unwrap().status(), Some(401));
    assert_eq!(apply_outcome(500).err().unwrap().status(), Some(500));
    assert_eq!(ClassifiedError::ProtocolViolation.status(), None);
}
