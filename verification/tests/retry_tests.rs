use nft_upload::retry::{
    backoff_ceiling_ms, classify_attempt, replay, Decision, RetryState, UploadError,
    UploadTarget, MAX_RETRIES, RETRY_DELAY_MS, UPLOAD_TIMEOUT_SECONDS,
};

fn fail(reason: &str) -> Result<String, UploadError> {
    Err(UploadError::Remote(reason.to_string()))
}

fn remote_text(e: &UploadError) -> String {
    match e {
        UploadError::Remote(m) => m.clone(),
        _ => panic!("not a remote error"),
    }
}

#[test]
fn policy_constants() {
    assert_eq!(MAX_RETRIES, 3);
    assert_eq!(RETRY_DELAY_MS, 5000);
    assert_eq!(UPLOAD_TIMEOUT_SECONDS, 300);
}

#[test]
fn two_failures_then_success_takes_three_attempts() {
    let outcomes = vec![fail("a"), fail("b"), Ok("QmCid".to_string())];
    let done = replay(&outcomes).unwrap().unwrap();
    assert_eq!(done.cid, "QmCid");
    assert_eq!(done.attempts, 3);
}

#[test]
fn constant_failure_gives_up_after_max_retries() {
    let outcomes = vec![fail("a"), fail("b"), fail("c"), fail("d"), Ok("late".to_string())];
    let gave_up = replay(&outcomes).unwrap().unwrap_err();
    assert_eq!(gave_up.attempts, MAX_RETRIES);
    assert_eq!(remote_text(&gave_up.last), "c");
}

#[test]
fn first_success_ends_the_upload() {
    let outcomes = vec![Ok("first".to_string()), Ok("second".to_string())];
    let done = replay(&outcomes).unwrap().unwrap();
    assert_eq!(done.cid, "first");
    assert_eq!(done.attempts, 1);
    let outcomes = vec![Err(UploadError::Timeout), Ok("second".to_string())];
    let done = replay(&outcomes).unwrap().unwrap();
    assert_eq!(done.cid, "second");
    assert_eq!(done.attempts, 2);
}

#[test]
fn timeouts_use_up_attempts_like_failures() {
    let outcomes = vec![Err(UploadError::Timeout), Err(UploadError::Timeout), Err(UploadError::Timeout)];
    let gave_up = replay(&outcomes).unwrap().unwrap_err();
    assert_eq!(gave_up.attempts, 3);
    assert!(matches!(gave_up.last, UploadError::Timeout));
}

#[test]
fn short_history_is_undecided() {
    assert!(replay(&vec![]).is_none());
    assert!(replay(&vec![fail("a")]).is_none());
    assert!(replay(&vec![fail("a"), fail("b")]).is_none());
}

#[test]
fn decide_step_by_step() {
    let s0 = RetryState::new();
    assert_eq!(s0.attempts, 0);
    assert!(s0.may_attempt());
    let (s1, d1) = s0.decide(fail("x"), 1234);
    assert_eq!(s1.attempts, 1);
    assert!(matches!(d1, Decision::RetryAfter { delay_ms: 1234 }));
    let (s2, d2) = s1.decide(Err(UploadError::Timeout), 99);
    assert_eq!(s2.attempts, 2);
    assert!(matches!(d2, Decision::RetryAfter { delay_ms: 99 }));
    let (s3, d3) = s2.decide(fail("z"), 5);
    assert_eq!(s3.attempts, 3);
    assert!(!s3.may_attempt());
    match d3 {
        Decision::Exhausted(e) => {
            assert_eq!(e.attempts, 3);
            assert_eq!(remote_text(&e.last), "z");
        }
        _ => panic!("expected exhaustion"),
    }
    let (s, d) = s2.decide(Ok("cid".to_string()), 5);
    assert_eq!(s.attempts, 3);
    match d {
        Decision::Success(r) => {
            assert_eq!(r.cid, "cid");
            assert_eq!(r.attempts, 3);
        }
        _ => panic!("expected success"),
    }
}

#[test]
fn backoff_grows_by_powers_of_the_base() {
    assert_eq!(backoff_ceiling_ms(1), 5000);
    assert_eq!(backoff_ceiling_ms(2), 25_000_000);
}

#[test]
fn pauses_stay_under_the_backoff() {
    let s0 = RetryState::new();
    let mut below = false;
    for _ in 0..200 {
        let p = s0.next_pause_ms();
        assert!(p <= 5000);
        if p < 5000 {
            below = true;
        }
    }
    assert!(below);
    let s1 = RetryState { attempts: 1 };
    for _ in 0..50 {
        assert!(s1.next_pause_ms() <= 25_000_000);
    }
}

#[test]
fn after_attempt_asks_for_a_bounded_pause() {
    let (s1, d1) = RetryState::new().after_attempt(fail("x"));
    assert_eq!(s1.attempts, 1);
    match d1 {
        Decision::RetryAfter { delay_ms } => assert!(delay_ms <= 5000),
        _ => panic!("expected a retry"),
    }
    let (s2, d2) = s1.after_attempt(fail("y"));
    match d2 {
        Decision::RetryAfter { delay_ms } => assert!(delay_ms <= 25_000_000),
        _ => panic!("expected a retry"),
    }
    let (_, d3) = s2.after_attempt(fail("z"));
    assert!(matches!(d3, Decision::Exhausted(_)));
    let (_, d) = RetryState::new().after_attempt(Ok("cid".to_string()));
    assert!(matches!(d, Decision::Success(_)));
}

#[test]
fn attempts_are_classified() {
    assert!(matches!(classify_attempt(None), Err(UploadError::Timeout)));
    assert_eq!(classify_attempt(Some(Ok("Qm".to_string()))).unwrap(), "Qm");
    let e = classify_attempt(Some(Err("quota exceeded".to_string()))).unwrap_err();
    assert_eq!(remote_text(&e), "Upload failed: quota exceeded");
}

#[test]
fn errors_in_words() {
    assert_eq!(UploadError::Timeout.message(), "deadline has elapsed");
    assert_eq!(UploadError::InvalidPath(UploadTarget::File).message(), "Invalid file path");
    assert_eq!(UploadError::InvalidPath(UploadTarget::Directory).message(), "Invalid folder path");
    assert_eq!(UploadError::Remote("Upload failed: x".to_string()).message(), "Upload failed: x");
    let e = UploadError::Remote("r".to_string());
    assert_eq!(e.duplicate().message(), "r");
}
