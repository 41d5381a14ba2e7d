use veritas_core::conn::{reset_liveness, try_pinging, ConnectionStatus};

#[test]
fn backoff_doubles_on_each_kept_retry_and_tears_down_past_the_limit() {
    let initial: u64 = 1_000;
    let max_retries: u64 = 2;
    let mut retries: u64 = 0;
    let mut timeout: u64 = initial;

    // attempt 1: kept, window 1000 * 2^1
    assert!(try_pinging(&mut retries, max_retries, &mut timeout, initial));
    assert_eq!(retries, 1);
    assert_eq!(timeout, 2_000);

    // attempt 2: kept, window 1000 * 2^2
    assert!(try_pinging(&mut retries, max_retries, &mut timeout, initial));
    assert_eq!(retries, 2);
    assert_eq!(timeout, 4_000);

    // attempt 3: past the limit, torn down, window untouched
    assert!(!try_pinging(&mut retries, max_retries, &mut timeout, initial));
    assert_eq!(retries, 3);
    assert_eq!(timeout, 4_000);
}

#[test]
fn a_successful_frame_resets_the_probe() {
    let mut retries: u64 = 7;
    let mut timeout: u64 = 128_000;
    reset_liveness(&mut retries, &mut timeout, 1_000);
    assert_eq!(retries, 0);
    assert_eq!(timeout, 1_000);
}

#[test]
fn backoff_saturates_instead_of_overflowing() {
    let mut retries: u64 = 62;
    let mut timeout: u64 = 0;
    assert!(try_pinging(&mut retries, u64::MAX, &mut timeout, 1_000));
    assert_eq!(timeout, u64::MAX);

    let mut retries: u64 = 200;
    let mut timeout: u64 = 0;
    assert!(try_pinging(&mut retries, u64::MAX, &mut timeout, 3));
    assert_eq!(timeout, u64::MAX);
}

#[test]
fn status_variants_carry_the_failure_reason() {
    let ok = ConnectionStatus::Connected;
    let bad = ConnectionStatus::Failed("connection refused".to_string());
    assert!(matches!(ok, ConnectionStatus::Connected));
    match bad {
        ConnectionStatus::Failed(reason) => assert_eq!(reason, "connection refused"),
        _ => panic!("expected a failure"),
    }
}
