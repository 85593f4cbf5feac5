use bulkget::retry::{Backoff, RetryDecision, RetryPolicy};

fn attempts_made(backoff: &Backoff, succeeds_at: Option<u32>) -> (u32, bool) {
    let mut failed: u32 = 0;
    loop {
        let attempt = failed;
        if succeeds_at == Some(attempt) {
            return (attempt + 1, true);
        }
        failed += 1;
        match backoff.after_failure(failed) {
            RetryDecision::Retry { .. } => {}
            RetryDecision::GiveUp => return (failed, false),
        }
    }
}

#[test]
fn standard_policy_values() {
    let p = RetryPolicy::standard();
    assert_eq!(p.max_attempts, 5);
    assert_eq!(p.base_delay_ms, 1000);
    assert_eq!(p.max_delay_ms, 60000);
}

#[test]
fn standard_schedule_doubles() {
    let b = Backoff::new(&RetryPolicy::standard());
    assert_eq!(b.max_attempts, 5);
    assert_eq!(b.delays, vec![1000, 2000, 4000, 8000]);
}

#[test]
fn schedule_is_capped() {
    let p = RetryPolicy { max_attempts: 6, base_delay_ms: 100, max_delay_ms: 300 };
    let b = Backoff::new(&p);
    assert_eq!(b.delays, vec![100, 200, 300, 300, 300]);
}

#[test]
fn decisions_follow_schedule() {
    let b = Backoff::new(&RetryPolicy::standard());
    assert_eq!(b.after_failure(1), RetryDecision::Retry { delay_ms: 1000 });
    assert_eq!(b.after_failure(2), RetryDecision::Retry { delay_ms: 2000 });
    assert_eq!(b.after_failure(4), RetryDecision::Retry { delay_ms: 8000 });
    assert_eq!(b.after_failure(5), RetryDecision::GiveUp);
    assert_eq!(b.after_failure(9), RetryDecision::GiveUp);
}

#[test]
fn always_failing_task_makes_five_attempts() {
    let b = Backoff::new(&RetryPolicy::standard());
    assert_eq!(attempts_made(&b, None), (5, false));
}

#[test]
fn success_on_third_attempt_stops_there() {
    let b = Backoff::new(&RetryPolicy::standard());
    assert_eq!(attempts_made(&b, Some(2)), (3, true));
    assert_eq!(attempts_made(&b, Some(0)), (1, true));
}

#[test]
fn single_attempt_policy_never_retries() {
    let p = RetryPolicy { max_attempts: 1, base_delay_ms: 10, max_delay_ms: 10 };
    let b = Backoff::new(&p);
    assert!(b.delays.is_empty());
    assert_eq!(b.after_failure(1), RetryDecision::GiveUp);
}
