use janus::rate_limit::{stale_window, RateLimitExceeded, RateLimiter, LONGEST_SPAN};

const MILLISECOND: u128 = 1_000_000;

#[test]
fn rate_limit_resets_after_window() {
    let mut limiter = RateLimiter::new();

    limiter
        .check("jobs_run", "runner", 1, 10 * MILLISECOND, 0)
        .expect("first request should pass");
    assert!(limiter
        .check("jobs_run", "runner", 1, 10 * MILLISECOND, 0)
        .is_err());

    limiter
        .check("jobs_run", "runner", 1, 10 * MILLISECOND, 12 * MILLISECOND)
        .expect("window should reset");
}

#[test]
fn prunes_stale_windows_during_checks() {
    let mut limiter = RateLimiter::new();

    limiter
        .check("jobs_run", "runner-a", 1, 10 * MILLISECOND, 0)
        .expect("first token should pass");
    assert_eq!(limiter.window_count(), 1);

    limiter
        .check("jobs_run", "runner-b", 1, 10 * MILLISECOND, 25 * MILLISECOND)
        .expect("second token should pass");

    assert_eq!(limiter.window_count(), 1);
}

#[test]
fn a_window_lets_as_many_through_as_its_limit() {
    let mut limiter = RateLimiter::default();
    let window = 60_000 * MILLISECOND;
    for request in 0..5_u128 {
        let result = limiter.check("jobs_run", "runner", 3, window, request);
        if request < 3 {
            assert_eq!(result, Ok(()));
        } else {
            assert_eq!(
                result,
                Err(RateLimitExceeded {
                    limit: 3,
                    window_seconds: 60
                })
            );
        }
    }
    assert_eq!(
        limiter.check("jobs_run", "runner", 3, window, window - 1),
        Err(RateLimitExceeded {
            limit: 3,
            window_seconds: 60
        })
    );
    assert_eq!(limiter.check("jobs_run", "runner", 3, window, window), Ok(()));
}

#[test]
fn clients_and_scopes_do_not_disturb_each_other() {
    let mut limiter = RateLimiter::new();
    let window = 10 * MILLISECOND;
    assert!(limiter.check("jobs_run", "a", 1, window, 0).is_ok());
    assert!(limiter.check("jobs_run", "b", 1, window, 1).is_ok());
    assert!(limiter.check("artifacts_upload", "a", 1, window, 2).is_ok());
    assert!(limiter.check("jobs_run", "a", 1, window, 3).is_err());
    assert_eq!(limiter.window_count(), 3);
    assert!(limiter.check("jobs_run", "c", 0, window, 4).is_err());
}

#[test]
fn a_clock_that_steps_back_counts_as_standing_still() {
    let mut limiter = RateLimiter::new();
    assert!(limiter.check("s", "t", 1, 10, 100).is_ok());
    assert!(limiter.check("s", "t", 1, 10, 50).is_err());
}

#[test]
fn windows_go_stale_after_twice_their_span() {
    assert_eq!(stale_window(10), 20);
    assert_eq!(stale_window(LONGEST_SPAN), LONGEST_SPAN);
    assert_eq!(stale_window(LONGEST_SPAN / 2), LONGEST_SPAN - 1);
}
