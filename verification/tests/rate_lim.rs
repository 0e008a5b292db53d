use boards_back::errors::CustomError;
use boards_back::rate_lim::{
    bucket_key_string, Admission, RateLimiter, RateLimiterFuture, RateLimiterMiddleware, Stage,
    Tick, CONNECTIONS_LIMIT, COUNT_TIMEOUT_SECS, WINDOW_SECS,
};
use std::collections::HashMap;

const ADDR: &str = "127.0.0.1:51234";

/// Counters with a time to live, as the auxiliary store keeps them.
struct Counters {
    buckets: HashMap<String, (u64, u64)>,
}

fn increment_and_expire(counters: &mut Counters, key: &str, amount: u64, ttl: u64, now: u64) -> u64 {
    let live = match counters.buckets.get(key) {
        Some((count, expires_at)) if now < *expires_at => *count,
        _ => 0,
    };
    counters.buckets.insert(key.to_string(), (live + amount, now + ttl));
    live + amount
}

/// One request at the instant `now`, from arrival to verdict.
fn serve(limiter: &RateLimiter, counters: &mut Counters, addr: Option<&str>, now: u64) -> Admission {
    let entry = limiter.new_transform().call(addr.map(|a| a.to_string()));
    let minute = ((now / 60) % 60) as u32;
    let (entry, first) = entry.poll(Tick::Arrived { minute });
    match first {
        Admission::Count { key, amount, ttl } => {
            assert_eq!(entry.stage(), Stage::Counting);
            let count = increment_and_expire(counters, &key, amount, ttl, now);
            entry.poll(Tick::Counted(Ok(count))).1
        }
        other => other,
    }
}

#[test]
fn reference_quota_and_window() {
    assert_eq!(CONNECTIONS_LIMIT, 500);
    assert_eq!(WINDOW_SECS, 60);
    assert_eq!(RateLimiter::default().max_requests(), 500);
    assert_eq!(RateLimiter::new(7).max_requests(), 7);
}

#[test]
fn key_is_prefix_address_and_minute() {
    assert_eq!(bucket_key_string(ADDR, 7), "RATE_LIMIT_:127.0.0.1:51234:7");
    assert_eq!(bucket_key_string("[::1]:80", 59), "RATE_LIMIT_:[::1]:80:59");
    assert_eq!(bucket_key_string("", 0), "RATE_LIMIT_::0");
}

#[test]
fn arrival_asks_for_one_atomic_increment_with_the_window_as_ttl() {
    let entry = RateLimiterFuture::new(Some(ADDR.to_string()), 500);
    assert_eq!(entry.stage(), Stage::Start);
    let (entry, first) = entry.poll(Tick::Arrived { minute: 34 });
    assert_eq!(entry.stage(), Stage::Counting);
    match first {
        Admission::Count { key, amount, ttl } => {
            assert_eq!(key, "RATE_LIMIT_:127.0.0.1:51234:34");
            assert_eq!(amount, 1);
            assert_eq!(ttl, 60);
        }
        other => panic!("{:?}", other),
    }
}

#[test]
fn request_501_is_rejected_and_the_next_minute_starts_afresh() {
    let limiter = RateLimiter::new(500);
    let mut counters = Counters { buckets: HashMap::new() };
    let minute_start = 1_700_000_040;
    for request in 1..=500u64 {
        let verdict = serve(&limiter, &mut counters, Some(ADDR), minute_start + request % 60);
        assert!(matches!(verdict, Admission::Forward), "request {}", request);
    }
    match serve(&limiter, &mut counters, Some(ADDR), minute_start + 59) {
        Admission::Reject(CustomError::TooManyRequests { actual, max }) => {
            assert_eq!((actual, max), (501, 500));
        }
        other => panic!("{:?}", other),
    }
    let verdict = serve(&limiter, &mut counters, Some(ADDR), minute_start + 60);
    assert!(matches!(verdict, Admission::Forward));
}

#[test]
fn rejection_is_worded_with_count_and_quota() {
    let entry = RateLimiterFuture::new(Some(ADDR.to_string()), 500);
    let (entry, _) = entry.poll(Tick::Arrived { minute: 0 });
    let (entry, verdict) = entry.poll(Tick::Counted(Ok(501)));
    assert_eq!(entry.stage(), Stage::Rejected);
    match verdict {
        Admission::Reject(error) => {
            assert_eq!(error.to_string(), "Too many requests: 501 requests when 500 allowed");
            assert_eq!(error.status_code(), 429);
        }
        other => panic!("{:?}", other),
    }
}

#[test]
fn count_equal_to_the_quota_still_passes() {
    let entry = RateLimiterFuture::new(Some(ADDR.to_string()), 500);
    let (entry, _) = entry.poll(Tick::Arrived { minute: 0 });
    let (entry, verdict) = entry.poll(Tick::Counted(Ok(500)));
    assert_eq!(entry.stage(), Stage::Forwarded);
    assert!(matches!(verdict, Admission::Forward));
}

#[test]
fn every_request_is_counted_once_whatever_the_order() {
    let limiter = RateLimiter::new(10);
    let mut counters = Counters { buckets: HashMap::new() };
    let minute_start = 6_000;
    let times = [59, 3, 3, 41, 0, 17, 58, 58, 22, 9, 30, 1];
    let mut forwarded = 0;
    for offset in times {
        if let Admission::Forward = serve(&limiter, &mut counters, Some(ADDR), minute_start + offset)
        {
            forwarded += 1;
        }
    }
    assert_eq!(forwarded, 10);
    assert_eq!(counters.buckets["RATE_LIMIT_:127.0.0.1:51234:40"].0, 12);
}

#[test]
fn same_minute_of_the_next_hour_does_not_inherit_the_count() {
    let limiter = RateLimiter::new(2);
    let mut counters = Counters { buckets: HashMap::new() };
    for _ in 0..5 {
        serve(&limiter, &mut counters, Some(ADDR), 7_259);
    }
    assert!(matches!(serve(&limiter, &mut counters, Some(ADDR), 7_259), Admission::Reject(_)));
    assert!(matches!(serve(&limiter, &mut counters, Some(ADDR), 7_200 + 3_600), Admission::Forward));
}

#[test]
fn addresses_are_counted_apart() {
    let limiter = RateLimiter::new(1);
    let mut counters = Counters { buckets: HashMap::new() };
    assert!(matches!(serve(&limiter, &mut counters, Some("10.0.0.1:1"), 60), Admission::Forward));
    assert!(matches!(serve(&limiter, &mut counters, Some("10.0.0.1:1"), 61), Admission::Reject(_)));
    assert!(matches!(serve(&limiter, &mut counters, Some("10.0.0.1:11"), 61), Admission::Forward));
}

#[test]
fn unknown_peer_is_rejected_as_an_internal_error_and_not_counted() {
    let limiter = RateLimiter::new(500);
    let mut counters = Counters { buckets: HashMap::new() };
    match serve(&limiter, &mut counters, None, 60) {
        Admission::Reject(error) => {
            assert_eq!(error.to_string(), "Internal error: Can't parse peer address");
            assert_eq!(error.status_code(), 500);
        }
        other => panic!("{:?}", other),
    }
    assert!(counters.buckets.is_empty());
}

#[test]
fn limiter_fails_closed_when_the_count_cannot_be_had() {
    let entry = RateLimiterMiddleware::new(500).call(Some(ADDR.to_string()));
    let (entry, _) = entry.poll(Tick::Arrived { minute: 12 });
    let failure = CustomError::RedisError("broken pipe".to_string());
    let (entry, verdict) = entry.poll(Tick::Counted(Err(failure)));
    assert_eq!(entry.stage(), Stage::Rejected);
    match verdict {
        Admission::Reject(error) => assert_eq!(error.to_string(), "Redis error: broken pipe"),
        other => panic!("{:?}", other),
    }
}

#[test]
fn forwarded_request_stays_forwarded() {
    let entry = RateLimiterFuture::new(Some(ADDR.to_string()), 5);
    let (entry, _) = entry.poll(Tick::Arrived { minute: 12 });
    let (entry, _) = entry.poll(Tick::Counted(Ok(1)));
    let (entry, again) = entry.poll(Tick::Counted(Ok(99)));
    assert!(matches!(again, Admission::Forward));
    let (entry, again) = entry.poll(Tick::Arrived { minute: 13 });
    assert!(matches!(again, Admission::Forward));
    assert_eq!(entry.stage(), Stage::Forwarded);
}

#[test]
fn event_out_of_turn_rejects() {
    let entry = RateLimiterFuture::new(Some(ADDR.to_string()), 5);
    let (entry, verdict) = entry.poll(Tick::Counted(Ok(1)));
    assert_eq!(entry.stage(), Stage::Rejected);
    match verdict {
        Admission::Reject(error) => assert_eq!(
            error.to_string(),
            "Internal error: Event does not fit the state of the admission"
        ),
        other => panic!("{:?}", other),
    }
    let (_, verdict) = entry.poll(Tick::Arrived { minute: 1 });
    assert!(matches!(verdict, Admission::Reject(CustomError::InternalError(_))));
    let entry = RateLimiterFuture::new(Some(ADDR.to_string()), 5);
    let (entry, _) = entry.poll(Tick::Arrived { minute: 1 });
    let (_, verdict) = entry.poll(Tick::Arrived { minute: 1 });
    assert!(matches!(verdict, Admission::Reject(CustomError::InternalError(_))));
}

#[test]
fn zero_quota_lets_nothing_through() {
    let limiter = RateLimiter::new(0);
    let mut counters = Counters { buckets: HashMap::new() };
    match serve(&limiter, &mut counters, Some(ADDR), 0) {
        Admission::Reject(CustomError::TooManyRequests { actual, max }) => {
            assert_eq!((actual, max), (1, 0));
        }
        other => panic!("{:?}", other),
    }
}

#[test]
fn begin_reads_the_minute_off_the_clock() {
    let entry = RateLimiterFuture::new(Some(ADDR.to_string()), 500);
    let (entry, first) = entry.begin();
    assert_eq!(entry.stage(), Stage::Counting);
    match first {
        Admission::Count { key, amount, ttl } => {
            let minute: u32 = key.strip_prefix("RATE_LIMIT_:127.0.0.1:51234:").unwrap().parse().unwrap();
            assert!(minute < 60);
            assert_eq!(key, bucket_key_string(ADDR, minute));
            assert_eq!((amount, ttl), (1, 60));
        }
        other => panic!("{:?}", other),
    }
    let (entry, verdict) = RateLimiterFuture::new(None, 500).begin();
    assert_eq!(entry.stage(), Stage::Rejected);
    assert!(matches!(verdict, Admission::Reject(CustomError::InternalError(_))));
}

#[test]
fn count_that_does_not_come_in_time_rejects() {
    assert_eq!(COUNT_TIMEOUT_SECS, 5);
    let entry = RateLimiterFuture::new(Some(ADDR.to_string()), 500);
    let (entry, _) = entry.poll(Tick::Arrived { minute: 12 });
    let (entry, decision) = entry.poll(RateLimiterFuture::count_timed_out());
    assert_eq!(entry.stage(), Stage::Rejected);
    match decision {
        Admission::Reject(error) => {
            assert_eq!(error.to_string(), "Redis error: Counting the request timed out");
            assert_eq!(error.status_code(), 500);
        }
        other => panic!("{:?}", other),
    }
}
