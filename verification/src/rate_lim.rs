//! Admission control: a hard quota of requests per client address and clock
//! minute, counted in the auxiliary store.
//!
//! Every request is counted before anything else is done with it, in one
//! atomic command that increments the counter of its bucket and renews the
//! bucket's time to live. A request whose count is over the limit is rejected.
//! The limiter fails closed: a request whose address is unknown, or whose count
//! cannot be had, is rejected too.
pub mod window;

use crate::errors::{CustomError, ErrorView};
use crate::text::{decimal, decimal_string};
use vstd::prelude::*;
use vstd::string::*;

verus! {

/// The quota a limiter is given where nothing else is configured.
pub const CONNECTIONS_LIMIT: u64 = 500;

/// Seconds a bucket lives after the last request counted in it.
pub const WINDOW_SECS: u64 = 60;

/// Seconds the auxiliary store is given to count a request. A request whose
/// count takes longer is turned away, so that a store that does not answer
/// cannot hold requests up without end.
pub const COUNT_TIMEOUT_SECS: u64 = 5;

/// The error that stands for a count that did not come in time.
pub open spec fn timed_out() -> ErrorView {
    ErrorView::RedisError("Counting the request timed out"@)
}

/// What every bucket's key begins with.
pub open spec fn key_prefix() -> Seq<char> {
    "RATE_LIMIT_"@
}

/// The key of the bucket that counts the requests of `addr` in clock minute
/// `minute`: prefix, address and minute, joined by colons.
pub open spec fn bucket_key(addr: Seq<char>, minute: u32) -> Seq<char> {
    key_prefix() + ":"@ + addr + ":"@ + decimal(minute as nat)
}

/// The detail of the error that rejects a request without a peer address.
pub open spec fn no_address() -> ErrorView {
    ErrorView::InternalError("Can't parse peer address"@)
}

/// The error that answers an event that the admission was not waiting for.
pub open spec fn out_of_turn() -> ErrorView {
    ErrorView::InternalError("Event does not fit the state of the admission"@)
}

/// How far the admission of one request has come.
#[derive(Clone, Copy, Debug, PartialEq, Eq, Structural)]
pub enum Stage {
    /// Nothing has been done yet.
    Start,
    /// The request is being counted.
    Counting,
    /// The request may go on to the next stage of processing.
    Forwarded,
    /// The request has been turned away.
    Rejected,
}

/// What has happened since the limiter last spoke.
#[derive(Debug)]
pub enum Tick {
    /// The request has arrived, in this minute of the hour by the UTC clock.
    Arrived { minute: u32 },
    /// The auxiliary store has counted the request, or has failed to.
    Counted(Result<u64, CustomError>),
}

/// The mathematical content of a [`Tick`].
pub enum TickView {
    Arrived { minute: u32 },
    Counted(Result<u64, ErrorView>),
}

impl View for Tick {
    type V = TickView;

    open spec fn view(&self) -> TickView {
        match *self {
            Tick::Arrived { minute } => TickView::Arrived { minute },
            Tick::Counted(Ok(count)) => TickView::Counted(Ok(count)),
            Tick::Counted(Err(error)) => TickView::Counted(Err(error@)),
        }
    }
}

/// What the limiter wants done next.
#[derive(Debug)]
pub enum Admission {
    /// Add `amount` to the counter under `key` and let it expire `ttl` seconds
    /// from now, in one atomic command; report the new count.
    Count { key: String, amount: u64, ttl: u64 },
    /// Let the request through.
    Forward,
    /// Turn the request away with this error.
    Reject(CustomError),
}

/// The mathematical content of an [`Admission`].
pub enum AdmissionView {
    Count { key: Seq<char>, amount: u64, ttl: u64 },
    Forward,
    Reject(ErrorView),
}

impl View for Admission {
    type V = AdmissionView;

    open spec fn view(&self) -> AdmissionView {
        match *self {
            Admission::Count { key, amount, ttl } => AdmissionView::Count { key: key@, amount, ttl },
            Admission::Forward => AdmissionView::Forward,
            Admission::Reject(error) => AdmissionView::Reject(error@),
        }
    }
}

/// The limiter: the quota that holds for every client address.
#[derive(Clone, Copy, Debug)]
pub struct RateLimiter {
    limit: u64,
}

/// The limiter as it stands in front of one service.
#[derive(Clone, Copy, Debug)]
pub struct RateLimiterMiddleware {
    limit: u64,
}

/// The admission of one request.
#[derive(Debug)]
pub struct RateLimiterFuture {
    addr: Option<String>,
    limit: u64,
    stage: Stage,
}

/// The mathematical content of a [`RateLimiterFuture`]: the peer address as
/// far as it is known, the quota and the stage reached.
pub struct EntryView {
    pub addr: Option<Seq<char>>,
    pub limit: u64,
    pub stage: Stage,
}

impl View for RateLimiterFuture {
    type V = EntryView;

    closed spec fn view(&self) -> EntryView {
        EntryView {
            addr: match self.addr {
                Some(addr) => Some(addr@),
                None => None,
            },
            limit: self.limit,
            stage: self.stage,
        }
    }
}

impl EntryView {
    /// The admission of a request from `addr` under the quota `limit`, before
    /// anything has happened.
    pub open spec fn new(addr: Option<Seq<char>>, limit: u64) -> EntryView {
        EntryView { addr, limit, stage: Stage::Start }
    }

    /// The request is turned away with `error`.
    pub open spec fn reject(self, error: ErrorView) -> (EntryView, AdmissionView) {
        (EntryView { stage: Stage::Rejected, ..self }, AdmissionView::Reject(error))
    }

    /// The request has arrived in `minute`: without an address it is turned
    /// away, with one it is counted in the bucket of that address and minute.
    pub open spec fn arrive(self, minute: u32) -> (EntryView, AdmissionView) {
        match self.addr {
            None => self.reject(no_address()),
            Some(addr) => (
                EntryView { stage: Stage::Counting, ..self },
                AdmissionView::Count {
                    key: bucket_key(addr, minute),
                    amount: 1,
                    ttl: WINDOW_SECS,
                },
            ),
        }
    }

    /// The request is the `count`-th of its bucket: it goes through unless
    /// that is more than the quota allows.
    pub open spec fn judge(self, count: u64) -> (EntryView, AdmissionView) {
        if count > self.limit {
            self.reject(ErrorView::TooManyRequests { actual: count, max: self.limit })
        } else {
            (EntryView { stage: Stage::Forwarded, ..self }, AdmissionView::Forward)
        }
    }

    /// What the limiter does with an event.
    pub open spec fn poll(self, tick: TickView) -> (EntryView, AdmissionView) {
        match (self.stage, tick) {
            (Stage::Start, TickView::Arrived { minute }) => self.arrive(minute),
            (Stage::Counting, TickView::Counted(Ok(count))) => self.judge(count),
            (Stage::Counting, TickView::Counted(Err(error))) => self.reject(error),
            (Stage::Forwarded, _) => (self, AdmissionView::Forward),
            _ => self.reject(out_of_turn()),
        }
    }
}

impl RateLimiter {
    /// A limiter that lets `limit` requests a minute through for every address.
    pub fn new(limit: u64) -> (limiter: Self)
        ensures
            limiter.limit() == limit,
    {
        RateLimiter { limit }
    }

    /// The quota.
    pub closed spec fn limit(&self) -> u64 {
        self.limit
    }

    /// The quota.
    #[verifier::when_used_as_spec(limit)]
    pub fn max_requests(&self) -> (limit: u64)
        ensures
            limit == self.limit(),
    {
        self.limit
    }

    /// The limiter put in front of a service: it keeps the quota.
    pub fn new_transform(&self) -> (middleware: RateLimiterMiddleware)
        ensures
            middleware.limit() == self.limit(),
    {
        RateLimiterMiddleware::new(self.limit)
    }
}

impl Default for RateLimiter {
    /// The limiter with the quota of [`CONNECTIONS_LIMIT`].
    fn default() -> (limiter: Self)
        ensures
            limiter.limit() == CONNECTIONS_LIMIT,
    {
        RateLimiter::new(CONNECTIONS_LIMIT)
    }
}

impl RateLimiterMiddleware {
    /// The limiter with quota `limit` in front of a service.
    pub fn new(limit: u64) -> (middleware: Self)
        ensures
            middleware.limit() == limit,
    {
        RateLimiterMiddleware { limit }
    }

    /// The quota.
    pub closed spec fn limit(&self) -> u64 {
        self.limit
    }

    /// The admission of a request whose peer address is `addr`, as far as the
    /// connection could tell it.
    pub fn call(&self, addr: Option<String>) -> (entry: RateLimiterFuture)
        ensures
            entry@ == EntryView::new(
                match addr {
                    Some(addr) => Some(addr@),
                    None => None,
                },
                self.limit(),
            ),
    {
        RateLimiterFuture::new(addr, self.limit)
    }
}

/// The minute of the hour that the UTC clock shows now.
///
/// Calls `chrono::Utc::now` and reads `chrono::Timelike::minute` of what it
/// returns. The contract claims only what the latter documents, a number from
/// 0 to 59; which one depends on the clock. `Utc::now` does not return where
/// the system clock stands before 1970.
#[verifier::external_body]
fn current_minute() -> (minute: u32)
    ensures
        minute < 60,
{
    chrono::Timelike::minute(&chrono::Utc::now())
}

/// Writes the key of the bucket of `addr` and `minute`.
pub fn bucket_key_string(addr: &str, minute: u32) -> (key: String)
    ensures
        key@ == bucket_key(addr@, minute),
{
    let mut key = "RATE_LIMIT_".to_owned();
    key.append(":");
    key.append(addr);
    key.append(":");
    key.append(decimal_string(minute as u64).as_str());
    key
}

impl RateLimiterFuture {
    /// The admission of a request from `addr` under the quota `limit`.
    pub fn new(addr: Option<String>, limit: u64) -> (entry: Self)
        ensures
            entry@ == EntryView::new(
                match addr {
                    Some(addr) => Some(addr@),
                    None => None,
                },
                limit,
            ),
    {
        RateLimiterFuture { addr, limit, stage: Stage::Start }
    }

    /// The event that tells the limiter that the count did not come within
    /// [`COUNT_TIMEOUT_SECS`]: a failure of the auxiliary store.
    pub fn count_timed_out() -> (tick: Tick)
        ensures
            tick@ == TickView::Counted(Err(timed_out())),
    {
        Tick::Counted(Err(CustomError::RedisError("Counting the request timed out".to_owned())))
    }

    /// The stage the admission has reached.
    pub fn stage(&self) -> (stage: Stage)
        ensures
            stage == self@.stage,
    {
        self.stage
    }

    fn reject(self, error: CustomError) -> (next: (RateLimiterFuture, Admission))
        ensures
            (next.0@, next.1@) == self@.reject(error@),
    {
        (
            RateLimiterFuture { addr: self.addr, limit: self.limit, stage: Stage::Rejected },
            Admission::Reject(error),
        )
    }

    fn arrive(self, minute: u32) -> (next: (RateLimiterFuture, Admission))
        ensures
            (next.0@, next.1@) == self@.arrive(minute),
    {
        match &self.addr {
            None => self.reject(CustomError::InternalError("Can't parse peer address".to_owned())),
            Some(addr) => {
                let key = bucket_key_string(addr.as_str(), minute);
                (
                    RateLimiterFuture {
                        addr: self.addr,
                        limit: self.limit,
                        stage: Stage::Counting,
                    },
                    Admission::Count { key, amount: 1, ttl: WINDOW_SECS },
                )
            },
        }
    }

    fn judge(self, count: u64) -> (next: (RateLimiterFuture, Admission))
        ensures
            (next.0@, next.1@) == self@.judge(count),
    {
        if count > self.limit {
            let max = self.limit;
            self.reject(CustomError::TooManyRequests { actual: count, max })
        } else {
            (
                RateLimiterFuture { addr: self.addr, limit: self.limit, stage: Stage::Forwarded },
                Admission::Forward,
            )
        }
    }

    /// Takes an event and says what is to be done next.
    ///
    /// A request that has been let through stays let through. Any other event
    /// that does not fit the stage reached turns the request away.
    pub fn poll(self, tick: Tick) -> (next: (RateLimiterFuture, Admission))
        ensures
            (next.0@, next.1@) == self@.poll(tick@),
    {
        match self.stage {
            Stage::Start => match tick {
                Tick::Arrived { minute } => self.arrive(minute),
                _ => self.reject(
                    CustomError::InternalError(
                        "Event does not fit the state of the admission".to_owned(),
                    ),
                ),
            },
            Stage::Counting => match tick {
                Tick::Counted(Ok(count)) => self.judge(count),
                Tick::Counted(Err(error)) => self.reject(error),
                _ => self.reject(
                    CustomError::InternalError(
                        "Event does not fit the state of the admission".to_owned(),
                    ),
                ),
            },
            Stage::Forwarded => (self, Admission::Forward),
            Stage::Rejected => self.reject(
                CustomError::InternalError(
                    "Event does not fit the state of the admission".to_owned(),
                ),
            ),
        }
    }

    /// Tells the limiter that the request has arrived now, by the UTC clock.
    pub fn begin(self) -> (next: (RateLimiterFuture, Admission))
        ensures
            exists|minute: u32|
                minute < 60 && (next.0@, next.1@) == #[trigger] self@.poll(
                    TickView::Arrived { minute },
                ),
    {
        let minute = current_minute();
        let next = self.poll(Tick::Arrived { minute });
        assert((next.0@, next.1@) == self@.poll(TickView::Arrived { minute }));
        next
    }
}

} // verus!
