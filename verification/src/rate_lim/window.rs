//! What the quota amounts to over time, shown against a model of the counters
//! of the auxiliary store.
//!
//! The model is the store as the limiter relies on it: a counter lives under a
//! key until its time to live has run out, and incrementing a counter and
//! renewing its time to live is one indivisible command. Time is counted in
//! seconds; the minute of the hour is read off it as the UTC clock shows it.
use crate::errors::ErrorView;
use crate::rate_lim::{bucket_key, key_prefix, AdmissionView, EntryView, TickView, WINDOW_SECS};
use crate::text::{decimal, is_digit, lemma_decimal_digits, lemma_decimal_injective};
use vstd::prelude::*;

verus! {

/// One counter: its value, and the instant from which it is gone.
pub struct Bucket {
    pub count: nat,
    pub expires_at: nat,
}

/// The counters of the auxiliary store, by key.
pub struct Counters {
    pub buckets: Map<Seq<char>, Bucket>,
}

impl Counters {
    /// No counter at all.
    pub open spec fn empty() -> Counters {
        Counters { buckets: Map::empty() }
    }

    /// The value under `key` at the instant `now`: that of the counter if
    /// there is one that has not expired, and zero otherwise.
    pub open spec fn live(self, key: Seq<char>, now: nat) -> nat {
        if self.buckets.contains_key(key) && now < self.buckets[key].expires_at {
            self.buckets[key].count
        } else {
            0
        }
    }

    /// The counters after `amount` was added under `key` at the instant `now`
    /// and the key was given `ttl` more seconds to live.
    pub open spec fn increment_and_expire(
        self,
        key: Seq<char>,
        amount: nat,
        ttl: nat,
        now: nat,
    ) -> Counters {
        Counters {
            buckets: self.buckets.insert(
                key,
                Bucket { count: self.live(key, now) + amount, expires_at: now + ttl },
            ),
        }
    }
}

/// The minute of the hour at the instant `now`.
pub open spec fn minute_of(now: nat) -> u32 {
    ((now / 60) % 60) as u32
}

/// The admission of one request at the instant `now`, from its arrival to
/// the decision on it: the counters afterwards, and what was decided.
pub open spec fn serve(limit: u64, addr: Option<Seq<char>>, counters: Counters, now: nat) -> (
    Counters,
    AdmissionView,
) {
    let (counting, first) = EntryView::new(addr, limit).poll(
        TickView::Arrived { minute: minute_of(now) },
    );
    match first {
        AdmissionView::Count { key, amount, ttl } => {
            let counted = counters.increment_and_expire(key, amount as nat, ttl as nat, now);
            let verdict = counting.poll(TickView::Counted(Ok(counted.live(key, now) as u64))).1;
            (counted, verdict)
        },
        _ => (counters, first),
    }
}

/// The verdict on the `count`-th request of a bucket under the quota `limit`.
pub open spec fn verdict_on(count: nat, limit: u64) -> AdmissionView {
    if count <= limit {
        AdmissionView::Forward
    } else {
        AdmissionView::Reject(ErrorView::TooManyRequests { actual: count as u64, max: limit })
    }
}

/// A request with a known address is counted exactly once in the bucket of
/// its address and minute, whatever becomes of it, and is let through if and
/// only if its count is within the quota; the rejection carries the count and
/// the quota.
pub proof fn lemma_serve_counts_then_judges(
    limit: u64,
    addr: Seq<char>,
    counters: Counters,
    now: nat,
)
    requires
        counters.live(bucket_key(addr, minute_of(now)), now) < u64::MAX,
    ensures
        ({
            let key = bucket_key(addr, minute_of(now));
            let count = counters.live(key, now) + 1;
            &&& serve(limit, Some(addr), counters, now).0 == counters.increment_and_expire(
                key,
                1,
                WINDOW_SECS as nat,
                now,
            )
            &&& serve(limit, Some(addr), counters, now).0.live(key, now) == count
            &&& serve(limit, Some(addr), counters, now).1 == verdict_on(count, limit)
        }),
{
}

/// A request whose address is unknown is turned away as an internal error,
/// and is not counted.
pub proof fn lemma_serve_without_address(limit: u64, counters: Counters, now: nat)
    ensures
        serve(limit, None, counters, now) == (
            counters,
            AdmissionView::Reject(crate::rate_lim::no_address()),
        ),
{
}

/// The requests of one address at the instants `times`, admitted one after
/// the other: the counters afterwards, and the verdicts in that order.
pub open spec fn serve_all(limit: u64, addr: Seq<char>, counters: Counters, times: Seq<nat>) -> (
    Counters,
    Seq<AdmissionView>,
)
    decreases times.len(),
{
    if times.len() == 0 {
        (counters, Seq::empty())
    } else {
        let (before, verdicts) = serve_all(limit, addr, counters, times.drop_last());
        let (after, verdict) = serve(limit, Some(addr), before, times.last());
        (after, verdicts.push(verdict))
    }
}

/// Whether every instant of `times` lies in the clock minute that begins at
/// second `60 * minute_start`.
pub open spec fn within_minute(times: Seq<nat>, minute_start: nat) -> bool {
    forall|i: int| 0 <= i < times.len() ==> #[trigger] times[i] / 60 == minute_start
}

/// Requests of one address within one clock minute, in whatever order they
/// reach the store, are each counted once: the `k`-th is let through if and
/// only if `k` is within the quota, the rejection of a later one carries `k`
/// and the quota, and the counter ends at the number of requests.
///
/// Each request is one indivisible command to the store, so that every
/// interleaving of concurrent requests is one such order.
pub proof fn lemma_burst_within_minute(
    limit: u64,
    addr: Seq<char>,
    counters: Counters,
    times: Seq<nat>,
    minute_start: nat,
)
    requires
        within_minute(times, minute_start),
        times.len() <= u64::MAX,
        counters.live(bucket_key(addr, minute_of(60 * minute_start)), 60 * minute_start) == 0,
    ensures
        serve_all(limit, addr, counters, times).1.len() == times.len(),
        forall|k: int|
            0 <= k < times.len() ==> #[trigger] serve_all(limit, addr, counters, times).1[k]
                == verdict_on((k + 1) as nat, limit),
        forall|now: nat|
            times.len() > 0 && now / 60 == minute_start ==> #[trigger] serve_all(
                limit,
                addr,
                counters,
                times,
            ).0.live(bucket_key(addr, minute_of(now)), now) == times.len(),
    decreases times.len(),
{
    let key = bucket_key(addr, minute_of(60 * minute_start));
    if times.len() > 0 {
        let earlier = times.drop_last();
        let last = times.last();
        assert(within_minute(earlier, minute_start)) by {
            assert forall|i: int| 0 <= i < earlier.len() implies #[trigger] earlier[i] / 60
                == minute_start by {
                assert(earlier[i] == times[i]);
            }
        }
        lemma_burst_within_minute(limit, addr, counters, earlier, minute_start);
        let (before, verdicts) = serve_all(limit, addr, counters, earlier);
        assert(last == times[times.len() - 1]);
        assert(last / 60 == minute_start);
        assert(minute_of(last) == minute_of(60 * minute_start));
        assert(before.live(key, last) == earlier.len()) by {
            if earlier.len() == 0 {
            } else {
                assert(before.live(bucket_key(addr, minute_of(last)), last) == earlier.len());
            }
        }
        lemma_serve_counts_then_judges(limit, addr, before, last);
        let (after, verdicts_after) = serve_all(limit, addr, counters, times);
        assert(verdicts_after == verdicts.push(verdict_on(times.len(), limit)));
        assert forall|now: nat| now / 60 == minute_start implies #[trigger] after.live(
            bucket_key(addr, minute_of(now)),
            now,
        ) == times.len() by {
            assert(minute_of(now) == minute_of(60 * minute_start));
        }
    }
}

/// The key of a bucket tells its address and its minute: two buckets with the
/// same key are the same bucket.
pub proof fn lemma_bucket_key_injective(addr1: Seq<char>, minute1: u32, addr2: Seq<char>, minute2: u32)
    requires
        bucket_key(addr1, minute1) == bucket_key(addr2, minute2),
    ensures
        addr1 == addr2,
        minute1 == minute2,
{
    reveal_strlit(":");
    let colon = ":"@;
    let lead = key_prefix() + colon;
    let digits1 = decimal(minute1 as nat);
    let digits2 = decimal(minute2 as nat);
    let head1 = lead + addr1 + colon;
    let head2 = lead + addr2 + colon;
    let key = bucket_key(addr1, minute1);
    assert(key == head1 + digits1);
    assert(key == head2 + digits2);
    lemma_decimal_digits(minute1 as nat);
    lemma_decimal_digits(minute2 as nat);
    assert(head1.last() == ':');
    assert(head2.last() == ':');
    assert(!is_digit(':'));
    if digits1.len() < digits2.len() {
        let at = head1.len() - 1;
        assert((head1 + digits1)[at] == ':');
        assert((head2 + digits2)[at] == digits2[at - head2.len()]);
        assert(is_digit(digits2[at - head2.len()]));
        assert(false);
    }
    if digits2.len() < digits1.len() {
        let at = head2.len() - 1;
        assert((head2 + digits2)[at] == ':');
        assert((head1 + digits1)[at] == digits1[at - head1.len()]);
        assert(is_digit(digits1[at - head1.len()]));
        assert(false);
    }
    assert(head1.len() == head2.len());
    assert(digits1 =~= key.subrange(head1.len() as int, key.len() as int));
    assert(digits2 =~= key.subrange(head2.len() as int, key.len() as int));
    lemma_decimal_injective(minute1 as nat, minute2 as nat);
    assert(head1 =~= key.subrange(0, head1.len() as int));
    assert(head2 =~= key.subrange(0, head2.len() as int));
    assert(addr1 =~= head1.subrange(lead.len() as int, head1.len() - 1));
    assert(addr2 =~= head2.subrange(lead.len() as int, head2.len() - 1));
}

/// The instant at which a counter was last written: one window before it
/// expires.
pub open spec fn written_at(bucket: Bucket) -> int {
    bucket.expires_at - WINDOW_SECS
}

/// Whether the counters can have come about by `now` through admissions
/// alone: every bucket was last written at an instant not after `now`, in the
/// minute of the hour that its key names.
pub open spec fn well_aged(counters: Counters, now: nat) -> bool {
    forall|addr: Seq<char>, minute: u32|
        counters.buckets.contains_key(#[trigger] bucket_key(addr, minute)) ==> {
            let written = written_at(counters.buckets[bucket_key(addr, minute)]);
            0 <= written <= now && minute_of(written as nat) == minute
        }
}

/// Before the first request there is no counter, which is well aged.
pub proof fn lemma_empty_is_well_aged(now: nat)
    ensures
        well_aged(Counters::empty(), now),
{
}

/// Admissions keep the counters well aged as time goes on.
pub proof fn lemma_serve_keeps_well_aged(
    limit: u64,
    addr: Option<Seq<char>>,
    counters: Counters,
    earlier: nat,
    now: nat,
)
    requires
        well_aged(counters, earlier),
        earlier <= now,
    ensures
        well_aged(serve(limit, addr, counters, now).0, now),
{
    let after = serve(limit, addr, counters, now).0;
    assert forall|other: Seq<char>, minute: u32|
        after.buckets.contains_key(#[trigger] bucket_key(other, minute)) implies ({
        let written = written_at(after.buckets[bucket_key(other, minute)]);
        0 <= written <= now && minute_of(written as nat) == minute
    }) by {
        match addr {
            Some(known) => {
                if bucket_key(other, minute) == bucket_key(known, minute_of(now)) {
                    lemma_bucket_key_injective(other, minute, known, minute_of(now));
                } else {
                    assert(counters.buckets.contains_key(bucket_key(other, minute)));
                }
            },
            None => {},
        }
    }
}

/// The first request that an address makes in a clock minute is counted as
/// the first, whatever the address did in earlier minutes: nothing is carried
/// over. Under a quota of at least one it is let through.
pub proof fn lemma_new_minute_starts_at_one(
    limit: u64,
    addr: Seq<char>,
    counters: Counters,
    earlier: nat,
    now: nat,
)
    requires
        well_aged(counters, earlier),
        earlier <= now,
        counters.buckets.contains_key(bucket_key(addr, minute_of(now))) ==> written_at(
            counters.buckets[bucket_key(addr, minute_of(now))],
        ) / 60 != now / 60,
    ensures
        serve(limit, Some(addr), counters, now).0.live(bucket_key(addr, minute_of(now)), now) == 1,
        serve(limit, Some(addr), counters, now).1 == verdict_on(1, limit),
        limit >= 1 ==> serve(limit, Some(addr), counters, now).1 == AdmissionView::Forward,
{
    let key = bucket_key(addr, minute_of(now));
    if counters.buckets.contains_key(key) {
        let written = written_at(counters.buckets[key]);
        assert(0 <= written <= earlier && minute_of(written as nat) == minute_of(now));
        assert(written / 60 <= now / 60);
        assert(written + 60 <= now);
    }
    assert(counters.live(key, now) == 0);
    lemma_serve_counts_then_judges(limit, addr, counters, now);
}

} // verus!
