//! Fixed-window rate limiting, keyed by client identity and method.

use vstd::prelude::*;

use crate::foreign::{
    bucket_at, bucket_entries, BucketTable, bucket_table_get, bucket_table_insert, bucket_table_new,
};

verus! {

/// Length of one window, in nanoseconds of the monotonic clock.
pub const WINDOW_NANOS: u64 = 60_000_000_000;

/// A bucket is a request count and the instant its window began.
pub type Bucket = (u32, u64);

/// The identity a client is counted under: the forwarded-for value, or
/// `local` when there is none.
pub open spec fn client_of(forwarded_for: Option<Seq<char>>) -> Seq<char> {
    match forwarded_for {
        Some(c) => c,
        None => "local"@,
    }
}

/// The key of the bucket for a client and a method.
pub open spec fn bucket_key(forwarded_for: Option<Seq<char>>, method: Seq<char>) -> Seq<char> {
    client_of(forwarded_for) + ":"@ + method
}

/// One request at instant `now` against the bucket `b` (`None` when the key
/// has not been seen): the bucket afterwards, and whether the request is
/// limited. A window older than a minute restarts with this request counted,
/// except under a limit of zero, which blocks every request and restarts the
/// window empty; otherwise a full bucket rejects without counting, and any
/// other admits and counts.
pub open spec fn step(b: Option<Bucket>, now: u64, limit: u32) -> (Bucket, bool) {
    let cur: Bucket = match b {
        Some(x) => x,
        None => (0u32, now),
    };
    if now > cur.1 && now - cur.1 > WINDOW_NANOS {
        if limit == 0 {
            ((0u32, now), true)
        } else {
            ((1u32, now), false)
        }
    } else if cur.0 >= limit {
        (cur, true)
    } else {
        (((cur.0 + 1) as u32, cur.1), false)
    }
}

/// Executable form of [`step`].
pub fn rate_step(b: Option<Bucket>, now: u64, limit: u32) -> (r: (Bucket, bool))
    ensures
        r == step(b, now, limit),
{
    let cur: Bucket = match b {
        Some(x) => x,
        None => (0u32, now),
    };
    if now > cur.1 && now - cur.1 > WINDOW_NANOS {
        if limit == 0 {
            ((0u32, now), true)
        } else {
            ((1u32, now), false)
        }
    } else if cur.0 >= limit {
        (cur, true)
    } else {
        ((cur.0 + 1, cur.1), false)
    }
}

/// How many of the requests at `times`, taken in order from bucket `b`, are admitted.
pub open spec fn admissions(b: Bucket, times: Seq<u64>, limit: u32) -> nat
    decreases times.len(),
{
    if times.len() == 0 {
        0
    } else {
        let (next, limited) = step(Some(b), times[0], limit);
        (if limited { 0nat } else { 1nat }) + admissions(next, times.drop_first(), limit)
    }
}

/// Within one window no more than the limit is admitted: from a bucket whose
/// count is within the limit, requests at instants no later than a minute after
/// the window began are admitted at most `limit - count` times.
pub proof fn lemma_window_admits_at_most_limit(b: Bucket, times: Seq<u64>, limit: u32)
    requires
        b.0 <= limit,
        forall|i: int| 0 <= i < times.len() ==> b.1 <= #[trigger] times[i] && times[i] - b.1 <= WINDOW_NANOS,
    ensures
        admissions(b, times, limit) + b.0 <= limit,
    decreases times.len(),
{
    if times.len() > 0 {
        let next = step(Some(b), times[0], limit).0;
        assert(next.1 == b.1);
        assert forall|i: int| 0 <= i < times.drop_first().len() implies next.1 <= #[trigger] times.drop_first()[i]
            && times.drop_first()[i] - next.1 <= WINDOW_NANOS by {
            assert(times.drop_first()[i] == times[i + 1]);
        }
        lemma_window_admits_at_most_limit(next, times.drop_first(), limit);
    }
}

/// A bucket never counts past the limit: every bucket the limiter creates or
/// updates stays within it. A limit of zero blocks every request.
pub proof fn lemma_count_stays_within_limit(b: Option<Bucket>, now: u64, limit: u32)
    requires
        b matches Some(x) ==> x.0 <= limit,
    ensures
        step(b, now, limit).0.0 <= limit,
        limit == 0 ==> step(b, now, limit).1,
{
}

/// The text of a bucket key: the client, a colon, then the method.
fn key_text(client: &str, method: &str) -> (r: String)
    ensures
        r@ == client@ + ":"@ + method@,
{
    let mut key = client.to_owned();
    key.append(":");
    key.append(method);
    key
}

/// The per-key window counters shared by all requests.
pub struct RateLimiter {
    buckets: BucketTable,
}

impl RateLimiter {
    /// The buckets by key.
    pub closed spec fn view(&self) -> Map<Seq<char>, Bucket> {
        bucket_entries(self.buckets)
    }

    /// A limiter that has seen no request.
    pub fn new() -> (r: RateLimiter)
        ensures
            r.view().dom() == Set::<Seq<char>>::empty(),
    {
        RateLimiter { buckets: bucket_table_new() }
    }

    /// Counts one request of `method` from the client `forwarded_for` at
    /// instant `now` and tells whether it is limited. Only that client's and
    /// method's bucket changes.
    pub fn is_rate_limited(&mut self, forwarded_for: Option<&str>, method: &str, limit: u32, now: u64) -> (r: bool)
        ensures
            ({
                let key = bucket_key(
                    match forwarded_for { Some(c) => Some(c@), None => None },
                    method@,
                );
                let (next, limited) = step(bucket_at(old(self).view(), key), now, limit);
                &&& r == limited
                &&& final(self).view() == old(self).view().insert(key, next)
            }),
            limit == 0 ==> r,
    {
        let key = match forwarded_for {
            Some(c) => key_text(c, method),
            None => key_text("local", method),
        };
        let current = bucket_table_get(&self.buckets, &key);
        let (next, limited) = rate_step(current, now, limit);
        bucket_table_insert(&mut self.buckets, key, next);
        limited
    }
}

} // verus!
