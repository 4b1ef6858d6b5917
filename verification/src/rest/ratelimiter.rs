//! Rate limits, one bucket per route and one shared by all.
//!
//! Time is the number of seconds since the Unix epoch. The caller reads the
//! clock and passes the reading in.

use vstd::prelude::*;
use vstd::hash_map::StringHashMap;
use crate::text::{bytes_as_chars, chars_of_bytes, parse_i64, parse_i64_spec, parse_u64, parse_u64_spec};

verus! {

/// What the service said about one bucket.
#[derive(Debug, Clone, Copy, PartialEq, Eq, Structural)]
pub struct RateLimitState {
    /// Requests allowed in one window.
    pub limit: usize,
    /// Requests left in the current window.
    pub remaining: usize,
    /// When the current window ends.
    pub reset_at: i64,
}

/// The rate-limit headers of one response, as raw header values.
pub struct RateLimitHeaders {
    /// Whether the response carries `X-RateLimit-Global`.
    pub global: bool,
    /// The value of `X-RateLimit-Limit`.
    pub limit: Option<Vec<u8>>,
    /// The value of `X-RateLimit-Remaining`.
    pub remaining: Option<Vec<u8>>,
    /// The value of `X-RateLimit-Reset`.
    pub reset: Option<Vec<u8>>,
}

/// A rate-limit header held something other than a number that fits.
#[derive(Debug, Clone, Copy, PartialEq, Eq, Structural)]
pub struct MalformedHeader;

/// The count that a header value writes.
pub open spec fn header_count(value: Seq<u8>) -> Option<usize> {
    match parse_u64_spec(bytes_as_chars(value)) {
        Some(n) => if n <= usize::MAX {
            Some(n as usize)
        } else {
            None
        },
        None => None,
    }
}

/// The time that a header value writes.
pub open spec fn header_time(value: Seq<u8>) -> Option<i64> {
    parse_i64_spec(bytes_as_chars(value))
}

/// What a response's headers say about its bucket: nothing where one of the
/// three headers is missing, an error where one of them is no number.
pub open spec fn headers_state(h: RateLimitHeaders) -> Result<
    Option<RateLimitState>,
    MalformedHeader,
> {
    match (h.limit, h.remaining, h.reset) {
        (Some(limit), Some(remaining), Some(reset)) => match (
            header_count(limit@),
            header_count(remaining@),
            header_time(reset@),
        ) {
            (Some(limit), Some(remaining), Some(reset_at)) => Ok(
                Some(RateLimitState { limit, remaining, reset_at }),
            ),
            _ => Err(MalformedHeader),
        },
        _ => Ok(None),
    }
}

fn parse_count(value: &Vec<u8>) -> (r: Option<usize>)
    ensures
        r == header_count(value@),
{
    let chars = chars_of_bytes(value.as_slice());
    match parse_u64(&chars) {
        Some(n) => {
            if n <= usize::MAX as u64 {
                Some(n as usize)
            } else {
                None
            }
        },
        None => None,
    }
}

impl RateLimitState {
    /// Whether the window has ended by `now`.
    pub open spec fn expired(self, now: i64) -> bool {
        self.reset_at <= now
    }

    /// Whether the bucket holds a caller back at `now`: the window is still
    /// open and nothing is left in it.
    pub open spec fn exhausted(self, now: i64) -> bool {
        !self.expired(now) && self.remaining == 0
    }

    /// The bucket after one request was taken from it at `now`, and whether
    /// the request was allowed. An ended window allows everything and is left
    /// as it is: the next response brings the new one.
    pub open spec fn used(self, now: i64) -> (RateLimitState, bool) {
        if self.expired(now) {
            (self, true)
        } else if self.remaining == 0 {
            (self, false)
        } else {
            (
                RateLimitState {
                    limit: self.limit,
                    remaining: (self.remaining - 1) as usize,
                    reset_at: self.reset_at,
                },
                true,
            )
        }
    }

    /// What is left in the current window; `None` once the window has ended.
    pub fn get_remaining(&self, now: i64) -> (r: Option<usize>)
        ensures
            r == if self.expired(now) {
                None
            } else {
                Some(self.remaining)
            },
    {
        if self.reset_at <= now {
            return None;
        }
        Some(self.remaining)
    }

    /// Takes one request from the bucket; tells whether it was allowed.
    pub fn use_one(&mut self, now: i64) -> (allowed: bool)
        ensures
            (*final(self), allowed) == old(self).used(now),
    {
        if self.reset_at <= now {
            return true;
        }
        if self.remaining == 0 {
            false
        } else {
            self.remaining -= 1;
            true
        }
    }

    /// Seconds from `now` until the window ends; zero once it has ended.
    pub fn time_to_reset(&self, now: i64) -> (r: u64)
        ensures
            r == if self.reset_at > now {
                self.reset_at - now
            } else {
                0
            },
    {
        if self.reset_at > now {
            (self.reset_at as i128 - now as i128) as u64
        } else {
            0
        }
    }

    /// Reads the bucket's state from the rate-limit headers of a response.
    pub fn parse(headers: &RateLimitHeaders) -> (r: Result<Option<RateLimitState>, MalformedHeader>)
        ensures
            r == headers_state(*headers),
    {
        let (limit, remaining, reset) = match (&headers.limit, &headers.remaining, &headers.reset) {
            (Some(limit), Some(remaining), Some(reset)) => (limit, remaining, reset),
            _ => {
                return Ok(None);
            },
        };
        let limit = match parse_count(limit) {
            Some(limit) => limit,
            None => {
                return Err(MalformedHeader);
            },
        };
        let remaining = match parse_count(remaining) {
            Some(remaining) => remaining,
            None => {
                return Err(MalformedHeader);
            },
        };
        let chars = chars_of_bytes(reset.as_slice());
        let reset_at = match parse_i64(&chars) {
            Some(reset_at) => reset_at,
            None => {
                return Err(MalformedHeader);
            },
        };
        Ok(Some(RateLimitState { limit, remaining, reset_at }))
    }
}

/// The key of the bucket that all routes share.
pub open spec fn global_key() -> Seq<char> {
    "GLOBAL"@
}

/// The buckets, by key.
pub type Buckets = Map<Seq<char>, RateLimitState>;

/// Until when the bucket under `key` holds a caller back at `now`, if it does.
pub open spec fn bucket_wait(table: Buckets, key: Seq<char>, now: i64) -> Option<i64> {
    if table.contains_key(key) && table[key].exhausted(now) {
        Some(table[key].reset_at)
    } else {
        None
    }
}

/// The later of two optional times.
pub open spec fn later(a: Option<i64>, b: Option<i64>) -> Option<i64> {
    match (a, b) {
        (Some(x), Some(y)) => if x >= y {
            Some(x)
        } else {
            Some(y)
        },
        (Some(x), None) => Some(x),
        (None, y) => y,
    }
}

/// Until when a request on `endpoint` has to wait at `now`: the later of
/// what its own bucket and the shared bucket ask for.
pub open spec fn required_wait(table: Buckets, endpoint: Seq<char>, now: i64) -> Option<i64> {
    later(bucket_wait(table, endpoint, now), bucket_wait(table, global_key(), now))
}

/// The table after one request was taken from the bucket under `key`, and
/// whether that bucket allowed it. A bucket that is not there allows it.
pub open spec fn take_from(table: Buckets, key: Seq<char>, now: i64) -> (Buckets, bool) {
    if table.contains_key(key) {
        (table.insert(key, table[key].used(now).0), table[key].used(now).1)
    } else {
        (table, true)
    }
}

/// The table after one request was taken from the bucket of `endpoint` and
/// then from the shared bucket, and whether both allowed it.
pub open spec fn take_both(table: Buckets, endpoint: Seq<char>, now: i64) -> (Buckets, bool) {
    let first = take_from(table, endpoint, now);
    let second = take_from(first.0, global_key(), now);
    (second.0, first.1 && second.1)
}

/// The table after the headers of a response on `endpoint` were taken in:
/// headers that are missing or malformed change nothing.
pub open spec fn updated(table: Buckets, endpoint: Seq<char>, h: RateLimitHeaders) -> Buckets {
    match headers_state(h) {
        Ok(Some(state)) => table.insert(
            if h.global {
                global_key()
            } else {
                endpoint
            },
            state,
        ),
        _ => table,
    }
}

/// What a caller that wants to send a request has to do.
#[derive(Debug, Clone, Copy, PartialEq, Eq, Structural)]
pub enum Enforcement {
    /// One request was taken from both buckets: send.
    Granted,
    /// A bucket is empty: wait until the given time, then ask again.
    WaitUntil(i64),
    /// The last request of a bucket went elsewhere: ask again.
    Contended,
}

impl Enforcement {
    /// Seconds to wait at the time `now` before asking again; none unless
    /// the answer was to wait until a time that is still to come.
    pub fn wait_seconds(&self, now: i64) -> (r: u64)
        ensures
            r == match *self {
                Enforcement::WaitUntil(until) => if until > now {
                    until - now
                } else {
                    0
                },
                _ => 0,
            },
    {
        match self {
            Enforcement::WaitUntil(until) => {
                if *until > now {
                    (*until as i128 - now as i128) as u64
                } else {
                    0
                }
            },
            _ => 0,
        }
    }
}

/// What [`RateLimiter::enforce_limit`] answers and leaves behind.
pub open spec fn enforced(table: Buckets, endpoint: Seq<char>, now: i64) -> (Buckets, Enforcement) {
    match required_wait(table, endpoint, now) {
        Some(until) => (table, Enforcement::WaitUntil(until)),
        None => (
            take_both(table, endpoint, now).0,
            if take_both(table, endpoint, now).1 {
                Enforcement::Granted
            } else {
                Enforcement::Contended
            },
        ),
    }
}

/// The buckets of one client.
pub struct RateLimiter {
    rate_limits: StringHashMap<RateLimitState>,
}

impl View for RateLimiter {
    type V = Buckets;

    closed spec fn view(&self) -> Buckets {
        self.rate_limits@
    }
}

impl RateLimiter {
    /// A limiter that knows of no bucket yet.
    pub fn new() -> (r: RateLimiter)
        ensures
            r@ == Map::<Seq<char>, RateLimitState>::empty(),
    {
        RateLimiter { rate_limits: StringHashMap::new() }
    }

    /// Until when the bucket under `key` holds a caller back at `now`.
    fn wait_on(&self, key: &str, now: i64) -> (r: Option<i64>)
        ensures
            r == bucket_wait(self@, key@, now),
    {
        match self.rate_limits.get(key) {
            Some(state) => match state.get_remaining(now) {
                Some(remaining) => if remaining == 0 {
                    Some(state.reset_at)
                } else {
                    None
                },
                None => None,
            },
            None => None,
        }
    }

    /// Until when a request on `endpoint` has to wait at `now`.
    pub fn wait_needed(&self, endpoint: &str, now: i64) -> (r: Option<i64>)
        ensures
            r == required_wait(self@, endpoint@, now),
    {
        let own = self.wait_on(endpoint, now);
        let shared = self.wait_on("GLOBAL", now);
        match (own, shared) {
            (Some(x), Some(y)) => if x >= y {
                Some(x)
            } else {
                Some(y)
            },
            (Some(x), None) => Some(x),
            (None, y) => y,
        }
    }

    /// Takes one request from the bucket under `key`.
    fn take(&mut self, key: &str, now: i64) -> (allowed: bool)
        ensures
            (final(self)@, allowed) == take_from(old(self)@, key@, now),
    {
        let found = match self.rate_limits.get(key) {
            Some(state) => Some(*state),
            None => None,
        };
        match found {
            Some(state) => {
                let mut state = state;
                let allowed = state.use_one(now);
                self.rate_limits.insert(key.to_owned(), state);
                allowed
            },
            None => true,
        }
    }

    /// Takes one request from the bucket of `endpoint` and one from the
    /// shared bucket; tells whether both allowed it.
    pub fn use_resource(&mut self, endpoint: &str, now: i64) -> (allowed: bool)
        ensures
            (final(self)@, allowed) == take_both(old(self)@, endpoint@, now),
    {
        let endpoint_allowed = self.take(endpoint, now);
        let global_allowed = self.take("GLOBAL", now);
        endpoint_allowed && global_allowed
    }

    /// One step of holding a request back until both its bucket and the
    /// shared bucket have room: either the request is granted and one unit is
    /// taken from each, or the caller is told to wait or to ask again and
    /// nothing is taken while a bucket is empty.
    pub fn enforce_limit(&mut self, endpoint: &str, now: i64) -> (r: Enforcement)
        ensures
            (final(self)@, r) == enforced(old(self)@, endpoint@, now),
    {
        match self.wait_needed(endpoint, now) {
            Some(until) => Enforcement::WaitUntil(until),
            None => {
                if self.use_resource(endpoint, now) {
                    Enforcement::Granted
                } else {
                    Enforcement::Contended
                }
            },
        }
    }

    /// Takes in the rate-limit headers of a response on `endpoint`: they
    /// replace the state of the shared bucket where the response says that
    /// the limit is global, else that of the endpoint's bucket. Missing or
    /// malformed headers change nothing.
    pub fn update_limits(&mut self, endpoint: String, headers: &RateLimitHeaders)
        ensures
            final(self)@ == updated(old(self)@, endpoint@, *headers),
    {
        let state = match RateLimitState::parse(headers) {
            Ok(Some(state)) => state,
            Ok(None) => {
                return ;
            },
            Err(_) => {
                return ;
            },
        };
        let entry = if headers.global {
            "GLOBAL".to_owned()
        } else {
            endpoint
        };
        self.rate_limits.insert(entry, state);
    }
}

/// After an update has installed an empty bucket that resets at `reset_at`,
/// no request on that bucket's route is granted before `reset_at`; and where
/// the bucket is the shared one, none on any route is.
pub proof fn lemma_exhausted_bucket_holds_back(
    table: Buckets,
    key: Seq<char>,
    limit: usize,
    reset_at: i64,
    endpoint: Seq<char>,
    now: i64,
)
    requires
        endpoint == key || key == global_key(),
    ensures
        ({
            let installed = table.insert(key, RateLimitState { limit, remaining: 0, reset_at });
            &&& enforced(installed, endpoint, now).1 is Granted ==> now >= reset_at
            &&& now < reset_at ==> enforced(installed, endpoint, now).0 == installed
            &&& now < reset_at ==> (enforced(installed, endpoint, now).1 matches Enforcement::WaitUntil(
                until,
            ) && until >= reset_at)
        }),
{
}

} // verus!
