//! A one-slot cache for the most recent block reference.
//!
//! The cache hands out what it holds for as long as the value is younger
//! than its maximum age. Once the value is older, the caller fetches a new
//! one and reports the outcome; a failed fetch leaves the slot as it was and
//! hands out nothing.
//!
//! Time is a reading of a monotonic clock in nanoseconds.

use vstd::prelude::*;

verus! {

/// Nanoseconds in a millisecond.
pub const NANOS_PER_MILLI: u64 = 1_000_000;

/// A block reference and the time it was fetched.
#[derive(Clone, Copy, Debug, PartialEq, Eq)]
pub struct CachedBlockhash {
    pub blockhash: [u8; 32],
    pub fetched_at: u64,
}

/// A block reference could not be fetched.
#[derive(Clone, Copy, Debug, PartialEq, Eq, Structural)]
pub enum FetchError {
    /// The ledger did not answer with a block reference.
    FetchFailed,
}

/// What the cache holds, and for how long it hands it out.
pub struct CacheState {
    pub cached: Option<CachedBlockhash>,
    pub max_age_ms: u64,
}

/// Something that happens to a cache.
pub enum CacheEvent {
    /// A caller asks for the cached value at time `now`.
    Lookup { now: u64 },
    /// A fetch returned `blockhash` at time `now`.
    Fetched { blockhash: [u8; 32], now: u64 },
    /// A fetch failed.
    FetchFailed,
}

/// The age at `now` of a value fetched at `fetched_at`; zero where the clock
/// reading is older than the value.
pub open spec fn spec_age(fetched_at: u64, now: u64) -> int {
    if now >= fetched_at {
        now - fetched_at
    } else {
        0
    }
}

/// Whether a value fetched at `fetched_at` is still handed out at `now`: its
/// age is below the maximum.
pub open spec fn spec_is_fresh(fetched_at: u64, max_age_ms: u64, now: u64) -> bool {
    spec_age(fetched_at, now) < max_age_ms * NANOS_PER_MILLI
}

/// What a lookup at `now` hands out.
pub open spec fn spec_lookup(state: CacheState, now: u64) -> Option<[u8; 32]> {
    match state.cached {
        Some(entry) => if spec_is_fresh(entry.fetched_at, state.max_age_ms, now) {
            Some(entry.blockhash)
        } else {
            None
        },
        None => None,
    }
}

/// The cache after a fetch returned `blockhash` at `now`.
pub open spec fn spec_stored(state: CacheState, blockhash: [u8; 32], now: u64) -> CacheState {
    CacheState {
        cached: Some(CachedBlockhash { blockhash, fetched_at: now }),
        max_age_ms: state.max_age_ms,
    }
}

/// What a caller gets at `now` who fetched only because a lookup handed out
/// nothing: the cached value while it is fresh, else what the fetch
/// returned, else the failure.
pub open spec fn spec_latest(state: CacheState, now: u64, fetched: Option<[u8; 32]>) -> Result<
    [u8; 32],
    FetchError,
> {
    match spec_lookup(state, now) {
        Some(blockhash) => Ok(blockhash),
        None => match fetched {
            Some(blockhash) => Ok(blockhash),
            None => Err(FetchError::FetchFailed),
        },
    }
}

/// The cache after such a call: as it was while the cached value is fresh
/// or the fetch failed, else holding what the fetch returned.
pub open spec fn spec_after_latest(state: CacheState, now: u64, fetched: Option<[u8; 32]>) -> CacheState {
    match spec_lookup(state, now) {
        Some(blockhash) => state,
        None => match fetched {
            Some(blockhash) => spec_stored(state, blockhash, now),
            None => state,
        },
    }
}

/// The cache after an event.
pub open spec fn spec_after(state: CacheState, event: CacheEvent) -> CacheState {
    match event {
        CacheEvent::Lookup { now } => state,
        CacheEvent::Fetched { blockhash, now } => spec_stored(state, blockhash, now),
        CacheEvent::FetchFailed => state,
    }
}

/// What an event hands to the caller.
pub open spec fn spec_handed_out(state: CacheState, event: CacheEvent) -> Option<[u8; 32]> {
    match event {
        CacheEvent::Lookup { now } => spec_lookup(state, now),
        CacheEvent::Fetched { blockhash, now } => Some(blockhash),
        CacheEvent::FetchFailed => None,
    }
}

/// The cache after the first `count` of `events`.
pub open spec fn spec_after_events(state: CacheState, events: Seq<CacheEvent>, count: nat) -> CacheState
    decreases count,
{
    if count == 0 {
        state
    } else {
        spec_after(spec_after_events(state, events, (count - 1) as nat), events[count - 1])
    }
}

/// Whether `event` is a fetch that returned `blockhash`.
pub open spec fn spec_fetches(event: CacheEvent, blockhash: [u8; 32]) -> bool {
    match event {
        CacheEvent::Fetched { blockhash: fetched, now } => fetched == blockhash,
        _ => false,
    }
}

/// Whether `blockhash` was fetched by one of the first `count` of `events`.
pub open spec fn spec_was_fetched(events: Seq<CacheEvent>, count: nat, blockhash: [u8; 32]) -> bool {
    exists|j: int| 0 <= j < count && j < events.len() && spec_fetches(#[trigger] events[j], blockhash)
}

/// A cache for the most recent block reference.
pub struct BlockhashCache {
    cached: Option<CachedBlockhash>,
    max_age_ms: u64,
}

impl View for BlockhashCache {
    type V = CacheState;

    closed spec fn view(&self) -> CacheState {
        CacheState { cached: self.cached, max_age_ms: self.max_age_ms }
    }
}

impl BlockhashCache {
    /// An empty cache that hands a value out for `max_age_ms` milliseconds.
    pub fn new(max_age_ms: u64) -> (r: Self)
        ensures
            r@.cached is None,
            r@.max_age_ms == max_age_ms,
    {
        BlockhashCache { cached: None, max_age_ms }
    }

    /// The milliseconds for which a value is handed out.
    pub fn max_age_ms(&self) -> (r: u64)
        ensures
            r == self@.max_age_ms,
    {
        self.max_age_ms
    }

    /// What the slot holds, whatever its age.
    pub fn entry(&self) -> (r: Option<CachedBlockhash>)
        ensures
            r == self@.cached,
    {
        self.cached
    }

    /// The cached block reference, if there is one and it is younger than
    /// the maximum age at `now`. `None` tells the caller to fetch.
    pub fn cached_blockhash(&self, now: u64) -> (r: Option<[u8; 32]>)
        ensures
            r == spec_lookup(self@, now),
    {
        match self.cached {
            Some(entry) => {
                let age: u64 = if now >= entry.fetched_at {
                    now - entry.fetched_at
                } else {
                    0
                };
                let limit: u128 = (self.max_age_ms as u128) * 1_000_000;
                if (age as u128) < limit {
                    Some(entry.blockhash)
                } else {
                    None
                }
            },
            None => None,
        }
    }

    /// Whether a caller has to fetch at `now`: the slot is empty or what it
    /// holds has reached the maximum age.
    pub fn needs_fetch(&self, now: u64) -> (r: bool)
        ensures
            r == (spec_lookup(self@, now) is None),
    {
        self.cached_blockhash(now).is_none()
    }

    /// The block reference to use at `now`. `fetched` is the outcome of the
    /// fetch that the caller made because `needs_fetch` said so, and is not
    /// looked at while the cached value is fresh.
    pub fn get_latest_blockhash(&mut self, now: u64, fetched: Option<[u8; 32]>) -> (r: Result<
        [u8; 32],
        FetchError,
    >)
        ensures
            r == spec_latest(old(self)@, now, fetched),
            final(self)@ == spec_after_latest(old(self)@, now, fetched),
    {
        match self.cached_blockhash(now) {
            Some(blockhash) => Ok(blockhash),
            None => self.store_fetched(fetched, now),
        }
    }

    /// Takes the outcome of a fetch made at `now`. A fetched block reference
    /// replaces what the slot held and is handed out; a failed fetch leaves
    /// the slot as it was and is reported.
    pub fn store_fetched(&mut self, fetched: Option<[u8; 32]>, now: u64) -> (r: Result<
        [u8; 32],
        FetchError,
    >)
        ensures
            match fetched {
                Some(blockhash) => r == Ok::<[u8; 32], FetchError>(blockhash) && final(self)@
                    == spec_stored(old(self)@, blockhash, now),
                None => r == Err::<[u8; 32], FetchError>(FetchError::FetchFailed) && final(self)@
                    == old(self)@,
            },
    {
        match fetched {
            Some(blockhash) => {
                self.cached = Some(CachedBlockhash { blockhash, fetched_at: now });
                Ok(blockhash)
            },
            None => Err(FetchError::FetchFailed),
        }
    }
}

/// Two lookups made while the cached value is younger than the maximum age
/// hand out the same value: the one that was stored.
pub proof fn lemma_lookups_within_max_age_agree(
    state: CacheState,
    blockhash: [u8; 32],
    stored_at: u64,
    first: u64,
    second: u64,
)
    requires
        spec_age(stored_at, first) < state.max_age_ms * NANOS_PER_MILLI,
        spec_age(stored_at, second) < state.max_age_ms * NANOS_PER_MILLI,
    ensures
        spec_lookup(spec_stored(state, blockhash, stored_at), first) == Some(blockhash),
        spec_lookup(spec_stored(state, blockhash, stored_at), second) == Some(blockhash),
        spec_lookup(spec_stored(state, blockhash, stored_at), first) == spec_lookup(
            spec_stored(state, blockhash, stored_at),
            second,
        ),
{
}

/// Once the cached value has reached the maximum age, a lookup hands out
/// nothing, and the value fetched next is the one handed out from then on,
/// for as long as it is fresh.
pub proof fn lemma_expired_value_is_replaced(
    state: CacheState,
    old_blockhash: [u8; 32],
    stored_at: u64,
    now: u64,
    new_blockhash: [u8; 32],
    later: u64,
)
    requires
        spec_age(stored_at, now) >= state.max_age_ms * NANOS_PER_MILLI,
        spec_age(now, later) < state.max_age_ms * NANOS_PER_MILLI,
    ensures
        spec_lookup(spec_stored(state, old_blockhash, stored_at), now) is None,
        spec_lookup(
            spec_stored(spec_stored(state, old_blockhash, stored_at), new_blockhash, now),
            later,
        ) == Some(new_blockhash),
{
}

/// A caller who had to fetch gets what was fetched, and every caller within
/// the maximum age after that gets the same value, whatever such a caller
/// may have fetched in the meantime.
pub proof fn lemma_latest_is_reused_within_max_age(
    state: CacheState,
    first: u64,
    blockhash: [u8; 32],
    second: u64,
    ignored: Option<[u8; 32]>,
)
    requires
        spec_lookup(state, first) is None,
        spec_age(first, second) < state.max_age_ms * NANOS_PER_MILLI,
    ensures
        spec_latest(state, first, Some(blockhash)) == Ok::<[u8; 32], FetchError>(blockhash),
        spec_latest(spec_after_latest(state, first, Some(blockhash)), second, ignored) == Ok::<
            [u8; 32],
            FetchError,
        >(blockhash),
        spec_after_latest(spec_after_latest(state, first, Some(blockhash)), second, ignored)
            == spec_after_latest(state, first, Some(blockhash)),
{
}

/// A caller whose fetch failed gets the failure and no stale value, and the
/// slot stays as it was for the next attempt.
pub proof fn lemma_latest_fails_without_a_fresh_value(state: CacheState, now: u64)
    requires
        spec_lookup(state, now) is None,
    ensures
        spec_latest(state, now, None) == Err::<[u8; 32], FetchError>(FetchError::FetchFailed),
        spec_after_latest(state, now, None) == state,
{
}

/// A failed fetch changes nothing: the slot holds what it held, and every
/// later lookup answers as it would have without the failure.
pub proof fn lemma_failed_fetch_keeps_the_slot(state: CacheState, now: u64)
    ensures
        spec_after(state, CacheEvent::FetchFailed) == state,
        spec_handed_out(state, CacheEvent::FetchFailed) is None,
        spec_lookup(spec_after(state, CacheEvent::FetchFailed), now) == spec_lookup(state, now),
{
}

/// What the slot holds after some events on an empty cache was fetched by
/// one of those events.
pub proof fn lemma_slot_holds_a_fetched_value(max_age_ms: u64, events: Seq<CacheEvent>, count: nat)
    requires
        count <= events.len(),
    ensures
        spec_after_events(empty_cache(max_age_ms), events, count).max_age_ms == max_age_ms,
        match spec_after_events(empty_cache(max_age_ms), events, count).cached {
            Some(entry) => spec_was_fetched(events, count, entry.blockhash),
            None => true,
        },
    decreases count,
{
    if count > 0 {
        let before = (count - 1) as nat;
        lemma_slot_holds_a_fetched_value(max_age_ms, events, before);
        let state = spec_after_events(empty_cache(max_age_ms), events, before);
        match events[count - 1] {
            CacheEvent::Fetched { blockhash, now } => {
                assert(spec_fetches(events[count - 1], blockhash));
            },
            _ => {
                match state.cached {
                    Some(entry) => {
                        let j = choose|j: int|
                            0 <= j < before && j < events.len() && spec_fetches(
                                #[trigger] events[j],
                                entry.blockhash,
                            );
                        assert(0 <= j < count && spec_fetches(events[j], entry.blockhash));
                    },
                    None => {},
                }
            },
        }
    }
}

/// An empty cache.
pub open spec fn empty_cache(max_age_ms: u64) -> CacheState {
    CacheState { cached: None, max_age_ms }
}

/// A cache that starts empty never hands out a value that it did not fetch:
/// whatever an event hands out was fetched by that event or by one before
/// it.
pub proof fn lemma_only_fetched_values_are_handed_out(
    max_age_ms: u64,
    events: Seq<CacheEvent>,
    index: nat,
)
    requires
        index < events.len(),
    ensures
        match spec_handed_out(
            spec_after_events(empty_cache(max_age_ms), events, index),
            events[index as int],
        ) {
            Some(blockhash) => spec_was_fetched(events, index + 1, blockhash),
            None => true,
        },
{
    lemma_slot_holds_a_fetched_value(max_age_ms, events, index);
    let state = spec_after_events(empty_cache(max_age_ms), events, index);
    match events[index as int] {
        CacheEvent::Fetched { blockhash, now } => {
            assert(spec_fetches(events[index as int], blockhash));
        },
        CacheEvent::Lookup { now } => {
            match spec_lookup(state, now) {
                Some(blockhash) => {
                    let j = choose|j: int|
                        0 <= j < index && j < events.len() && spec_fetches(
                            #[trigger] events[j],
                            blockhash,
                        );
                    assert(0 <= j < index + 1 && spec_fetches(events[j], blockhash));
                },
                None => {},
            }
        },
        CacheEvent::FetchFailed => {},
    }
}

} // verus!
