//! The publish limiter: a sliding-window count of publish attempts per stream key.

use vstd::prelude::*;

verus! {

/// Attempts allowed per key and window where the limit is switched off or not configured.
pub const DEFAULT_MAX_PUBLISH_PER_STREAM: u32 = 1;

/// Length of the window, in seconds, where the limit is switched off or not configured.
pub const DEFAULT_TIME_WINDOW_SECONDS: u64 = 60;

/// The rate-limit settings as an operator writes them.
#[derive(Clone, Copy, Debug)]
pub struct RateLimitConfig {
    pub enabled: bool,
    pub max_publish_per_stream: Option<u32>,
    pub time_window_seconds: Option<u64>,
}

/// The part of the ingest settings that the limiter reads.
#[derive(Clone, Copy, Debug)]
pub struct RtmpConfig {
    pub rate_limit: Option<RateLimitConfig>,
}

/// The limits that `config` asks for: its own values where the limit is
/// enabled, each missing one by its default, and the defaults otherwise.
pub open spec fn resolved_limits(config: Option<RtmpConfig>) -> (u32, u64) {
    match config {
        Some(RtmpConfig { rate_limit: Some(limit) }) if limit.enabled => (
            match limit.max_publish_per_stream {
                Some(m) => m,
                None => DEFAULT_MAX_PUBLISH_PER_STREAM,
            },
            match limit.time_window_seconds {
                Some(w) => w,
                None => DEFAULT_TIME_WINDOW_SECONDS,
            },
        ),
        _ => (DEFAULT_MAX_PUBLISH_PER_STREAM, DEFAULT_TIME_WINDOW_SECONDS),
    }
}

/// Whether `config` switches the limit on.
pub open spec fn limit_enabled(config: Option<RtmpConfig>) -> bool {
    match config {
        Some(RtmpConfig { rate_limit: Some(limit) }) => limit.enabled,
        _ => false,
    }
}

pub fn is_limit_enabled(config: &Option<RtmpConfig>) -> (r: bool)
    ensures
        r == limit_enabled(*config),
{
    match config {
        Some(c) => match c.rate_limit {
            Some(limit) => limit.enabled,
            None => false,
        },
        None => false,
    }
}

pub fn resolve_limits(config: &Option<RtmpConfig>) -> (r: (u32, u64))
    ensures
        r == resolved_limits(*config),
{
    let mut max: u32 = DEFAULT_MAX_PUBLISH_PER_STREAM;
    let mut window: u64 = DEFAULT_TIME_WINDOW_SECONDS;
    if let Some(c) = config {
        if let Some(limit) = c.rate_limit {
            if limit.enabled {
                if let Some(m) = limit.max_publish_per_stream {
                    max = m;
                }
                if let Some(w) = limit.time_window_seconds {
                    window = w;
                }
            }
        }
    }
    (max, window)
}

/// Whether an attempt at `stamp` still counts at time `now`: it is not older
/// than `now` less the window.
pub open spec fn within_window(stamp: u64, now: u64, window_seconds: u64) -> bool {
    stamp + window_seconds >= now
}

/// The attempts of `stamps` that still count at `now`, in their order.
pub open spec fn pruned(stamps: Seq<u64>, now: u64, window_seconds: u64) -> Seq<u64>
    decreases stamps.len(),
{
    if stamps.len() == 0 {
        Seq::empty()
    } else if within_window(stamps.last(), now, window_seconds) {
        pruned(stamps.drop_last(), now, window_seconds).push(stamps.last())
    } else {
        pruned(stamps.drop_last(), now, window_seconds)
    }
}

/// Whether an attempt at `now` is allowed after the attempts `stamps`.
pub open spec fn admitted(stamps: Seq<u64>, now: u64, max: u32, window_seconds: u64) -> bool {
    pruned(stamps, now, window_seconds).len() < max
}

/// The attempts on record after one at `now`: the old ones pruned, and `now`
/// itself where it was allowed.
pub open spec fn after_attempt(stamps: Seq<u64>, now: u64, max: u32, window_seconds: u64) -> Seq<u64> {
    if admitted(stamps, now, max, window_seconds) {
        pruned(stamps, now, window_seconds).push(now)
    } else {
        pruned(stamps, now, window_seconds)
    }
}

/// Pruning keeps only attempts within the window, and never adds one.
pub proof fn lemma_pruned_within(stamps: Seq<u64>, now: u64, window_seconds: u64)
    ensures
        pruned(stamps, now, window_seconds).len() <= stamps.len(),
        forall|i: int|
            0 <= i < pruned(stamps, now, window_seconds).len() ==> within_window(
                #[trigger] pruned(stamps, now, window_seconds)[i],
                now,
                window_seconds,
            ),
    decreases stamps.len(),
{
    if stamps.len() > 0 {
        lemma_pruned_within(stamps.drop_last(), now, window_seconds);
    }
}

/// Pruning a record whose attempts all count changes nothing.
pub proof fn lemma_pruned_keeps_recent(stamps: Seq<u64>, now: u64, window_seconds: u64)
    requires
        forall|i: int| 0 <= i < stamps.len() ==> within_window(#[trigger] stamps[i], now, window_seconds),
    ensures
        pruned(stamps, now, window_seconds) =~= stamps,
    decreases stamps.len(),
{
    if stamps.len() > 0 {
        lemma_pruned_keeps_recent(stamps.drop_last(), now, window_seconds);
    }
}

/// After any attempt the record holds only attempts within the window, and a
/// record that held at most `max` attempts still does.
pub proof fn lemma_after_attempt_bounded(stamps: Seq<u64>, now: u64, max: u32, window_seconds: u64)
    ensures
        forall|i: int|
            0 <= i < after_attempt(stamps, now, max, window_seconds).len() ==> within_window(
                #[trigger] after_attempt(stamps, now, max, window_seconds)[i],
                now,
                window_seconds,
            ),
        stamps.len() <= max ==> after_attempt(stamps, now, max, window_seconds).len() <= max,
{
    lemma_pruned_within(stamps, now, window_seconds);
}

/// Pruning is filtering: what is kept are exactly the attempts not older
/// than `now` less the window, in their order.
pub proof fn lemma_pruned_is_filter(stamps: Seq<u64>, now: u64, window_seconds: u64)
    ensures
        pruned(stamps, now, window_seconds) == stamps.filter(
            |stamp: u64| within_window(stamp, now, window_seconds),
        ),
    decreases stamps.len(),
{
    reveal(Seq::filter);
    if stamps.len() > 0 {
        lemma_pruned_is_filter(stamps.drop_last(), now, window_seconds);
    } else {
        assert(pruned(stamps, now, window_seconds) =~= stamps);
    }
}

/// The attempts that `records` hold for `key`; none for a key never seen.
pub open spec fn history_in(records: Map<Seq<char>, Seq<u64>>, key: Seq<char>) -> Seq<u64> {
    if records.contains_key(key) {
        records[key]
    } else {
        Seq::empty()
    }
}

/// The records after one attempt for `key` at `now`.
pub open spec fn records_after(
    records: Map<Seq<char>, Seq<u64>>,
    key: Seq<char>,
    now: u64,
    max: u32,
    window_seconds: u64,
) -> Map<Seq<char>, Seq<u64>> {
    records.insert(key, after_attempt(history_in(records, key), now, max, window_seconds))
}

/// The sliding-window rule, for any records, key and time: with `kept` the
/// key's attempts not older than `now` less the window, the attempt is
/// allowed exactly when `kept` holds fewer than the limit; the key's record
/// becomes `kept` with `now` appended where it is allowed, and `kept` alone
/// where it is not; and the record of every other key stays as it is.
pub proof fn lemma_sliding_window_rule(
    records: Map<Seq<char>, Seq<u64>>,
    key: Seq<char>,
    other: Seq<char>,
    now: u64,
    max: u32,
    window_seconds: u64,
)
    requires
        other != key,
    ensures
        ({
            let kept = history_in(records, key).filter(
                |stamp: u64| within_window(stamp, now, window_seconds),
            );
            let allowed = admitted(history_in(records, key), now, max, window_seconds);
            let after = records_after(records, key, now, max, window_seconds);
            &&& allowed <==> kept.len() < max
            &&& after.contains_key(key)
            &&& allowed ==> after[key] == kept.push(now)
            &&& !allowed ==> after[key] == kept
            &&& after.contains_key(other) == records.contains_key(other)
            &&& history_in(after, other) == history_in(records, other)
        }),
{
    lemma_pruned_is_filter(history_in(records, key), now, window_seconds);
}

/// Copies the attempts that still count at `now`.
pub fn prune(stamps: &Vec<u64>, now: u64, window_seconds: u64) -> (kept: Vec<u64>)
    ensures
        kept@ == pruned(stamps@, now, window_seconds),
{
    let mut kept: Vec<u64> = Vec::new();
    let mut i: usize = 0;
    while i < stamps.len()
        invariant
            i <= stamps.len(),
            kept@ == pruned(stamps@.take(i as int), now, window_seconds),
        decreases stamps.len() - i,
    {
        let stamp: u64 = stamps[i];
        assert(stamps@.take(i + 1).drop_last() =~= stamps@.take(i as int));
        if now <= window_seconds || stamp >= now - window_seconds {
            kept.push(stamp);
        }
        i = i + 1;
    }
    assert(stamps@.take(i as int) =~= stamps@);
    kept
}

/// One admission check on the record of a single key.
pub fn attempt(stamps: &mut Vec<u64>, now: u64, max: u32, window_seconds: u64) -> (allowed: bool)
    ensures
        allowed == admitted(old(stamps)@, now, max, window_seconds),
        final(stamps)@ == after_attempt(old(stamps)@, now, max, window_seconds),
{
    let mut kept = prune(stamps, now, window_seconds);
    let allowed = kept.len() < max as usize;
    if allowed {
        kept.push(now);
    }
    *stamps = kept;
    allowed
}

/// The records that the parallel sequences of keys and attempts stand for.
pub open spec fn records(keys: Seq<String>, windows: Seq<Vec<u64>>) -> Map<Seq<char>, Seq<u64>>
    decreases keys.len(),
{
    if keys.len() == 0 || windows.len() != keys.len() {
        Map::empty()
    } else {
        records(keys.drop_last(), windows.drop_last()).insert(keys.last()@, windows.last()@)
    }
}

pub open spec fn distinct_keys(keys: Seq<String>) -> bool {
    forall|i: int, j: int| 0 <= i < j < keys.len() ==> (#[trigger] keys[i])@ != (#[trigger] keys[j])@
}

proof fn lemma_records_domain(keys: Seq<String>, windows: Seq<Vec<u64>>, key: Seq<char>)
    requires
        keys.len() == windows.len(),
    ensures
        records(keys, windows).contains_key(key) <==> exists|i: int|
            0 <= i < keys.len() && (#[trigger] keys[i])@ == key,
    decreases keys.len(),
{
    if keys.len() > 0 {
        lemma_records_domain(keys.drop_last(), windows.drop_last(), key);
        if records(keys, windows).contains_key(key) {
            if keys.last()@ == key {
                assert(keys[keys.len() - 1]@ == key);
            } else {
                let i = choose|i: int| 0 <= i < keys.len() - 1 && (#[trigger] keys.drop_last()[i])@ == key;
                assert(keys[i]@ == key);
            }
        }
        if exists|i: int| 0 <= i < keys.len() && (#[trigger] keys[i])@ == key {
            let i = choose|i: int| 0 <= i < keys.len() && (#[trigger] keys[i])@ == key;
            if i < keys.len() - 1 {
                assert(keys.drop_last()[i]@ == key);
            }
        }
    }
}

proof fn lemma_records_update(keys: Seq<String>, windows: Seq<Vec<u64>>, at: int, stamps: Vec<u64>)
    requires
        keys.len() == windows.len(),
        distinct_keys(keys),
        0 <= at < keys.len(),
    ensures
        records(keys, windows.update(at, stamps)) =~= records(keys, windows).insert(keys[at]@, stamps@),
        records(keys, windows)[keys[at]@] == windows[at]@,
        records(keys, windows).contains_key(keys[at]@),
    decreases keys.len(),
{
    if at == keys.len() - 1 {
        assert(windows.update(at, stamps).drop_last() =~= windows.drop_last());
    } else {
        assert(distinct_keys(keys.drop_last())) by {
            assert forall|i: int, j: int| 0 <= i < j < keys.drop_last().len() implies (
            #[trigger] keys.drop_last()[i])@ != (#[trigger] keys.drop_last()[j])@ by {
                assert(keys[i]@ != keys[j]@);
            }
        }
        lemma_records_update(keys.drop_last(), windows.drop_last(), at, stamps);
        assert(windows.update(at, stamps).drop_last() =~= windows.drop_last().update(at, stamps));
        assert(keys.drop_last()[at] == keys[at]);
        assert(keys[at]@ != keys[keys.len() - 1]@);
    }
}

/// The limiter shared by all ingest sessions: for each stream key the publish
/// attempts that still count, and the limits they are held to.
pub struct RateLimiter {
    keys: Vec<String>,
    windows: Vec<Vec<u64>>,
    max_publish_per_stream: u32,
    time_window_seconds: u64,
}

impl RateLimiter {
    /// For each key that has been seen, its attempts on record.
    pub closed spec fn view(&self) -> Map<Seq<char>, Seq<u64>> {
        records(self.keys@, self.windows@)
    }

    pub closed spec fn limits(&self) -> (u32, u64) {
        (self.max_publish_per_stream, self.time_window_seconds)
    }

    pub closed spec fn wf(&self) -> bool {
        self.keys.len() == self.windows.len() && distinct_keys(self.keys@)
    }

    /// The attempts on record for `key`; none for a key never seen.
    pub open spec fn history(&self, key: Seq<char>) -> Seq<u64> {
        history_in(self@, key)
    }

    /// A limiter with no key on record and the limits that `config` asks for.
    pub fn new(config: &Option<RtmpConfig>) -> (r: RateLimiter)
        ensures
            r.wf(),
            r@ == Map::<Seq<char>, Seq<u64>>::empty(),
            r.limits() == resolved_limits(*config),
    {
        let (max, window) = resolve_limits(config);
        RateLimiter {
            keys: Vec::new(),
            windows: Vec::new(),
            max_publish_per_stream: max,
            time_window_seconds: window,
        }
    }

    pub fn max_publish_per_stream(&self) -> (r: u32)
        ensures
            r == self.limits().0,
    {
        self.max_publish_per_stream
    }

    pub fn time_window_seconds(&self) -> (r: u64)
        ensures
            r == self.limits().1,
    {
        self.time_window_seconds
    }

    /// Decides one publish attempt where the limit may be switched off: with
    /// the limit off every attempt is allowed and nothing is recorded, with
    /// the limit on the attempt is checked and recorded as `check_publish` does.
    pub fn publish_allowed(&mut self, enabled: bool, key: &String, now: u64) -> (allowed: bool)
        requires
            old(self).wf(),
        ensures
            final(self).wf(),
            final(self).limits() == old(self).limits(),
            !enabled ==> allowed && final(self)@ == old(self)@,
            enabled ==> allowed == admitted(
                old(self).history(key@),
                now,
                old(self).limits().0,
                old(self).limits().1,
            ) && final(self)@ == records_after(
                old(self)@,
                key@,
                now,
                old(self).limits().0,
                old(self).limits().1,
            ),
    {
        if enabled {
            self.check_publish(key, now)
        } else {
            true
        }
    }

    fn position(&self, key: &String) -> (r: Option<usize>)
        requires
            self.wf(),
        ensures
            match r {
                Some(i) => i < self.keys.len() && self.keys[i as int]@ == key@,
                None => forall|i: int| 0 <= i < self.keys.len() ==> (#[trigger] self.keys[i])@ != key@,
            },
    {
        let mut i: usize = 0;
        while i < self.keys.len()
            invariant
                i <= self.keys.len(),
                forall|j: int| 0 <= j < i ==> (#[trigger] self.keys[j])@ != key@,
            decreases self.keys.len() - i,
        {
            if self.keys[i] == *key {
                return Some(i);
            }
            i = i + 1;
        }
        None
    }

    /// Decides one publish attempt for `key` at time `now`, in seconds: the
    /// key's attempts older than the window are dropped, and the attempt is
    /// allowed, and recorded, exactly when fewer than the limit remain. No other
    /// key's record changes.
    pub fn check_publish(&mut self, key: &String, now: u64) -> (allowed: bool)
        requires
            old(self).wf(),
        ensures
            final(self).wf(),
            final(self).limits() == old(self).limits(),
            allowed == admitted(old(self).history(key@), now, old(self).limits().0, old(self).limits().1),
            final(self)@ == records_after(
                old(self)@,
                key@,
                now,
                old(self).limits().0,
                old(self).limits().1,
            ),
    {
        match self.position(key) {
            Some(i) => {
                proof {
                    lemma_records_update(self.keys@, self.windows@, i as int, self.windows[i as int]);
                }
                let mut kept = prune(&self.windows[i], now, self.time_window_seconds);
                let allowed = kept.len() < self.max_publish_per_stream as usize;
                if allowed {
                    kept.push(now);
                }
                proof {
                    lemma_records_update(self.keys@, self.windows@, i as int, kept);
                }
                self.windows.set(i, kept);
                allowed
            },
            None => {
                proof {
                    lemma_records_domain(self.keys@, self.windows@, key@);
                }
                let mut stamps: Vec<u64> = Vec::new();
                let allowed = attempt(&mut stamps, now, self.max_publish_per_stream, self.time_window_seconds);
                let owned = key.clone();
                self.keys.push(owned);
                self.windows.push(stamps);
                assert(self.keys@.drop_last() =~= old(self).keys@);
                assert(self.windows@.drop_last() =~= old(self).windows@);
                allowed
            },
        }
    }
}

} // verus!
