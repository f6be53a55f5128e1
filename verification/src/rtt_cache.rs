//! Per-(org, device) cache for the measured probe round-trip time.
//! A hit skips a live liveliness probe; a failed probe (`None`) is
//! cached too. Entries expire after the cache's time-to-live; when a
//! burst of distinct keys fills the cache it is emptied rather than
//! evicting single entries.

use vstd::prelude::*;

use std::time::{Duration, Instant};

verus! {

/// Number of live entries at which the cache is emptied on insert.
pub const MAX_ENTRIES: usize = 4096;

#[verifier::external_type_specification]
#[verifier::external_body]
pub struct ExInstant(Instant);

/// `Instant::now()`: a reading of the monotonic clock.
#[verifier::external_body]
fn instant_now() -> Instant {
    Instant::now()
}

/// `Instant::elapsed`: time since `origin` on the monotonic clock.
#[verifier::external_body]
fn instant_elapsed(origin: &Instant) -> Duration {
    origin.elapsed()
}

/// The total number of nanoseconds a duration holds.
pub uninterp spec fn duration_nanos(d: Duration) -> u128;

/// `Duration::as_nanos`: the total number of nanoseconds in `d`.
#[verifier::external_body]
fn duration_as_nanos(d: Duration) -> (r: u128)
    ensures
        r == duration_nanos(d),
{
    d.as_nanos()
}

/// A cached probe result and when (nanoseconds on the cache clock)
/// it was stored.
#[derive(Clone, Copy)]
pub struct CacheEntry {
    pub key: (i64, i64),
    pub at: u128,
    pub rtt_ms: Option<i64>,
}

/// Whether an entry stored at `at` is still fresh at `now`.
pub open spec fn fresh(at: u128, now: u128, ttl: u128) -> bool {
    (if now >= at { now - at } else { 0 }) <= ttl
}

/// What `get` answers for `key` at `now`: the stored result while the
/// entry is fresh, a miss otherwise.
pub open spec fn lookup(m: Map<(i64, i64), (u128, Option<i64>)>, ttl: u128, key: (i64, i64), now: u128) -> Option<Option<i64>> {
    if m.contains_key(key) && fresh(m[key].0, now, ttl) {
        Some(m[key].1)
    } else {
        None
    }
}

/// The entries still fresh at `now`.
pub open spec fn live(m: Map<(i64, i64), (u128, Option<i64>)>, ttl: u128, now: u128) -> Map<(i64, i64), (u128, Option<i64>)> {
    m.restrict(m.dom().filter(|k: (i64, i64)| fresh(m[k].0, now, ttl)))
}

/// The cache after storing `rtt` for `key` at `now`: expired entries
/// are pruned, everything is dropped when `full`, then the entry is
/// written.
pub open spec fn after_put(
    m: Map<(i64, i64), (u128, Option<i64>)>,
    ttl: u128,
    key: (i64, i64),
    rtt: Option<i64>,
    now: u128,
    full: bool,
) -> Map<(i64, i64), (u128, Option<i64>)> {
    (if full { Map::empty() } else { live(m, ttl, now) }).insert(key, (now, rtt))
}

/// No key appears twice.
pub open spec fn unique_keys(s: Seq<CacheEntry>) -> bool {
    forall|i: int, j: int| 0 <= i < j < s.len() ==> (#[trigger] s[i]).key != (#[trigger] s[j]).key
}

/// Whether some entry of `s` has key `k`.
pub open spec fn has_key(s: Seq<CacheEntry>, k: (i64, i64)) -> bool {
    exists|i: int| 0 <= i < s.len() && s[i].key == k
}

/// The entries of `s` as a map from key to (time stored, result).
pub open spec fn entries_view(s: Seq<CacheEntry>) -> Map<(i64, i64), (u128, Option<i64>)> {
    Map::new(
        |k: (i64, i64)| has_key(s, k),
        |k: (i64, i64)| {
            let e = s[choose|i: int| 0 <= i < s.len() && s[i].key == k];
            (e.at, e.rtt_ms)
        },
    )
}

proof fn lemma_entry_value(s: Seq<CacheEntry>, i: int)
    requires
        unique_keys(s),
        0 <= i < s.len(),
    ensures
        entries_view(s).contains_key(s[i].key),
        entries_view(s)[s[i].key] == (s[i].at, s[i].rtt_ms),
{
    let k = s[i].key;
    assert(0 <= i < s.len() && s[i].key == k);
    let j = choose|j: int| 0 <= j < s.len() && s[j].key == k;
    if j < i {
        assert(s[j].key != s[i].key);
    } else if j > i {
        assert(s[i].key != s[j].key);
    }
}

/// `out` holds, once each, exactly the entries of `base` whose key is
/// not `key`.
pub open spec fn drops_key(base: Seq<CacheEntry>, out: Seq<CacheEntry>, key: (i64, i64)) -> bool {
    &&& unique_keys(out)
    &&& forall|a: int| 0 <= a < out.len() ==> (#[trigger] out[a]).key != key && base.contains(out[a])
    &&& forall|a: int| 0 <= a < base.len() && base[a].key != key ==> out.contains(#[trigger] base[a])
}

/// `kept` holds, once each, exactly the entries of `all` fresh at `now`.
pub open spec fn keeps_fresh(all: Seq<CacheEntry>, kept: Seq<CacheEntry>, now: u128, ttl: u128) -> bool {
    &&& unique_keys(kept)
    &&& forall|a: int| 0 <= a < kept.len() ==> fresh((#[trigger] kept[a]).at, now, ttl) && all.contains(kept[a])
    &&& forall|a: int| 0 <= a < all.len() && fresh(all[a].at, now, ttl) ==> kept.contains(#[trigger] all[a])
}

/// Entries kept as the fresh ones number exactly the keys fresh in the
/// view.
proof fn lemma_kept_len(all: Seq<CacheEntry>, kept: Seq<CacheEntry>, now: u128, ttl: u128)
    requires
        unique_keys(all),
        keeps_fresh(all, kept, now, ttl),
    ensures
        kept.len() == live(entries_view(all), ttl, now).dom().len(),
        live(entries_view(all), ttl, now).dom().finite(),
{
    let ks = kept.map_values(|e: CacheEntry| e.key);
    let lv = live(entries_view(all), ttl, now);
    assert forall|i: int, j: int| 0 <= i < ks.len() && 0 <= j < ks.len() && i != j implies ks[i] != ks[j] by {
        if i < j {
            assert(kept[i].key != kept[j].key);
        } else {
            assert(kept[j].key != kept[i].key);
        }
    }
    assert(ks.no_duplicates());
    ks.unique_seq_to_set();
    assert forall|k: (i64, i64)| ks.to_set().contains(k) == lv.dom().contains(k) by {
        if ks.contains(k) {
            let c = choose|c: int| 0 <= c < ks.len() && ks[c] == k;
            assert(fresh(kept[c].at, now, ttl) && all.contains(kept[c]));
            let d = choose|d: int| 0 <= d < all.len() && all[d] == kept[c];
            lemma_entry_value(all, d);
        }
        if lv.dom().contains(k) {
            let d = choose|d: int| 0 <= d < all.len() && all[d].key == k;
            lemma_entry_value(all, d);
            assert(kept.contains(all[d]));
            let c = choose|c: int| 0 <= c < kept.len() && kept[c] == all[d];
            assert(ks[c] == k);
        }
    }
    assert(ks.to_set() =~= lv.dom());
    vstd::seq_lib::seq_to_set_is_finite(ks);
}

/// Number of keys fresh at `now` in the cache view `m`.
pub open spec fn live_keys(m: Map<(i64, i64), (u128, Option<i64>)>, ttl: u128, now: u128) -> nat {
    live(m, ttl, now).dom().len()
}

proof fn lemma_put_view(
    old_entries: Seq<CacheEntry>,
    kept: Seq<CacheEntry>,
    base: Seq<CacheEntry>,
    out: Seq<CacheEntry>,
    key: (i64, i64),
    rtt: Option<i64>,
    now: u128,
    ttl: u128,
    full: bool,
)
    requires
        unique_keys(old_entries),
        keeps_fresh(old_entries, kept, now, ttl),
        base == (if full { Seq::<CacheEntry>::empty() } else { kept }),
        drops_key(base, out, key),
    ensures
        unique_keys(out.push(CacheEntry { key, at: now, rtt_ms: rtt })),
        entries_view(out.push(CacheEntry { key, at: now, rtt_ms: rtt }))
            == after_put(entries_view(old_entries), ttl, key, rtt, now, full),
{
    let e = CacheEntry { key, at: now, rtt_ms: rtt };
    let n = out.push(e);
    let old_view = entries_view(old_entries);
    let target = after_put(old_view, ttl, key, rtt, now, full);
    assert forall|i: int, j: int| 0 <= i < j < n.len() implies (#[trigger] n[i]).key != (#[trigger] n[j]).key by {
        if j == out.len() {
            assert(out[i].key != key);
        } else {
            assert(out[i].key != out[j].key);
        }
    }
    assert(unique_keys(n));
    assert forall|k: (i64, i64)| #[trigger] entries_view(n).contains_key(k) == target.contains_key(k) by {
        if k == key {
            assert(n[out.len() as int].key == key);
        } else {
            if has_key(n, k) {
                let a = choose|a: int| 0 <= a < n.len() && n[a].key == k;
                assert(a < out.len());
                assert(base.contains(out[a]));
                let b = choose|b: int| 0 <= b < base.len() && base[b] == out[a];
                assert(!full);
                assert(kept.contains(out[a]));
                let c = choose|c: int| 0 <= c < kept.len() && kept[c] == out[a];
                assert(fresh(kept[c].at, now, ttl) && old_entries.contains(kept[c]));
                let d = choose|d: int| 0 <= d < old_entries.len() && old_entries[d] == kept[c];
                lemma_entry_value(old_entries, d);
            }
            if target.contains_key(k) {
                assert(!full);
                assert(old_view.contains_key(k) && fresh(old_view[k].0, now, ttl));
                let d = choose|d: int| 0 <= d < old_entries.len() && old_entries[d].key == k;
                lemma_entry_value(old_entries, d);
                assert(kept.contains(old_entries[d]));
                let c = choose|c: int| 0 <= c < kept.len() && kept[c] == old_entries[d];
                assert(base[c].key != key);
                assert(out.contains(base[c]));
                let a = choose|a: int| 0 <= a < out.len() && out[a] == base[c];
                assert(n[a].key == k);
            }
        }
    }
    assert forall|k: (i64, i64)| #[trigger] entries_view(n).contains_key(k) implies entries_view(n)[k] == target[k] by {
        let a = choose|a: int| 0 <= a < n.len() && n[a].key == k;
        lemma_entry_value(n, a);
        if k != key {
            assert(a < out.len());
            let b = choose|b: int| 0 <= b < base.len() && base[b] == out[a];
            let c = choose|c: int| 0 <= c < kept.len() && kept[c] == out[a];
            let d = choose|d: int| 0 <= d < old_entries.len() && old_entries[d] == kept[c];
            lemma_entry_value(old_entries, d);
        } else {
            lemma_entry_value(n, out.len() as int);
        }
    }
    assert(entries_view(n) =~= target);
}

/// Probe-result cache keyed by `(org_id, device_id)`.
pub struct RttCache {
    origin: Instant,
    ttl: u128,
    entries: Vec<CacheEntry>,
}

impl RttCache {
    /// No key is stored twice.
    pub closed spec fn wf(&self) -> bool {
        unique_keys(self.entries@)
    }

    /// Time-to-live in nanoseconds.
    pub closed spec fn ttl(&self) -> u128 {
        self.ttl
    }

    /// The cached entries: key to (time stored, result).
    pub closed spec fn view(&self) -> Map<(i64, i64), (u128, Option<i64>)> {
        entries_view(self.entries@)
    }

    /// An empty cache whose entries live for `ttl`.
    pub fn new(ttl: Duration) -> (r: Self)
        ensures
            r.wf(),
            r.ttl() == duration_nanos(ttl),
            r.view() == Map::<(i64, i64), (u128, Option<i64>)>::empty(),
    {
        let ttl_ns = duration_as_nanos(ttl);
        let c = RttCache { origin: instant_now(), ttl: ttl_ns, entries: Vec::new() };
        assert(c.view() =~= Map::<(i64, i64), (u128, Option<i64>)>::empty());
        c
    }

    /// Nanoseconds since the cache was created, on the monotonic clock:
    /// the nanoseconds of the elapsed duration read.
    fn now(&self) -> (r: u128)
        ensures
            exists|elapsed: Duration| r == #[trigger] duration_nanos(elapsed),
    {
        duration_as_nanos(instant_elapsed(&self.origin))
    }

    /// The cached result for `key` at time `now`: `Some(result)` while
    /// a fresh entry exists (the result may itself be `None`, a failed
    /// probe), `None` on a miss or an expired entry.
    pub fn get_at(&self, key: (i64, i64), now: u128) -> (r: Option<Option<i64>>)
        requires
            self.wf(),
        ensures
            r == lookup(self.view(), self.ttl(), key, now),
    {
        let mut i: usize = 0;
        while i < self.entries.len()
            invariant
                self.wf(),
                i <= self.entries@.len(),
                forall|j: int| 0 <= j < i ==> self.entries@[j].key != key,
            decreases self.entries@.len() - i,
        {
            let e = self.entries[i];
            if e.key.0 == key.0 && e.key.1 == key.1 {
                proof {
                    lemma_entry_value(self.entries@, i as int);
                }
                let age = if now >= e.at {
                    now - e.at
                } else {
                    0
                };
                if age <= self.ttl {
                    return Some(e.rtt_ms);
                } else {
                    return None;
                }
            }
            i = i + 1;
        }
        assert(!self.view().contains_key(key));
        None
    }

    /// The cached result for `key` now: the lookup at the time read
    /// from the cache's monotonic clock, the nanoseconds elapsed since
    /// the cache was made. Which reading depends on the time.
    pub fn get(&self, key: (i64, i64)) -> (r: Option<Option<i64>>)
        requires
            self.wf(),
        ensures
            exists|elapsed: Duration| r == #[trigger] lookup(self.view(), self.ttl(), key, duration_nanos(elapsed)),
    {
        let now = self.now();
        let r = self.get_at(key, now);
        let ghost elapsed = choose|elapsed: Duration| now == #[trigger] duration_nanos(elapsed);
        assert(r == lookup(self.view(), self.ttl(), key, duration_nanos(elapsed)));
        r
    }

    fn fresh_entries(&self, now: u128) -> (kept: Vec<CacheEntry>)
        requires
            self.wf(),
        ensures
            keeps_fresh(self.entries@, kept@, now, self.ttl),
            kept@.len() == live_keys(self.view(), self.ttl, now),
    {
        let ttl = self.ttl;
        let mut kept: Vec<CacheEntry> = Vec::new();
        let mut i: usize = 0;
        while i < self.entries.len()
            invariant
                self.wf(),
                ttl == self.ttl,
                i <= self.entries@.len(),
                unique_keys(kept@),
                forall|a: int| 0 <= a < kept@.len() ==> fresh((#[trigger] kept@[a]).at, now, ttl),
                forall|a: int| 0 <= a < kept@.len() ==> exists|b: int| 0 <= b < i && self.entries@[b] == #[trigger] kept@[a],
                forall|b: int| 0 <= b < i && fresh(self.entries@[b].at, now, ttl) ==> kept@.contains(#[trigger] self.entries@[b]),
            decreases self.entries@.len() - i,
        {
            let e = self.entries[i];
            let age = if now >= e.at {
                now - e.at
            } else {
                0
            };
            let ghost before = kept@;
            if age <= ttl {
                proof {
                    assert forall|a: int| 0 <= a < kept@.len() implies (#[trigger] kept@[a]).key != e.key by {
                        let b = choose|b: int| 0 <= b < i && self.entries@[b] == kept@[a];
                        assert(self.entries@[b].key != self.entries@[i as int].key);
                    }
                }
                kept.push(e);
                proof {
                    assert forall|a: int| 0 <= a < kept@.len() implies exists|b: int| 0 <= b < i + 1 && self.entries@[b] == #[trigger] kept@[a] by {
                        if a < before.len() {
                            assert(kept@[a] == before[a]);
                        } else {
                            assert(self.entries@[i as int] == kept@[a]);
                        }
                    }
                    assert forall|b: int| 0 <= b < i + 1 && fresh(self.entries@[b].at, now, ttl) implies kept@.contains(#[trigger] self.entries@[b]) by {
                        if b < i {
                            let a = choose|a: int| 0 <= a < before.len() && before[a] == self.entries@[b];
                            assert(kept@[a] == before[a]);
                        } else {
                            assert(kept@[before.len() as int] == self.entries@[b]);
                        }
                    }
                }
            }
            i = i + 1;
        }
        proof {
            assert forall|a: int| 0 <= a < kept@.len() implies self.entries@.contains(#[trigger] kept@[a]) by {
                let b = choose|b: int| 0 <= b < i && self.entries@[b] == kept@[a];
            }
            lemma_kept_len(self.entries@, kept@, now, ttl);
        }
        kept
    }

    /// Stores `rtt_ms` for `key` at time `now`, first pruning expired
    /// entries and emptying the cache when `MAX_ENTRIES` entries are
    /// still live.
    pub fn put_at(&mut self, key: (i64, i64), rtt_ms: Option<i64>, now: u128)
        requires
            old(self).wf(),
        ensures
            final(self).wf(),
            final(self).ttl() == old(self).ttl(),
            final(self).view() == after_put(
                old(self).view(),
                old(self).ttl(),
                key,
                rtt_ms,
                now,
                live_keys(old(self).view(), old(self).ttl(), now) >= MAX_ENTRIES,
            ),
    {
        let ghost old_entries = self.entries@;
        let mut kept = self.fresh_entries(now);
        let ghost kept0 = kept@;
        let full = kept.len() >= MAX_ENTRIES;
        if full {
            kept = Vec::new();
        }
        let ghost base = kept@;
        let mut j: usize = 0;
        let mut out: Vec<CacheEntry> = Vec::new();
        while j < kept.len()
            invariant
                j <= kept@.len(),
                base == kept@,
                unique_keys(base),
                unique_keys(out@),
                forall|a: int| 0 <= a < out@.len() ==> (#[trigger] out@[a]).key != key,
                forall|a: int| 0 <= a < out@.len() ==> exists|b: int| 0 <= b < j && base[b] == #[trigger] out@[a],
                forall|b: int| 0 <= b < j && base[b].key != key ==> out@.contains(#[trigger] base[b]),
            decreases kept@.len() - j,
        {
            let e = kept[j];
            let ghost before = out@;
            if e.key.0 != key.0 || e.key.1 != key.1 {
                proof {
                    assert forall|a: int| 0 <= a < out@.len() implies (#[trigger] out@[a]).key != e.key by {
                        let b = choose|b: int| 0 <= b < j && base[b] == out@[a];
                        assert(base[b].key != base[j as int].key);
                    }
                }
                out.push(e);
                proof {
                    assert forall|a: int| 0 <= a < out@.len() implies exists|b: int| 0 <= b < j + 1 && base[b] == #[trigger] out@[a] by {
                        if a < before.len() {
                            assert(out@[a] == before[a]);
                        } else {
                            assert(base[j as int] == out@[a]);
                        }
                    }
                    assert forall|b: int| 0 <= b < j + 1 && base[b].key != key implies out@.contains(#[trigger] base[b]) by {
                        if b < j {
                            let a = choose|a: int| 0 <= a < before.len() && before[a] == base[b];
                            assert(out@[a] == before[a]);
                        } else {
                            assert(out@[before.len() as int] == base[b]);
                        }
                    }
                }
            }
            j = j + 1;
        }
        proof {
            assert forall|a: int| 0 <= a < out@.len() implies base.contains(#[trigger] out@[a]) by {
                let b = choose|b: int| 0 <= b < j && base[b] == out@[a];
            }
            lemma_put_view(old_entries, kept0, base, out@, key, rtt_ms, now, self.ttl, full);
        }
        out.push(CacheEntry { key, at: now, rtt_ms });
        self.entries = out;
    }

    /// Stores `rtt_ms` for `key` now, at the time read from the
    /// cache's monotonic clock. Which reading depends on the time.
    pub fn put(&mut self, key: (i64, i64), rtt_ms: Option<i64>)
        requires
            old(self).wf(),
        ensures
            final(self).wf(),
            final(self).ttl() == old(self).ttl(),
            exists|elapsed: Duration| final(self).view() == after_put(
                old(self).view(),
                old(self).ttl(),
                key,
                rtt_ms,
                #[trigger] duration_nanos(elapsed),
                live_keys(old(self).view(), old(self).ttl(), duration_nanos(elapsed)) >= MAX_ENTRIES,
            ),
    {
        let now = self.now();
        let ghost before = *self;
        self.put_at(key, rtt_ms, now);
        let ghost elapsed = choose|elapsed: Duration| now == #[trigger] duration_nanos(elapsed);
        assert(self.view() == after_put(
            before.view(),
            before.ttl(),
            key,
            rtt_ms,
            duration_nanos(elapsed),
            live_keys(before.view(), before.ttl(), duration_nanos(elapsed)) >= MAX_ENTRIES,
        ));
    }
}

} // verus!

verus! {

/// A result just stored is read back, including a failed probe's
/// `None`, as long as the entry has not outlived the time-to-live.
pub proof fn law_get_after_put(
    m: Map<(i64, i64), (u128, Option<i64>)>,
    ttl: u128,
    key: (i64, i64),
    rtt: Option<i64>,
    now: u128,
    full: bool,
    later: u128,
)
    requires
        later >= now ==> later - now <= ttl,
    ensures
        lookup(after_put(m, ttl, key, rtt, now, full), ttl, key, later) == Some(rtt),
{
}

/// Storing one key leaves what every other key reads at the same
/// moment unchanged, unless the store found the cache full and
/// emptied it.
pub proof fn law_put_isolates_keys(
    m: Map<(i64, i64), (u128, Option<i64>)>,
    ttl: u128,
    key: (i64, i64),
    rtt: Option<i64>,
    now: u128,
    full: bool,
    other: (i64, i64),
)
    requires
        other != key,
    ensures
        lookup(after_put(m, ttl, key, rtt, now, full), ttl, other, now) == (if full {
            None
        } else {
            lookup(m, ttl, other, now)
        }),
{
}

/// While fewer than `MAX_ENTRIES` keys are fresh, storing one key
/// leaves what every other key reads at that moment unchanged.
pub proof fn law_put_below_capacity_isolates_keys(
    m: Map<(i64, i64), (u128, Option<i64>)>,
    ttl: u128,
    key: (i64, i64),
    rtt: Option<i64>,
    now: u128,
    other: (i64, i64),
)
    requires
        other != key,
        live_keys(m, ttl, now) < MAX_ENTRIES,
    ensures
        lookup(after_put(m, ttl, key, rtt, now, live_keys(m, ttl, now) >= MAX_ENTRIES), ttl, other, now)
            == lookup(m, ttl, other, now),
{
}

/// A result stored at one reading of the cache clock reads as a miss
/// at any reading more than the time-to-live later, whether or not the
/// store found the cache full.
pub proof fn law_put_then_get_after_ttl_misses(
    m: Map<(i64, i64), (u128, Option<i64>)>,
    ttl: u128,
    key: (i64, i64),
    rtt: Option<i64>,
    stored: u128,
    full: bool,
    later: u128,
)
    requires
        later >= stored,
        later - stored > ttl,
    ensures
        lookup(after_put(m, ttl, key, rtt, stored, full), ttl, key, later) is None,
{
}

/// An entry older than the time-to-live reads as a miss.
pub proof fn law_expired_entry_misses(
    m: Map<(i64, i64), (u128, Option<i64>)>,
    ttl: u128,
    key: (i64, i64),
    now: u128,
)
    requires
        m.contains_key(key),
        now >= m[key].0,
        now - m[key].0 > ttl,
    ensures
        lookup(m, ttl, key, now) is None,
{
}

/// A second store for the same key replaces the first.
pub proof fn law_put_replaces(
    m: Map<(i64, i64), (u128, Option<i64>)>,
    ttl: u128,
    key: (i64, i64),
    first: Option<i64>,
    second: Option<i64>,
    now: u128,
    full1: bool,
    full2: bool,
)
    ensures
        lookup(
            after_put(after_put(m, ttl, key, first, now, full1), ttl, key, second, now, full2),
            ttl,
            key,
            now,
        ) == Some(second),
{
}

} // verus!
