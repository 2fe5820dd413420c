//! The bounded preview cache: entries expire after a fixed time, and a full
//! cache gives up the entry that was created first.

use vstd::prelude::*;
use crate::payload::{PayloadView, PreviewPayload};

verus! {

/// A cached payload with the times of its creation and expiry.
#[derive(Clone, Debug)]
pub struct CacheEntry {
    pub created_at: u64,
    pub expires_at: u64,
    pub value: PreviewPayload,
}

/// One key of the cache with its entry.
#[derive(Clone, Debug)]
pub struct CacheSlot {
    pub key: String,
    pub entry: CacheEntry,
}

/// The preview cache. Keys are normalised URLs; no key occurs twice.
#[derive(Debug)]
pub struct PreviewCache {
    slots: Vec<CacheSlot>,
}

/// The mathematical value of one slot.
pub struct SlotView {
    pub key: Seq<char>,
    pub created_at: u64,
    pub expires_at: u64,
    pub value: PayloadView,
}

impl View for CacheSlot {
    type V = SlotView;

    open spec fn view(&self) -> SlotView {
        SlotView {
            key: self.key@,
            created_at: self.entry.created_at,
            expires_at: self.entry.expires_at,
            value: self.entry.value@,
        }
    }
}

impl View for PreviewCache {
    type V = Seq<SlotView>;

    closed spec fn view(&self) -> Seq<SlotView> {
        Seq::new(self.slots@.len(), |i: int| self.slots@[i]@)
    }
}

/// No key occurs twice.
pub open spec fn distinct_keys(s: Seq<SlotView>) -> bool {
    forall|i: int, j: int| 0 <= i < j < s.len() ==> s[i].key != s[j].key
}

/// Whether the key is cached.
pub open spec fn has_key(s: Seq<SlotView>, key: Seq<char>) -> bool {
    exists|i: int| 0 <= i < s.len() && (#[trigger] s[i]).key == key
}

/// The place of a cached key.
pub open spec fn index_of(s: Seq<SlotView>, key: Seq<char>) -> int {
    choose|i: int| 0 <= i < s.len() && (#[trigger] s[i]).key == key
}

/// The entries that have not expired at `now`, in their order.
pub open spec fn purged(s: Seq<SlotView>, now: u64) -> Seq<SlotView>
    decreases s.len(),
{
    if s.len() == 0 {
        s
    } else if s.last().expires_at > now {
        purged(s.drop_last(), now).push(s.last())
    } else {
        purged(s.drop_last(), now)
    }
}

/// The place of the entry that was created first; among equals, the one
/// that stands first.
pub open spec fn oldest_index(s: Seq<SlotView>) -> int
    decreases s.len(),
{
    if s.len() <= 1 {
        0
    } else {
        let k = oldest_index(s.drop_last());
        if s.last().created_at < s[k].created_at {
            s.len() - 1
        } else {
            k
        }
    }
}

/// The cache without its oldest entry.
pub open spec fn evicted(s: Seq<SlotView>) -> Seq<SlotView> {
    if s.len() == 0 {
        s
    } else {
        s.remove(oldest_index(s))
    }
}

/// The time at which an entry written at `now` expires.
pub open spec fn expiry(now: u64, ttl: u64) -> u64 {
    if now + ttl > u64::MAX {
        u64::MAX
    } else {
        (now + ttl) as u64
    }
}

/// The entry that a write at `now` stores.
pub open spec fn written_slot(key: Seq<char>, value: PayloadView, now: u64, ttl: u64) -> SlotView {
    SlotView { key, created_at: now, expires_at: expiry(now, ttl), value }
}

/// The cache after a write: expired entries leave; a known key has its
/// entry replaced; a new key is appended, after the oldest entry left
/// where the cache was full.
pub open spec fn written(
    s: Seq<SlotView>,
    key: Seq<char>,
    value: PayloadView,
    now: u64,
    ttl: u64,
    max_entries: usize,
) -> Seq<SlotView> {
    let p = purged(s, now);
    let slot = written_slot(key, value, now, ttl);
    if has_key(p, key) {
        p.update(index_of(p, key), slot)
    } else if p.len() >= max_entries {
        evicted(p).push(slot)
    } else {
        p.push(slot)
    }
}

/// The payload that a read at `now` finds.
pub open spec fn lookup(s: Seq<SlotView>, key: Seq<char>, now: u64) -> Option<PayloadView> {
    if has_key(s, key) && s[index_of(s, key)].expires_at > now {
        Some(s[index_of(s, key)].value)
    } else {
        None
    }
}

/// The view of an optional payload.
pub open spec fn payload_view(o: Option<PreviewPayload>) -> Option<PayloadView> {
    match o {
        Some(p) => Some(p@),
        None => None,
    }
}

/// Purging keeps exactly the unexpired entries, and keeps keys distinct.
pub proof fn lemma_purged(s: Seq<SlotView>, now: u64)
    ensures
        purged(s, now).len() <= s.len(),
        forall|j: int|
            0 <= j < purged(s, now).len() ==> (#[trigger] purged(s, now)[j]).expires_at > now
                && s.contains(purged(s, now)[j]),
        forall|i: int|
            0 <= i < s.len() && (#[trigger] s[i]).expires_at > now ==> purged(s, now).contains(
                s[i],
            ),
        distinct_keys(s) ==> distinct_keys(purged(s, now)),
    decreases s.len(),
{
    let p = purged(s, now);
    if s.len() > 0 {
        let init = s.drop_last();
        let q = purged(init, now);
        lemma_purged(init, now);
        assert forall|j: int| 0 <= j < p.len() implies (#[trigger] p[j]).expires_at > now
            && s.contains(p[j]) by {
            if j < q.len() {
                assert(p[j] == q[j]);
                assert(init.contains(q[j]));
                let i = choose|i: int| 0 <= i < init.len() && init[i] == q[j];
                assert(s[i] == p[j]);
            } else {
                assert(p[j] == s[s.len() - 1]);
            }
        }
        assert forall|i: int| 0 <= i < s.len() && (#[trigger] s[i]).expires_at > now implies p.contains(
            s[i],
        ) by {
            if i < init.len() {
                assert(init[i] == s[i]);
                assert(q.contains(init[i]));
                let j = choose|j: int| 0 <= j < q.len() && q[j] == init[i];
                assert(p[j] == s[i]);
            } else {
                assert(p[p.len() - 1] == s[i]);
            }
        }
        if distinct_keys(s) {
            assert(distinct_keys(init));
            assert forall|a: int, b: int| 0 <= a < b < p.len() implies p[a].key != p[b].key by {
                if b < q.len() {
                    assert(p[a] == q[a] && p[b] == q[b]);
                } else {
                    assert(p[a] == q[a]);
                    assert(init.contains(q[a]));
                    let i = choose|i: int| 0 <= i < init.len() && init[i] == q[a];
                    assert(s[i].key != s[s.len() - 1].key);
                }
            }
        }
    }
}

/// The oldest entry is in range and no entry was created before it.
pub proof fn lemma_oldest_index(s: Seq<SlotView>)
    requires
        s.len() > 0,
    ensures
        0 <= oldest_index(s) < s.len(),
        forall|j: int|
            0 <= j < s.len() ==> s[oldest_index(s)].created_at <= (#[trigger] s[j]).created_at,
    decreases s.len(),
{
    if s.len() > 1 {
        lemma_oldest_index(s.drop_last());
        let k = oldest_index(s.drop_last());
        assert forall|j: int| 0 <= j < s.len() implies s[oldest_index(s)].created_at <= (
        #[trigger] s[j]).created_at by {
            if j < s.len() - 1 {
                assert(s.drop_last()[j] == s[j]);
            }
        }
    }
}

impl PreviewCache {
    /// The cache is well formed: no key occurs twice.
    pub open spec fn wf(&self) -> bool {
        distinct_keys(self@)
    }

    /// An empty cache.
    pub fn new() -> (cache: PreviewCache)
        ensures
            cache@ == Seq::<SlotView>::empty(),
            cache.wf(),
    {
        let cache = PreviewCache { slots: Vec::new() };
        assert(cache@ =~= Seq::<SlotView>::empty());
        cache
    }

    /// The number of entries, expired ones included.
    pub fn len(&self) -> (n: usize)
        ensures
            n == self@.len(),
    {
        self.slots.len()
    }

    /// Whether the key has an entry, expired or not.
    pub fn contains_key(&self, key: &str) -> (found: bool)
        ensures
            found == has_key(self@, key@),
    {
        self.position(key).is_some()
    }

    /// The payload stored under the key, if it has not expired at `now`.
    pub fn peek(&self, key: &str, now: u64) -> (hit: Option<PreviewPayload>)
        requires
            self.wf(),
        ensures
            payload_view(hit) == lookup(self@, key@, now),
    {
        match self.position(key) {
            Some(i) => {
                if self.slots[i].entry.expires_at > now {
                    Some(self.slots[i].entry.value.duplicate())
                } else {
                    None
                }
            },
            None => None,
        }
    }

    fn position(&self, key: &str) -> (place: Option<usize>)
        ensures
            place is Some ==> place->0 < self@.len() && self@[place->0 as int].key == key@,
            place is Some == has_key(self@, key@),
            place is Some && self.wf() ==> place->0 == index_of(self@, key@),
    {
        let wanted = key.to_owned();
        let mut i: usize = 0;
        while i < self.slots.len()
            invariant
                i <= self.slots.len(),
                wanted@ == key@,
                forall|j: int| 0 <= j < i ==> (#[trigger] self@[j]).key != key@,
            decreases self.slots.len() - i,
        {
            if self.slots[i].key == wanted {
                assert(self@[i as int].key == key@);
                return Some(i);
            }
            i += 1;
        }
        None
    }
}

/// Removes every entry that has expired at `now`.
pub fn purge_expired_entries(cache: &mut PreviewCache, now: u64)
    ensures
        final(cache)@ == purged(old(cache)@, now),
        old(cache).wf() ==> final(cache).wf(),
{
    let ghost orig = cache@;
    let ghost mut k: int = 0;
    let mut i: usize = 0;
    assert(orig.take(0) =~= Seq::<SlotView>::empty());
    assert(cache@.take(0) =~= Seq::<SlotView>::empty());
    assert(cache@.skip(0) =~= orig.skip(0));
    while i < cache.slots.len()
        invariant
            0 <= k <= orig.len(),
            i <= cache@.len(),
            cache@.len() == cache.slots@.len(),
            cache@.len() - i == orig.len() - k,
            cache@.take(i as int) == purged(orig.take(k), now),
            cache@.skip(i as int) == orig.skip(k),
        decreases cache.slots.len() - i,
    {
        let ghost before = cache@;
        proof {
            assert(orig.take(k + 1).drop_last() =~= orig.take(k));
            assert(before.skip(i as int)[0] == orig.skip(k)[0]);
            assert(before[i as int] == orig[k]);
        }
        if cache.slots[i].entry.expires_at > now {
            i += 1;
            proof {
                assert(cache@.take(i as int) =~= before.take(i - 1).push(before[i - 1]));
                assert(cache@.skip(i as int) =~= before.skip(i - 1).skip(1));
                assert(orig.skip(k + 1) =~= orig.skip(k).skip(1));
            }
        } else {
            cache.slots.remove(i);
            proof {
                assert(cache@ =~= before.remove(i as int));
                assert(cache@.take(i as int) =~= before.take(i as int));
                assert(cache@.skip(i as int) =~= before.skip(i as int).skip(1));
                assert(orig.skip(k + 1) =~= orig.skip(k).skip(1));
            }
        }
        proof {
            k = k + 1;
        }
    }
    proof {
        assert(cache@.take(i as int) =~= cache@);
        assert(orig.take(k) =~= orig);
        lemma_purged(orig, now);
    }
}

/// Removes the entry that was created first, if there is any.
pub fn evict_oldest_entry(cache: &mut PreviewCache)
    ensures
        final(cache)@ == evicted(old(cache)@),
        old(cache).wf() ==> final(cache).wf(),
{
    if cache.slots.len() == 0 {
        return ;
    }
    let ghost orig = cache@;
    let mut best: usize = 0;
    let mut i: usize = 1;
    assert(orig.take(1).drop_last() =~= orig.take(0));
    while i < cache.slots.len()
        invariant
            1 <= i <= cache.slots.len(),
            cache@ == orig,
            orig.len() == cache.slots@.len(),
            best < i,
            best == oldest_index(orig.take(i as int)),
        decreases cache.slots.len() - i,
    {
        proof {
            assert(orig.take(i + 1).drop_last() =~= orig.take(i as int));
            assert(orig.take(i + 1).last() == orig[i as int]);
            assert(orig.take(i + 1)[best as int] == orig[best as int]);
        }
        if cache.slots[i].entry.created_at < cache.slots[best].entry.created_at {
            best = i;
        }
        i += 1;
    }
    assert(orig.take(i as int) =~= orig);
    cache.slots.remove(best);
    assert(cache@ =~= orig.remove(best as int));
}

/// Looks a key up at `now`. A hit returns the payload and leaves the cache
/// as it is; a miss removes every expired entry.
pub fn read_from_cache(cache: &mut PreviewCache, key: &str, now: u64) -> (hit: Option<
    PreviewPayload,
>)
    requires
        old(cache).wf(),
    ensures
        payload_view(hit) == lookup(old(cache)@, key@, now),
        hit is Some ==> final(cache)@ == old(cache)@,
        hit is None ==> final(cache)@ == purged(old(cache)@, now),
        final(cache).wf(),
{
    let hit = cache.peek(key, now);
    if hit.is_none() {
        purge_expired_entries(cache, now);
    }
    hit
}

/// Stores a payload under a key at `now`, to expire `ttl` later. Expired
/// entries leave first. A key that is still cached has its entry replaced;
/// a new key enters, and where the cache already holds `max_entries`
/// entries the one created first leaves.
pub fn write_to_cache(
    cache: &mut PreviewCache,
    key: String,
    value: PreviewPayload,
    now: u64,
    ttl: u64,
    max_entries: usize,
)
    requires
        old(cache).wf(),
    ensures
        final(cache)@ == written(old(cache)@, key@, value@, now, ttl, max_entries),
        final(cache).wf(),
{
    purge_expired_entries(cache, now);
    let ghost p = cache@;
    proof {
        lemma_purged(old(cache)@, now);
    }
    let slot = CacheSlot {
        key,
        entry: CacheEntry { created_at: now, expires_at: now.saturating_add(ttl), value },
    };
    assert(slot@ == written_slot(key@, value@, now, ttl));
    match cache.position(slot.key.as_str()) {
        Some(i) => {
            cache.slots.set(i, slot);
            proof {
                assert(cache@ =~= p.update(i as int, slot@));
            }
        },
        None => {
            if cache.slots.len() >= max_entries {
                evict_oldest_entry(cache);
            }
            let ghost q = cache@;
            proof {
                if p.len() > 0 {
                    lemma_oldest_index(p);
                }
                assert forall|j: int| 0 <= j < q.len() implies (#[trigger] q[j]).key != slot@.key by {
                    if q != p {
                        let o = oldest_index(p);
                        if j < o {
                            assert(q[j] == p[j]);
                        } else {
                            assert(q[j] == p[j + 1]);
                        }
                    }
                }
            }
            cache.slots.push(slot);
            proof {
                assert(cache@ =~= q.push(slot@));
            }
        },
    }
}

/// A full cache that takes a new key gives up exactly its oldest entry:
/// the entry at the oldest place leaves, no entry was created before it,
/// and every other entry stays, followed by the new one.
pub proof fn lemma_full_cache_evicts_oldest(
    s: Seq<SlotView>,
    key: Seq<char>,
    value: PayloadView,
    now: u64,
    ttl: u64,
    max_entries: usize,
)
    requires
        !has_key(purged(s, now), key),
        purged(s, now).len() >= max_entries,
        max_entries > 0,
    ensures
        ({
            let p = purged(s, now);
            let o = oldest_index(p);
            let w = written(s, key, value, now, ttl, max_entries);
            &&& 0 <= o < p.len()
            &&& forall|j: int| 0 <= j < p.len() ==> p[o].created_at <= (#[trigger] p[j]).created_at
            &&& w == p.remove(o).push(written_slot(key, value, now, ttl))
            &&& w.len() == p.len()
            &&& forall|j: int| 0 <= j < p.len() && j != o ==> w.contains(#[trigger] p[j])
        }),
{
    let p = purged(s, now);
    let o = oldest_index(p);
    let w = written(s, key, value, now, ttl, max_entries);
    lemma_oldest_index(p);
    assert forall|j: int| 0 <= j < p.len() && j != o implies w.contains(#[trigger] p[j]) by {
        if j < o {
            assert(w[j] == p[j]);
        } else {
            assert(w[j - 1] == p[j]);
        }
    }
}

/// A cache within its capacity stays within it after a write.
pub proof fn lemma_write_keeps_capacity(
    s: Seq<SlotView>,
    key: Seq<char>,
    value: PayloadView,
    now: u64,
    ttl: u64,
    max_entries: usize,
)
    requires
        s.len() <= max_entries,
        max_entries > 0,
    ensures
        written(s, key, value, now, ttl, max_entries).len() <= max_entries,
{
    lemma_purged(s, now);
    if purged(s, now).len() > 0 {
        lemma_oldest_index(purged(s, now));
    }
}

/// After a write whose entry outlives the moment of writing, no entry of
/// the cache has expired at that moment.
pub proof fn lemma_write_leaves_no_expired_entry(
    s: Seq<SlotView>,
    key: Seq<char>,
    value: PayloadView,
    now: u64,
    ttl: u64,
    max_entries: usize,
)
    requires
        expiry(now, ttl) > now,
    ensures
        forall|j: int|
            0 <= j < written(s, key, value, now, ttl, max_entries).len() ==> (#[trigger] written(
                s,
                key,
                value,
                now,
                ttl,
                max_entries,
            )[j]).expires_at > now,
{
    let p = purged(s, now);
    let w = written(s, key, value, now, ttl, max_entries);
    lemma_purged(s, now);
    if p.len() > 0 {
        lemma_oldest_index(p);
    }
    assert forall|j: int| 0 <= j < w.len() implies (#[trigger] w[j]).expires_at > now by {
        if has_key(p, key) {
            if j != index_of(p, key) {
                assert(w[j] == p[j]);
            }
        } else if p.len() >= max_entries && p.len() > 0 {
            if j < w.len() - 1 {
                if j < oldest_index(p) {
                    assert(w[j] == p[j]);
                } else {
                    assert(w[j] == p[j + 1]);
                }
            }
        } else if j < p.len() {
            assert(w[j] == p[j]);
        }
    }
}

/// Writing a key that is still cached evicts nothing: the cache keeps its
/// length, and every other entry stays where it was.
pub proof fn lemma_overwrite_never_evicts(
    s: Seq<SlotView>,
    key: Seq<char>,
    value: PayloadView,
    now: u64,
    ttl: u64,
    max_entries: usize,
)
    requires
        has_key(purged(s, now), key),
    ensures
        ({
            let p = purged(s, now);
            let w = written(s, key, value, now, ttl, max_entries);
            &&& w.len() == p.len()
            &&& w[index_of(p, key)] == written_slot(key, value, now, ttl)
            &&& forall|j: int| 0 <= j < p.len() && j != index_of(p, key) ==> #[trigger] w[j] == p[j]
        }),
{
}

/// A payload written at `now` is what every read of its key finds until it
/// expires, and such a read leaves the cache unchanged.
pub proof fn lemma_read_after_write(
    s: Seq<SlotView>,
    key: Seq<char>,
    value: PayloadView,
    now: u64,
    ttl: u64,
    max_entries: usize,
    later: u64,
)
    requires
        distinct_keys(s),
        later < expiry(now, ttl),
    ensures
        lookup(written(s, key, value, now, ttl, max_entries), key, later) == Some(value),
{
    let p = purged(s, now);
    let w = written(s, key, value, now, ttl, max_entries);
    let slot = written_slot(key, value, now, ttl);
    lemma_purged(s, now);
    if has_key(p, key) {
        let i = index_of(p, key);
        assert(w[i] == slot);
        assert(has_key(w, key));
        let f = index_of(w, key);
        if f != i {
            assert(w[f] == p[f]);
            assert(p[f].key == p[i].key);
        }
    } else {
        let n = w.len() - 1;
        assert(w[n] == slot);
        assert(has_key(w, key));
        let f = index_of(w, key);
        if f != n {
            let from = if p.len() >= max_entries && p.len() > 0 {
                lemma_oldest_index(p);
                if f < oldest_index(p) {
                    f
                } else {
                    f + 1
                }
            } else {
                f
            };
            assert(w[f] == p[from]);
            assert(p[from].key != key);
        }
    }
}

} // verus!
