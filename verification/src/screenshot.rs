//! The screenshot cache: captured images by normalised URL, the rule that
//! decides whether a cached image is fresh, stale or unusable, and the set
//! of URLs whose refresh is under way.

use vstd::prelude::*;
use crate::text::{copy_text, text_view};

verus! {

/// A captured screenshot.
#[derive(Clone, Debug)]
pub struct ScreenshotCacheEntry {
    /// The image, as a data URL or an opaque reference.
    pub image: String,
    /// When it was captured, in seconds since the Unix epoch.
    pub captured_at: u64,
    /// When it stops being fresh.
    pub expires_at: u64,
    /// Which pathway captured it.
    pub source: String,
    /// The failure of the latest refresh, if it failed.
    pub last_error: Option<String>,
}

/// The mathematical value of an entry.
pub struct EntryView {
    pub image: Seq<char>,
    pub captured_at: u64,
    pub expires_at: u64,
    pub source: Seq<char>,
    pub last_error: Option<Seq<char>>,
}

impl View for ScreenshotCacheEntry {
    type V = EntryView;

    open spec fn view(&self) -> EntryView {
        EntryView {
            image: self.image@,
            captured_at: self.captured_at,
            expires_at: self.expires_at,
            source: self.source@,
            last_error: text_view(self.last_error),
        }
    }
}

impl ScreenshotCacheEntry {
    /// A copy with the same value.
    pub fn duplicate(&self) -> (copy: ScreenshotCacheEntry)
        ensures
            copy@ == self@,
    {
        ScreenshotCacheEntry {
            image: self.image.clone(),
            captured_at: self.captured_at,
            expires_at: self.expires_at,
            source: self.source.clone(),
            last_error: copy_text(&self.last_error),
        }
    }
}

/// One key of the index with its entry.
#[derive(Clone, Debug)]
pub struct IndexedScreenshot {
    pub url: String,
    pub entry: ScreenshotCacheEntry,
}

/// The mathematical value of an indexed entry.
pub struct IndexedView {
    pub url: Seq<char>,
    pub entry: EntryView,
}

impl View for IndexedScreenshot {
    type V = IndexedView;

    open spec fn view(&self) -> IndexedView {
        IndexedView { url: self.url@, entry: self.entry@ }
    }
}

/// The persisted form of the screenshot cache.
#[derive(Clone, Debug)]
pub struct ScreenshotCacheIndex {
    pub entries: Vec<IndexedScreenshot>,
}

/// The screenshot cache in memory, with the path of its file. No URL
/// occurs twice.
#[derive(Debug)]
pub struct ScreenshotCacheStore {
    file_path: String,
    entries: Vec<IndexedScreenshot>,
}

/// What to do with the cached screenshot of a URL.
#[derive(Clone, Copy, Debug, PartialEq, Eq, Structural)]
pub enum ScreenshotCacheDecision {
    /// Serve the cached image.
    Fresh,
    /// Serve the cached image and refresh it in the background.
    StaleWithinGrace,
    /// Nothing usable is cached: refresh before answering.
    MissingOrExpired,
}

impl ScreenshotCacheDecision {
    /// The name of the decision in log events.
    pub fn as_str(self) -> (name: &'static str)
        ensures
            name@ == match self {
                ScreenshotCacheDecision::Fresh => "fresh"@,
                ScreenshotCacheDecision::StaleWithinGrace => "stale"@,
                ScreenshotCacheDecision::MissingOrExpired => "missing_or_expired"@,
            },
    {
        match self {
            ScreenshotCacheDecision::Fresh => "fresh",
            ScreenshotCacheDecision::StaleWithinGrace => "stale",
            ScreenshotCacheDecision::MissingOrExpired => "missing_or_expired",
        }
    }
}

/// The decision for an entry at `now`: fresh before its expiry, stale from
/// the expiry to the end of the grace window, both ends included, and
/// unusable after it or where there is no entry.
pub open spec fn decision_for(now_unix: u64, entry: Option<EntryView>, stale_grace_seconds: u64)
    -> ScreenshotCacheDecision {
    match entry {
        None => ScreenshotCacheDecision::MissingOrExpired,
        Some(e) => if now_unix < e.expires_at {
            ScreenshotCacheDecision::Fresh
        } else if now_unix <= e.expires_at + stale_grace_seconds {
            ScreenshotCacheDecision::StaleWithinGrace
        } else {
            ScreenshotCacheDecision::MissingOrExpired
        },
    }
}

/// The view of an optional borrowed entry.
pub open spec fn entry_view(o: Option<&ScreenshotCacheEntry>) -> Option<EntryView> {
    match o {
        Some(e) => Some(e@),
        None => None,
    }
}

/// The view of an optional owned entry.
pub open spec fn owned_entry_view(o: Option<ScreenshotCacheEntry>) -> Option<EntryView> {
    match o {
        Some(e) => Some(e@),
        None => None,
    }
}

/// Decides whether a cached screenshot is fresh, stale within the grace
/// window, or unusable.
pub fn decide_screenshot_cache_action(
    now_unix: u64,
    cache_entry: Option<&ScreenshotCacheEntry>,
    stale_grace_seconds: u64,
) -> (decision: ScreenshotCacheDecision)
    ensures
        decision == decision_for(now_unix, entry_view(cache_entry), stale_grace_seconds),
{
    let entry = match cache_entry {
        Some(entry) => entry,
        None => {
            return ScreenshotCacheDecision::MissingOrExpired;
        },
    };
    if now_unix < entry.expires_at {
        return ScreenshotCacheDecision::Fresh;
    }
    let stale_limit = entry.expires_at.saturating_add(stale_grace_seconds);
    if now_unix <= stale_limit {
        return ScreenshotCacheDecision::StaleWithinGrace;
    }
    ScreenshotCacheDecision::MissingOrExpired
}

/// No URL occurs twice.
pub open spec fn distinct_urls(s: Seq<IndexedView>) -> bool {
    forall|i: int, j: int| 0 <= i < j < s.len() ==> s[i].url != s[j].url
}

/// Whether the URL is indexed.
pub open spec fn has_url(s: Seq<IndexedView>, url: Seq<char>) -> bool {
    exists|i: int| 0 <= i < s.len() && (#[trigger] s[i]).url == url
}

/// The place of an indexed URL.
pub open spec fn place_of(s: Seq<IndexedView>, url: Seq<char>) -> int {
    choose|i: int| 0 <= i < s.len() && (#[trigger] s[i]).url == url
}

/// The entry indexed under the URL.
pub open spec fn stored(s: Seq<IndexedView>, url: Seq<char>) -> Option<EntryView> {
    if has_url(s, url) {
        Some(s[place_of(s, url)].entry)
    } else {
        None
    }
}

/// The index after an entry was written under the URL.
pub open spec fn inserted(s: Seq<IndexedView>, url: Seq<char>, entry: EntryView) -> Seq<
    IndexedView,
> {
    if has_url(s, url) {
        s.update(place_of(s, url), IndexedView { url, entry })
    } else {
        s.push(IndexedView { url, entry })
    }
}

/// The entry with its latest failure set and everything else kept.
pub open spec fn failed_entry(entry: EntryView, message: Seq<char>) -> EntryView {
    EntryView {
        image: entry.image,
        captured_at: entry.captured_at,
        expires_at: entry.expires_at,
        source: entry.source,
        last_error: Some(message),
    }
}

/// The index after a failure was noted for the URL: an indexed entry keeps
/// its image and gets the message; an unknown URL changes nothing.
pub open spec fn with_error(s: Seq<IndexedView>, url: Seq<char>, message: Seq<char>) -> Seq<
    IndexedView,
> {
    if has_url(s, url) {
        s.update(
            place_of(s, url),
            IndexedView { url, entry: failed_entry(s[place_of(s, url)].entry, message) },
        )
    } else {
        s
    }
}

/// The index that results from writing the listed entries one after another.
pub open spec fn loaded(list: Seq<IndexedView>) -> Seq<IndexedView>
    decreases list.len(),
{
    if list.len() == 0 {
        list
    } else {
        inserted(loaded(list.drop_last()), list.last().url, list.last().entry)
    }
}

/// The views of a list of indexed entries.
pub open spec fn indexed_views(list: Seq<IndexedScreenshot>) -> Seq<IndexedView> {
    Seq::new(list.len(), |i: int| list[i]@)
}

/// Writing keeps URLs distinct, makes the entry the stored one, and leaves
/// every other URL's entry alone.
pub proof fn lemma_inserted(s: Seq<IndexedView>, url: Seq<char>, entry: EntryView)
    requires
        distinct_urls(s),
    ensures
        distinct_urls(inserted(s, url, entry)),
        stored(inserted(s, url, entry), url) == Some(entry),
        forall|other: Seq<char>|
            other != url ==> #[trigger] stored(inserted(s, url, entry), other) == stored(s, other),
{
    let w = inserted(s, url, entry);
    let at = if has_url(s, url) {
        place_of(s, url)
    } else {
        s.len() as int
    };
    assert(w[at].url == url);
    assert(has_url(w, url));
    assert forall|i: int| 0 <= i < w.len() implies (#[trigger] w[i]).url == (if i < s.len() {
        s[i].url
    } else {
        url
    }) by {}
    assert forall|other: Seq<char>| other != url implies #[trigger] stored(w, other) == stored(
        s,
        other,
    ) by {
        if has_url(s, other) {
            let i = place_of(s, other);
            assert(w[i].url == other);
            let j = place_of(w, other);
            assert(w[j].url == other);
            assert(j < s.len());
            assert(s[j].url == other);
            assert(i == j);
            assert(w[j] == s[j]);
        } else if has_url(w, other) {
            let j = place_of(w, other);
            assert(w[j].url == other);
            assert(s[j].url == other);
        }
    }
}

/// Noting a failure keeps URLs distinct and every image: an indexed URL
/// keeps its entry but for the message, and no other URL is touched.
pub proof fn lemma_with_error(s: Seq<IndexedView>, url: Seq<char>, message: Seq<char>)
    requires
        distinct_urls(s),
    ensures
        distinct_urls(with_error(s, url, message)),
        stored(with_error(s, url, message), url) == match stored(s, url) {
            Some(entry) => Some(failed_entry(entry, message)),
            None => None,
        },
        forall|other: Seq<char>|
            other != url ==> #[trigger] stored(with_error(s, url, message), other) == stored(
                s,
                other,
            ),
{
    if has_url(s, url) {
        lemma_inserted(s, url, failed_entry(s[place_of(s, url)].entry, message));
    }
}

impl ScreenshotCacheStore {
    /// The entries of the store.
    pub closed spec fn view(&self) -> Seq<IndexedView> {
        indexed_views(self.entries@)
    }

    /// The path of the file that the store is persisted to.
    pub closed spec fn path(&self) -> Seq<char> {
        self.file_path@
    }

    /// The store is well formed: no URL occurs twice.
    pub open spec fn wf(&self) -> bool {
        distinct_urls(self@)
    }

    /// The store for a file: the entries of the index that was read from
    /// it, or none where no index could be read.
    pub fn load_from_disk(file_path: String, index: Option<ScreenshotCacheIndex>) -> (store:
        ScreenshotCacheStore)
        ensures
            store.wf(),
            store.path() == file_path@,
            store@ == match index {
                Some(index) => loaded(indexed_views(index.entries@)),
                None => Seq::<IndexedView>::empty(),
            },
    {
        let mut store = ScreenshotCacheStore { file_path, entries: Vec::new() };
        assert(store@ =~= Seq::<IndexedView>::empty());
        match index {
            None => {},
            Some(index) => {
                let ghost list = indexed_views(index.entries@);
                let mut i: usize = 0;
                assert(list.take(0) =~= Seq::<IndexedView>::empty());
                while i < index.entries.len()
                    invariant
                        i <= index.entries.len(),
                        list == indexed_views(index.entries@),
                        store.wf(),
                        store.path() == file_path@,
                        store@ == loaded(list.take(i as int)),
                    decreases index.entries.len() - i,
                {
                    proof {
                        assert(list.take(i + 1).drop_last() =~= list.take(i as int));
                        assert(list.take(i + 1).last() == index.entries@[i as int]@);
                    }
                    let item = &index.entries[i];
                    write_screenshot_cache_entry(&mut store, item.url.clone(), item.entry.duplicate());
                    i += 1;
                }
                assert(list.take(i as int) =~= list);
            },
        }
        store
    }

    /// The path of the file that the store is persisted to.
    pub fn file_path(&self) -> (path: &String)
        ensures
            path@ == self.path(),
    {
        &self.file_path
    }

    /// The number of entries.
    pub fn len(&self) -> (n: usize)
        ensures
            n == self@.len(),
    {
        self.entries.len()
    }

    /// A copy of all entries, to be persisted.
    pub fn snapshot(&self) -> (index: ScreenshotCacheIndex)
        ensures
            indexed_views(index.entries@) == self@,
    {
        let mut copy: Vec<IndexedScreenshot> = Vec::new();
        let mut i: usize = 0;
        while i < self.entries.len()
            invariant
                i <= self.entries.len(),
                copy@.len() == i,
                indexed_views(copy@) == self@.take(i as int),
            decreases self.entries.len() - i,
        {
            let item = &self.entries[i];
            let ghost prev = copy@;
            copy.push(IndexedScreenshot { url: item.url.clone(), entry: item.entry.duplicate() });
            i += 1;
            proof {
                assert(copy@[i - 1]@ == self@[i - 1]);
                assert(indexed_views(copy@) =~= indexed_views(prev).push(self@[i - 1]));
                assert(self@.take(i as int) =~= self@.take(i - 1).push(self@[i - 1]));
            }
        }
        assert(self@.take(i as int) =~= self@);
        ScreenshotCacheIndex { entries: copy }
    }

    fn position(&self, url: &str) -> (place: Option<usize>)
        ensures
            place is Some ==> place->0 < self@.len() && self@[place->0 as int].url == url@,
            place is Some == has_url(self@, url@),
            place is Some && self.wf() ==> place->0 == place_of(self@, url@),
    {
        let wanted = url.to_owned();
        let mut i: usize = 0;
        while i < self.entries.len()
            invariant
                i <= self.entries.len(),
                wanted@ == url@,
                forall|j: int| 0 <= j < i ==> (#[trigger] self@[j]).url != url@,
            decreases self.entries.len() - i,
        {
            if self.entries[i].url == wanted {
                assert(self@[i as int].url == url@);
                return Some(i);
            }
            i += 1;
        }
        None
    }
}

/// The entry cached for the URL, if any.
pub fn read_screenshot_cache_entry(store: &ScreenshotCacheStore, key: &str) -> (entry: Option<
    ScreenshotCacheEntry,
>)
    requires
        store.wf(),
    ensures
        owned_entry_view(entry) == stored(store@, key@),
{
    match store.position(key) {
        Some(i) => Some(store.entries[i].entry.duplicate()),
        None => None,
    }
}

/// Writes an entry under the URL, replacing the one that was there.
pub fn write_screenshot_cache_entry(
    store: &mut ScreenshotCacheStore,
    key: String,
    entry: ScreenshotCacheEntry,
)
    requires
        old(store).wf(),
    ensures
        final(store)@ == inserted(old(store)@, key@, entry@),
        final(store).wf(),
        final(store).path() == old(store).path(),
{
    let ghost before = store@;
    proof {
        lemma_inserted(before, key@, entry@);
    }
    match store.position(key.as_str()) {
        Some(i) => {
            store.entries.set(i, IndexedScreenshot { url: key, entry });
            assert(store@ =~= before.update(i as int, IndexedView { url: key@, entry: entry@ }));
        },
        None => {
            store.entries.push(IndexedScreenshot { url: key, entry });
            assert(store@ =~= before.push(IndexedView { url: key@, entry: entry@ }));
        },
    }
}

/// Notes a failed refresh on the entry of the URL. The image and the rest
/// of the entry stay; a URL without an entry gets none.
pub fn update_screenshot_cache_error(store: &mut ScreenshotCacheStore, key: &str, message: &str)
    requires
        old(store).wf(),
    ensures
        final(store)@ == with_error(old(store)@, key@, message@),
        final(store).wf(),
        final(store).path() == old(store).path(),
{
    let ghost before = store@;
    proof {
        lemma_with_error(before, key@, message@);
    }
    match store.position(key) {
        Some(i) => {
            let current = &store.entries[i];
            let updated = IndexedScreenshot {
                url: current.url.clone(),
                entry: ScreenshotCacheEntry {
                    image: current.entry.image.clone(),
                    captured_at: current.entry.captured_at,
                    expires_at: current.entry.expires_at,
                    source: current.entry.source.clone(),
                    last_error: Some(message.to_owned()),
                },
            };
            store.entries.set(i, updated);
            assert(store@ =~= before.update(
                i as int,
                IndexedView { url: key@, entry: failed_entry(before[i as int].entry, message@) },
            ));
        },
        None => {},
    }
}

/// The URLs whose background refresh is under way. No URL occurs twice.
#[derive(Debug)]
pub struct InFlightSet {
    urls: Vec<String>,
}

impl InFlightSet {
    /// The URLs in the set.
    pub closed spec fn view(&self) -> Set<Seq<char>> {
        Set::new(
            |url: Seq<char>|
                exists|i: int| 0 <= i < self.urls@.len() && (#[trigger] self.urls@[i])@ == url,
        )
    }

    /// No URL is held twice.
    pub closed spec fn wf(&self) -> bool {
        forall|i: int, j: int| 0 <= i < j < self.urls@.len() ==> self.urls@[i]@ != self.urls@[j]@
    }

    /// The empty set.
    pub fn new() -> (set: InFlightSet)
        ensures
            set.wf(),
            set@ == Set::<Seq<char>>::empty(),
    {
        let set = InFlightSet { urls: Vec::new() };
        assert(set@ =~= Set::<Seq<char>>::empty());
        set
    }

    fn position(&self, url: &str) -> (place: Option<usize>)
        ensures
            place is Some ==> place->0 < self.urls@.len() && self.urls@[place->0 as int]@ == url@,
            place is Some == self@.contains(url@),
    {
        let wanted = url.to_owned();
        let mut i: usize = 0;
        while i < self.urls.len()
            invariant
                i <= self.urls.len(),
                wanted@ == url@,
                forall|j: int| 0 <= j < i ==> (#[trigger] self.urls@[j])@ != url@,
            decreases self.urls.len() - i,
        {
            if self.urls[i] == wanted {
                return Some(i);
            }
            i += 1;
        }
        None
    }

    /// Claims the refresh of a URL. The claim succeeds exactly when no
    /// refresh of that URL was under way; either way the URL is in the set
    /// afterwards.
    pub fn claim(&mut self, url: &str) -> (claimed: bool)
        requires
            old(self).wf(),
        ensures
            claimed == !old(self)@.contains(url@),
            final(self)@ == old(self)@.insert(url@),
            final(self).wf(),
    {
        match self.position(url) {
            Some(_) => {
                assert(self@ =~= self@.insert(url@));
                false
            },
            None => {
                let ghost before = *self;
                self.urls.push(url.to_owned());
                proof {
                    assert forall|u: Seq<char>| self@.contains(u) == before@.insert(url@).contains(
                        u,
                    ) by {
                        if before@.insert(url@).contains(u) {
                            if u == url@ {
                                assert(self.urls@[self.urls@.len() - 1]@ == u);
                            } else {
                                let i = choose|i: int|
                                    0 <= i < before.urls@.len() && (#[trigger] before.urls@[i])@
                                        == u;
                                assert(self.urls@[i]@ == u);
                            }
                        }
                        if self@.contains(u) {
                            let i = choose|i: int|
                                0 <= i < self.urls@.len() && (#[trigger] self.urls@[i])@ == u;
                            if i < before.urls@.len() {
                                assert(before.urls@[i]@ == u);
                            }
                        }
                    }
                    assert(self@ =~= before@.insert(url@));
                }
                true
            },
        }
    }

    /// Ends the refresh of a URL: the URL leaves the set.
    pub fn release(&mut self, url: &str)
        requires
            old(self).wf(),
        ensures
            final(self)@ == old(self)@.remove(url@),
            final(self).wf(),
    {
        match self.position(url) {
            None => {
                assert(self@ =~= self@.remove(url@));
            },
            Some(at) => {
                let ghost before = *self;
                self.urls.remove(at);
                proof {
                    assert forall|u: Seq<char>| self@.contains(u) == before@.remove(url@).contains(
                        u,
                    ) by {
                        if before@.remove(url@).contains(u) {
                            let i = choose|i: int|
                                0 <= i < before.urls@.len() && (#[trigger] before.urls@[i])@ == u;
                            if i < at {
                                assert(self.urls@[i]@ == u);
                            } else {
                                assert(self.urls@[i - 1]@ == u);
                            }
                        }
                        if self@.contains(u) {
                            let i = choose|i: int|
                                0 <= i < self.urls@.len() && (#[trigger] self.urls@[i])@ == u;
                            if i < at {
                                assert(before.urls@[i]@ == u);
                            } else {
                                assert(before.urls@[i + 1]@ == u);
                            }
                        }
                    }
                    assert(self@ =~= before@.remove(url@));
                }
            },
        }
    }

    /// Whether a refresh of the URL is under way.
    pub fn contains(&self, url: &str) -> (held: bool)
        ensures
            held == self@.contains(url@),
    {
        self.position(url).is_some()
    }
}

} // verus!
