//! Permission cache: an in-memory mapping from (identity, resource) to a
//! permission level, populated on demand by read-through against the
//! authoritative store and kept fresh by change events from the membership
//! feed. Entries carry the feed's version number so that out-of-order or
//! stale updates are discarded, and a pending-fetch marker so that
//! concurrent lookups for one key coalesce into a single read-through.
//! Entries are never expired by time alone: only a change event overwrites
//! them and only a failed fetch removes a pending one (invalidation-only,
//! no eviction).

use vstd::prelude::*;

use crate::types::ChangeEvent;
use crate::types::Identity;
use crate::types::PermissionLevel;
use crate::types::ResourceRef;

verus! {

/// What the cache knows about one key: a read-through is in flight, or a
/// level is cached (`NoAccess` doubles as the negative-cache value and as
/// the tombstone a removal leaves behind).
#[derive(Clone, Copy, Debug, PartialEq, Eq, Structural)]
pub enum EntryState {
    Fetching,
    Cached(PermissionLevel),
}

/// One cache entry: a key, its state, and the version of the newest change
/// event or fetch result it reflects.
#[derive(Clone, Copy, Debug, PartialEq, Eq, Structural)]
pub struct CacheEntry {
    pub identity: Identity,
    pub resource: ResourceRef,
    pub state: EntryState,
    pub version: u64,
}

/// The answer of one cache lookup: a cached level, an instruction to this
/// caller to perform the single read-through, or an instruction to wait for
/// the read-through another caller already started.
#[derive(Clone, Copy, Debug, PartialEq, Eq, Structural)]
pub enum CacheOutcome {
    Hit(PermissionLevel),
    MustFetch,
    AwaitFetch,
}

/// Whether entry `e` is keyed by (`who`, `what`).
pub open spec fn entry_matches(e: CacheEntry, who: Identity, what: ResourceRef) -> bool {
    e.identity == who && e.resource == what
}

/// The first entry for (`who`, `what`) in `s`, if any.
pub open spec fn find_entry(s: Seq<CacheEntry>, who: Identity, what: ResourceRef) -> Option<
    CacheEntry,
>
    decreases s.len(),
{
    if s.len() == 0 {
        Option::None
    } else if entry_matches(s[0], who, what) {
        Option::Some(s[0])
    } else {
        find_entry(s.drop_first(), who, what)
    }
}

/// How one lookup changes the key's entry: a miss inserts a pending-fetch
/// marker (claiming the single read-through for the caller), anything else
/// leaves the entry alone.
pub open spec fn step_get_entry(
    e: Option<CacheEntry>,
    who: Identity,
    what: ResourceRef,
) -> Option<CacheEntry> {
    match e {
        Option::None => Option::Some(
            CacheEntry { identity: who, resource: what, state: EntryState::Fetching, version: 0 },
        ),
        Option::Some(en) => Option::Some(en),
    }
}

/// What one lookup answers, from the key's entry before the call.
pub open spec fn step_get_outcome(e: Option<CacheEntry>) -> CacheOutcome {
    match e {
        Option::None => CacheOutcome::MustFetch,
        Option::Some(en) => match en.state {
            EntryState::Fetching => CacheOutcome::AwaitFetch,
            EntryState::Cached(l) => CacheOutcome::Hit(l),
        },
    }
}

/// How a change event transforms the key's entry: it wins over an absent
/// entry and over a pending fetch, and over a cached value exactly when its
/// version is newer; otherwise it is discarded as stale.
pub open spec fn step_event(e: Option<CacheEntry>, ev: ChangeEvent) -> Option<CacheEntry> {
    match e {
        Option::None => Option::Some(
            CacheEntry {
                identity: ev.identity,
                resource: ev.resource,
                state: EntryState::Cached(ev.spec_new_level()),
                version: ev.version,
            },
        ),
        Option::Some(en) => if en.state is Fetching || ev.version > en.version {
            Option::Some(
                CacheEntry {
                    identity: en.identity,
                    resource: en.resource,
                    state: EntryState::Cached(ev.spec_new_level()),
                    version: ev.version,
                },
            )
        } else {
            Option::Some(en)
        },
    }
}

/// How a completed read-through transforms the key's entry: it resolves a
/// pending fetch, and overwrites a cached value only when the store's
/// version is newer than the entry's — a change event applied while the
/// fetch was in flight wins over the stale result.
pub open spec fn step_complete(
    e: Option<CacheEntry>,
    who: Identity,
    what: ResourceRef,
    level: PermissionLevel,
    version: u64,
) -> Option<CacheEntry> {
    match e {
        Option::None => Option::Some(
            CacheEntry { identity: who, resource: what, state: EntryState::Cached(level), version },
        ),
        Option::Some(en) => match en.state {
            EntryState::Fetching => Option::Some(
                CacheEntry {
                    identity: en.identity,
                    resource: en.resource,
                    state: EntryState::Cached(level),
                    version,
                },
            ),
            EntryState::Cached(_) => if version > en.version {
                Option::Some(
                    CacheEntry {
                        identity: en.identity,
                        resource: en.resource,
                        state: EntryState::Cached(level),
                        version,
                    },
                )
            } else {
                Option::Some(en)
            },
        },
    }
}

/// How a failed read-through transforms the key's entry: the pending marker
/// is dropped so that a later lookup may retry; a cached value (the
/// last-known level) is left untouched.
pub open spec fn step_fetch_failed(e: Option<CacheEntry>) -> Option<CacheEntry> {
    match e {
        Option::Some(en) => if en.state is Fetching {
            Option::None
        } else {
            Option::Some(en)
        },
        Option::None => Option::None,
    }
}

/// The level an entry serves to readers, if any.
pub open spec fn cached_level(e: Option<CacheEntry>) -> Option<PermissionLevel> {
    match e {
        Option::Some(en) => match en.state {
            EntryState::Cached(l) => Option::Some(l),
            EntryState::Fetching => Option::None,
        },
        Option::None => Option::None,
    }
}

/// The permission cache for one resource kind.
pub struct PermissionCache {
    entries: Vec<CacheEntry>,
}

impl PermissionCache {
    /// The entry the cache holds for (`who`, `what`), if any.
    pub closed spec fn entry(&self, who: Identity, what: ResourceRef) -> Option<CacheEntry> {
        find_entry(self.entries@, who, what)
    }

    /// Each key has at most one entry.
    pub closed spec fn wf(&self) -> bool {
        forall|i: int, j: int|
            #![trigger self.entries@[i], self.entries@[j]]
            0 <= i < j < self.entries@.len() ==> !entry_matches(
                self.entries@[j],
                self.entries@[i].identity,
                self.entries@[i].resource,
            )
    }

    /// A fresh, empty cache.
    pub fn new() -> (r: Self)
        ensures
            r.wf(),
            forall|w: Identity, rr: ResourceRef| #[trigger] r.entry(w, rr) is None,
    {
        PermissionCache { entries: Vec::new() }
    }

    /// The index of the entry for (`who`, `what`), if one exists.
    fn find_index(&self, who: Identity, what: ResourceRef) -> (r: Option<usize>)
        requires
            self.wf(),
        ensures
            match r {
                Option::Some(i) => {
                    &&& i < self.entries@.len()
                    &&& entry_matches(self.entries@[i as int], who, what)
                    &&& self.entry(who, what) == Option::Some(self.entries@[i as int])
                    &&& forall|k: int|
                        0 <= k < i ==> !entry_matches(#[trigger] self.entries@[k], who, what)
                },
                Option::None => {
                    &&& self.entry(who, what) is None
                    &&& forall|k: int|
                        0 <= k < self.entries@.len() ==> !entry_matches(
                            #[trigger] self.entries@[k],
                            who,
                            what,
                        )
                },
            },
    {
        let n = self.entries.len();
        let mut i: usize = 0;
        while i < n
            invariant
                n == self.entries@.len(),
                i <= n,
                forall|k: int| 0 <= k < i ==> !entry_matches(#[trigger] self.entries@[k], who, what),
            decreases n - i,
        {
            let e = self.entries[i];
            if e.identity == who && e.resource == what {
                proof {
                    lemma_find_at(self.entries@, who, what, i as int);
                }
                return Option::Some(i);
            }
            i = i + 1;
        }
        proof {
            lemma_find_none(self.entries@, who, what);
        }
        Option::None
    }

    /// Serves a lookup for (`who`, `what`): a cached level is a hit; a key
    /// with a fetch already in flight tells the caller to await that fetch;
    /// a missing key tells exactly this caller to perform the read-through,
    /// and marks the key so that no later caller is told the same.
    pub fn get_permission(&mut self, who: Identity, what: ResourceRef) -> (r: CacheOutcome)
        requires
            old(self).wf(),
        ensures
            final(self).wf(),
            r == step_get_outcome(old(self).entry(who, what)),
            final(self).entry(who, what) == step_get_entry(old(self).entry(who, what), who, what),
            forall|w: Identity, rr: ResourceRef|
                !(w == who && rr == what) ==> #[trigger] final(self).entry(w, rr) == old(
                    self,
                ).entry(w, rr),
    {
        let found = self.find_index(who, what);
        match found {
            Option::Some(i) => {
                let en = self.entries[i];
                match en.state {
                    EntryState::Cached(l) => CacheOutcome::Hit(l),
                    EntryState::Fetching => CacheOutcome::AwaitFetch,
                }
            },
            Option::None => {
                let ghost s0 = self.entries@;
                let e = CacheEntry {
                    identity: who,
                    resource: what,
                    state: EntryState::Fetching,
                    version: 0,
                };
                self.entries.push(e);
                proof {
                    lemma_push_effect(s0, e, who, what);
                }
                CacheOutcome::MustFetch
            },
        }
    }

    /// The cached level for (`who`, `what`), if one is present; a pure read
    /// that never starts a fetch.
    pub fn lookup(&self, who: Identity, what: ResourceRef) -> (r: Option<PermissionLevel>)
        requires
            self.wf(),
        ensures
            r == cached_level(self.entry(who, what)),
    {
        let found = self.find_index(who, what);
        match found {
            Option::Some(i) => {
                let en = self.entries[i];
                match en.state {
                    EntryState::Cached(l) => Option::Some(l),
                    EntryState::Fetching => Option::None,
                }
            },
            Option::None => Option::None,
        }
    }

    /// Applies one change event from the membership feed, discarding it as
    /// stale unless its version is newer than what the entry reflects.
    pub fn apply_event(&mut self, ev: ChangeEvent)
        requires
            old(self).wf(),
        ensures
            final(self).wf(),
            final(self).entry(ev.identity, ev.resource) == step_event(
                old(self).entry(ev.identity, ev.resource),
                ev,
            ),
            forall|w: Identity, rr: ResourceRef|
                !(w == ev.identity && rr == ev.resource) ==> #[trigger] final(self).entry(w, rr)
                    == old(self).entry(w, rr),
    {
        let found = self.find_index(ev.identity, ev.resource);
        match found {
            Option::Some(i) => {
                let en = self.entries[i];
                let is_fetching = match en.state {
                    EntryState::Fetching => true,
                    EntryState::Cached(_) => false,
                };
                if is_fetching || ev.version > en.version {
                    let e2 = CacheEntry {
                        identity: en.identity,
                        resource: en.resource,
                        state: EntryState::Cached(ev.new_level()),
                        version: ev.version,
                    };
                    let ghost s0 = self.entries@;
                    let slot = &mut self.entries[i];
                    *slot = e2;
                    proof {
                        lemma_update_effect(s0, i as int, e2, ev.identity, ev.resource);
                    }
                }
            },
            Option::None => {
                let ghost s0 = self.entries@;
                let e = CacheEntry {
                    identity: ev.identity,
                    resource: ev.resource,
                    state: EntryState::Cached(ev.new_level()),
                    version: ev.version,
                };
                self.entries.push(e);
                proof {
                    lemma_push_effect(s0, e, ev.identity, ev.resource);
                }
            },
        }
    }

    /// Records the result of the read-through this caller was told to
    /// perform. A change event applied while the fetch was in flight wins
    /// over the result unless the store reported a newer version.
    pub fn complete_fetch(
        &mut self,
        who: Identity,
        what: ResourceRef,
        level: PermissionLevel,
        version: u64,
    )
        requires
            old(self).wf(),
        ensures
            final(self).wf(),
            final(self).entry(who, what) == step_complete(
                old(self).entry(who, what),
                who,
                what,
                level,
                version,
            ),
            forall|w: Identity, rr: ResourceRef|
                !(w == who && rr == what) ==> #[trigger] final(self).entry(w, rr) == old(
                    self,
                ).entry(w, rr),
    {
        let found = self.find_index(who, what);
        match found {
            Option::Some(i) => {
                let en = self.entries[i];
                let is_fetching = match en.state {
                    EntryState::Fetching => true,
                    EntryState::Cached(_) => false,
                };
                if is_fetching || version > en.version {
                    let e2 = CacheEntry {
                        identity: en.identity,
                        resource: en.resource,
                        state: EntryState::Cached(level),
                        version,
                    };
                    let ghost s0 = self.entries@;
                    let slot = &mut self.entries[i];
                    *slot = e2;
                    proof {
                        lemma_update_effect(s0, i as int, e2, who, what);
                    }
                }
            },
            Option::None => {
                let ghost s0 = self.entries@;
                let e = CacheEntry {
                    identity: who,
                    resource: what,
                    state: EntryState::Cached(level),
                    version,
                };
                self.entries.push(e);
                proof {
                    lemma_push_effect(s0, e, who, what);
                }
            },
        }
    }

    /// Records that the read-through for (`who`, `what`) failed: the pending
    /// marker is dropped so a later lookup retries; a cached last-known
    /// level stays.
    pub fn fetch_failed(&mut self, who: Identity, what: ResourceRef)
        requires
            old(self).wf(),
        ensures
            final(self).wf(),
            final(self).entry(who, what) == step_fetch_failed(old(self).entry(who, what)),
            forall|w: Identity, rr: ResourceRef|
                !(w == who && rr == what) ==> #[trigger] final(self).entry(w, rr) == old(
                    self,
                ).entry(w, rr),
    {
        let found = self.find_index(who, what);
        match found {
            Option::Some(i) => {
                let en = self.entries[i];
                let is_fetching = match en.state {
                    EntryState::Fetching => true,
                    EntryState::Cached(_) => false,
                };
                if is_fetching {
                    let ghost s0 = self.entries@;
                    self.entries.remove(i);
                    proof {
                        lemma_remove_effect(s0, i as int, who, what);
                    }
                }
            },
            Option::None => {},
        }
    }
}

/// If position `i` holds the first entry for the key, the find returns it.
proof fn lemma_find_at(s: Seq<CacheEntry>, who: Identity, what: ResourceRef, i: int)
    requires
        0 <= i < s.len(),
        entry_matches(s[i], who, what),
        forall|k: int| 0 <= k < i ==> !entry_matches(#[trigger] s[k], who, what),
    ensures
        find_entry(s, who, what) == Option::Some(s[i]),
    decreases i,
{
    if i > 0 {
        assert(forall|k: int|
            0 <= k < i - 1 ==> #[trigger] s.drop_first()[k] == s[k + 1]);
        lemma_find_at(s.drop_first(), who, what, i - 1);
    }
}

/// If no entry matches the key, the find returns nothing.
proof fn lemma_find_none(s: Seq<CacheEntry>, who: Identity, what: ResourceRef)
    requires
        forall|k: int| 0 <= k < s.len() ==> !entry_matches(#[trigger] s[k], who, what),
    ensures
        find_entry(s, who, what) is None,
    decreases s.len(),
{
    if s.len() > 0 {
        assert(forall|k: int|
            0 <= k < s.len() - 1 ==> #[trigger] s.drop_first()[k] == s[k + 1]);
        lemma_find_none(s.drop_first(), who, what);
    }
}

/// Appending an entry for a key no existing entry matches: the new entry is
/// found under its own key, every other key's find is unchanged, and
/// key-uniqueness is preserved.
proof fn lemma_push_effect(s: Seq<CacheEntry>, e: CacheEntry, who: Identity, what: ResourceRef)
    requires
        entry_matches(e, who, what),
        forall|k: int| 0 <= k < s.len() ==> !entry_matches(#[trigger] s[k], who, what),
    ensures
        find_entry(s.push(e), who, what) == Option::Some(e),
        forall|w: Identity, rr: ResourceRef|
            !(w == who && rr == what) ==> #[trigger] find_entry(s.push(e), w, rr) == find_entry(
                s,
                w,
                rr,
            ),
{
    let s2 = s.push(e);
    assert(s2[s.len() as int] == e);
    lemma_find_at(s2, who, what, s.len() as int);
    assert forall|w: Identity, rr: ResourceRef| !(w == who && rr == what) implies #[trigger] find_entry(
        s2,
        w,
        rr,
    ) == find_entry(s, w, rr) by {
        lemma_find_push_other(s, e, w, rr);
    }
}

/// Appending an entry that does not match the key leaves that key's find
/// unchanged.
proof fn lemma_find_push_other(s: Seq<CacheEntry>, e: CacheEntry, w: Identity, rr: ResourceRef)
    requires
        !entry_matches(e, w, rr),
    ensures
        find_entry(s.push(e), w, rr) == find_entry(s, w, rr),
    decreases s.len(),
{
    let s2 = s.push(e);
    if s.len() == 0 {
        assert(s2[0] == e);
        assert(s2.drop_first() =~= Seq::<CacheEntry>::empty());
        assert(find_entry(Seq::<CacheEntry>::empty(), w, rr) is None);
        assert(find_entry(s, w, rr) is None);
    } else {
        assert(s2[0] == s[0]);
        assert(s2.drop_first() =~= s.drop_first().push(e));
        lemma_find_push_other(s.drop_first(), e, w, rr);
    }
}

/// Replacing the entry at a position with one for the same key: the new
/// entry is found under that key, every other key's find is unchanged.
proof fn lemma_update_effect(
    s: Seq<CacheEntry>,
    i: int,
    e2: CacheEntry,
    who: Identity,
    what: ResourceRef,
)
    requires
        0 <= i < s.len(),
        entry_matches(s[i], who, what),
        entry_matches(e2, who, what),
        forall|k: int| 0 <= k < i ==> !entry_matches(#[trigger] s[k], who, what),
    ensures
        find_entry(s.update(i, e2), who, what) == Option::Some(e2),
        forall|w: Identity, rr: ResourceRef|
            !(w == who && rr == what) ==> #[trigger] find_entry(s.update(i, e2), w, rr)
                == find_entry(s, w, rr),
{
    let s2 = s.update(i, e2);
    assert(s2[i] == e2);
    assert(forall|k: int| 0 <= k < i ==> #[trigger] s2[k] == s[k]);
    lemma_find_at(s2, who, what, i);
    assert forall|w: Identity, rr: ResourceRef| !(w == who && rr == what) implies #[trigger] find_entry(
        s2,
        w,
        rr,
    ) == find_entry(s, w, rr) by {
        lemma_find_update_other(s, i, e2, w, rr);
    }
}

/// Replacing an entry that matches neither before nor after leaves every
/// other key's find unchanged.
proof fn lemma_find_update_other(
    s: Seq<CacheEntry>,
    i: int,
    e2: CacheEntry,
    w: Identity,
    rr: ResourceRef,
)
    requires
        0 <= i < s.len(),
        !entry_matches(s[i], w, rr),
        !entry_matches(e2, w, rr),
    ensures
        find_entry(s.update(i, e2), w, rr) == find_entry(s, w, rr),
    decreases s.len(),
{
    let s2 = s.update(i, e2);
    if i == 0 {
        assert(s2[0] == e2);
        assert(s2.drop_first() =~= s.drop_first());
    } else {
        assert(s2[0] == s[0]);
        assert(s2.drop_first() =~= s.drop_first().update(i - 1, e2));
        lemma_find_update_other(s.drop_first(), i - 1, e2, w, rr);
    }
}

/// Removing the first entry for a key: that key's find becomes empty (there
/// was at most one entry per key), every other key's find is unchanged.
proof fn lemma_remove_effect(s: Seq<CacheEntry>, i: int, who: Identity, what: ResourceRef)
    requires
        0 <= i < s.len(),
        entry_matches(s[i], who, what),
        forall|k: int, l: int|
            #![trigger s[k], s[l]]
            0 <= k < l < s.len() ==> !entry_matches(s[l], s[k].identity, s[k].resource),
    ensures
        find_entry(s.remove(i), who, what) is None,
        forall|w: Identity, rr: ResourceRef|
            !(w == who && rr == what) ==> #[trigger] find_entry(s.remove(i), w, rr) == find_entry(
                s,
                w,
                rr,
            ),
        forall|k: int, l: int|
            #![trigger s.remove(i)[k], s.remove(i)[l]]
            0 <= k < l < s.len() - 1 ==> !entry_matches(
                s.remove(i)[l],
                s.remove(i)[k].identity,
                s.remove(i)[k].resource,
            ),
{
    let s2 = s.remove(i);
    assert(forall|k: int| 0 <= k < i ==> #[trigger] s2[k] == s[k]);
    assert(forall|k: int| i <= k < s2.len() ==> #[trigger] s2[k] == s[k + 1]);
    assert forall|k: int| 0 <= k < s2.len() implies !entry_matches(
        #[trigger] s2[k],
        who,
        what,
    ) by {
        if k < i {
            assert(!entry_matches(s[k], s[k].identity, s[k].resource) || true);
            if entry_matches(s[k], who, what) {
                assert(entry_matches(s[i], s[k].identity, s[k].resource));
            }
        } else {
            if entry_matches(s[k + 1], who, what) {
                assert(entry_matches(s[k + 1], s[i].identity, s[i].resource));
            }
        }
    }
    lemma_find_none(s2, who, what);
    assert forall|w: Identity, rr: ResourceRef| !(w == who && rr == what) implies #[trigger] find_entry(
        s2,
        w,
        rr,
    ) == find_entry(s, w, rr) by {
        lemma_find_remove_other(s, i, w, rr);
    }
}

/// Removing an entry that does not match the key leaves that key's find
/// unchanged.
proof fn lemma_find_remove_other(s: Seq<CacheEntry>, i: int, w: Identity, rr: ResourceRef)
    requires
        0 <= i < s.len(),
        !entry_matches(s[i], w, rr),
    ensures
        find_entry(s.remove(i), w, rr) == find_entry(s, w, rr),
    decreases s.len(),
{
    let s2 = s.remove(i);
    if i == 0 {
        assert(s2 =~= s.drop_first());
    } else {
        assert(s2[0] == s[0]);
        assert(s2.drop_first() =~= s.drop_first().remove(i - 1));
        lemma_find_remove_other(s.drop_first(), i - 1, w, rr);
    }
}

/// Single-flight: a lookup that told its caller to fetch leaves the key
/// marked, and a lookup on a marked or cached key never answers `MustFetch`
/// nor changes the entry. So of any number of lookups for one key with no
/// completion in between, at most the first answers `MustFetch`: exactly
/// one read-through is issued.
pub proof fn lemma_single_flight(e: Option<CacheEntry>, who: Identity, what: ResourceRef)
    ensures
        step_get_outcome(step_get_entry(e, who, what)) != CacheOutcome::MustFetch,
        step_get_entry(step_get_entry(e, who, what), who, what) == step_get_entry(e, who, what),
{
}

/// Out-of-order delivery converges: two events for one key with distinct
/// versions leave, in either order, the entry of the higher-version event;
/// and a lower-version event arriving after a higher one is a no-op.
pub proof fn lemma_event_convergence(e: Option<CacheEntry>, e1: ChangeEvent, e2: ChangeEvent)
    requires
        e1.identity == e2.identity,
        e1.resource == e2.resource,
        e1.version != e2.version,
    ensures
        step_event(step_event(e, e1), e2) == step_event(step_event(e, e2), e1),
        e1.version > e2.version ==> step_event(step_event(e, e1), e2) == step_event(e, e1),
{
}

/// A key's entry never regresses: once a level is cached, neither a change
/// event nor a completed read-through can leave the entry at an older
/// version than it reflects — it never reflects a level older than the
/// newest event it has observed for that key.
pub proof fn lemma_version_never_regresses(
    e: Option<CacheEntry>,
    ev: ChangeEvent,
    who: Identity,
    what: ResourceRef,
    level: PermissionLevel,
    version: u64,
)
    ensures
        match (e, step_event(e, ev)) {
            (Option::Some(a), Option::Some(b)) => a.state is Cached ==> b.version >= a.version,
            _ => true,
        },
        match (e, step_complete(e, who, what, level, version)) {
            (Option::Some(a), Option::Some(b)) => a.state is Cached ==> b.version >= a.version,
            _ => true,
        },
{
}

/// A removal wins over a stale read-through: once a removal event has been
/// applied to a key's entry, completing a fetch whose version is not newer
/// leaves the key at `NoAccess` — a read-through that started before the
/// removal and finishes after cannot resurrect the pre-removal level.
pub proof fn lemma_removal_beats_stale_fetch(
    e: Option<CacheEntry>,
    ev: ChangeEvent,
    who: Identity,
    what: ResourceRef,
    level: PermissionLevel,
    fetch_version: u64,
)
    requires
        ev.action is Removed,
        ev.identity == who,
        ev.resource == what,
        fetch_version <= ev.version,
        match e {
            Option::Some(en) => en.state is Fetching || ev.version > en.version,
            Option::None => true,
        },
    ensures
        cached_level(step_complete(step_event(e, ev), who, what, level, fetch_version))
            == Option::Some(PermissionLevel::NoAccess),
{
}

} // verus!
