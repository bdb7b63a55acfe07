use vstd::prelude::*;
use std::collections::HashMap;

verus! {

broadcast use vstd::std_specs::hash::group_hash_axioms;

/// How long an entry stays live after it was written: 30 minutes, in
/// milliseconds.
pub const TTL_MILLIS: u64 = 1_800_000;

/// What the store holds for a key: the value and the time it was written.
pub type EntryModel = (Seq<char>, u64);

/// An entry written at `inserted_at` is live at `now` iff less than the TTL
/// has passed since (a clock reading before the write counts as live).
pub open spec fn is_live(inserted_at: u64, now: u64) -> bool {
    now < inserted_at + TTL_MILLIS
}

/// What a lookup of `k` at time `now` sees in a store whose contents are `m`.
pub open spec fn lookup(m: Map<u16, EntryModel>, k: u16, now: u64) -> Option<Seq<char>> {
    if m.contains_key(k) && is_live(m[k].1, now) {
        Some(m[k].0)
    } else {
        None
    }
}

/// The contents after writing `v` under `k` at time `t`: the old entry, if
/// any, is replaced and the expiry window starts again.
pub open spec fn stored_after(m: Map<u16, EntryModel>, k: u16, v: Seq<char>, t: u64) -> Map<
    u16,
    EntryModel,
> {
    m.insert(k, (v, t))
}

struct CacheEntry {
    value: String,
    inserted_at: u64,
}

/// An in-memory key/value store whose entries expire a fixed time after they
/// were last written. Time is a millisecond clock reading handed in by the
/// caller, so expiry is decided by the readings alone.
pub struct TtlStore {
    entries: HashMap<u16, CacheEntry>,
}

impl View for TtlStore {
    type V = Map<u16, EntryModel>;

    closed spec fn view(&self) -> Map<u16, EntryModel> {
        Map::new(
            |k: u16| self.entries@.contains_key(k),
            |k: u16| (self.entries@[k].value@, self.entries@[k].inserted_at),
        )
    }
}

impl TtlStore {
    /// An empty store.
    pub fn new() -> (s: TtlStore)
        ensures
            s@ == Map::<u16, EntryModel>::empty(),
    {
        let s = TtlStore { entries: HashMap::new() };
        assert(s@ =~= Map::<u16, EntryModel>::empty());
        s
    }

    /// An empty store with room set aside for `hint` entries. The hint bounds
    /// nothing: the store grows past it and expires entries by time only.
    pub fn with_capacity(hint: usize) -> (s: TtlStore)
        ensures
            s@ == Map::<u16, EntryModel>::empty(),
    {
        let s = TtlStore { entries: HashMap::with_capacity(hint) };
        assert(s@ =~= Map::<u16, EntryModel>::empty());
        s
    }

    /// The value under `k` if it was written less than the TTL before `now`.
    pub fn get(&self, k: u16, now: u64) -> (r: Option<String>)
        ensures
            match r {
                Some(v) => lookup(self@, k, now) == Some(v@),
                None => lookup(self@, k, now) is None,
            },
    {
        match self.entries.get(&k) {
            Some(e) => {
                if now < e.inserted_at || now - e.inserted_at < TTL_MILLIS {
                    Some(e.value.clone())
                } else {
                    None
                }
            },
            None => None,
        }
    }

    /// Writes `v` under `k` at time `now`, replacing what was there and
    /// starting the expiry window again.
    pub fn insert(&mut self, k: u16, v: String, now: u64)
        ensures
            final(self)@ == stored_after(old(self)@, k, v@, now),
    {
        let ghost vv = v@;
        self.entries.insert(k, CacheEntry { value: v, inserted_at: now });
        assert(self@ =~= stored_after(old(self)@, k, vv, now));
    }
}

/// Once the TTL has passed since the last write of `k`, a lookup of `k` finds
/// nothing, whatever was written before.
pub proof fn lemma_expiry(m: Map<u16, EntryModel>, k: u16, v: Seq<char>, t: u64, now: u64)
    requires
        now >= t + TTL_MILLIS,
    ensures
        lookup(stored_after(m, k, v, t), k, now) is None,
{
}

/// Within the TTL after a write of `v` under `k`, a lookup of `k` finds `v`,
/// and a write leaves the lookups of every other key as they were.
pub proof fn lemma_read_your_write(
    m: Map<u16, EntryModel>,
    k: u16,
    v: Seq<char>,
    t: u64,
    j: u16,
    now: u64,
)
    ensures
        is_live(t, now) ==> lookup(stored_after(m, k, v, t), k, now) == Some(v),
        j != k ==> lookup(stored_after(m, k, v, t), j, now) == lookup(m, j, now),
{
}

} // verus!
