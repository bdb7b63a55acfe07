use vstd::prelude::*;
use crate::store::{TtlStore, EntryModel, lookup, stored_after, is_live};

verus! {

/// How many units of work the harness lets run at once unless told otherwise.
pub const HARNESS_LIMIT: usize = 4;

/// The text of one decimal digit.
pub open spec fn digit_text(d: nat) -> Seq<char> {
    if d == 0 {
        "0"@
    } else if d == 1 {
        "1"@
    } else if d == 2 {
        "2"@
    } else if d == 3 {
        "3"@
    } else if d == 4 {
        "4"@
    } else if d == 5 {
        "5"@
    } else if d == 6 {
        "6"@
    } else if d == 7 {
        "7"@
    } else if d == 8 {
        "8"@
    } else {
        "9"@
    }
}

/// `n` in decimal, without leading zeros.
pub open spec fn decimal(n: nat) -> Seq<char>
    decreases n,
{
    if n < 10 {
        digit_text(n)
    } else {
        decimal(n / 10) + digit_text(n % 10)
    }
}

/// The value that the harness writes under key `k`: `VAL-` and `k` in decimal.
pub open spec fn value_of(k: u16) -> Seq<char> {
    "VAL-"@ + decimal(k as nat)
}

fn digit_str(d: u16) -> (r: &'static str)
    requires
        d < 10,
    ensures
        r@ == digit_text(d as nat),
{
    if d == 0 {
        "0"
    } else if d == 1 {
        "1"
    } else if d == 2 {
        "2"
    } else if d == 3 {
        "3"
    } else if d == 4 {
        "4"
    } else if d == 5 {
        "5"
    } else if d == 6 {
        "6"
    } else if d == 7 {
        "7"
    } else if d == 8 {
        "8"
    } else {
        "9"
    }
}

fn append_decimal(s: &mut String, n: u16)
    ensures
        final(s)@ == old(s)@ + decimal(n as nat),
    decreases n,
{
    if n >= 10 {
        append_decimal(s, n / 10);
    }
    s.append(digit_str(n % 10));
    assert(final(s)@ =~= old(s)@ + decimal(n as nat));
}

/// The value that belongs to key `k`.
pub fn to_value(k: u16) -> (r: String)
    ensures
        r@ == value_of(k),
{
    let mut s = String::from_str("VAL-");
    append_decimal(&mut s, k);
    s
}

/// One unit of the populate phase: writes `to_value(k)` under `k` at `now`.
pub fn populate_one(store: &mut TtlStore, k: u16, now: u64)
    ensures
        final(store)@ == stored_after(old(store)@, k, value_of(k), now),
{
    let v = to_value(k);
    store.insert(k, v, now);
}

/// One unit of the verify phase: whether a lookup of `k` at `now` finds
/// exactly `to_value(k)`.
pub fn verify_one(store: &TtlStore, k: u16, now: u64) -> (ok: bool)
    ensures
        ok == (lookup(store@, k, now) == Some(value_of(k))),
{
    let expect = to_value(k);
    match store.get(k, now) {
        Some(v) => {
            let ok = v == expect;
            ok
        },
        None => false,
    }
}

/// The contents after the populate units for `order` ran in that order, the
/// unit for `order[i]` writing at `times[i]`.
pub open spec fn fill(m: Map<u16, EntryModel>, order: Seq<u16>, times: Seq<u64>) -> Map<
    u16,
    EntryModel,
>
    decreases order.len(),
{
    if order.len() == 0 || times.len() != order.len() {
        m
    } else {
        let i = order.len() - 1;
        stored_after(fill(m, order.drop_last(), times.drop_last()), order[i], value_of(order[i]), times[i])
    }
}

/// Whatever order the populate units of `keys` complete in, and whenever
/// each of them writes, every key reads back its own value in the verify
/// phase as long as no write is older than the TTL.
pub proof fn lemma_round_trip(
    m: Map<u16, EntryModel>,
    keys: Seq<u16>,
    order: Seq<u16>,
    times: Seq<u64>,
    now: u64,
)
    requires
        order.len() == times.len(),
        forall|i: int| 0 <= i < keys.len() ==> order.contains(#[trigger] keys[i]),
        forall|i: int| 0 <= i < times.len() ==> is_live(#[trigger] times[i], now),
    ensures
        forall|i: int|
            0 <= i < keys.len() ==> lookup(fill(m, order, times), #[trigger] keys[i], now) == Some(
                value_of(keys[i]),
            ),
{
    assert forall|i: int| 0 <= i < keys.len() implies lookup(
        fill(m, order, times),
        #[trigger] keys[i],
        now,
    ) == Some(value_of(keys[i])) by {
        lemma_fill_finds(m, order, times, keys[i], now);
    }
}

proof fn lemma_fill_finds(
    m: Map<u16, EntryModel>,
    order: Seq<u16>,
    times: Seq<u64>,
    k: u16,
    now: u64,
)
    requires
        order.len() == times.len(),
        order.contains(k),
        forall|i: int| 0 <= i < times.len() ==> is_live(#[trigger] times[i], now),
    ensures
        lookup(fill(m, order, times), k, now) == Some(value_of(k)),
    decreases order.len(),
{
    let i = order.len() - 1;
    if order[i] != k {
        let j = choose|j: int| 0 <= j < order.len() && order[j] == k;
        assert(order.drop_last()[j] == k);
        assert forall|x: int| 0 <= x < times.drop_last().len() implies is_live(
            #[trigger] times.drop_last()[x],
            now,
        ) by {
            assert(times.drop_last()[x] == times[x]);
        }
        lemma_fill_finds(m, order.drop_last(), times.drop_last(), k, now);
    } else {
        assert(is_live(times[i], now));
    }
}

/// The populate phase run one unit after another, all at time `now`.
pub fn populate(store: &mut TtlStore, keys: &Vec<u16>, now: u64)
    ensures
        final(store)@ == fill(old(store)@, keys@, Seq::new(keys@.len(), |i: int| now)),
        forall|i: int|
            0 <= i < keys@.len() ==> lookup(final(store)@, #[trigger] keys@[i], now) == Some(
                value_of(keys@[i]),
            ),
{
    let ghost start = store@;
    let mut n: usize = 0;
    while n < keys.len()
        invariant
            n <= keys@.len(),
            store@ == fill(start, keys@.take(n as int), Seq::new(n as nat, |i: int| now)),
        decreases keys@.len() - n,
    {
        populate_one(store, keys[n], now);
        proof {
            let ts = Seq::new((n + 1) as nat, |i: int| now);
            assert(keys@.take(n + 1).drop_last() =~= keys@.take(n as int));
            assert(ts.drop_last() =~= Seq::new(n as nat, |i: int| now));
        }
        n = n + 1;
    }
    proof {
        let ts = Seq::new(keys@.len(), |i: int| now);
        assert(keys@.take(keys@.len() as int) =~= keys@);
        assert forall|i: int| 0 <= i < keys@.len() implies keys@.contains(#[trigger] keys@[i]) by {}
        lemma_round_trip(start, keys@, keys@, ts, now);
    }
}

/// The verify phase run one unit after another at time `now`: entry `i` of
/// the result tells whether `keys[i]` read back its own value.
pub fn verify_all(store: &TtlStore, keys: &Vec<u16>, now: u64) -> (r: Vec<bool>)
    ensures
        r@.len() == keys@.len(),
        forall|i: int|
            0 <= i < keys@.len() ==> r@[i] == (lookup(store@, #[trigger] keys@[i], now) == Some(
                value_of(keys@[i]),
            )),
{
    let mut r: Vec<bool> = Vec::new();
    let mut n: usize = 0;
    while n < keys.len()
        invariant
            n <= keys@.len(),
            r@.len() == n,
            forall|i: int|
                0 <= i < n ==> r@[i] == (lookup(store@, #[trigger] keys@[i], now) == Some(
                    value_of(keys@[i]),
                )),
        decreases keys@.len() - n,
    {
        let ok = verify_one(store, keys[n], now);
        r.push(ok);
        n = n + 1;
    }
    r
}

/// Admission control for one phase of the harness: units of work for the keys
/// `0..total` are submitted in order, and no more than `limit` of them are
/// outstanding (submitted and not yet completed) at any time.
pub struct Admission {
    limit: usize,
    total: usize,
    submitted: usize,
    completed: usize,
}

/// The state of a phase: its cap, its size, and how many units were submitted
/// and completed so far.
pub struct AdmissionModel {
    pub limit: nat,
    pub total: nat,
    pub submitted: nat,
    pub completed: nat,
}

impl View for Admission {
    type V = AdmissionModel;

    closed spec fn view(&self) -> AdmissionModel {
        AdmissionModel {
            limit: self.limit as nat,
            total: self.total as nat,
            submitted: self.submitted as nat,
            completed: self.completed as nat,
        }
    }
}

impl AdmissionModel {
    /// Units submitted and not yet completed.
    pub open spec fn outstanding(self) -> int {
        self.submitted - self.completed
    }

    /// Never more submitted than there are units, never more completed than
    /// submitted, and never more outstanding than the cap.
    pub open spec fn wf(self) -> bool {
        &&& self.completed <= self.submitted <= self.total
        &&& self.outstanding() <= self.limit
    }
}

impl Admission {
    /// A phase of `total` units with at most `limit` outstanding at once.
    pub fn new(limit: usize, total: usize) -> (a: Admission)
        ensures
            a@ == (AdmissionModel { limit: limit as nat, total: total as nat, submitted: 0, completed: 0 }),
            a@.wf(),
    {
        Admission { limit, total, submitted: 0, completed: 0 }
    }

    /// Units submitted and not yet completed.
    pub fn outstanding(&self) -> (r: usize)
        requires
            self@.wf(),
        ensures
            r == self@.outstanding(),
    {
        self.submitted - self.completed
    }

    /// Submits the next unit if one is left and the cap allows it, and gives
    /// its index; otherwise changes nothing and gives `None`.
    pub fn try_admit(&mut self) -> (r: Option<usize>)
        requires
            old(self)@.wf(),
        ensures
            final(self)@.wf(),
            old(self)@.submitted < old(self)@.total && old(self)@.outstanding() < old(self)@.limit
                ==> r == Some(old(self)@.submitted as usize) && final(self)@ == (AdmissionModel {
                submitted: old(self)@.submitted + 1,
                ..old(self)@
            }),
            !(old(self)@.submitted < old(self)@.total && old(self)@.outstanding() < old(self)@.limit)
                ==> r is None && final(self)@ == old(self)@,
    {
        if self.submitted < self.total && self.submitted - self.completed < self.limit {
            let i = self.submitted;
            self.submitted = self.submitted + 1;
            Some(i)
        } else {
            None
        }
    }

    /// Records that an outstanding unit completed.
    pub fn complete(&mut self)
        requires
            old(self)@.wf(),
            old(self)@.outstanding() > 0,
        ensures
            final(self)@.wf(),
            final(self)@ == (AdmissionModel { completed: old(self)@.completed + 1, ..old(self)@ }),
    {
        self.completed = self.completed + 1;
    }

    /// Whether every unit of the phase has completed: the barrier before the
    /// next phase.
    pub fn is_done(&self) -> (r: bool)
        requires
            self@.wf(),
        ensures
            r == (self@.completed == self@.total),
    {
        self.completed == self.total
    }
}

} // verus!
