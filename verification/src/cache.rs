//! The cache of the process: values that expire, and the count of requests in a window of time.
use vstd::prelude::*;

use crate::text::{
    cat2, decimal, law_decimal_read_back, number_text, parse_number, parsed_number, same,
};

verus! {

/// A value under a key, with the moment at which it expires.
#[derive(Debug, Clone)]
pub struct CacheEntry {
    pub key: String,
    pub value: String,
    pub expiry: u64,
}

/// Values by key. Moments are milliseconds on a clock that does not go back.
#[derive(Debug)]
pub struct AppCache {
    entries: Vec<CacheEntry>,
}

/// Values and the moments at which they expire, by key.
pub type CacheModel = Map<Seq<char>, (Seq<char>, u64)>;

/// Whether no two entries have one key.
spec fn distinct(entries: Seq<CacheEntry>) -> bool {
    forall|i: int, j: int|
        #![trigger entries[i], entries[j]]
        0 <= i < j < entries.len() ==> entries[i].key@ != entries[j].key@
}

spec fn holds_key(entries: Seq<CacheEntry>, key: Seq<char>) -> bool {
    exists|i: int| 0 <= i < entries.len() && (#[trigger] entries[i]).key@ == key
}

spec fn position(entries: Seq<CacheEntry>, key: Seq<char>) -> int {
    choose|i: int| 0 <= i < entries.len() && (#[trigger] entries[i]).key@ == key
}

spec fn entries_model(entries: Seq<CacheEntry>) -> CacheModel {
    Map::new(
        |key: Seq<char>| holds_key(entries, key),
        |key: Seq<char>|
            (entries[position(entries, key)].value@, entries[position(entries, key)].expiry),
    )
}

proof fn lemma_model_at(entries: Seq<CacheEntry>, i: int)
    requires
        distinct(entries),
        0 <= i < entries.len(),
    ensures
        entries_model(entries).dom().contains(entries[i].key@),
        entries_model(entries)[entries[i].key@] == (entries[i].value@, entries[i].expiry),
{
    let key = entries[i].key@;
    assert(holds_key(entries, key));
    let p = position(entries, key);
    assert(0 <= p < entries.len() && entries[p].key@ == key);
    assert(p == i);
}

proof fn lemma_model_push(entries: Seq<CacheEntry>, e: CacheEntry)
    requires
        distinct(entries),
        !holds_key(entries, e.key@),
    ensures
        distinct(entries.push(e)),
        entries_model(entries.push(e)) == entries_model(entries).insert(
            e.key@,
            (e.value@, e.expiry),
        ),
{
    let more = entries.push(e);
    assert forall|i: int, j: int|
        #![trigger more[i], more[j]]
        0 <= i < j < more.len() implies more[i].key@ != more[j].key@ by {
        if j == entries.len() {
            assert(more[i] == entries[i]);
        } else {
            assert(more[i] == entries[i] && more[j] == entries[j]);
        }
    }
    assert forall|key: Seq<char>|
        entries_model(more).dom().contains(key) == entries_model(entries).insert(
            e.key@,
            (e.value@, e.expiry),
        ).dom().contains(key) by {
        if holds_key(entries, key) {
            let p = position(entries, key);
            assert(more[p].key@ == key);
        }
        assert(more[entries.len() as int].key@ == e.key@);
        if holds_key(more, key) && key != e.key@ {
            let p = position(more, key);
            assert(entries[p].key@ == key);
        }
    }
    assert forall|key: Seq<char>| #[trigger] holds_key(more, key) implies entries_model(more)[key]
        == entries_model(entries).insert(e.key@, (e.value@, e.expiry))[key] by {
        let p = position(more, key);
        lemma_model_at(more, p);
        if p < entries.len() {
            assert(entries[p] == more[p]);
            lemma_model_at(entries, p);
        }
    }
    assert(entries_model(more) =~= entries_model(entries).insert(e.key@, (e.value@, e.expiry)));
}

proof fn lemma_model_remove(entries: Seq<CacheEntry>, i: int)
    requires
        distinct(entries),
        0 <= i < entries.len(),
    ensures
        distinct(entries.remove(i)),
        !holds_key(entries.remove(i), entries[i].key@),
        entries_model(entries.remove(i)) == entries_model(entries).remove(entries[i].key@),
{
    let less = entries.remove(i);
    let gone = entries[i].key@;
    assert forall|k: int| 0 <= k < less.len() implies #[trigger] less[k] == entries[if k < i {
        k
    } else {
        k + 1
    }] by {}
    assert forall|a: int, b: int|
        #![trigger less[a], less[b]]
        0 <= a < b < less.len() implies less[a].key@ != less[b].key@ by {}
    assert(!holds_key(less, gone));
    assert forall|key: Seq<char>| key != gone implies holds_key(less, key) == holds_key(
        entries,
        key,
    ) by {
        if holds_key(entries, key) {
            let p = position(entries, key);
            let q = if p < i {
                p
            } else {
                p - 1
            };
            assert(less[q].key@ == key);
        }
        if holds_key(less, key) {
            let q = position(less, key);
            assert(less[q].key@ == key);
            let p = if q < i {
                q
            } else {
                q + 1
            };
            assert(entries[p].key@ == key);
        }
    }
    assert forall|key: Seq<char>| #[trigger] holds_key(less, key) implies entries_model(less)[key]
        == entries_model(entries)[key] by {
        let q = position(less, key);
        lemma_model_at(less, q);
        let p = if q < i {
            q
        } else {
            q + 1
        };
        assert(less[q] == entries[p]);
        lemma_model_at(entries, p);
    }
    assert(entries_model(less) =~= entries_model(entries).remove(gone));
}

proof fn lemma_model_size(entries: Seq<CacheEntry>)
    requires
        distinct(entries),
    ensures
        entries_model(entries).dom().finite(),
        entries_model(entries).dom().len() == entries.len(),
    decreases entries.len(),
{
    if entries.len() == 0 {
        assert(entries_model(entries).dom() =~= Set::<Seq<char>>::empty());
    } else {
        let less = entries.drop_last();
        let last = entries.last();
        assert forall|a: int, b: int|
            #![trigger less[a], less[b]]
            0 <= a < b < less.len() implies less[a].key@ != less[b].key@ by {
            assert(less[a] == entries[a] && less[b] == entries[b]);
        }
        assert(!holds_key(less, last.key@)) by {
            if holds_key(less, last.key@) {
                let p = position(less, last.key@);
                assert(entries[p] == less[p]);
                assert(entries[entries.len() - 1] == last);
            }
        }
        assert(less.push(last) =~= entries);
        lemma_model_push(less, last);
        lemma_model_size(less);
        assert(entries_model(entries).dom() =~= entries_model(less).dom().insert(last.key@));
    }
}

/// The cached values that have not expired.
pub open spec fn live(model: CacheModel, now: u64) -> CacheModel {
    model.restrict(Set::new(|key: Seq<char>| model.dom().contains(key) && model[key].1 > now))
}

/// The value under a key, if it has not expired.
pub open spec fn cached(model: CacheModel, key: Seq<char>, now: u64) -> Option<Seq<char>> {
    if model.dom().contains(key) && model[key].1 > now {
        Some(model[key].0)
    } else {
        None
    }
}

/// The key under which the requests of a subject are counted.
pub open spec fn rate_key(subject: Seq<char>) -> Seq<char> {
    "rate:"@ + subject
}

/// The requests of a subject that count at a moment, and when the window ends: the window that
/// is open, or a new one.
pub open spec fn rate_window(
    model: CacheModel,
    subject: Seq<char>,
    ttl: u64,
    now: u64,
) -> (nat, int) {
    match cached(model, rate_key(subject), now) {
        Some(text) => match parsed_number(text, u64::MAX as nat) {
            Some(n) => (n, model[rate_key(subject)].1 as int),
            None => (0, now + ttl),
        },
        None => (0, now + ttl),
    }
}

/// The count after one more request.
pub open spec fn one_more(n: nat) -> nat {
    if n < u64::MAX {
        n + 1
    } else {
        u64::MAX as nat
    }
}

/// The cache after a request of a subject was counted.
pub open spec fn counted(model: CacheModel, subject: Seq<char>, ttl: u64, now: u64) -> CacheModel {
    let window = rate_window(model, subject, ttl, now);
    model.insert(rate_key(subject), (decimal(one_more(window.0)), window.1 as u64))
}

/// The cache after a value was asked for: an expired value is dropped.
pub open spec fn asked(model: CacheModel, key: Seq<char>, now: u64) -> CacheModel {
    if cached(model, key, now) is None {
        model.remove(key)
    } else {
        model
    }
}

/// The cache after a value was stored. Once it holds many values, the expired ones are dropped
/// first.
pub open spec fn stored(
    model: CacheModel,
    key: Seq<char>,
    value: Seq<char>,
    ttl: u64,
    now: u64,
) -> CacheModel {
    (if model.dom().len() >= CACHE_COLLECT_SIZE {
        live(model, now)
    } else {
        model
    }).insert(key, (value, (now + ttl) as u64))
}

/// A use of the cache.
pub enum CacheUse {
    Ask { key: Seq<char> },
    Store { key: Seq<char>, value: Seq<char>, ttl: u64 },
    Allow { subject: Seq<char>, count: u64, ttl: u64 },
}

/// The cache after a use.
pub open spec fn used(model: CacheModel, action: CacheUse, now: u64) -> CacheModel {
    match action {
        CacheUse::Ask { key } => asked(model, key, now),
        CacheUse::Store { key, value, ttl } => stored(model, key, value, ttl, now),
        CacheUse::Allow { subject, count, ttl } => if count == 0 {
            model
        } else {
            counted(model, subject, ttl, now)
        },
    }
}

/// The cache after the first `n` uses, each with its moment.
pub open spec fn used_all(model: CacheModel, uses: Seq<(CacheUse, u64)>, n: int) -> CacheModel
    decreases n,
{
    if n <= 0 {
        model
    } else {
        used(used_all(model, uses, n - 1), uses[n - 1].0, uses[n - 1].1)
    }
}

/// Whether a use has nothing to do with the requests of a subject.
pub open spec fn leaves_alone(action: CacheUse, subject: Seq<char>) -> bool {
    match action {
        CacheUse::Ask { key } => key != rate_key(subject),
        CacheUse::Store { key, value, ttl } => key != rate_key(subject),
        CacheUse::Allow { subject: other, count, ttl } => other != subject,
    }
}

/// How many of the first `n` uses are a given request.
pub open spec fn times_made(uses: Seq<(CacheUse, u64)>, request: CacheUse, n: int) -> nat
    decreases n,
{
    if n <= 0 {
        0
    } else if uses[n - 1].0 == request {
        times_made(uses, request, n - 1) + 1
    } else {
        times_made(uses, request, n - 1)
    }
}

/// A value that was stored is found under its key until it expires, and not later; what is
/// found under other keys does not change.
pub proof fn law_set_then_get(
    model: CacheModel,
    key: Seq<char>,
    value: Seq<char>,
    ttl: u64,
    now: u64,
    later: u64,
)
    requires
        now + ttl <= u64::MAX,
        now <= later,
    ensures
        ({
            let after = stored(model, key, value, ttl, now);
            &&& cached(after, key, later) == (if later < now + ttl {
                Some(value)
            } else {
                None::<Seq<char>>
            })
            &&& forall|other: Seq<char>|
                other != key ==> #[trigger] cached(after, other, later) == cached(
                    model,
                    other,
                    later,
                )
        }),
{
}

/// Dropping the values that have expired changes nothing that is found from then on.
pub proof fn law_collect_keeps_live(model: CacheModel, now: u64, later: u64, key: Seq<char>)
    requires
        now <= later,
    ensures
        cached(live(model, now), key, later) == cached(model, key, later),
{
}

proof fn lemma_rate_keys_differ(a: Seq<char>, b: Seq<char>)
    requires
        a != b,
    ensures
        rate_key(a) != rate_key(b),
{
    if rate_key(a) == rate_key(b) {
        let n = "rate:"@.len() as int;
        assert(a =~= rate_key(a).skip(n));
        assert(b =~= rate_key(b).skip(n));
    }
}

proof fn lemma_times_made(uses: Seq<(CacheUse, u64)>, request: CacheUse, n: int)
    requires
        0 <= n,
    ensures
        times_made(uses, request, n) <= n,
    decreases n,
{
    if n > 0 {
        lemma_times_made(uses, request, n - 1);
    }
}

/// Whether the uses of the cache are requests of one subject, all alike, among uses that have
/// nothing to do with them, at moments of a clock that does not go back, and the request with
/// number `first` is the first.
pub open spec fn request_run(
    uses: Seq<(CacheUse, u64)>,
    subject: Seq<char>,
    count: u64,
    ttl: u64,
    first: int,
) -> bool {
    let request = CacheUse::Allow { subject, count, ttl };
    &&& 0 <= first < uses.len() < u64::MAX
    &&& uses[first].0 == request
    &&& uses[first].1 + ttl <= u64::MAX
    &&& forall|i: int| 0 <= i < first ==> leaves_alone((#[trigger] uses[i]).0, subject)
    &&& forall|i: int|
        first <= i < uses.len() ==> (#[trigger] uses[i]).0 == request || leaves_alone(
            uses[i].0,
            subject,
        )
    &&& forall|i: int, j: int|
        0 <= i <= j < uses.len() ==> (#[trigger] uses[i]).1 <= (#[trigger] uses[j]).1
}

proof fn lemma_window_after(
    model: CacheModel,
    uses: Seq<(CacheUse, u64)>,
    subject: Seq<char>,
    count: u64,
    ttl: u64,
    first: int,
    n: int,
)
    requires
        count > 0,
        request_run(uses, subject, count, ttl, first),
        cached(model, rate_key(subject), uses[first].1) is None,
        0 <= n <= uses.len(),
        n > 0 ==> uses[n - 1].1 < uses[first].1 + ttl,
    ensures
        ({
            let request = CacheUse::Allow { subject, count, ttl };
            let after = used_all(model, uses, n);
            if n <= first {
                &&& cached(after, rate_key(subject), uses[first].1) is None
                &&& times_made(uses, request, n) == 0
            } else {
                &&& after.dom().contains(rate_key(subject))
                &&& after[rate_key(subject)] == (
                    decimal(times_made(uses, request, n)),
                    (uses[first].1 + ttl) as u64,
                )
            }
        }),
    decreases n,
{
    if n > 0 {
        let request = CacheUse::Allow { subject, count, ttl };
        let key = rate_key(subject);
        let before = used_all(model, uses, n - 1);
        let (action, now) = uses[n - 1];
        if n > 1 {
            assert(uses[n - 2].1 <= uses[n - 1].1);
        }
        lemma_window_after(model, uses, subject, count, ttl, first, n - 1);
        lemma_times_made(uses, request, n - 1);
        law_decimal_read_back(times_made(uses, request, n - 1), u64::MAX as nat);
        if action == request {
            assert(n - 1 >= first);
            assert(now >= uses[first].1);
        } else {
            assert(n - 1 != first);
            match action {
                CacheUse::Allow { subject: other, count: c, ttl: t } => {
                    lemma_rate_keys_differ(other, subject);
                },
                _ => {},
            }
        }
    }
}

/// In a window of time exactly the first `count` requests of a subject are allowed, whatever else
/// the cache is used for in between. The window opens with the first request, is not moved by
/// later ones, and is closed when its time is over.
pub proof fn law_rate_limit(
    model: CacheModel,
    uses: Seq<(CacheUse, u64)>,
    subject: Seq<char>,
    count: u64,
    ttl: u64,
    first: int,
    n: int,
)
    requires
        count > 0,
        request_run(uses, subject, count, ttl, first),
        cached(model, rate_key(subject), uses[first].1) is None,
        first <= n < uses.len(),
        uses[n].0 == (CacheUse::Allow { subject, count, ttl }),
        uses[n].1 < uses[first].1 + ttl,
    ensures
        ({
            let made = times_made(uses, CacheUse::Allow { subject, count, ttl }, n);
            let window = rate_window(used_all(model, uses, n), subject, ttl, uses[n].1);
            &&& window == (made, uses[first].1 + ttl)
            &&& one_more(window.0) <= count <==> made < count
        }),
        forall|later: u64|
            uses[first].1 + ttl <= later ==> #[trigger] cached(
                used_all(model, uses, n + 1),
                rate_key(subject),
                later,
            ) is None,
{
    let request = CacheUse::Allow { subject, count, ttl };
    assert(uses[first].1 <= uses[n].1);
    if n > 0 {
        assert(uses[n - 1].1 <= uses[n].1);
    }
    lemma_window_after(model, uses, subject, count, ttl, first, n);
    lemma_window_after(model, uses, subject, count, ttl, first, n + 1);
    lemma_times_made(uses, request, n);
    law_decimal_read_back(times_made(uses, request, n), u64::MAX as nat);
}

/// A write collects expired values once the cache holds this many.
pub const CACHE_COLLECT_SIZE: usize = 512;

impl View for AppCache {
    type V = CacheModel;

    closed spec fn view(&self) -> CacheModel {
        entries_model(self.entries@)
    }
}

impl AppCache {
    /// Whether no two entries have one key.
    pub closed spec fn wf(&self) -> bool {
        distinct(self.entries@)
    }

    pub fn new() -> (r: AppCache)
        ensures
            r.wf(),
            r@ == Map::<Seq<char>, (Seq<char>, u64)>::empty(),
    {
        let r = AppCache { entries: Vec::new() };
        assert(entries_model(r.entries@) =~= Map::<Seq<char>, (Seq<char>, u64)>::empty());
        r
    }

    fn find(&self, key: &str) -> (r: Option<usize>)
        requires
            self.wf(),
        ensures
            match r {
                Some(i) => i < self.entries@.len() && self.entries@[i as int].key@ == key@
                    && self@.dom().contains(key@) && self@[key@] == (
                    self.entries@[i as int].value@,
                    self.entries@[i as int].expiry,
                ),
                None => !self@.dom().contains(key@) && !holds_key(self.entries@, key@),
            },
    {
        let mut i: usize = 0;
        while i < self.entries.len()
            invariant
                self.wf(),
                i <= self.entries@.len(),
                forall|j: int| 0 <= j < i ==> (#[trigger] self.entries@[j]).key@ != key@,
            decreases self.entries.len() - i,
        {
            if same(self.entries[i].key.as_str(), key) {
                proof {
                    lemma_model_at(self.entries@, i as int);
                }
                return Some(i);
            }
            i += 1;
        }
        None
    }

    /// The value under a key, if it has not expired; an expired value is dropped.
    pub fn get(&mut self, key: &str, now: u64) -> (r: Option<String>)
        requires
            old(self).wf(),
        ensures
            final(self).wf(),
            (match r {
                Some(s) => Some(s@),
                None => None,
            }) == cached(old(self)@, key@, now),
            final(self)@ == asked(old(self)@, key@, now),
    {
        match self.find(key) {
            Some(i) => {
                if self.entries[i].expiry > now {
                    Some(self.entries[i].value.clone())
                } else {
                    proof {
                        lemma_model_remove(self.entries@, i as int);
                    }
                    self.entries.remove(i);
                    None
                }
            },
            None => {
                assert(self@.remove(key@) =~= self@);
                None
            },
        }
    }

    fn insert(&mut self, key: String, value: String, expiry: u64)
        requires
            old(self).wf(),
        ensures
            final(self).wf(),
            final(self)@ == old(self)@.insert(key@, (value@, expiry)),
    {
        let ghost before = self@;
        match self.find(key.as_str()) {
            Some(i) => {
                proof {
                    lemma_model_remove(self.entries@, i as int);
                }
                self.entries.remove(i);
            },
            None => {},
        }
        let entry = CacheEntry { key, value, expiry };
        proof {
            lemma_model_push(self.entries@, entry);
        }
        self.entries.push(entry);
        assert(self@ =~= before.insert(entry.key@, (entry.value@, expiry)));
    }

    fn collect(&mut self, now: u64)
        requires
            old(self).wf(),
        ensures
            final(self).wf(),
            final(self)@ == live(old(self)@, now),
    {
        let ghost before = self.entries@;
        let mut kept: Vec<CacheEntry> = Vec::new();
        let mut i: usize = 0;
        assert(before.take(0) =~= Seq::<CacheEntry>::empty());
        assert(live(entries_model(before.take(0)), now) =~= entries_model(kept@));
        while i < self.entries.len()
            invariant
                i <= self.entries@.len(),
                self.entries@ == before,
                distinct(before),
                distinct(kept@),
                entries_model(kept@) == live(entries_model(before.take(i as int)), now),
            decreases self.entries.len() - i,
        {
            let e = &self.entries[i];
            let ghost had = before.take(i as int);
            proof {
                assert(had.push(*e) =~= before.take(i + 1));
                assert forall|a: int, b: int|
                    #![trigger had[a], had[b]]
                    0 <= a < b < had.len() implies had[a].key@ != had[b].key@ by {
                    assert(had[a] == before[a] && had[b] == before[b]);
                }
                assert(!holds_key(had, e.key@)) by {
                    if holds_key(had, e.key@) {
                        let p = position(had, e.key@);
                        assert(before[p] == had[p]);
                        assert(before[i as int] == *e);
                    }
                }
                lemma_model_push(had, *e);
            }
            if e.expiry > now {
                let copy = CacheEntry {
                    key: e.key.clone(),
                    value: e.value.clone(),
                    expiry: e.expiry,
                };
                proof {
                    if holds_key(kept@, e.key@) {
                        assert(entries_model(kept@).dom().contains(e.key@));
                        assert(entries_model(had).dom().contains(e.key@));
                    }
                    lemma_model_push(kept@, copy);
                }
                kept.push(copy);
                assert(entries_model(kept@) =~= live(entries_model(before.take(i + 1)), now));
            } else {
                assert(!entries_model(had).dom().contains(e.key@));
                assert(entries_model(kept@) =~= live(entries_model(before.take(i + 1)), now));
            }
            i += 1;
        }
        assert(before.take(i as int) =~= before);
        self.entries = kept;
    }

    /// Stores a value for a length of time. Once the cache holds many values, the expired ones
    /// are dropped first.
    pub fn set(&mut self, key: &str, value: String, ttl: u64, now: u64)
        requires
            old(self).wf(),
            now + ttl <= u64::MAX,
        ensures
            final(self).wf(),
            final(self)@ == stored(old(self)@, key@, value@, ttl, now),
    {
        proof {
            lemma_model_size(self.entries@);
        }
        if self.entries.len() >= CACHE_COLLECT_SIZE {
            self.collect(now);
        }
        self.insert(key.to_owned(), value, now + ttl);
    }

    /// Counts a request of a subject, and says whether it is one of the first `count` in its
    /// window of time. With a `count` of zero nothing is counted and all is allowed.
    pub fn allow(&mut self, subject: &str, count: u64, ttl: u64, now: u64) -> (r: bool)
        requires
            old(self).wf(),
            now + ttl <= u64::MAX,
        ensures
            final(self).wf(),
            count == 0 ==> r && *final(self) == *old(self),
            count > 0 ==> {
                let window = rate_window(old(self)@, subject@, ttl, now);
                &&& r == (one_more(window.0) <= count)
                &&& final(self)@ == counted(old(self)@, subject@, ttl, now)
            },
    {
        if count == 0 {
            return true;
        }
        let key = cat2("rate:", subject);
        let mut n: u64 = 0;
        let mut expiry: u64 = now + ttl;
        match self.find(key.as_str()) {
            Some(i) => {
                if self.entries[i].expiry > now {
                    match parse_number(self.entries[i].value.as_str(), u64::MAX) {
                        Some(value) => {
                            n = value;
                            expiry = self.entries[i].expiry;
                        },
                        None => {},
                    }
                }
            },
            None => {},
        }
        let n: u64 = n.saturating_add(1);
        self.insert(key, number_text(n), expiry);
        n <= count
    }
}

} // verus!
