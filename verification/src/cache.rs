//! A TTL cache: a key-value store whose entries carry an expiration policy
//! chosen at insertion time. Expiration is judged against a caller-supplied
//! clock value (milliseconds), so every time-dependent behaviour is stated in
//! the contracts rather than hidden behind a wall clock.
//!
//! The store is bounded: when a new key arrives at capacity, the entry with
//! the oldest insertion time is evicted. Inserting under an existing key
//! resets that entry's expiration clock.

use vstd::prelude::*;
use vstd::string::StringExecFns;
use crate::load_balance::{available_of, inc64, Instance, LoadBalance};

verus! {

/// How long a cache entry stays valid after it was inserted.
#[derive(Clone, Copy, Debug, PartialEq, Eq, Structural)]
pub enum Expiration {
    /// The value never expires.
    Never,
    /// The value expires after a short time (five seconds).
    AfterShortTime,
    /// The value expires after a long time (1500 seconds).
    AfterLongTime,
    /// The value expires after five seconds.
    Second5,
}

impl Expiration {
    /// The lifetime of an entry under this policy, in milliseconds;
    /// `None` means the entry never expires.
    pub fn as_duration(&self) -> (d: Option<u64>)
        ensures
            d == self.spec_duration_ms(),
    {
        match self {
            Expiration::Never => None,
            Expiration::AfterShortTime => Some(5000),
            Expiration::AfterLongTime => Some(1_500_000),
            Expiration::Second5 => Some(5000),
        }
    }

    pub open spec fn spec_duration_ms(self) -> Option<u64> {
        match self {
            Expiration::Never => None,
            Expiration::AfterShortTime => Some(5000u64),
            Expiration::AfterLongTime => Some(1_500_000u64),
            Expiration::Second5 => Some(5000u64),
        }
    }
}

/// The closed set of value shapes the cache holds.
#[derive(Clone, Debug)]
pub enum CacheType {
    Str(String),
    I32(i32),
    DateTime(String),
    Sku(Option<crate::model::sku::Sku>),
    LoadBalance(LoadBalance),
    Question(Option<crate::model::qa_cache::Question>),
}

/// Chooses entry lifetimes for the cache: both on first insertion and on
/// overwrite, an entry lives for exactly the duration of its own policy.
pub struct MyExpiry;

impl MyExpiry {
    /// The lifetime (ms) of a value that was just created.
    pub fn expire_after_create(&self, value: &(Expiration, CacheType)) -> (d: Option<u64>)
        ensures
            d == value.0.spec_duration_ms(),
    {
        value.0.as_duration()
    }

    /// The lifetime (ms) of a value that was just overwritten.
    pub fn expire_after_update(&self, value: &(Expiration, CacheType)) -> (d: Option<u64>)
        ensures
            d == value.0.spec_duration_ms(),
    {
        value.0.as_duration()
    }
}

/// One cache slot: a key, the policy chosen at insertion, the value, and
/// the clock value (ms) of the insertion that created or last overwrote it.
#[derive(Debug)]
pub struct CacheEntry {
    pub key: String,
    pub policy: Expiration,
    pub value: CacheType,
    pub inserted_at_ms: u64,
}

/// Whether an entry is past its lifetime at clock `now_ms`.
pub open spec fn entry_expired(e: CacheEntry, now_ms: u64) -> bool {
    match e.policy.spec_duration_ms() {
        Option::Some(d) => now_ms >= e.inserted_at_ms + d,
        Option::None => false,
    }
}

/// The position of the entry with the given key, or -1 when absent.
pub open spec fn cache_index_of(s: Seq<CacheEntry>, k: Seq<char>) -> int
    decreases s.len(),
{
    if s.len() == 0 {
        -1
    } else if s[0].key@ == k {
        0
    } else {
        let r = cache_index_of(s.skip(1), k);
        if r == -1 {
            -1
        } else {
            r + 1
        }
    }
}

/// The found index is in range and names the key; absence means no entry
/// has the key.
pub proof fn lemma_cache_index_of(s: Seq<CacheEntry>, k: Seq<char>)
    ensures
        cache_index_of(s, k) >= 0 ==> cache_index_of(s, k) < s.len() && s[cache_index_of(
            s,
            k,
        )].key@ == k,
        cache_index_of(s, k) == -1 ==> forall|i: int| 0 <= i < s.len() ==> (#[trigger] s[i]).key@
            != k,
        cache_index_of(s, k) >= -1,
    decreases s.len(),
{
    if s.len() > 0 && s[0].key@ != k {
        lemma_cache_index_of(s.skip(1), k);
        assert forall|i: int| 1 <= i < s.len() implies s[i] == s.skip(1)[i - 1] by {}
    }
}

/// Keys are pairwise distinct.
pub open spec fn distinct_keys(s: Seq<CacheEntry>) -> bool {
    forall|i: int, j: int|
        0 <= i < j < s.len() ==> (#[trigger] s[i]).key@ != (#[trigger] s[j]).key@
}

/// The TTL cache itself: a bounded store of policy-tagged entries.
pub struct TtlCache {
    entries: Vec<CacheEntry>,
    max_capacity: usize,
}

impl TtlCache {
    /// The entries, in insertion order of their keys.
    pub closed spec fn model(self) -> Seq<CacheEntry> {
        self.entries@
    }

    /// The bound on how many entries the cache holds.
    pub closed spec fn capacity(self) -> usize {
        self.max_capacity
    }

    /// Well-formedness: distinct keys, within capacity, capacity positive.
    pub open spec fn wf(self) -> bool {
        &&& distinct_keys(self.model())
        &&& self.model().len() <= self.capacity()
        &&& self.capacity() >= 1
    }

    /// An empty cache bounded by `max_capacity` entries.
    pub fn new(max_capacity: usize) -> (r: Self)
        requires
            max_capacity >= 1,
        ensures
            r.wf(),
            r.model() == Seq::<CacheEntry>::empty(),
            r.capacity() == max_capacity,
    {
        TtlCache { entries: Vec::new(), max_capacity }
    }

    /// The position of the key's entry, if any.
    fn find_index(&self, key: &String) -> (r: Option<usize>)
        ensures
            match r {
                Some(i) => i < self.model().len() && i == cache_index_of(self.model(), key@),
                None => cache_index_of(self.model(), key@) == -1,
            },
    {
        let ghost s = self.entries@;
        let n = self.entries.len();
        let mut i: usize = 0;
        proof {
            assert(s.skip(0) =~= s);
            lemma_cache_index_of(s, key@);
        }
        while i < n
            invariant
                i <= n,
                n == self.entries.len(),
                s == self.entries@,
                cache_index_of(s, key@) == if cache_index_of(s.skip(i as int), key@) == -1 {
                    -1int
                } else {
                    cache_index_of(s.skip(i as int), key@) + i
                },
                cache_index_of(s.skip(i as int), key@) >= -1,
            decreases n - i,
        {
            proof {
                lemma_cache_index_of(s.skip(i as int), key@);
                assert(s.skip(i as int)[0] == s[i as int]);
                assert(s.skip(i as int).skip(1) =~= s.skip(i + 1));
                lemma_cache_index_of(s.skip(i + 1), key@);
            }
            if self.entries[i].key.eq(key) {
                return Some(i);
            }
            i += 1;
        }
        proof {
            assert(s.skip(n as int).len() == 0);
        }
        None
    }

    /// Look the key up at clock `now_ms`: the entry comes back only while
    /// it is within its lifetime; an expired or absent key is a miss.
    pub fn get(&self, key: &String, now_ms: u64) -> (r: Option<&CacheEntry>)
        ensures
            match r {
                Some(e) => {
                    let i = cache_index_of(self.model(), key@);
                    i >= 0 && *e == self.model()[i] && !entry_expired(*e, now_ms)
                },
                None => {
                    let i = cache_index_of(self.model(), key@);
                    i == -1 || entry_expired(self.model()[i], now_ms)
                },
            },
    {
        match self.find_index(key) {
            None => None,
            Some(i) => {
                let e = &self.entries[i];
                match e.policy.as_duration() {
                    None => Some(e),
                    Some(d) => {
                        if now_ms >= e.inserted_at_ms && now_ms - e.inserted_at_ms >= d {
                            None
                        } else {
                            Some(e)
                        }
                    },
                }
            },
        }
    }

    /// Insert at clock `now_ms`: an existing key is overwritten in place and
    /// its expiration clock restarts; a new key is appended, evicting the
    /// entry with the oldest insertion time when the cache is full.
    pub fn insert(&mut self, key: String, policy: Expiration, value: CacheType, now_ms: u64)
        requires
            old(self).wf(),
        ensures
            final(self).wf(),
            final(self).capacity() == old(self).capacity(),
            ({
                let s = old(self).model();
                let t = final(self).model();
                let i = cache_index_of(s, key@);
                if i >= 0 {
                    t.len() == s.len() && (forall|j: int| 0 <= j < s.len() && j != i ==> t[j] == s[j])
                        && t[i].key == key && t[i].policy == policy && t[i].value == value
                        && t[i].inserted_at_ms == now_ms
                } else if s.len() < old(self).capacity() {
                    t.len() == s.len() + 1 && t.subrange(0, s.len() as int) == s && t.last().key
                        == key && t.last().policy == policy && t.last().value == value
                        && t.last().inserted_at_ms == now_ms
                } else {
                    exists|m: int|
                        0 <= m < s.len() && (forall|j: int|
                            0 <= j < s.len() ==> (#[trigger] s[j]).inserted_at_ms
                                >= s[m].inserted_at_ms) && t.len() == s.len() && t.drop_last()
                            == s.remove(m) && t.last().key == key && t.last().policy == policy
                            && t.last().value == value && t.last().inserted_at_ms == now_ms
                }
            }),
            ({
                let t = final(self).model();
                let ni = cache_index_of(t, key@);
                ni >= 0 && t[ni].key == key && t[ni].policy == policy && t[ni].value == value
                    && t[ni].inserted_at_ms == now_ms
            }),
    {
        let ghost s = self.entries@;
        proof {
            lemma_cache_index_of(s, key@);
        }
        match self.find_index(&key) {
            Some(i) => {
                let slot = &mut self.entries[i];
                slot.key = key;
                slot.policy = policy;
                slot.value = value;
                slot.inserted_at_ms = now_ms;
                proof {
                    assert forall|a: int, b: int|
                        0 <= a < b < self.entries@.len() implies (#[trigger] self.entries@[a]).key@
                        != (#[trigger] self.entries@[b]).key@ by {
                        assert(s[a].key@ != s[b].key@);
                    }
                    assert(distinct_keys(self.entries@));
                    lemma_cache_index_unique(self.entries@, key@, i as int);
                }
            },
            None => {
                if self.entries.len() >= self.max_capacity {
                    let m = self.oldest_index();
                    self.entries.remove(m);
                    proof {
                        assert forall|a: int, b: int|
                            0 <= a < b < self.entries@.len() implies (
                        #[trigger] self.entries@[a]).key@ != (#[trigger] self.entries@[b]).key@ by {
                            if b < m {
                                assert(self.entries@[a] == s[a] && self.entries@[b] == s[b]);
                            } else if a < m {
                                assert(self.entries@[a] == s[a] && self.entries@[b] == s[b + 1]);
                            } else {
                                assert(self.entries@[a] == s[a + 1] && self.entries@[b] == s[b
                                    + 1]);
                            }
                        }
                        assert forall|a: int|
                            0 <= a < self.entries@.len() implies (#[trigger] self.entries@[a]).key@
                            != key@ by {
                            lemma_cache_index_of(s, key@);
                            if a < m {
                                assert(self.entries@[a] == s[a]);
                            } else {
                                assert(self.entries@[a] == s[a + 1]);
                            }
                        }
                    }
                    let ghost shrunk = self.entries@;
                    let e = CacheEntry { key, policy, value, inserted_at_ms: now_ms };
                    self.entries.push(e);
                    proof {
                        assert forall|a: int, b: int|
                            0 <= a < b < self.entries@.len() implies (
                        #[trigger] self.entries@[a]).key@ != (#[trigger] self.entries@[b]).key@ by {
                            if b < shrunk.len() {
                                assert(shrunk[a].key@ != shrunk[b].key@);
                            } else {
                                assert(shrunk[a].key@ != key@);
                            }
                        }
                        assert(distinct_keys(self.entries@));
                        lemma_cache_index_unique(
                            self.entries@,
                            key@,
                            self.entries@.len() - 1,
                        );
                    }
                } else {
                    let e = CacheEntry { key, policy, value, inserted_at_ms: now_ms };
                    self.entries.push(e);
                    proof {
                        lemma_cache_index_of(s, key@);
                        assert(self.entries@.subrange(0, s.len() as int) =~= s);
                        assert forall|a: int, b: int|
                            0 <= a < b < self.entries@.len() implies (
                        #[trigger] self.entries@[a]).key@ != (#[trigger] self.entries@[b]).key@ by {
                            if b < s.len() {
                                assert(s[a].key@ != s[b].key@);
                            } else {
                                assert(s[a].key@ != key@);
                            }
                        }
                        assert(distinct_keys(self.entries@));
                        lemma_cache_index_unique(
                            self.entries@,
                            key@,
                            self.entries@.len() - 1,
                        );
                    }
                }
            },
        }
    }

    /// The position of an entry whose insertion time is no later than any
    /// other's.
    fn oldest_index(&self) -> (m: usize)
        requires
            self.model().len() > 0,
        ensures
            m < self.model().len(),
            forall|j: int|
                0 <= j < self.model().len() ==> (#[trigger] self.model()[j]).inserted_at_ms
                    >= self.model()[m as int].inserted_at_ms,
    {
        let n = self.entries.len();
        let mut m: usize = 0;
        let mut i: usize = 1;
        while i < n
            invariant
                1 <= i <= n,
                m < i,
                n == self.entries.len(),
                forall|j: int|
                    0 <= j < i ==> (#[trigger] self.entries@[j]).inserted_at_ms >= self.entries@[m
                        as int].inserted_at_ms,
            decreases n - i,
        {
            if self.entries[i].inserted_at_ms < self.entries[m].inserted_at_ms {
                m = i;
            }
            i += 1;
        }
        m
    }

    /// Insert only when the key has no live entry, and say whether the
    /// insertion happened: the insert-if-absent step of a miss that is
    /// populated synchronously.
    pub fn get_or_insert(
        &mut self,
        key: String,
        policy: Expiration,
        value: CacheType,
        now_ms: u64,
    ) -> (inserted: bool)
        requires
            old(self).wf(),
        ensures
            final(self).wf(),
            final(self).capacity() == old(self).capacity(),
            ({
                let s = old(self).model();
                let i = cache_index_of(s, key@);
                if i >= 0 && !entry_expired(s[i], now_ms) {
                    !inserted && final(self).model() == s
                } else {
                    inserted && ({
                        let t = final(self).model();
                        let ni = cache_index_of(t, key@);
                        ni >= 0 && t[ni].policy == policy && t[ni].value == value
                            && t[ni].inserted_at_ms == now_ms
                    })
                }
            }),
    {
        let live = match self.get(&key, now_ms) {
            Some(_) => true,
            None => false,
        };
        if live {
            false
        } else {
            self.insert(key, policy, value, now_ms);
            true
        }
    }

    /// The background sweep at clock `now_ms`: every expired entry is
    /// dropped, the rest keep their order.
    pub fn evict_expired(&mut self, now_ms: u64)
        requires
            old(self).wf(),
        ensures
            final(self).wf(),
            final(self).capacity() == old(self).capacity(),
            final(self).model() == old(self).model().filter(
                |e: CacheEntry| !entry_expired(e, now_ms),
            ),
    {
        let ghost keep = |e: CacheEntry| !entry_expired(e, now_ms);
        let ghost s = self.entries@;
        let mut kept: Vec<CacheEntry> = Vec::new();
        let total: usize = self.entries.len();
        let mut rest: Vec<CacheEntry> = Vec::new();
        core::mem::swap(&mut rest, &mut self.entries);
        let mut taken: usize = 0;
        while rest.len() > 0
            invariant
                total == s.len(),
                distinct_keys(s),
                taken + rest@.len() == total,
                rest@ == s.subrange(taken as int, s.len() as int),
                kept@ == s.subrange(0, taken as int).filter(keep),
                keep == (|e: CacheEntry| !entry_expired(e, now_ms)),
                distinct_keys(kept@),
                forall|a: int|
                    0 <= a < kept@.len() ==> exists|w: int|
                        0 <= w < taken && #[trigger] kept@[a] == s[w],
            decreases rest@.len(),
        {
            let e = rest.remove(0);
            proof {
                assert(e == s[taken as int]);
                assert(rest@ =~= s.subrange(taken + 1, s.len() as int));
                assert(s.subrange(0, taken + 1).drop_last() =~= s.subrange(0, taken as int));
                reveal(Seq::filter);
            }
            let expired = match e.policy.as_duration() {
                None => false,
                Some(d) => now_ms >= e.inserted_at_ms && now_ms - e.inserted_at_ms >= d,
            };
            if !expired {
                let ghost prev = kept@;
                kept.push(e);
                proof {
                    assert forall|a: int, b: int|
                        0 <= a < b < kept@.len() implies (#[trigger] kept@[a]).key@
                        != (#[trigger] kept@[b]).key@ by {
                        if b < prev.len() {
                            assert(prev[a].key@ != prev[b].key@);
                        } else {
                            let w = choose|w: int| 0 <= w < taken && prev[a] == s[w];
                            assert(s[w].key@ != s[taken as int].key@);
                        }
                    }
                    assert forall|a: int|
                        0 <= a < kept@.len() implies exists|w: int|
                            0 <= w < taken + 1 && #[trigger] kept@[a] == s[w] by {
                        if a < prev.len() {
                            let w = choose|w: int| 0 <= w < taken && prev[a] == s[w];
                            assert(0 <= w < taken + 1 && kept@[a] == s[w]);
                        } else {
                            assert(kept@[a] == s[taken as int]);
                        }
                    }
                }
            }
            taken += 1;
        }
        proof {
            assert(s.subrange(0, s.len() as int) =~= s);
            s.lemma_filter_len(keep);
        }
        self.entries = kept;
    }
}

/// What a lookup of a cached load balancer came to.
pub enum BalancerLookup {
    /// No live load-balancer entry under the key.
    Missing,
    /// A balancer is cached but none of its instances is available.
    NoInstance,
    /// The instance the balancer selected.
    Selected(Instance),
}

impl TtlCache {
    /// Run one round-robin selection on the load balancer cached under
    /// `key`, as an outbound call does: a missing, expired or differently
    /// shaped entry is `Missing` and leaves the cache unchanged; otherwise
    /// the balancer selects in place.
    pub fn next_instance(&mut self, key: &String, now_ms: u64) -> (r: BalancerLookup)
        requires
            old(self).wf(),
        ensures
            final(self).wf(),
            final(self).capacity() == old(self).capacity(),
            ({
                let s = old(self).model();
                let t = final(self).model();
                let i = cache_index_of(s, key@);
                if i >= 0 && !entry_expired(s[i], now_ms) && s[i].value is LoadBalance {
                    s[i].value matches CacheType::LoadBalance(lb) && ({
                    let avail = available_of(lb@.instances);
                    t.len() == s.len() && (forall|j: int|
                        0 <= j < s.len() && j != i ==> t[j] == s[j]) && t[i].key == s[i].key
                        && t[i].policy == s[i].policy && t[i].inserted_at_ms == s[i].inserted_at_ms
                        && (t[i].value matches CacheType::LoadBalance(lb2) && lb2@.service_name
                        == lb@.service_name && lb2@.instances == lb@.instances
                        && lb2.failed_counter == lb.failed_counter && (if avail.len() == 0 {
                        r is NoInstance && lb2.counter == lb.counter
                    } else {
                        lb2.counter == inc64(lb.counter) && (r matches BalancerLookup::Selected(
                            inst,
                        ) && inst@ == avail[lb.counter as int % avail.len() as int])
                    }))
                    })
                } else {
                    r is Missing && t == s
                }
            }),
    {
        let found = self.find_index(key);
        match found {
            None => BalancerLookup::Missing,
            Some(i) => {
                let fresh = match self.entries[i].policy.as_duration() {
                    None => true,
                    Some(d) => {
                        let at = self.entries[i].inserted_at_ms;
                        !(now_ms >= at && now_ms - at >= d)
                    },
                };
                if !fresh {
                    BalancerLookup::Missing
                } else {
                    let ghost s = self.entries@;
                    let mut e = self.entries.remove(i);
                    let r = match &mut e.value {
                        CacheType::LoadBalance(lb) => {
                            match lb.next() {
                                Some(inst) => BalancerLookup::Selected(inst),
                                None => BalancerLookup::NoInstance,
                            }
                        },
                        _ => BalancerLookup::Missing,
                    };
                    self.entries.insert(i, e);
                    proof {
                        assert(self.entries@ =~= s.update(i as int, self.entries@[i as int]));
                        assert forall|a: int, b: int|
                            0 <= a < b < self.entries@.len() implies (
                        #[trigger] self.entries@[a]).key@ != (#[trigger] self.entries@[b]).key@ by {
                            assert(s[a].key@ != s[b].key@);
                        }
                        if s[i as int].value is LoadBalance {
                        } else {
                            assert(self.entries@ =~= s);
                        }
                    }
                    r
                }
            },
        }
    }

    /// Record one failure, observed at clock `now_ms`, against every
    /// instance with the given endpoint identity inside the load balancer
    /// cached under `key`; reports whether such a balancer was live.
    pub fn report_instance_failure(
        &mut self,
        key: &String,
        ip: &String,
        port: u16,
        now_ms: u64,
    ) -> (r: bool)
        requires
            old(self).wf(),
        ensures
            final(self).wf(),
            final(self).capacity() == old(self).capacity(),
            ({
                let s = old(self).model();
                let t = final(self).model();
                let i = cache_index_of(s, key@);
                if i >= 0 && !entry_expired(s[i], now_ms) && s[i].value is LoadBalance {
                    s[i].value matches CacheType::LoadBalance(lb) && ({
                    r && t.len() == s.len() && (forall|j: int|
                        0 <= j < s.len() && j != i ==> t[j] == s[j]) && t[i].key == s[i].key
                        && t[i].policy == s[i].policy && t[i].inserted_at_ms == s[i].inserted_at_ms
                        && (t[i].value matches CacheType::LoadBalance(lb2) && lb2@.service_name
                        == lb@.service_name && lb2.counter == lb.counter && lb2.failed_counter
                        == lb.failed_counter && lb2@.instances.len() == lb@.instances.len()
                        && (forall|j: int|
                        0 <= j < lb@.instances.len() ==> lb2@.instances[j] == (if (
                        #[trigger] lb@.instances[j]).ip == ip@ && lb@.instances[j].port == port {
                            crate::load_balance::failed_step(lb@.instances[j], now_ms)
                        } else {
                            lb@.instances[j]
                        })))
                    })
                } else {
                    !r && t == s
                }
            }),
    {
        let found = self.find_index(key);
        match found {
            None => false,
            Some(i) => {
                let fresh = match self.entries[i].policy.as_duration() {
                    None => true,
                    Some(d) => {
                        let at = self.entries[i].inserted_at_ms;
                        !(now_ms >= at && now_ms - at >= d)
                    },
                };
                if !fresh {
                    false
                } else {
                    let ghost s = self.entries@;
                    let mut e = self.entries.remove(i);
                    let r = match &mut e.value {
                        CacheType::LoadBalance(lb) => {
                            lb.fail_matching(ip, port, now_ms);
                            true
                        },
                        _ => false,
                    };
                    self.entries.insert(i, e);
                    proof {
                        assert(self.entries@ =~= s.update(i as int, self.entries@[i as int]));
                        assert forall|a: int, b: int|
                            0 <= a < b < self.entries@.len() implies (
                        #[trigger] self.entries@[a]).key@ != (#[trigger] self.entries@[b]).key@ by {
                            assert(s[a].key@ != s[b].key@);
                        }
                        if s[i as int].value is LoadBalance {
                        } else {
                            assert(self.entries@ =~= s);
                        }
                    }
                    r
                }
            },
        }
    }
}

impl TtlCache {
    /// One re-enable pass over the load balancer cached under `key` at
    /// clock `now_ms`: every tripped instance whose cooldown has elapsed is
    /// reset; reports whether such a balancer was live.
    pub fn reenable_instances(&mut self, key: &String, now_ms: u64) -> (r: bool)
        requires
            old(self).wf(),
        ensures
            final(self).wf(),
            final(self).capacity() == old(self).capacity(),
            ({
                let s = old(self).model();
                let t = final(self).model();
                let i = cache_index_of(s, key@);
                if i >= 0 && !entry_expired(s[i], now_ms) && s[i].value is LoadBalance {
                    s[i].value matches CacheType::LoadBalance(lb) && ({
                        r && t.len() == s.len() && (forall|j: int|
                            0 <= j < s.len() && j != i ==> t[j] == s[j]) && t[i].key == s[i].key
                            && t[i].policy == s[i].policy && t[i].inserted_at_ms
                            == s[i].inserted_at_ms && (t[i].value matches CacheType::LoadBalance(
                            lb2,
                        ) && lb2@.service_name == lb@.service_name && lb2.counter == lb.counter
                            && lb2.failed_counter == lb.failed_counter && lb2@.instances.len()
                            == lb@.instances.len() && (forall|j: int|
                            0 <= j < lb@.instances.len() ==> lb2@.instances[j]
                                == crate::load_balance::reenable_step(
                                #[trigger] lb@.instances[j],
                                now_ms,
                            )))
                    })
                } else {
                    !r && t == s
                }
            }),
    {
        let found = self.find_index(key);
        match found {
            None => false,
            Some(i) => {
                let fresh = match self.entries[i].policy.as_duration() {
                    None => true,
                    Some(d) => {
                        let at = self.entries[i].inserted_at_ms;
                        !(now_ms >= at && now_ms - at >= d)
                    },
                };
                if !fresh {
                    false
                } else {
                    let ghost s = self.entries@;
                    let mut e = self.entries.remove(i);
                    let r = match &mut e.value {
                        CacheType::LoadBalance(lb) => {
                            lb.reenable_instances(now_ms);
                            true
                        },
                        _ => false,
                    };
                    self.entries.insert(i, e);
                    proof {
                        assert(self.entries@ =~= s.update(i as int, self.entries@[i as int]));
                        assert forall|a: int, b: int|
                            0 <= a < b < self.entries@.len() implies (
                        #[trigger] self.entries@[a]).key@ != (#[trigger] self.entries@[b]).key@ by {
                            assert(s[a].key@ != s[b].key@);
                        }
                        if s[i as int].value is LoadBalance {
                        } else {
                            assert(self.entries@ =~= s);
                        }
                    }
                    r
                }
            },
        }
    }
}

/// The cache key under which the discovered instance snapshot of a service
/// is published.
pub fn get_service_list_key(service_name_clone: String) -> (r: String)
    ensures
        r@ == "nacos_service_list:"@ + ":"@ + service_name_clone@,
{
    let mut s = String::from_str("nacos_service_list:");
    s.append(":");
    s.append(service_name_clone.as_str());
    s
}

/// The cache key under which the load balancer of a service is published.
pub fn get_service_instance_key(service_name: String) -> (r: String)
    ensures
        r@ == "load_balance_"@ + service_name@,
{
    let mut key = String::from_str("load_balance_");
    key.append(service_name.as_str());
    key
}

/// TTL expiry: once an entry stands inserted at `t0` under a policy whose
/// duration is `d` milliseconds, a lookup at time `t` is a hit exactly
/// while `t - t0 < d`, and a miss from `t0 + d` on.
pub proof fn lemma_ttl_round_trip(c: TtlCache, k: Seq<char>, t0: u64, t: u64, d: u64)
    requires
        cache_index_of(c.model(), k) >= 0,
        c.model()[cache_index_of(c.model(), k)].inserted_at_ms == t0,
        c.model()[cache_index_of(c.model(), k)].policy.spec_duration_ms() == Some(d),
    ensures
        !entry_expired(c.model()[cache_index_of(c.model(), k)], t) <==> (t as int) < t0 + d,
{
}

/// An entry under the never-expiring policy is live at every time: it
/// leaves the cache only by overwrite or capacity eviction.
pub proof fn lemma_never_policy_lives(e: CacheEntry, t: u64)
    requires
        e.policy == Expiration::Never,
    ensures
        !entry_expired(e, t),
{
}

/// In a cache with distinct keys, the position holding a key is the only
/// one, and `cache_index_of` finds exactly it.
pub proof fn lemma_cache_index_unique(s: Seq<CacheEntry>, k: Seq<char>, i: int)
    requires
        distinct_keys(s),
        0 <= i < s.len(),
        s[i].key@ == k,
    ensures
        cache_index_of(s, k) == i,
    decreases s.len(),
{
    if i > 0 {
        assert(s[0].key@ != k);
        assert(distinct_keys(s.skip(1))) by {
            assert forall|a: int, b: int|
                0 <= a < b < s.skip(1).len() implies (#[trigger] s.skip(1)[a]).key@
                != (#[trigger] s.skip(1)[b]).key@ by {
                assert(s.skip(1)[a] == s[a + 1] && s.skip(1)[b] == s[b + 1]);
            }
        }
        assert(s.skip(1)[i - 1] == s[i]);
        lemma_cache_index_unique(s.skip(1), k, i - 1);
    }
}

} // verus!
