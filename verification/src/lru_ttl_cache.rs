//! A TTL-aware cache with least-recently-used eviction, keyed by
//! question fingerprint. Entries live in a single owning vector held
//! in recency order: the first element is the least recently used
//! (the tail), the last is the most recently used (the head). An
//! entry's `ttl` field is the absolute instant, in seconds, at which
//! it expires.

use vstd::prelude::*;
use crate::dns::{DnsMessage, DnsMessageV};

verus! {

/// One cached response: the fingerprint key, the stored message, and
/// the absolute expiry instant in seconds.
pub struct CacheEntry {
    pub key: String,
    pub value: DnsMessage,
    pub ttl: u64,
}

/// The mathematical value of a cache entry.
pub ghost struct CacheEntryV {
    pub key: Seq<char>,
    pub value: DnsMessageV,
    pub ttl: u64,
}

impl DeepView for CacheEntry {
    type V = CacheEntryV;

    open spec fn deep_view(&self) -> CacheEntryV {
        CacheEntryV { key: self.key@, value: self.value.deep_view(), ttl: self.ttl }
    }
}

/// The cache: entries in recency order, and the fixed capacity.
pub struct Cache {
    entries: Vec<CacheEntry>,
    capacity: usize,
}

impl View for Cache {
    type V = Seq<CacheEntryV>;

    closed spec fn view(&self) -> Seq<CacheEntryV> {
        self.entries.deep_view()
    }
}

/// True iff some entry of `s` carries the key `k`.
pub open spec fn spec_has_key(s: Seq<CacheEntryV>, k: Seq<char>) -> bool {
    exists|i: int| 0 <= i < s.len() && #[trigger] s[i].key == k
}

/// True iff some entry of `s` carries the key `k` and is still live
/// at the instant `now`.
pub open spec fn spec_has_live(s: Seq<CacheEntryV>, k: Seq<char>, now: u64) -> bool {
    exists|i: int| 0 <= i < s.len() && #[trigger] s[i].key == k && now < s[i].ttl
}

/// The entries of `s` that are still live at the instant `now`, in
/// order.
pub open spec fn spec_live(s: Seq<CacheEntryV>, now: u64) -> Seq<CacheEntryV>
    decreases s.len(),
{
    if s.len() == 0 {
        Seq::empty()
    } else if now < s[0].ttl {
        seq![s[0]] + spec_live(s.drop_first(), now)
    } else {
        spec_live(s.drop_first(), now)
    }
}

/// The result of one scavenger pass over the window `[start, end)`
/// of `s`: entries inside the window that have expired by `now` are
/// removed, everything else is kept in order.
pub open spec fn spec_swept(s: Seq<CacheEntryV>, now: u64, start: int, end: int) -> Seq<
    CacheEntryV,
> {
    s.subrange(0, start) + spec_live(s.subrange(start, end), now) + s.subrange(end, s.len() as int)
}

impl Cache {
    /// The capacity fixed at construction.
    pub closed spec fn spec_capacity(&self) -> nat {
        self.capacity as nat
    }

    /// Well-formedness: no key occurs in two entries, and the entry
    /// count never exceeds the capacity. This is the map/list
    /// consistency invariant: with entries held in one owning
    /// vector, every key corresponds to exactly one node.
    pub open spec fn wf(&self) -> bool {
        &&& forall|i: int, j: int|
            0 <= i < j < self@.len() ==> #[trigger] self@[i].key != #[trigger] self@[j].key
        &&& self@.len() <= self.spec_capacity()
    }

    /// An empty cache with the given capacity.
    pub fn new(capacity: usize) -> (r: Cache)
        ensures
            r.wf(),
            r@ == Seq::<CacheEntryV>::empty(),
            r.spec_capacity() == capacity,
    {
        let r = Cache { entries: Vec::new(), capacity };
        proof {
            assert(r@ =~= Seq::<CacheEntryV>::empty());
        }
        r
    }

    /// The capacity fixed at construction.
    pub fn capacity(&self) -> (r: usize)
        ensures
            r == self.spec_capacity(),
    {
        self.capacity
    }

    /// The number of entries currently held.
    pub fn len(&self) -> (r: usize)
        ensures
            r == self@.len(),
    {
        self.entries.len()
    }

    /// A copy of the value stored under `k`, if one is present and
    /// has not expired by the instant `now`. An absent key and an
    /// expired entry are indistinguishable to the caller.
    pub fn get(&self, k: &String, now: u64) -> (r: Option<DnsMessage>)
        requires
            self.wf(),
        ensures
            (r is Some) <==> spec_has_live(self@, k@, now),
            match r {
                Some(v) => exists|i: int|
                    0 <= i < self@.len() && #[trigger] self@[i].key == k@ && now < self@[i].ttl
                        && v.deep_view() == self@[i].value,
                None => true,
            },
    {
        let n = self.entries.len();
        let mut i: usize = 0;
        while i < n
            invariant
                0 <= i <= n,
                n == self@.len(),
                self.wf(),
                forall|j: int|
                    0 <= j < i as int ==> !(#[trigger] self@[j].key == k@ && now < self@[j].ttl),
            decreases n - i,
        {
            if self.entries[i].key.eq(k) && now < self.entries[i].ttl {
                let v = self.entries[i].value.duplicate();
                proof {
                    assert(self@[i as int].key == k@ && now < self@[i as int].ttl
                        && v.deep_view() == self@[i as int].value);
                }
                return Some(v);
            }
            proof {
                assert(self@[i as int].key == self.entries@[i as int].key@);
            }
            i = i + 1;
        }
        None
    }

    /// True iff some entry carries the key `k`, live or not.
    pub fn contains_key(&self, k: &String) -> (r: bool)
        ensures
            r == spec_has_key(self@, k@),
    {
        let n = self.entries.len();
        let mut i: usize = 0;
        while i < n
            invariant
                0 <= i <= n,
                n == self@.len(),
                forall|j: int| 0 <= j < i as int ==> !(#[trigger] self@[j].key == k@),
            decreases n - i,
        {
            if self.entries[i].key.eq(k) {
                return true;
            }
            proof {
                assert(self@[i as int].key == self.entries@[i as int].key@);
            }
            i = i + 1;
        }
        false
    }

    /// Remove the least-recently-used entry (the tail).
    pub fn evict(&mut self)
        requires
            old(self).wf(),
            old(self)@.len() > 0,
        ensures
            final(self).wf(),
            final(self).spec_capacity() == old(self).spec_capacity(),
            final(self)@ == old(self)@.drop_first(),
    {
        self.entries.remove(0);
        proof {
            assert(self@ =~= old(self)@.drop_first());
        }
    }

    /// Insert `v` under `k`, expiring at the absolute instant `ttl`.
    /// Returns true iff a new entry was inserted: a key already
    /// present is left unchanged, and a cache of capacity zero
    /// stores nothing. When the cache is full beforehand, the
    /// least-recently-used entry is evicted; the new entry becomes
    /// the most recently used.
    pub fn add(&mut self, k: String, v: DnsMessage, ttl: u64) -> (r: bool)
        requires
            old(self).wf(),
        ensures
            final(self).wf(),
            final(self).spec_capacity() == old(self).spec_capacity(),
            r == (old(self).spec_capacity() > 0 && !spec_has_key(old(self)@, k@)),
            !r ==> final(self)@ == old(self)@,
            r ==> final(self)@ == (if old(self)@.len() == old(self).spec_capacity() {
                old(self)@.drop_first()
            } else {
                old(self)@
            }).push(CacheEntryV { key: k@, value: v.deep_view(), ttl }),
            final(self)@.len() <= final(self).spec_capacity(),
    {
        if self.capacity == 0 {
            return false;
        }
        if self.contains_key(&k) {
            return false;
        }
        if self.entries.len() == self.capacity {
            self.evict();
        }
        let ghost pre = self@;
        let ghost kv = k@;
        let ghost vv = v.deep_view();
        self.entries.push(CacheEntry { key: k, value: v, ttl });
        proof {
            assert(self@ =~= pre.push(CacheEntryV { key: kv, value: vv, ttl }));
        }
        true
    }

    /// One scavenger pass at the instant `now`, covering the sweep
    /// window numbered `index` of the ten cyclic windows: entries in
    /// the window whose expiry is at or before `now` are removed.
    pub fn sweep_window(&mut self, now: u64, index: usize)
        requires
            old(self).wf(),
            index < 10,
        ensures
            final(self).wf(),
            final(self).spec_capacity() == old(self).spec_capacity(),
            final(self)@ == spec_swept(
                old(self)@,
                now,
                spec_window_lo(old(self).spec_capacity(), index as nat, old(self)@.len()),
                spec_window_hi(old(self).spec_capacity(), index as nat, old(self)@.len()),
            ),
    {
        let width = self.capacity / 10;
        proof {
            assert(width * index <= width * 9 && width * (index + 1) <= width * 10)
                by (nonlinear_arith)
                requires
                    index < 10,
                    0 <= width,
            ;
            assert(width * (index + 1) == width * index + width) by (nonlinear_arith);
        }
        let lo_raw = width * index;
        let hi_raw = lo_raw + width;
        let start = if lo_raw < self.entries.len() {
            lo_raw
        } else {
            self.entries.len()
        };
        let stop = if hi_raw < self.entries.len() {
            hi_raw
        } else {
            self.entries.len()
        };
        let ghost orig = self@;
        let ghost lo = start as int;
        let ghost hi = stop as int;
        let mut j: usize = stop;
        while j > start
            invariant
                lo == start as int,
                hi == stop as int,
                lo <= j as int <= hi,
                self.wf(),
                self.spec_capacity() == old(self).spec_capacity(),
                self@ =~= orig.subrange(0, j as int) + spec_live(
                    orig.subrange(j as int, hi),
                    now,
                ) + orig.subrange(hi, orig.len() as int),
                0 <= lo <= hi <= orig.len(),
            decreases j,
        {
            j = j - 1;
            let ghost before = self@;
            let ghost rest = spec_live(orig.subrange((j + 1) as int, hi), now);
            let ghost tailpart = orig.subrange(hi, orig.len() as int);
            proof {
                assert(before == orig.subrange(0, (j + 1) as int) + spec_live(
                    orig.subrange((j + 1) as int, hi),
                    now,
                ) + tailpart);
                assert(before[j as int] == orig.subrange(0, (j + 1) as int)[j as int]);
                assert(before[j as int] == orig[j as int]);
                lemma_live_unfold(orig.subrange(j as int, hi), now);
                assert(orig.subrange(j as int, hi)[0] == orig[j as int]);
                assert(orig.subrange((j + 1) as int, hi) =~= orig.subrange(
                    j as int,
                    hi,
                ).drop_first());
            }
            if self.entries[j].ttl <= now {
                proof {
                    assert(before[j as int].ttl == orig[j as int].ttl);
                    assert(spec_live(orig.subrange(j as int, hi), now) == rest);
                }
                self.entries.remove(j);
                proof {
                    assert(self@ =~= before.remove(j as int));
                    assert(before.remove(j as int) =~= orig.subrange(0, j as int) + rest
                        + tailpart);
                    assert(self@ =~= orig.subrange(0, j as int) + spec_live(
                        orig.subrange(j as int, hi),
                        now,
                    ) + tailpart);
                }
            } else {
                proof {
                    assert(spec_live(orig.subrange(j as int, hi), now) == seq![orig[j as int]]
                        + rest);
                    assert(self@ =~= orig.subrange(0, j as int) + spec_live(
                        orig.subrange(j as int, hi),
                        now,
                    ) + tailpart);
                }
            }
        }
        proof {
            assert(self@ =~= spec_swept(orig, now, lo, hi));
        }
    }
}

/// The lower edge of sweep window `index`, clamped to the entry
/// count.
pub open spec fn spec_window_lo(cap: nat, index: nat, len: nat) -> int {
    if (cap / 10) * index < len {
        ((cap / 10) * index) as int
    } else {
        len as int
    }
}

/// The upper edge of sweep window `index`, clamped to the entry
/// count.
pub open spec fn spec_window_hi(cap: nat, index: nat, len: nat) -> int {
    if (cap / 10) * (index + 1) < len {
        ((cap / 10) * (index + 1)) as int
    } else {
        len as int
    }
}

/// Eviction on insert hits exactly the old tail: when an insertion
/// into a well-formed cache succeeds, the key that was at the
/// least-recently-used position beforehand remains present if and
/// only if the cache was not yet full. The sequence equation in the
/// hypothesis is the one `Cache::add` ensures for a successful
/// insertion.
pub proof fn lemma_lru_on_insert(pre: Seq<CacheEntryV>, post: Seq<CacheEntryV>, e: CacheEntryV, cap: nat)
    requires
        forall|i: int, j: int| 0 <= i < j < pre.len() ==> #[trigger] pre[i].key != #[trigger] pre[j].key,
        pre.len() <= cap,
        cap > 0,
        pre.len() > 0,
        !spec_has_key(pre, e.key),
        post == (if pre.len() == cap {
            pre.drop_first()
        } else {
            pre
        }).push(e),
    ensures
        spec_has_key(post, pre[0].key) <==> pre.len() < cap,
{
    let tk = pre[0].key;
    if pre.len() < cap {
        assert(post[0].key == tk);
    } else {
        assert(forall|i: int| 0 <= i < pre.len() ==> pre[i].key != e.key);
        assert forall|x: int| 0 <= x < post.len() implies post[x].key != tk by {
            if x < pre.len() - 1 {
                assert(post[x] == pre[x + 1]);
            } else {
                assert(post[x] == e);
                assert(pre[0].key != e.key);
            }
        }
    }
}

/// Map/list consistency: in a well-formed cache every key
/// corresponds to exactly one entry of the owning vector, so the
/// lookup index of a key is unique.
pub proof fn lemma_map_list_consistency(c: &Cache, i: int, j: int)
    requires
        c.wf(),
        0 <= i < c@.len(),
        0 <= j < c@.len(),
        c@[i].key == c@[j].key,
    ensures
        i == j,
{
}

/// Every entry of `spec_live(s, now)` is an entry of `s` that is
/// still live at `now`.
proof fn lemma_live_membership(s: Seq<CacheEntryV>, now: u64)
    ensures
        forall|k: int|
            0 <= k < spec_live(s, now).len() ==> now < (#[trigger] spec_live(s, now)[k]).ttl
                && exists|j: int| 0 <= j < s.len() && s[j] == spec_live(s, now)[k],
    decreases s.len(),
{
    if s.len() > 0 {
        lemma_live_membership(s.drop_first(), now);
        let rest = spec_live(s.drop_first(), now);
        assert forall|k: int|
            0 <= k < spec_live(s, now).len() implies now < (#[trigger] spec_live(s, now)[k]).ttl
            && exists|j: int| 0 <= j < s.len() && s[j] == spec_live(s, now)[k] by {
            if now < s[0].ttl {
                if k == 0 {
                    assert(spec_live(s, now)[0] == s[0]);
                } else {
                    assert(spec_live(s, now)[k] == rest[k - 1]);
                    let j0 = choose|j: int|
                        0 <= j < s.drop_first().len() && s.drop_first()[j] == rest[k - 1];
                    assert(s[j0 + 1] == rest[k - 1]);
                }
            } else {
                assert(spec_live(s, now)[k] == rest[k]);
                let j0 = choose|j: int|
                    0 <= j < s.drop_first().len() && s.drop_first()[j] == rest[k];
                assert(s[j0 + 1] == rest[k]);
            }
        }
    }
}

/// TTL expiry through the scavenger: an entry of a well-formed
/// cache that has expired by `now` and lies inside the swept window
/// is no longer present after the sweep. Together with the
/// contract of `get`, which already hides expired entries, an
/// expired key is absent from any observation after the sweep that
/// covers it.
pub proof fn lemma_sweep_removes_expired(
    s: Seq<CacheEntryV>,
    now: u64,
    start: int,
    end: int,
    i: int,
)
    requires
        forall|a: int, b: int| 0 <= a < b < s.len() ==> #[trigger] s[a].key != #[trigger] s[b].key,
        0 <= start <= i < end <= s.len(),
        s[i].ttl <= now,
    ensures
        !spec_has_key(spec_swept(s, now, start, end), s[i].key),
{
    let mid = s.subrange(start, end);
    let live = spec_live(mid, now);
    let swept = spec_swept(s, now, start, end);
    lemma_live_membership(mid, now);
    assert forall|x: int| 0 <= x < swept.len() implies (#[trigger] swept[x]).key != s[i].key by {
        if x < start {
            assert(swept[x] == s[x]);
        } else if x < start + live.len() {
            assert(swept[x] == live[x - start]);
            let j0 = choose|j: int| 0 <= j < mid.len() && mid[j] == live[x - start];
            assert(s[start + j0] == live[x - start]);
            if s[start + j0].key == s[i].key {
                assert(start + j0 == i);
            }
        } else {
            assert(swept[x] == s[end + (x - start - live.len())]);
        }
    }
}

/// Unfolds `spec_live` one step at the front of a non-empty
/// sequence.
proof fn lemma_live_unfold(s: Seq<CacheEntryV>, now: u64)
    requires
        s.len() > 0,
    ensures
        now < s[0].ttl ==> spec_live(s, now) == seq![s[0]] + spec_live(s.drop_first(), now),
        !(now < s[0].ttl) ==> spec_live(s, now) == spec_live(s.drop_first(), now),
{
}

} // verus!
