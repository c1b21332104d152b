//! The instance cache: the ephemeral mapping of a function key to the
//! address of its running instance, with a time to live. The backing
//! store expires entries on its own, so an expired entry counts as
//! absent everywhere: a read misses it and a conditional insert writes
//! over it. Insertion is conditional on a live entry being absent, which
//! is the only serialization point between concurrent invocations: the
//! first writer wins, every loser's value is discarded, and at most one
//! address is live per key until the TTL runs out.

use vstd::prelude::*;

use crate::text::str_eq;

verus! {

/// A function instance as it is announced to the cache: the cache key and
/// the address the instance serves on.
pub struct FunctionAddr {
    pub name: String,
    pub addr: String,
}

/// One cache entry: key, address, and the instant it expires.
pub struct InstanceRecord {
    pub key: String,
    pub addr: String,
    pub expires_at: u64,
}

/// No two entries share a key.
pub open spec fn spec_cache_wf(entries: Seq<InstanceRecord>) -> bool {
    forall|i: int, j: int|
        0 <= i < j < entries.len() ==> #[trigger] entries[i].key@ != #[trigger] entries[j].key@
}

/// Whether the entry holds the key and is still live at `now`.
pub open spec fn spec_live(r: InstanceRecord, key: Seq<char>, now: u64) -> bool {
    r.key@ == key && r.expires_at > now
}

/// Whether the entry holds the key but has already expired at `now`.
pub open spec fn spec_stale(r: InstanceRecord, key: Seq<char>, now: u64) -> bool {
    r.key@ == key && r.expires_at <= now
}

/// Whether some live entry holds the key at `now`.
pub open spec fn spec_has_live(entries: Seq<InstanceRecord>, key: Seq<char>, now: u64) -> bool {
    exists|i: int| 0 <= i < entries.len() && spec_live(#[trigger] entries[i], key, now)
}

/// The cache with any expired entry for the key dropped, as the backing
/// store would have dropped it.
pub open spec fn spec_drop_stale(entries: Seq<InstanceRecord>, key: Seq<char>, now: u64) -> Seq<
    InstanceRecord,
> {
    entries.filter(|r: InstanceRecord| !spec_stale(r, key, now))
}

/// What a conditional insert does at `now`: nothing while a live entry
/// holds the key; otherwise a stale entry for the key is gone and the
/// new entry stands.
pub open spec fn spec_put_if_absent(
    entries: Seq<InstanceRecord>,
    rec: InstanceRecord,
    now: u64,
) -> Seq<InstanceRecord> {
    if spec_has_live(entries, rec.key@, now) {
        entries
    } else {
        spec_drop_stale(entries, rec.key@, now).push(rec)
    }
}

/// How many entries hold the given key.
pub open spec fn spec_count_key(entries: Seq<InstanceRecord>, key: Seq<char>) -> int
    decreases entries.len(),
{
    if entries.len() == 0 {
        0
    } else {
        spec_count_key(entries.drop_last(), key) + if entries.last().key@ == key {
            1 as int
        } else {
            0 as int
        }
    }
}

pub proof fn lemma_key_count_zero(entries: Seq<InstanceRecord>, key: Seq<char>)
    requires
        forall|i: int| 0 <= i < entries.len() ==> (#[trigger] entries[i].key@) != key,
    ensures
        spec_count_key(entries, key) == 0,
    decreases entries.len(),
{
    if entries.len() > 0 {
        lemma_key_count_zero(entries.drop_last(), key);
    }
}

pub proof fn lemma_key_count_nonneg(entries: Seq<InstanceRecord>, key: Seq<char>)
    ensures
        spec_count_key(entries, key) >= 0,
    decreases entries.len(),
{
    if entries.len() > 0 {
        lemma_key_count_nonneg(entries.drop_last(), key);
    }
}

pub proof fn lemma_key_count_pos(entries: Seq<InstanceRecord>, key: Seq<char>, i: int)
    requires
        0 <= i < entries.len(),
        entries[i].key@ == key,
    ensures
        spec_count_key(entries, key) >= 1,
    decreases entries.len(),
{
    lemma_key_count_nonneg(entries.drop_last(), key);
    if i < entries.len() - 1 {
        lemma_key_count_pos(entries.drop_last(), key, i);
    }
}

/// A well-formed cache holds at most one entry per key.
pub proof fn lemma_wf_key_count_le_one(entries: Seq<InstanceRecord>, key: Seq<char>)
    requires
        spec_cache_wf(entries),
    ensures
        spec_count_key(entries, key) <= 1,
    decreases entries.len(),
{
    if entries.len() > 0 {
        let head = entries.drop_last();
        assert(spec_cache_wf(head));
        if entries.last().key@ == key {
            assert forall|i: int| 0 <= i < head.len() implies (#[trigger] head[i].key@) != key by {
                assert(entries[i] == head[i]);
            }
            lemma_key_count_zero(head, key);
        } else {
            lemma_wf_key_count_le_one(head, key);
        }
    }
}

/// Dropping stale entries changes nothing when none is stale.
pub proof fn lemma_drop_stale_keeps_all(entries: Seq<InstanceRecord>, key: Seq<char>, now: u64)
    requires
        forall|i: int| 0 <= i < entries.len() ==> !spec_stale(#[trigger] entries[i], key, now),
    ensures
        spec_drop_stale(entries, key, now) == entries,
    decreases entries.len(),
{
    reveal(Seq::filter);
    if entries.len() > 0 {
        let head = entries.drop_last();
        assert(forall|i: int|
            0 <= i < head.len() ==> !spec_stale(#[trigger] head[i], key, now) && head[i]
                == entries[i]);
        lemma_drop_stale_keeps_all(head, key, now);
        assert(spec_drop_stale(entries, key, now) =~= entries);
    }
}

/// Dropping stale entries removes exactly the one stale entry when it is
/// the only one.
pub proof fn lemma_drop_stale_removes(
    entries: Seq<InstanceRecord>,
    key: Seq<char>,
    now: u64,
    i: int,
)
    requires
        0 <= i < entries.len(),
        spec_stale(entries[i], key, now),
        forall|j: int|
            0 <= j < entries.len() && j != i ==> !spec_stale(#[trigger] entries[j], key, now),
    ensures
        spec_drop_stale(entries, key, now) == entries.remove(i),
    decreases entries.len(),
{
    reveal(Seq::filter);
    let head = entries.drop_last();
    if i == entries.len() - 1 {
        assert(forall|j: int|
            0 <= j < head.len() ==> !spec_stale(#[trigger] head[j], key, now) && head[j]
                == entries[j]);
        lemma_drop_stale_keeps_all(head, key, now);
        assert(spec_drop_stale(entries, key, now) =~= entries.remove(i));
    } else {
        assert(head[i] == entries[i]);
        assert(forall|j: int|
            0 <= j < head.len() && j != i ==> head[j] == entries[j] && !spec_stale(
                #[trigger] head[j],
                key,
                now,
            ));
        lemma_drop_stale_removes(head, key, now, i);
        assert(spec_drop_stale(entries, key, now) =~= entries.remove(i));
    }
}

/// Under well-formedness a conditional insert keeps the cache
/// well-formed, and the base it appends to holds no entry for the key.
pub proof fn lemma_put_preserves_wf(entries: Seq<InstanceRecord>, rec: InstanceRecord, now: u64)
    requires
        spec_cache_wf(entries),
    ensures
        spec_cache_wf(spec_put_if_absent(entries, rec, now)),
{
    let key = rec.key@;
    if !spec_has_live(entries, key, now) {
        let base = spec_drop_stale(entries, key, now);
        lemma_drop_stale_shape(entries, rec, now);
        let out = base.push(rec);
        assert forall|p: int, q: int| 0 <= p < q < out.len() implies (#[trigger] out[p].key@) != (
        #[trigger] out[q].key@) by {}
    }
}

/// The base of a fresh insert: dropping the key's stale entry leaves a
/// well-formed cache with no entry for the key at all.
pub proof fn lemma_drop_stale_shape(entries: Seq<InstanceRecord>, rec: InstanceRecord, now: u64)
    requires
        spec_cache_wf(entries),
        !spec_has_live(entries, rec.key@, now),
    ensures
        spec_cache_wf(spec_drop_stale(entries, rec.key@, now)),
        forall|k: int|
            0 <= k < spec_drop_stale(entries, rec.key@, now).len() ==> (#[trigger] spec_drop_stale(
                entries,
                rec.key@,
                now,
            )[k].key@) != rec.key@,
{
    let key = rec.key@;
    if exists|i: int| 0 <= i < entries.len() && (#[trigger] entries[i].key@) == key {
        let i = choose|i: int| 0 <= i < entries.len() && (#[trigger] entries[i].key@) == key;
        assert(spec_stale(entries[i], key, now));
        assert forall|j: int|
            0 <= j < entries.len() && j != i implies !spec_stale(
            #[trigger] entries[j],
            key,
            now,
        ) by {
            if j < i {
                assert(entries[j].key@ != entries[i].key@);
            } else {
                assert(entries[i].key@ != entries[j].key@);
            }
        }
        lemma_drop_stale_removes(entries, key, now, i);
        let base = entries.remove(i);
        assert forall|k: int| 0 <= k < base.len() implies (#[trigger] base[k].key@) != key by {
            if k < i {
                assert(base[k] == entries[k]);
            } else {
                assert(base[k] == entries[k + 1]);
            }
        }
        assert forall|p: int, q: int| 0 <= p < q < base.len() implies (#[trigger] base[p].key@)
            != (#[trigger] base[q].key@) by {
            let porig: int = if p < i {
                p
            } else {
                p + 1
            };
            let qorig: int = if q < i {
                q
            } else {
                q + 1
            };
            assert(base[p] == entries[porig]);
            assert(base[q] == entries[qorig]);
        }
    } else {
        assert(forall|j: int| 0 <= j < entries.len() ==> !spec_stale(#[trigger] entries[j], key, now));
        lemma_drop_stale_keeps_all(entries, key, now);
    }
}

/// After a conditional insert the cache holds exactly one entry for the
/// key: the live one that blocked the insert, or the fresh one.
pub proof fn lemma_put_count_one(entries: Seq<InstanceRecord>, rec: InstanceRecord, now: u64)
    requires
        spec_cache_wf(entries),
    ensures
        spec_count_key(spec_put_if_absent(entries, rec, now), rec.key@) == 1,
{
    let key = rec.key@;
    let out = spec_put_if_absent(entries, rec, now);
    if spec_has_live(entries, key, now) {
        let i = choose|i: int| 0 <= i < entries.len() && spec_live(#[trigger] entries[i], key, now);
        lemma_key_count_pos(entries, key, i);
        lemma_wf_key_count_le_one(entries, key);
    } else {
        lemma_drop_stale_shape(entries, rec, now);
        let base = spec_drop_stale(entries, key, now);
        assert(out.drop_last() =~= base);
        lemma_key_count_zero(base, key);
    }
}

/// At-most-one live address: two invocations race on a key nothing live
/// holds; the first announcement stands, and the second, made before the
/// first expires, is a no-op. Exactly one entry for the key remains.
pub proof fn lemma_at_most_one_address(
    entries: Seq<InstanceRecord>,
    winner: InstanceRecord,
    loser: InstanceRecord,
    now1: u64,
    now2: u64,
)
    requires
        spec_cache_wf(entries),
        winner.key@ == loser.key@,
        !spec_has_live(entries, winner.key@, now1),
        winner.expires_at > now2,
    ensures
        spec_put_if_absent(spec_put_if_absent(entries, winner, now1), loser, now2)
            == spec_put_if_absent(entries, winner, now1),
        spec_count_key(
            spec_put_if_absent(spec_put_if_absent(entries, winner, now1), loser, now2),
            winner.key@,
        ) == 1,
{
    let once = spec_put_if_absent(entries, winner, now1);
    assert(once.last() == winner);
    assert(spec_live(once[once.len() - 1], loser.key@, now2));
    lemma_put_count_one(entries, winner, now1);
}

/// The entry a key resolves to: the first one holding it, scanning from
/// the front; in a well-formed cache there is at most one anyway.
pub open spec fn spec_lookup(entries: Seq<InstanceRecord>, key: Seq<char>) -> Option<InstanceRecord>
    decreases entries.len(),
{
    if entries.len() == 0 {
        None
    } else if entries.first().key@ == key {
        Some(entries.first())
    } else {
        spec_lookup(entries.drop_first(), key)
    }
}

pub proof fn lemma_lookup_appended(entries: Seq<InstanceRecord>, rec: InstanceRecord)
    requires
        forall|i: int| 0 <= i < entries.len() ==> (#[trigger] entries[i].key@) != rec.key@,
    ensures
        spec_lookup(entries.push(rec), rec.key@) == Some(rec),
    decreases entries.len(),
{
    if entries.len() == 0 {
        assert(entries.push(rec).first() == rec);
    } else {
        assert(entries.push(rec).drop_first() =~= entries.drop_first().push(rec));
        lemma_lookup_appended(entries.drop_first(), rec);
    }
}

/// The winner's address survives: after the race of the previous lemma
/// the key resolves to the first writer's record; the loser's value is
/// nowhere in the cache.
pub proof fn lemma_winner_address(
    entries: Seq<InstanceRecord>,
    winner: InstanceRecord,
    loser: InstanceRecord,
    now1: u64,
    now2: u64,
)
    requires
        spec_cache_wf(entries),
        winner.key@ == loser.key@,
        !spec_has_live(entries, winner.key@, now1),
        winner.expires_at > now2,
    ensures
        spec_lookup(
            spec_put_if_absent(spec_put_if_absent(entries, winner, now1), loser, now2),
            winner.key@,
        ) == Some(winner),
{
    lemma_at_most_one_address(entries, winner, loser, now1, now2);
    lemma_drop_stale_shape(entries, winner, now1);
    lemma_lookup_appended(spec_drop_stale(entries, winner.key@, now1), winner);
}

/// The cache itself. The backing store expires entries on its own; this
/// model keeps the expiry instant and treats an expired entry as absent,
/// for reads and for conditional inserts alike.
pub struct InstanceCache {
    entries: Vec<InstanceRecord>,
}

impl View for InstanceCache {
    type V = Seq<InstanceRecord>;

    closed spec fn view(&self) -> Seq<InstanceRecord> {
        self.entries@
    }
}

impl InstanceCache {
    pub open spec fn wf(&self) -> bool {
        spec_cache_wf(self@)
    }

    /// An empty cache.
    pub fn new() -> (r: InstanceCache)
        ensures
            r.wf(),
            r@.len() == 0,
    {
        InstanceCache { entries: Vec::new() }
    }

    fn find_index(&self, key: &str) -> (r: Option<usize>)
        ensures
            match r {
                Some(i) => i < self@.len() && self@[i as int].key@ == key@,
                None => forall|i: int| 0 <= i < self@.len() ==> (#[trigger] self@[i].key@) != key@,
            },
    {
        let n: usize = self.entries.len();
        let mut i: usize = 0;
        while i < n
            invariant
                i <= n,
                n == self@.len(),
                forall|k: int| 0 <= k < i ==> (#[trigger] self@[k].key@) != key@,
            decreases n - i,
        {
            if str_eq(self.entries[i].key.as_str(), key) {
                return Some(i);
            }
            i = i + 1;
        }
        None
    }

    /// The live address for a key, if one is cached. An entry that has
    /// expired is dropped and reported as absent, as the backing store
    /// would have expired it; everything else stays exactly as it was.
    pub fn get_function(&mut self, key: &str, now: u64) -> (r: Option<String>)
        requires
            old(self).wf(),
        ensures
            final(self).wf(),
            final(self)@ == spec_drop_stale(old(self)@, key@, now),
            match r {
                Some(addr) => exists|i: int|
                    0 <= i < old(self)@.len() && spec_live(#[trigger] old(self)@[i], key@, now)
                        && old(self)@[i].addr@ == addr@,
                None => !spec_has_live(old(self)@, key@, now),
            },
    {
        let ghost before = self@;
        match self.find_index(key) {
            Some(i) => {
                if self.entries[i].expires_at > now {
                    let addr = self.entries[i].addr.clone();
                    proof {
                        assert forall|k: int|
                            0 <= k < before.len() implies !spec_stale(
                            #[trigger] before[k],
                            key@,
                            now,
                        ) by {
                            if k != i {
                                assert(before[i as int].key@ != before[k].key@);
                            }
                        }
                        lemma_drop_stale_keeps_all(before, key@, now);
                    }
                    Some(addr)
                } else {
                    self.entries.remove(i);
                    proof {
                        assert forall|k: int|
                            0 <= k < before.len() && k != i implies !spec_stale(
                            #[trigger] before[k],
                            key@,
                            now,
                        ) by {
                            if k < i {
                                assert(before[k].key@ != before[i as int].key@);
                            } else {
                                assert(before[i as int].key@ != before[k].key@);
                            }
                        }
                        lemma_drop_stale_removes(before, key@, now, i as int);
                        assert forall|p: int, q: int|
                            0 <= p < q < self@.len() implies (#[trigger] self@[p].key@) != (
                        #[trigger] self@[q].key@) by {
                            let porig: int = if p < i {
                                p
                            } else {
                                p + 1
                            };
                            let qorig: int = if q < i {
                                q
                            } else {
                                q + 1
                            };
                            assert(self@[p] == before[porig]);
                            assert(self@[q] == before[qorig]);
                        }
                        assert forall|k: int|
                            0 <= k < before.len() && (#[trigger] before[k]).key@ == key@ implies
                        !spec_live(before[k], key@, now) by {
                            if k != i {
                                assert(before[i as int].key@ != before[k].key@);
                            }
                        }
                    }
                    None
                }
            },
            None => {
                proof {
                    lemma_drop_stale_keeps_all(before, key@, now);
                }
                None
            },
        }
    }

    /// Announce an instance: unless a live entry already holds the key,
    /// the entry stands and lives `ttl_seconds` from now, writing over an
    /// expired one. Reports whether this caller won; a loser's value is
    /// discarded, never overwritten.
    pub fn add_function(&mut self, function: FunctionAddr, now: u64, ttl_seconds: u64) -> (won:
        bool)
        requires
            old(self).wf(),
            now + ttl_seconds <= u64::MAX,
        ensures
            final(self).wf(),
            final(self)@ == spec_put_if_absent(
                old(self)@,
                (InstanceRecord {
                    key: function.name,
                    addr: function.addr,
                    expires_at: (now + ttl_seconds) as u64,
                }),
                now,
            ),
            won == !spec_has_live(old(self)@, function.name@, now),
            spec_count_key(final(self)@, function.name@) == 1,
    {
        let rec = InstanceRecord {
            key: function.name,
            addr: function.addr,
            expires_at: now + ttl_seconds,
        };
        let ghost before = self@;
        proof {
            lemma_put_preserves_wf(before, rec, now);
            lemma_put_count_one(before, rec, now);
        }
        match self.find_index(rec.key.as_str()) {
            Some(i) => {
                if self.entries[i].expires_at > now {
                    proof {
                        assert(spec_live(before[i as int], rec.key@, now));
                    }
                    false
                } else {
                    // the only entry for the key has expired: write over it
                    proof {
                        assert forall|k: int|
                            0 <= k < before.len() && (#[trigger] before[k]).key@ == rec.key@
                            implies !spec_live(before[k], rec.key@, now) by {
                            if k != i {
                                assert(before[i as int].key@ != before[k].key@);
                            }
                        }
                        assert forall|k: int|
                            0 <= k < before.len() && k != i implies !spec_stale(
                            #[trigger] before[k],
                            rec.key@,
                            now,
                        ) by {
                            if k < i {
                                assert(before[k].key@ != before[i as int].key@);
                            } else {
                                assert(before[i as int].key@ != before[k].key@);
                            }
                        }
                        lemma_drop_stale_removes(before, rec.key@, now, i as int);
                    }
                    self.entries.remove(i);
                    self.entries.push(rec);
                    true
                }
            },
            None => {
                proof {
                    lemma_drop_stale_keeps_all(before, rec.key@, now);
                }
                self.entries.push(rec);
                true
            },
        }
    }
}

} // verus!
