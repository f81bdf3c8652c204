//! The in-memory side of the per-account match cache: a deduplicated,
//! validated collection of match records keyed by match id.
//!
//! Validity is enforced when a record enters the cache — at `insert`, in the
//! order dedup, remake filter, patch filter — and when a persisted set is
//! re-read (`from_entries`), which re-validates every stored record against
//! the split current at load time.  `save` consumes the cache and exports the
//! records sorted by game-creation time, most recent first.  Reading and
//! writing the backing file is the caller's business; the cache deals in
//! plain values.

use vstd::prelude::*;

verus! {

use vstd::multiset::Multiset;

use crate::models::matches::{MatchId, MatchInfo};
use crate::split::Split;
use crate::text::str_eq_str;

/// Why an insertion was refused.
#[derive(Debug, Clone, Copy, PartialEq, Eq, Structural)]
pub enum CacheInsertError {
    /// The match id is already cached; the record is unchanged.
    AlreadyExists,
    /// The record is an aborted game, invalid for statistics.
    Remake,
    /// The record's patch does not belong to the current split.
    PatchMismatch,
}

/// Whether `save` should also be persisted to disk by the caller.
#[derive(Debug, Clone, Copy, PartialEq, Eq, Structural)]
pub enum CacheSaveOptions {
    Save,
    DontSave,
}

impl CacheSaveOptions {
    /// `true` becomes `Save`.
    pub fn from_bool(save: bool) -> (r: CacheSaveOptions)
        ensures
            (r == CacheSaveOptions::Save) == save,
    {
        if save {
            CacheSaveOptions::Save
        } else {
            CacheSaveOptions::DontSave
        }
    }

    /// Whether this option asks for persistence.
    pub fn should_save(&self) -> (r: bool)
        ensures
            r == (*self == CacheSaveOptions::Save),
    {
        match self {
            CacheSaveOptions::Save => true,
            CacheSaveOptions::DontSave => false,
        }
    }
}

/// A record the cache accepts under split `s`: not a remake, and from a
/// patch of that split.
pub open spec fn valid_record(m: MatchInfo, s: Split) -> bool {
    &&& !m.spec_is_remake()
    &&& m.spec_in_split(s)
}

/// No two entries share a match id.
pub open spec fn unique_keys(es: Seq<(MatchId, MatchInfo)>) -> bool {
    forall|i: int, j: int|
        0 <= i < j < es.len() ==> (#[trigger] es[i]).0@ != (#[trigger] es[j]).0@
}

/// Some entry carries the given match id.
pub open spec fn has_key(es: Seq<(MatchId, MatchInfo)>, k: Seq<char>) -> bool {
    exists|i: int| 0 <= i < es.len() && (#[trigger] es[i]).0@ == k
}

/// Every entry's record is valid under split `s`.
pub open spec fn all_valid(es: Seq<(MatchId, MatchInfo)>, s: Split) -> bool {
    forall|i: int| 0 <= i < es.len() ==> valid_record((#[trigger] es[i]).1, s)
}

/// What re-reading a persisted entry sequence keeps: entries are taken in
/// order, dropping any whose record is no longer valid under the current
/// split and any whose key was already taken.
pub open spec fn spec_load(es: Seq<(MatchId, MatchInfo)>, s: Split) -> Seq<(MatchId, MatchInfo)>
    decreases es.len(),
{
    if es.len() == 0 {
        Seq::empty()
    } else {
        let prefix = spec_load(es.drop_last(), s);
        let e = es.last();
        if valid_record(e.1, s) && !has_key(prefix, e.0@) {
            prefix.push(e)
        } else {
            prefix
        }
    }
}

/// What one offered record does to the cache's entries, and what the
/// caller is told: the dedup check first, then the remake filter, then the
/// patch filter, and only then the insertion.
pub open spec fn spec_insert_outcome(
    es: Seq<(MatchId, MatchInfo)>,
    s: Split,
    match_id: MatchId,
    info: MatchInfo,
) -> (Seq<(MatchId, MatchInfo)>, Result<(), CacheInsertError>) {
    if has_key(es, match_id@) {
        (es, Result::Err(CacheInsertError::AlreadyExists))
    } else if info.spec_is_remake() {
        (es, Result::Err(CacheInsertError::Remake))
    } else if !info.spec_in_split(s) {
        (es, Result::Err(CacheInsertError::PatchMismatch))
    } else {
        (es.push((match_id, info)), Result::Ok(()))
    }
}

/// What offering the records of one fetched page does to the cache's
/// entries, in order, and whether it halts the backfill: a record already
/// cached or recognized as a remake is skipped, a valid one is appended, and
/// the first record from a stale split stops the page with the halt flag.
pub open spec fn spec_ingest_outcome(
    es: Seq<(MatchId, MatchInfo)>,
    rs: Seq<MatchInfo>,
    s: Split,
) -> (Seq<(MatchId, MatchInfo)>, bool)
    decreases rs.len(),
{
    if rs.len() == 0 {
        (es, false)
    } else {
        let m = rs[0];
        if has_key(es, m.id@) || m.spec_is_remake() {
            spec_ingest_outcome(es, rs.skip(1), s)
        } else if !m.spec_in_split(s) {
            (es, true)
        } else {
            spec_ingest_outcome(es.push((m.id, m)), rs.skip(1), s)
        }
    }
}

/// Exported records in non-increasing order of game-creation time.
pub open spec fn sorted_by_creation_desc(s: Seq<MatchInfo>) -> bool {
    forall|i: int, j: int|
        0 <= i < j < s.len() ==> (#[trigger] s[i]).info.game_creation
            >= (#[trigger] s[j]).info.game_creation
}

/// The records of an entry sequence, keys stripped.
pub open spec fn records_of(es: Seq<(MatchId, MatchInfo)>) -> Seq<MatchInfo> {
    es.map_values(|e: (MatchId, MatchInfo)| e.1)
}

/// The deduplicated, validated store of match records for one account.
pub struct Cache {
    entries: Vec<(MatchId, MatchInfo)>,
    current_split: Split,
}

impl Cache {
    /// The cached entries, in insertion order.
    pub closed spec fn spec_entries(self) -> Seq<(MatchId, MatchInfo)> {
        self.entries@
    }

    /// The split the cache validates against, fixed for its lifetime.
    pub closed spec fn spec_split(self) -> Split {
        self.current_split
    }

    /// Cache invariant: unique match ids, every record valid under the
    /// cache's split.
    pub open spec fn wf(self) -> bool {
        &&& unique_keys(self.spec_entries())
        &&& all_valid(self.spec_entries(), self.spec_split())
    }

    /// An empty cache validating against `current_split`.
    pub fn new(current_split: Split) -> (r: Cache)
        ensures
            r.wf(),
            r.spec_entries() == Seq::<(MatchId, MatchInfo)>::empty(),
            r.spec_split() == current_split,
    {
        Cache { entries: Vec::new(), current_split }
    }

    /// Rebuilds a cache from a persisted entry sequence, re-validating every
    /// record against the split current now: stale-split and remake records
    /// are dropped, as is any duplicate key.
    pub fn from_entries(entries: Vec<(MatchId, MatchInfo)>, current_split: Split) -> (r: Cache)
        ensures
            r.wf(),
            r.spec_entries() == spec_load(entries@, current_split),
            r.spec_split() == current_split,
    {
        let mut cache = Cache::new(current_split);
        let mut rest = entries;
        let ghost all = rest@;
        let ghost mut i: int = 0;
        proof {
            assert(all.subrange(0, 0) =~= Seq::<(MatchId, MatchInfo)>::empty());
            assert(rest@ =~= all.skip(0));
        }
        while rest.len() > 0
            invariant
                0 <= i <= all.len(),
                rest@ == all.skip(i),
                cache.wf(),
                cache.spec_split() == current_split,
                cache.spec_entries() == spec_load(all.subrange(0, i), current_split),
            decreases rest@.len(),
        {
            let ghost prefix = all.subrange(0, i);
            let ghost extended = all.subrange(0, i + 1);
            let e = rest.remove(0);
            proof {
                assert(e == all[i]);
                assert(extended.drop_last() =~= prefix);
                assert(extended.last() == all[i]);
                assert(rest@ =~= all.skip(i + 1));
            }
            let (id, rec) = e;
            match cache.insert(id, rec) {
                Ok(()) => {},
                Err(_) => {},
            }
            proof {
                i = i + 1;
            }
        }
        proof {
            assert(all.subrange(0, all.len() as int) =~= all);
        }
        cache
    }

    /// Rebuilds a cache from the outcome of deserializing a persisted file.
    /// A file that could not be parsed (`None`) yields an empty cache bound
    /// to the current split, never an error; its content will simply be
    /// overwritten by the next save.
    pub fn from_parsed(parsed: Option<Vec<(MatchId, MatchInfo)>>, current_split: Split) -> (r:
        Cache)
        ensures
            r.wf(),
            r.spec_split() == current_split,
            match parsed {
                Option::Some(es) => r.spec_entries() == spec_load(es@, current_split),
                Option::None => r.spec_entries() == Seq::<(MatchId, MatchInfo)>::empty(),
            },
    {
        match parsed {
            Some(entries) => Cache::from_entries(entries, current_split),
            None => Cache::new(current_split),
        }
    }

    /// Offers a record to the cache.  Validation order, short-circuiting:
    /// a known id is `AlreadyExists`; then an aborted game is `Remake`
    /// whatever its patch; then a record from another (or no) split is
    /// `PatchMismatch`; everything else is accepted and stored.
    pub fn insert(&mut self, match_id: MatchId, info: MatchInfo) -> (r: Result<
        (),
        CacheInsertError,
    >)
        requires
            old(self).wf(),
        ensures
            final(self).wf(),
            final(self).spec_split() == old(self).spec_split(),
            (final(self).spec_entries(), r) == spec_insert_outcome(
                old(self).spec_entries(),
                old(self).spec_split(),
                match_id,
                info,
            ),
            match r {
                Ok(()) => {
                    &&& !has_key(old(self).spec_entries(), match_id@)
                    &&& !info.spec_is_remake()
                    &&& info.spec_in_split(old(self).spec_split())
                    &&& final(self).spec_entries() == old(self).spec_entries().push(
                        (match_id, info),
                    )
                },
                Err(CacheInsertError::AlreadyExists) => {
                    &&& has_key(old(self).spec_entries(), match_id@)
                    &&& *final(self) == *old(self)
                },
                Err(CacheInsertError::Remake) => {
                    &&& !has_key(old(self).spec_entries(), match_id@)
                    &&& info.spec_is_remake()
                    &&& *final(self) == *old(self)
                },
                Err(CacheInsertError::PatchMismatch) => {
                    &&& !has_key(old(self).spec_entries(), match_id@)
                    &&& !info.spec_is_remake()
                    &&& !info.spec_in_split(old(self).spec_split())
                    &&& *final(self) == *old(self)
                },
            },
    {
        if self.contains(&match_id) {
            return Err(CacheInsertError::AlreadyExists);
        }
        if info.is_remake() {
            return Err(CacheInsertError::Remake);
        }
        if !info.is_current_split(self.current_split) {
            return Err(CacheInsertError::PatchMismatch);
        }
        self.entries.push((match_id, info));
        proof {
            let es = old(self).spec_entries();
            let extended = self.spec_entries();
            assert(forall|i: int|
                0 <= i < es.len() ==> (#[trigger] extended[i]) == es[i]);
        }
        Ok(())
    }

    /// Membership test on match ids.
    pub fn contains(&self, match_id: &MatchId) -> (r: bool)
        ensures
            r == has_key(self.spec_entries(), match_id@),
    {
        let n = self.entries.len();
        let mut i: usize = 0;
        while i < n
            invariant
                0 <= i <= n,
                n == self.entries@.len(),
                forall|j: int| 0 <= j < i ==> (#[trigger] self.entries@[j]).0@ != match_id@,
            decreases n - i,
        {
            if str_eq_str(self.entries[i].0.as_str(), match_id.as_str()) {
                return true;
            }
            i += 1;
        }
        false
    }

    /// Number of cached records.
    pub fn len(&self) -> (r: usize)
        ensures
            r == self.spec_entries().len(),
    {
        self.entries.len()
    }

    /// Whether the cache holds no record.
    pub fn is_empty(&self) -> (r: bool)
        ensures
            r == (self.spec_entries().len() == 0),
    {
        self.entries.len() == 0
    }

    /// Borrows the entries for persistence by the caller.
    pub fn entries(&self) -> (r: &Vec<(MatchId, MatchInfo)>)
        ensures
            r@ == self.spec_entries(),
    {
        &self.entries
    }

    /// Consumes the cache and exports all records, sorted by game-creation
    /// timestamp, most recent first.  Ties keep no particular order.
    pub fn save(self) -> (r: Vec<MatchInfo>)
        ensures
            sorted_by_creation_desc(r@),
            r@.to_multiset() == records_of(self.spec_entries()).to_multiset(),
    {
        broadcast use vstd::seq_lib::group_to_multiset_ensures;

        let ghost original = records_of(self.spec_entries());
        let mut rest = self.entries;
        let mut out: Vec<MatchInfo> = Vec::new();
        while rest.len() > 0
            invariant
                sorted_by_creation_desc(out@),
                out@.to_multiset().add(records_of(rest@).to_multiset()) =~= original.to_multiset(),
            decreases rest@.len(),
        {
            let ghost before = rest@;
            let ghost prior_out = out@;
            let e = rest.pop().unwrap();
            insert_sorted(&mut out, e.1);
            proof {
                let x = before.last().1;
                assert(records_of(before.drop_last()).push(x) =~= records_of(before));
                vstd::seq_lib::to_multiset_build(records_of(before.drop_last()), x);
                assert(records_of(before).to_multiset() =~= records_of(
                    before.drop_last(),
                ).to_multiset().insert(x));
                assert(out@.to_multiset().add(records_of(rest@).to_multiset())
                    =~= prior_out.to_multiset().add(records_of(before).to_multiset()));
            }
        }
        proof {
            assert(records_of(rest@).to_multiset() =~= Multiset::<MatchInfo>::empty());
            assert(out@.to_multiset() =~= original.to_multiset());
        }
        out
    }
}

/// Law: inserting the same match id twice always rejects the second offer
/// with `AlreadyExists` and changes nothing, whatever record comes with it:
/// the cached record stays as it was first accepted.
pub proof fn lemma_insert_idempotent(
    es: Seq<(MatchId, MatchInfo)>,
    s: Split,
    id: MatchId,
    rec: MatchInfo,
    id2: MatchId,
    rec2: MatchInfo,
)
    requires
        id2@ == id@,
        spec_insert_outcome(es, s, id, rec).1 == Result::<(), CacheInsertError>::Ok(()),
    ensures
        ({
            let es1 = spec_insert_outcome(es, s, id, rec).0;
            spec_insert_outcome(es1, s, id2, rec2) == (
                es1,
                Result::<(), CacheInsertError>::Err(CacheInsertError::AlreadyExists),
            )
        }),
{
    let es1 = spec_insert_outcome(es, s, id, rec).0;
    assert(es1[es.len() as int].0@ == id@);
    assert(has_key(es1, id2@));
}

/// Law: a record with a game duration under the remake cutoff is always
/// rejected with `Remake`, regardless of its patch.
pub proof fn lemma_remake_rejected_regardless_of_patch(
    es: Seq<(MatchId, MatchInfo)>,
    s: Split,
    id: MatchId,
    rec: MatchInfo,
)
    requires
        !has_key(es, id@),
        rec.spec_is_remake(),
    ensures
        spec_insert_outcome(es, s, id, rec) == (
            es,
            Result::<(), CacheInsertError>::Err(CacheInsertError::Remake),
        ),
{
}

/// Law: a non-remake record from a prior (or no) split is rejected with
/// `PatchMismatch`; together with the previous law, the remake check wins
/// over the patch check.
pub proof fn lemma_stale_split_is_patch_mismatch(
    es: Seq<(MatchId, MatchInfo)>,
    s: Split,
    id: MatchId,
    rec: MatchInfo,
)
    requires
        !has_key(es, id@),
        !rec.spec_is_remake(),
        !rec.spec_in_split(s),
    ensures
        spec_insert_outcome(es, s, id, rec) == (
            es,
            Result::<(), CacheInsertError>::Err(CacheInsertError::PatchMismatch),
        ),
{
}

/// Law: re-reading a persisted entry sequence whose records are all still
/// valid under the current split, and whose keys are unique, reproduces it
/// exactly — the save/load round trip is the identity as long as the split
/// has not moved on, in whatever order the entries come back from disk.
pub proof fn lemma_load_preserves_valid_unique(es: Seq<(MatchId, MatchInfo)>, s: Split)
    requires
        unique_keys(es),
        all_valid(es, s),
    ensures
        spec_load(es, s) == es,
    decreases es.len(),
{
    if es.len() > 0 {
        let front = es.drop_last();
        assert(forall|i: int| 0 <= i < front.len() ==> #[trigger] front[i] == es[i]);
        lemma_load_preserves_valid_unique(front, s);
        let e = es.last();
        assert(!has_key(front, e.0@)) by {
            if has_key(front, e.0@) {
                let i = choose|i: int| 0 <= i < front.len() && (#[trigger] front[i]).0@ == e.0@;
                assert(es[i].0@ == es[es.len() - 1].0@);
                assert(false);
            }
        }
        assert(front.push(e) =~= es);
    }
}

/// Law: a save/load round trip keeps a match id exactly when some persisted
/// entry carried it with a record that is still valid under the current
/// split — a record from a stale split or a remake is dropped on reload.
pub proof fn lemma_load_membership(es: Seq<(MatchId, MatchInfo)>, s: Split, k: Seq<char>)
    ensures
        has_key(spec_load(es, s), k) <==> exists|i: int|
            0 <= i < es.len() && (#[trigger] es[i]).0@ == k && valid_record(es[i].1, s),
    decreases es.len(),
{
    if es.len() > 0 {
        let front = es.drop_last();
        assert(forall|i: int| 0 <= i < front.len() ==> #[trigger] front[i] == es[i]);
        lemma_load_membership(front, s, k);
        let prefix = spec_load(front, s);
        let e = es.last();
        if valid_record(e.1, s) && !has_key(prefix, e.0@) {
            let r = prefix.push(e);
            if has_key(r, k) {
                let i = choose|i: int| 0 <= i < r.len() && (#[trigger] r[i]).0@ == k;
                if i < prefix.len() {
                    assert(r[i] == prefix[i]);
                    assert(has_key(prefix, k));
                } else {
                    assert(r[i] == e);
                    assert(es[es.len() - 1].0@ == k);
                }
            }
            if exists|i: int| 0 <= i < es.len() && (#[trigger] es[i]).0@ == k && valid_record(
                es[i].1,
                s,
            ) {
                let i = choose|i: int|
                    0 <= i < es.len() && (#[trigger] es[i]).0@ == k && valid_record(es[i].1, s);
                if i < es.len() - 1 {
                    assert(front[i] == es[i]);
                    assert(has_key(prefix, k));
                    let j = choose|j: int|
                        0 <= j < prefix.len() && (#[trigger] prefix[j]).0@ == k;
                    assert(r[j] == prefix[j]);
                    assert(has_key(r, k));
                } else {
                    assert(r[r.len() - 1] == e);
                    assert(has_key(r, k));
                }
            }
        } else {
            if has_key(prefix, k) {
                let j = choose|j: int| 0 <= j < prefix.len() && (#[trigger] prefix[j]).0@ == k;
                assert(has_key(spec_load(es, s), k));
            }
            if exists|i: int| 0 <= i < es.len() && (#[trigger] es[i]).0@ == k && valid_record(
                es[i].1,
                s,
            ) {
                let i = choose|i: int|
                    0 <= i < es.len() && (#[trigger] es[i]).0@ == k && valid_record(es[i].1, s);
                if i < es.len() - 1 {
                    assert(front[i] == es[i]);
                } else {
                    // The last entry itself: it was either invalid, or its
                    // key already sits in the prefix.
                    assert(valid_record(e.1, s) ==> has_key(prefix, e.0@));
                }
            }
        }
    }
}

/// Law: a well-formed cache, saved and freshly re-loaded under the same
/// split, reproduces exactly the same entries.
pub proof fn lemma_save_load_round_trip(c: Cache)
    requires
        c.wf(),
    ensures
        spec_load(c.spec_entries(), c.spec_split()) == c.spec_entries(),
{
    lemma_load_preserves_valid_unique(c.spec_entries(), c.spec_split());
}

/// Inserts a record into a vector sorted by creation time descending,
/// keeping it sorted.
fn insert_sorted(out: &mut Vec<MatchInfo>, rec: MatchInfo)
    requires
        sorted_by_creation_desc(old(out)@),
    ensures
        sorted_by_creation_desc(final(out)@),
        final(out)@.to_multiset() == old(out)@.to_multiset().insert(rec),
{
    broadcast use vstd::seq_lib::group_to_multiset_ensures;

    let n = out.len();
    let mut idx: usize = 0;
    while idx < n && out[idx].info.game_creation >= rec.info.game_creation
        invariant
            0 <= idx <= n,
            n == out@.len(),
            forall|j: int|
                0 <= j < idx ==> (#[trigger] out@[j]).info.game_creation
                    >= rec.info.game_creation,
        decreases n - idx,
    {
        idx += 1;
    }
    out.insert(idx, rec);
}

} // verus!
