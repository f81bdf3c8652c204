//! The decision core of the backfill: bulk historical ingestion of matches
//! into the cache, paginated against the provider's per-call cap.
//!
//! The caller owns the network loop; this module owns every decision in it:
//! which page to ask for next, how the records of a page enter the cache,
//! and when to stop — the target count is reached, a page comes back empty,
//! or a record from a stale split shows that older pages are not worth
//! fetching.

use vstd::prelude::*;

verus! {

use crate::cache::{spec_ingest_outcome, Cache, CacheInsertError};
use crate::models::matches::{MatchId, MatchInfo};

/// The provider's cap on match ids per request.
pub const MAX_MATCHES_PER_REQUEST: i32 = 100;

/// The provider's queue identifier of ranked solo games.
pub const RANKED_SOLO_QUEUE_ID: u16 = 420;

/// One page request against the provider's match-id endpoint.
#[derive(Debug, Clone, Copy, PartialEq, Eq, Structural)]
pub struct MatchCriteria {
    /// How many ids to ask for; at most `MAX_MATCHES_PER_REQUEST`.
    pub count: i32,
    /// Queue filter, by the provider's queue identifier.
    pub queue: Option<u16>,
    /// Offset into the account's match list.
    pub start_at: Option<i32>,
}

/// The paging state of one backfill session.
#[derive(Debug, Clone, Copy, PartialEq, Eq, Structural)]
pub struct Backfill {
    /// Offset of the next page.  Initialized from the cache size, which does
    /// not count remakes skipped in earlier sessions: the offset can drift
    /// against the provider's true list over many sessions.
    pub start_at: i32,
    /// How many more matches to ask for in all; `None` is unbounded.
    pub remaining: Option<i32>,
    /// Once set, no further page is requested.
    pub halted: bool,
}

impl Backfill {
    /// The paging state is sound: non-negative offset and target.
    pub open spec fn wf(self) -> bool {
        &&& self.start_at >= 0
        &&& match self.remaining {
            Option::Some(c) => c >= 0,
            Option::None => true,
        }
    }

    /// Nothing more will be requested: the session was halted, or the target
    /// count is used up.
    pub open spec fn spec_done(self) -> bool {
        self.halted || self.remaining == Option::Some(0i32)
    }

    /// A fresh session: the offset starts at the number of records already
    /// cached, the target is the caller's match count (`None` = unbounded).
    pub fn new(cache_len: usize, target: Option<i32>) -> (r: Backfill)
        requires
            cache_len <= i32::MAX,
            match target {
                Option::Some(c) => c >= 0,
                Option::None => true,
            },
        ensures
            r.wf(),
            r.start_at == cache_len,
            r.remaining == target,
            !r.halted,
    {
        Backfill { start_at: cache_len as i32, remaining: target, halted: false }
    }

    /// The next page request, if any is owed: its size is the remaining
    /// target capped by the provider's limit, its offset the current one.
    /// The target and the offset advance by the size requested — not by the
    /// number of records later accepted.  Once the session is done, every
    /// further call returns `None` and changes nothing.
    pub fn next_request(&mut self) -> (r: Option<MatchCriteria>)
        requires
            old(self).wf(),
            old(self).start_at + MAX_MATCHES_PER_REQUEST <= i32::MAX,
        ensures
            final(self).wf(),
            final(self).halted == old(self).halted,
            old(self).spec_done() ==> r is None && *final(self) == *old(self),
            !old(self).spec_done() ==> match r {
                Option::Some(q) => {
                    &&& q.count == match old(self).remaining {
                        Option::Some(c) => if c < MAX_MATCHES_PER_REQUEST {
                            c as int
                        } else {
                            MAX_MATCHES_PER_REQUEST as int
                        },
                        Option::None => MAX_MATCHES_PER_REQUEST as int,
                    }
                    &&& q.queue == Option::Some(RANKED_SOLO_QUEUE_ID)
                    &&& q.start_at == Option::Some(old(self).start_at)
                    &&& final(self).start_at == old(self).start_at + q.count
                    &&& final(self).remaining == match old(self).remaining {
                        Option::Some(c) => Option::Some((c - q.count) as i32),
                        Option::None => Option::<i32>::None,
                    }
                },
                Option::None => false,
            },
    {
        if self.halted {
            return None;
        }
        let query: i32 = match self.remaining {
            Some(c) => {
                if c == 0 {
                    return None;
                }
                let q = if c < MAX_MATCHES_PER_REQUEST {
                    c
                } else {
                    MAX_MATCHES_PER_REQUEST
                };
                self.remaining = Some(c - q);
                q
            },
            None => MAX_MATCHES_PER_REQUEST,
        };
        let criteria = MatchCriteria {
            count: query,
            queue: Some(RANKED_SOLO_QUEUE_ID),
            start_at: Some(self.start_at),
        };
        self.start_at = self.start_at + query;
        Some(criteria)
    }

    /// Records how a fetched page went: an empty page means the account has
    /// no more matches, a stale-split record means older pages are not worth
    /// fetching; either ends the session.
    pub fn record_page(&mut self, page_was_empty: bool, ingest_halted: bool)
        ensures
            final(self).halted == (old(self).halted || page_was_empty || ingest_halted),
            final(self).start_at == old(self).start_at,
            final(self).remaining == old(self).remaining,
    {
        if page_was_empty || ingest_halted {
            self.halted = true;
        }
    }
}

/// Offers the records of one fetched page to the cache, in order.  A record
/// already cached or recognized as a remake is skipped; the first record
/// from a stale split stops the page and halts the backfill (`true`): all
/// older records would fail the same check.
pub fn ingest_page(cache: &mut Cache, records: Vec<MatchInfo>) -> (halted: bool)
    requires
        old(cache).wf(),
    ensures
        final(cache).wf(),
        final(cache).spec_split() == old(cache).spec_split(),
        ({
            let (es, h) = spec_ingest_outcome(
                old(cache).spec_entries(),
                records@,
                old(cache).spec_split(),
            );
            final(cache).spec_entries() == es && halted == h
        }),
{
    let ghost orig_es = cache.spec_entries();
    let ghost all = records@;
    let ghost s = cache.spec_split();
    let mut rest = records;
    while rest.len() > 0
        invariant
            cache.wf(),
            orig_es == old(cache).spec_entries(),
            all == records@,
            s == old(cache).spec_split(),
            cache.spec_split() == s,
            spec_ingest_outcome(orig_es, all, s) == spec_ingest_outcome(
                cache.spec_entries(),
                rest@,
                s,
            ),
        decreases rest@.len(),
    {
        let ghost before = rest@;
        let ghost es_before = cache.spec_entries();
        let m = rest.remove(0);
        proof {
            assert(m == before[0]);
            assert(rest@ =~= before.skip(1));
        }
        let id = m.id.clone();
        match cache.insert(id, m) {
            Ok(()) => {
                proof {
                    assert(spec_ingest_outcome(es_before, before, s) == spec_ingest_outcome(
                        es_before.push((m.id, m)),
                        before.skip(1),
                        s,
                    ));
                }
            },
            Err(CacheInsertError::AlreadyExists) => {
                proof {
                    assert(spec_ingest_outcome(es_before, before, s) == spec_ingest_outcome(
                        es_before,
                        before.skip(1),
                        s,
                    ));
                }
            },
            Err(CacheInsertError::Remake) => {
                proof {
                    assert(spec_ingest_outcome(es_before, before, s) == spec_ingest_outcome(
                        es_before,
                        before.skip(1),
                        s,
                    ));
                }
            },
            Err(CacheInsertError::PatchMismatch) => {
                proof {
                    assert(spec_ingest_outcome(es_before, before, s) == (es_before, true));
                }
                return true;
            },
        }
    }
    false
}

} // verus!
