use vstd::prelude::*;

use crate::identity::{is_spotify, is_target_id};

verus! {

/// How long, in milliseconds, a cached session may be handed out before it
/// must be looked up again.
pub const CACHE_TTL_MS: u64 = 3000;

/// A session handle that passed the identity check, and when it was acquired
/// (milliseconds on a monotonic clock).
pub struct CachedSession<H> {
    pub session: H,
    pub timestamp: u64,
}

/// The single cache slot: at most one session, and the time-to-live that
/// bounds how long it is handed out without a full lookup.
pub struct SessionCache<H> {
    pub entry: Option<CachedSession<H>>,
    pub ttl_ms: u64,
}

/// One session reported by the operating system, with its source application
/// identifier, or `None` where reading the identifier failed.
pub struct Candidate<H> {
    pub session: H,
    pub app_id: Option<String>,
}

/// What the caller of the cache has to do next to answer a session query.
#[derive(PartialEq, Eq, Structural, Clone, Copy, Debug)]
pub enum Action {
    /// Read the identifier of the cached session, and report it with
    /// `on_identity_checked`.
    CheckCached,
    /// List the active sessions, and report them with `on_sessions`.
    Enumerate,
    /// The cached session is the answer.
    UseCached,
    /// No matching session is active.
    NoSession,
}

/// Whether a candidate belongs to the player; one whose identifier could not
/// be read does not.
pub open spec fn candidate_matches<H>(c: Candidate<H>) -> bool {
    match c.app_id {
        Some(id) => is_target_id(id@),
        None => false,
    }
}

/// `i` is the position of the first matching candidate, in the order listed.
pub open spec fn is_first_match<H>(cs: Seq<Candidate<H>>, i: int) -> bool {
    0 <= i < cs.len() && candidate_matches(cs[i]) && forall|j: int|
        0 <= j < i ==> !candidate_matches(#[trigger] cs[j])
}

pub open spec fn has_match<H>(cs: Seq<Candidate<H>>) -> bool {
    exists|i: int| 0 <= i < cs.len() && candidate_matches(#[trigger] cs[i])
}

/// The first matching candidate's position, in the order listed.
pub open spec fn first_match<H>(cs: Seq<Candidate<H>>) -> Option<int> {
    if has_match(cs) {
        Some(choose|i: int| is_first_match(cs, i))
    } else {
        None
    }
}

/// Milliseconds since `e` was acquired; a clock reading before it counts as 0.
pub open spec fn age<H>(e: CachedSession<H>, now: u64) -> int {
    if now >= e.timestamp {
        now - e.timestamp
    } else {
        0
    }
}

impl<H> SessionCache<H> {
    /// The cache holds a session that is still inside its time-to-live.
    pub open spec fn is_fresh(self, now: u64) -> bool {
        match self.entry {
            Some(e) => age(e, now) < self.ttl_ms,
            None => false,
        }
    }

    pub open spec fn cleared(self) -> Self {
        SessionCache { entry: None, ttl_ms: self.ttl_ms }
    }

    /// First step of a query: a fresh entry is checked again, anything else
    /// is dropped and the sessions are listed.
    pub open spec fn begin_spec(self, now: u64) -> (Self, Action) {
        if self.is_fresh(now) {
            (self, Action::CheckCached)
        } else {
            (self.cleared(), Action::Enumerate)
        }
    }

    /// A cached session is handed out only while its identifier still
    /// matches; a failed or failing check clears the slot.
    pub open spec fn checked_spec(self, verdict: Option<bool>) -> (Self, Action) {
        if self.entry is Some && verdict == Some(true) {
            (self, Action::UseCached)
        } else {
            (self.cleared(), Action::Enumerate)
        }
    }

    /// The first matching session, in the order listed, is cached with the
    /// current time; with no match the slot stays empty.
    pub open spec fn listed_spec(self, now: u64, cs: Seq<Candidate<H>>) -> (Self, Action) {
        match first_match(cs) {
            Some(i) => (
                SessionCache {
                    entry: Some(CachedSession { session: cs[i].session, timestamp: now }),
                    ttl_ms: self.ttl_ms,
                },
                Action::UseCached,
            ),
            None => (self.cleared(), Action::NoSession),
        }
    }

    /// An empty cache with the given time-to-live.
    pub fn new(ttl_ms: u64) -> (r: Self)
        ensures
            r.entry is None,
            r.ttl_ms == ttl_ms,
    {
        SessionCache { entry: None, ttl_ms }
    }

    /// Whether the cached session, if any, is still inside its time-to-live
    /// at time `now`.
    pub fn is_fresh_at(&self, now: u64) -> (r: bool)
        ensures
            r == self.is_fresh(now),
    {
        match &self.entry {
            Some(e) => {
                let age: u64 = if now >= e.timestamp {
                    now - e.timestamp
                } else {
                    0
                };
                age < self.ttl_ms
            },
            None => false,
        }
    }

    /// Starts a query at time `now`.
    pub fn begin(&mut self, now: u64) -> (a: Action)
        ensures
            (*final(self), a) == old(self).begin_spec(now),
    {
        if self.is_fresh_at(now) {
            Action::CheckCached
        } else {
            self.entry = None;
            Action::Enumerate
        }
    }

    /// Takes the result of the identity check on the cached session:
    /// `Some(b)` where the identifier was read, `None` where reading failed.
    pub fn on_identity_checked(&mut self, verdict: Option<bool>) -> (a: Action)
        ensures
            (*final(self), a) == old(self).checked_spec(verdict),
    {
        if self.entry.is_some() && verdict == Some(true) {
            Action::UseCached
        } else {
            self.entry = None;
            Action::Enumerate
        }
    }

    /// Takes the sessions listed at time `now`, in the order the operating
    /// system gave them.
    pub fn on_sessions(&mut self, now: u64, candidates: Vec<Candidate<H>>) -> (a: Action)
        ensures
            (*final(self), a) == old(self).listed_spec(now, candidates@),
    {
        let mut candidates = candidates;
        match find_first_match(&candidates) {
            Some(i) => {
                let c = candidates.remove(i);
                self.entry = Some(CachedSession { session: c.session, timestamp: now });
                Action::UseCached
            },
            None => {
                self.entry = None;
                Action::NoSession
            },
        }
    }

    /// The cached session, if any.
    pub fn cached(&self) -> (r: Option<&H>)
        ensures
            r is Some == self.entry is Some,
            r is Some ==> *r->0 == self.entry->0.session,
    {
        match &self.entry {
            Some(e) => Some(&e.session),
            None => None,
        }
    }
}

/// Whether one candidate belongs to the player.
pub fn candidate_is_target<H>(c: &Candidate<H>) -> (r: bool)
    ensures
        r == candidate_matches(*c),
{
    match &c.app_id {
        Some(id) => is_spotify(id.as_str()),
        None => false,
    }
}

/// The position of the first candidate that belongs to the player; a
/// candidate whose identifier could not be read is skipped.
pub fn find_first_match<H>(cs: &Vec<Candidate<H>>) -> (r: Option<usize>)
    ensures
        r matches Some(i) ==> is_first_match(cs@, i as int) && first_match(cs@) == Some(i as int),
        r is None ==> !has_match(cs@) && first_match(cs@) is None,
{
    let mut i: usize = 0;
    while i < cs.len()
        invariant
            i <= cs@.len(),
            forall|j: int| 0 <= j < i ==> !candidate_matches(#[trigger] cs@[j]),
        decreases cs@.len() - i,
    {
        if candidate_is_target(&cs[i]) {
            proof {
                assert(is_first_match(cs@, i as int));
                assert(has_match(cs@));
                let k = choose|k: int| is_first_match(cs@, k);
                if k < i {
                    assert(!candidate_matches(cs@[k]));
                } else if k > i {
                    assert(!candidate_matches(cs@[i as int]));
                }
            }
            return Some(i);
        }
        i = i + 1;
    }
    None
}

/// The outcome of one query on `c` at time `now`: the cache afterwards and
/// the session handed out. `verdict` is the identity check of the cached
/// session, consulted only while that session is fresh; `listing` is what the
/// operating system lists, consulted only when the cache cannot answer.
pub open spec fn query<H>(
    c: SessionCache<H>,
    now: u64,
    verdict: Option<bool>,
    listing: Seq<Candidate<H>>,
) -> (SessionCache<H>, Option<H>) {
    let (c1, a1) = c.begin_spec(now);
    let (c2, a2) = if a1 == Action::CheckCached {
        c1.checked_spec(verdict)
    } else {
        (c1, a1)
    };
    let (c3, a3) = if a2 == Action::Enumerate {
        c2.listed_spec(now, listing)
    } else {
        (c2, a2)
    };
    (
        c3,
        if a3 == Action::UseCached {
            Some(c3.entry->0.session)
        } else {
            None
        },
    )
}

/// A run of queries at the times `nows`, the cached session passing its
/// identity check each time it is asked; `listings[i]` is what the operating
/// system would list for the `i`-th query. Gives the final cache and the
/// session handed out by each query.
pub open spec fn run_queries<H>(
    c: SessionCache<H>,
    nows: Seq<u64>,
    listings: Seq<Seq<Candidate<H>>>,
) -> (SessionCache<H>, Seq<Option<H>>)
    decreases nows.len(),
{
    if nows.len() == 0 || listings.len() == 0 {
        (c, Seq::empty())
    } else {
        let (c1, r) = query(c, nows[0], Some(true), listings[0]);
        let (cn, rs) = run_queries(c1, nows.drop_first(), listings.drop_first());
        (cn, seq![r] + rs)
    }
}

/// Cache coherence: within one time-to-live window, while the cached session
/// keeps passing its identity check, every query hands out that same session
/// and the cache stays as it was, whatever the operating system would list.
pub proof fn lemma_coherent_within_ttl<H>(
    c: SessionCache<H>,
    nows: Seq<u64>,
    listings: Seq<Seq<Candidate<H>>>,
)
    requires
        c.entry is Some,
        nows.len() == listings.len(),
        forall|i: int| 0 <= i < nows.len() ==> c.is_fresh(#[trigger] nows[i]),
    ensures
        run_queries(c, nows, listings).0 == c,
        run_queries(c, nows, listings).1.len() == nows.len(),
        forall|i: int|
            0 <= i < nows.len() ==> #[trigger] run_queries(c, nows, listings).1[i] == Some(
                c.entry->0.session,
            ),
    decreases nows.len(),
{
    if nows.len() > 0 {
        assert(c.is_fresh(nows[0]));
        let rest = nows.drop_first();
        assert forall|i: int| 0 <= i < rest.len() implies c.is_fresh(#[trigger] rest[i]) by {
            assert(rest[i] == nows[i + 1]);
        }
        lemma_coherent_within_ttl(c, rest, listings.drop_first());
        let rs = run_queries(c, rest, listings.drop_first()).1;
        assert forall|i: int|
            0 <= i < nows.len() implies #[trigger] run_queries(c, nows, listings).1[i] == Some(
            c.entry->0.session,
        ) by {
            if i > 0 {
                assert(run_queries(c, nows, listings).1[i] == rs[i - 1]);
            }
        }
    }
}

/// Invalidation: a query whose cached session is stale or fails its identity
/// check (its identifier no longer matches, or can no longer be read) lists
/// the sessions again. It hands out the first match of that listing, cached
/// at the current time, or nothing with the slot left empty; it never hands
/// out the old session unless the new listing yields it.
pub proof fn lemma_failed_check_refreshes<H>(
    c: SessionCache<H>,
    now: u64,
    verdict: Option<bool>,
    listing: Seq<Candidate<H>>,
)
    requires
        !(c.is_fresh(now) && verdict == Some(true)),
    ensures
        query(c, now, verdict, listing).0 == c.cleared().listed_spec(now, listing).0,
        query(c, now, verdict, listing).1 == (match first_match(listing) {
            Some(i) => Some(listing[i].session),
            None => None::<H>,
        }),
        query(c, now, verdict, listing).1 matches Some(h) ==> exists|i: int|
            is_first_match(listing, i) && h == #[trigger] listing[i].session,
        query(c, now, verdict, listing).1 is None ==> query(c, now, verdict, listing).0.entry is None,
{
    if has_match(listing) {
        let k = choose|k: int| 0 <= k < listing.len() && candidate_matches(#[trigger] listing[k]);
        lemma_first_match_exists(listing, k);
    }
}

/// A session is handed out only after passing the identity check within the
/// query: either it is the cached one, still fresh, and its check passed, or
/// it is the first match of a new listing and is now cached with the current
/// time.
pub proof fn lemma_handed_out_session_was_checked<H>(
    c: SessionCache<H>,
    now: u64,
    verdict: Option<bool>,
    listing: Seq<Candidate<H>>,
)
    ensures
        query(c, now, verdict, listing).1 matches Some(h) ==> (c.is_fresh(now) && verdict == Some(
            true,
        ) && h == c.entry->0.session && query(c, now, verdict, listing).0 == c) || (exists|i: int|
            is_first_match(listing, i) && h == #[trigger] listing[i].session
                && query(c, now, verdict, listing).0.entry == Some(
                CachedSession { session: h, timestamp: now },
            )),
{
    if !(c.is_fresh(now) && verdict == Some(true)) {
        lemma_failed_check_refreshes(c, now, verdict, listing);
    }
}

/// Where some candidate matches, a first one exists, and `first_match` names it.
proof fn lemma_first_match_exists<H>(cs: Seq<Candidate<H>>, k: int)
    requires
        0 <= k < cs.len(),
        candidate_matches(cs[k]),
    ensures
        exists|i: int| is_first_match(cs, i),
        first_match(cs) matches Some(i) && is_first_match(cs, i),
    decreases k,
{
    if forall|j: int| 0 <= j < k ==> !candidate_matches(#[trigger] cs[j]) {
        assert(is_first_match(cs, k));
    } else {
        let j = choose|j: int| 0 <= j < k && !!candidate_matches(#[trigger] cs[j]);
        lemma_first_match_exists(cs, j);
    }
    assert(has_match(cs));
}

} // verus!
