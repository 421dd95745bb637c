//! The catalog resource: one asynchronously loaded, re-fetchable song list.
//!
//! The resource itself never performs the fetch. It hands out a ticket for
//! each load it issues and accepts results back together with the ticket
//! they answer; a result whose ticket is not the most recent one is
//! discarded, so a later refetch always supersedes an earlier one
//! (last-write-wins, never queued).

use vstd::prelude::*;
use crate::song::SongInfo;

verus! {

/// Why a catalog fetch failed. All three surface identically: the resource
/// moves to `Failed` wholesale, keeping no partial data.
#[derive(Clone, Copy, Debug, PartialEq, Eq, Structural)]
pub enum ErrorKind {
    /// The catalog source is missing.
    NotFound,
    /// The catalog source exists but could not be read.
    Unreadable,
    /// The catalog source was read but does not parse into song records.
    Malformed,
}

/// The three observable states of the catalog resource.
#[derive(Clone, Debug)]
pub enum CatalogState {
    /// A load is in flight and no settled result is shown. A refetch moves
    /// observers back here even if an earlier value was ready.
    Pending,
    /// The most recent load resolved to this ordered song list.
    Ready(Vec<SongInfo>),
    /// The most recent load failed.
    Failed(ErrorKind),
}

/// The spec-level model of the resource: its observable state and the
/// generation of the most recently issued load.
pub struct CatalogModel {
    pub state: CatalogState,
    pub generation: u64,
}

/// The state a settled fetch result puts the resource in.
pub open spec fn outcome_state(result: Result<Vec<SongInfo>, ErrorKind>) -> CatalogState {
    match result {
        Ok(songs) => CatalogState::Ready(songs),
        Err(kind) => CatalogState::Failed(kind),
    }
}

/// What issuing a new load does to the model: the generation advances and
/// observers see `Pending`, whatever was shown before.
pub open spec fn model_refetch(m: CatalogModel) -> CatalogModel {
    CatalogModel { state: CatalogState::Pending, generation: (m.generation + 1) as u64 }
}

/// What a settled result with ticket `ticket` does to the model: it is
/// applied only if it answers the most recently issued load; a superseded
/// result changes nothing.
pub open spec fn model_resolve(
    m: CatalogModel,
    ticket: u64,
    result: Result<Vec<SongInfo>, ErrorKind>,
) -> CatalogModel {
    if ticket == m.generation {
        CatalogModel { state: outcome_state(result), generation: m.generation }
    } else {
        m
    }
}

/// The catalog resource. Owned by one coordinating component; renderers
/// only read its state. Mutated solely through `refetch` and `resolve`.
pub struct CatalogResource {
    state: CatalogState,
    generation: u64,
}

impl CatalogResource {
    /// The model this resource currently denotes.
    pub closed spec fn model(&self) -> CatalogModel {
        CatalogModel { state: self.state, generation: self.generation }
    }

    /// A fresh resource with its initial load already issued: observers see
    /// `Pending`, and the initial load answers to ticket 0.
    pub fn new() -> (r: CatalogResource)
        ensures
            r.model().state == CatalogState::Pending,
            r.model().generation == 0,
    {
        CatalogResource { state: CatalogState::Pending, generation: 0 }
    }

    /// The current observable state.
    pub fn state(&self) -> (s: &CatalogState)
        ensures
            *s == self.model().state,
    {
        &self.state
    }

    /// The ticket a result must carry to be accepted now: the generation of
    /// the most recently issued load.
    pub fn current_ticket(&self) -> (t: u64)
        ensures
            t == self.model().generation,
    {
        self.generation
    }

    /// Issue a new load, discarding prior data or error: observers move back
    /// to `Pending`, and the returned ticket is the one the new load's
    /// result must carry.
    pub fn refetch(&mut self) -> (ticket: u64)
        requires
            old(self).model().generation < u64::MAX,
        ensures
            final(self).model() == model_refetch(old(self).model()),
            ticket == final(self).model().generation,
    {
        self.generation = self.generation + 1;
        self.state = CatalogState::Pending;
        self.generation
    }

    /// Accept a settled fetch result carrying `ticket`. It is applied — the
    /// state becomes `Ready` or `Failed` according to the result — exactly
    /// when the ticket answers the most recently issued load; otherwise the
    /// result is discarded and nothing changes. Returns whether it applied.
    pub fn resolve(&mut self, ticket: u64, result: Result<Vec<SongInfo>, ErrorKind>) -> (applied:
        bool)
        ensures
            applied == (ticket == old(self).model().generation),
            final(self).model() == model_resolve(old(self).model(), ticket, result),
    {
        if ticket == self.generation {
            self.state = match result {
                Ok(songs) => CatalogState::Ready(songs),
                Err(kind) => CatalogState::Failed(kind),
            };
            true
        } else {
            false
        }
    }
}

/// Refetch supersession: if load A is issued, then load B is issued before
/// A resolves, and A's result arrives after B's, the state observed at the
/// end is B's result — A's result is discarded, and the resource does not
/// change at all when it arrives.
pub proof fn lemma_refetch_supersession(
    m0: CatalogModel,
    res_a: Result<Vec<SongInfo>, ErrorKind>,
    res_b: Result<Vec<SongInfo>, ErrorKind>,
)
    requires
        m0.generation + 2 <= u64::MAX,
    ensures
        ({
            let m1 = model_refetch(m0);
            let ticket_a = m1.generation;
            let m2 = model_refetch(m1);
            let ticket_b = m2.generation;
            let m3 = model_resolve(m2, ticket_b, res_b);
            let m4 = model_resolve(m3, ticket_a, res_a);
            m3.state == outcome_state(res_b) && m4 == m3
        }),
{
}

/// A superseded ticket never changes the resource, whenever it arrives: once
/// a newer load has been issued, resolving with an older ticket is a no-op.
pub proof fn lemma_stale_ticket_is_noop(
    m: CatalogModel,
    ticket: u64,
    result: Result<Vec<SongInfo>, ErrorKind>,
)
    requires
        ticket != m.generation,
    ensures
        model_resolve(m, ticket, result) == m,
{
}

} // verus!
