//! The pending-engine reconciler.
//!
//! After this system has asked for one engine, the desktop may report
//! another. That other engine is kept as pending until a completed combo asks
//! for it to be reconciled, or until a later switch supersedes it.

use crate::engine::{EngineId, engine_view};
use vstd::prelude::*;

verus! {

/// The engine the desktop is believed to have reverted to, if any.
#[derive(Debug, PartialEq, Eq)]
pub struct PendingEngine {
    engine: Option<EngineId>,
}

impl View for PendingEngine {
    type V = Option<Seq<char>>;

    closed spec fn view(&self) -> Option<Seq<char>> {
        engine_view(self.engine)
    }
}

/// What is pending after a switch to `requested` while the desktop reported
/// `desktop_reported`: the reported engine if it differs, nothing otherwise.
pub open spec fn pending_after_switch(requested: Seq<char>, desktop_reported: Seq<char>) -> Option<
    Seq<char>,
> {
    if desktop_reported != requested {
        Some(desktop_reported)
    } else {
        None
    }
}

/// What a reconciliation hands out: whatever is pending.
pub open spec fn reconciled(pending: Option<Seq<char>>) -> Option<Seq<char>> {
    pending
}

/// What a reconciliation leaves pending: nothing.
pub open spec fn after_reconcile(pending: Option<Seq<char>>) -> Option<Seq<char>> {
    None
}

impl PendingEngine {
    /// A reconciler with nothing pending.
    pub fn new() -> (pending: PendingEngine)
        ensures
            pending@ is None,
    {
        PendingEngine { engine: None }
    }

    /// The pending engine, left in place.
    pub fn peek(&self) -> (engine: Option<&EngineId>)
        ensures
            engine is Some == self@ is Some,
            engine matches Some(e) ==> self@ == Some(e@),
    {
        self.engine.as_ref()
    }

    /// Forgets whatever is pending.
    pub fn clear(&mut self)
        ensures
            final(self)@ is None,
    {
        self.engine = None;
    }

    /// Takes note that a switch to `requested` was issued while the desktop
    /// reported `desktop_reported`. If the two differ the reported engine
    /// becomes pending; if not, nothing is pending any more.
    pub fn note_switch_requested(&mut self, requested: &EngineId, desktop_reported: &EngineId)
        ensures
            final(self)@ == pending_after_switch(requested@, desktop_reported@),
    {
        if !desktop_reported.same_as(requested) {
            self.engine = Some(desktop_reported.clone());
        } else {
            self.engine = None;
        }
    }

    /// Takes the pending engine out, leaving nothing pending.
    pub fn reconcile(&mut self) -> (engine: Option<EngineId>)
        ensures
            engine_view(engine) == reconciled(old(self)@),
            final(self)@ == after_reconcile(old(self)@),
    {
        self.engine.take()
    }
}

/// A switch to one engine while the desktop reports another leaves the
/// reported engine pending; the next reconciliation hands it out and leaves
/// nothing pending, so the one after that hands out nothing.
pub proof fn lemma_pending_round_trip(requested: Seq<char>, desktop_reported: Seq<char>)
    requires
        requested != desktop_reported,
    ensures
        ({
            let pending = pending_after_switch(requested, desktop_reported);
            &&& pending == Some(desktop_reported)
            &&& reconciled(pending) == Some(desktop_reported)
            &&& after_reconcile(pending) is None
            &&& reconciled(after_reconcile(pending)) is None
        }),
{
}

/// A switch to the engine that the desktop reports leaves nothing pending.
pub proof fn lemma_agreeing_report_clears(engine: Seq<char>)
    ensures
        pending_after_switch(engine, engine) is None,
{
}

} // verus!
