//! The session protocol: how the codes that the database machinery returns
//! are turned into caller-visible outcomes, and the lifecycle of a handle.
//!
//! A retrieve or store call answers with a three-way code: exactly 1 means
//! changes were pulled or written, exactly 0 means nothing needed to change,
//! and anything else is a failure. A contract check inverts this polarity on
//! purpose: 0 means the clauses are already met, 1 means they are unmet, and
//! anything else is a failure. No meaning is inferred from magnitude.

use vstd::prelude::*;

verus! {

/// Outcome of a retrieve or a store call.
#[derive(Clone, Copy, Debug, PartialEq, Eq, Structural)]
pub enum SyncOutcome {
    /// Changes were pulled into, or written from, the collection.
    Changed,
    /// Nothing needed to change; the collection is already in step.
    Unchanged,
    /// The call failed; the hint key now carries error metadata.
    Failed,
}

/// Outcome of a contract check.
#[derive(Clone, Copy, Debug, PartialEq, Eq, Structural)]
pub enum EnsureOutcome {
    /// The connection's state already satisfies the contract.
    Satisfied,
    /// Some clause of the contract is unmet.
    Unmet,
    /// The check itself failed; the hint key now carries error metadata.
    Failed,
}

/// The outcome a retrieve or store code stands for: 1 is `Changed`, 0 is
/// `Unchanged`, everything else is `Failed`.
pub open spec fn sync_outcome_of(code: int) -> SyncOutcome {
    if code == 1 {
        SyncOutcome::Changed
    } else if code == 0 {
        SyncOutcome::Unchanged
    } else {
        SyncOutcome::Failed
    }
}

/// The outcome a contract-check code stands for: 0 is `Satisfied`, 1 is
/// `Unmet`, everything else is `Failed`. The polarity is inverted relative
/// to retrieve and store: at the machinery level 0 means "no error", which
/// here reads as "clauses already met".
pub open spec fn ensure_outcome_of(code: int) -> EnsureOutcome {
    if code == 0 {
        EnsureOutcome::Satisfied
    } else if code == 1 {
        EnsureOutcome::Unmet
    } else {
        EnsureOutcome::Failed
    }
}

/// Classifies the code a retrieve or store call returned.
pub fn classify_sync_code(code: i32) -> (r: SyncOutcome)
    ensures
        r == sync_outcome_of(code as int),
{
    if code == 1 {
        SyncOutcome::Changed
    } else if code == 0 {
        SyncOutcome::Unchanged
    } else {
        SyncOutcome::Failed
    }
}

/// Classifies the code a contract check returned.
pub fn classify_ensure_code(code: i32) -> (r: EnsureOutcome)
    ensures
        r == ensure_outcome_of(code as int),
{
    if code == 0 {
        EnsureOutcome::Satisfied
    } else if code == 1 {
        EnsureOutcome::Unmet
    } else {
        EnsureOutcome::Failed
    }
}

/// The lifecycle state of a handle that was opened successfully.
#[derive(Clone, Copy, Debug, PartialEq, Eq, Structural)]
pub enum SessionState {
    /// The handle owns a live connection.
    Open,
    /// The connection has been released.
    Closed,
}

/// One event in an open handle's lifetime, carrying the code the database
/// machinery returned for it.
#[derive(Clone, Copy, Debug, PartialEq, Eq, Structural)]
pub enum SessionEvent {
    Retrieve(i32),
    Store(i32),
    Ensure(i32),
    Release(i32),
}

/// The state a handle is in after an event. Only releasing changes it.
pub open spec fn next_state(s: SessionState, e: SessionEvent) -> SessionState {
    match e {
        SessionEvent::Release(_) => SessionState::Closed,
        _ => s,
    }
}

/// Whether an event surfaces an error to the caller. Retrieve, store and
/// contract checks fail on their failure codes; releasing never does,
/// whatever code the underlying close call returned.
pub open spec fn surfaces_error(e: SessionEvent) -> bool {
    match e {
        SessionEvent::Retrieve(c) => sync_outcome_of(c as int) is Failed,
        SessionEvent::Store(c) => sync_outcome_of(c as int) is Failed,
        SessionEvent::Ensure(c) => ensure_outcome_of(c as int) is Failed,
        SessionEvent::Release(_) => false,
    }
}

/// The state a handle is in after a whole sequence of events.
pub open spec fn run(s: SessionState, events: Seq<SessionEvent>) -> SessionState
    decreases events.len(),
{
    if events.len() == 0 {
        s
    } else {
        run(next_state(s, events[0]), events.drop_first())
    }
}

proof fn lemma_run_release(s: SessionState, events: Seq<SessionEvent>, close_code: i32)
    ensures
        run(s, events.push(SessionEvent::Release(close_code))) == SessionState::Closed,
    decreases events.len(),
{
    let with_release = events.push(SessionEvent::Release(close_code));
    if events.len() == 0 {
        assert(with_release[0] == SessionEvent::Release(close_code));
        assert(with_release.drop_first() =~= Seq::<SessionEvent>::empty());
        assert(run(SessionState::Closed, Seq::<SessionEvent>::empty()) == SessionState::Closed);
    } else {
        assert(with_release[0] == events[0]);
        assert(with_release.drop_first() =~= events.drop_first().push(
            SessionEvent::Release(close_code),
        ));
        lemma_run_release(next_state(s, events[0]), events.drop_first(), close_code);
    }
}

/// Law: disposal is infallible. After any sequence of operations on an open
/// handle, including ones that failed, releasing the handle surfaces no
/// error to the caller and leaves the handle closed, whatever code the
/// underlying close call returned.
pub proof fn lemma_release_infallible(events: Seq<SessionEvent>, close_code: i32)
    ensures
        !surfaces_error(SessionEvent::Release(close_code)),
        run(SessionState::Open, events.push(SessionEvent::Release(close_code)))
            == SessionState::Closed,
{
    lemma_run_release(SessionState::Open, events, close_code);
}

} // verus!
