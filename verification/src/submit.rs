//! Submission and confirmation: the decision core of the send-and-confirm
//! protocol. The network transport is outside this layer; it hands back
//! plain events, and the functions here classify them into the terminal
//! outcome taxonomy: committed, transport failure (retryable with a fresh
//! token), on-chain rejection (not retryable without new arguments), or
//! indeterminate (the wait window closed without a terminal state; the
//! caller must re-query before resubmitting, never blindly retry).

use vstd::prelude::*;

verus! {

/// What the transport reports for the initial send of a signed payload.
#[derive(Clone, Copy, Debug, PartialEq, Eq, Structural)]
pub enum SendResult {
    /// The endpoint accepted the payload for processing.
    Accepted,
    /// The endpoint was unreachable or the response was malformed.
    TransportError,
}

/// One observation from the transport while waiting for confirmation.
#[derive(Clone, Copy, Debug, PartialEq, Eq, Structural)]
pub enum PollEvent {
    /// The transport failed mid-wait.
    Disconnected,
    /// No terminal state is visible yet at the requested level.
    NotSeen,
    /// The transaction reached the requested level at this slot.
    Reached(u64),
    /// The program executed and returned this numeric error code.
    Rejected(u64),
}

/// Terminal outcome of one submission attempt. `Indeterminate` is a
/// first-class outcome: it does not mean the transaction failed to land.
#[derive(Clone, Copy, Debug, PartialEq, Eq, Structural)]
pub enum Confirmation {
    /// Committed at the given slot.
    Committed(u64),
    /// Network-layer failure; safe to retry with a fresh freshness token.
    TransportFailed,
    /// On-chain rejection with the program's error code; fix the arguments
    /// before retrying.
    ProgramRejected(u64),
    /// The wait window closed without a terminal state being observed.
    Indeterminate,
}

/// Waiting state of one submission attempt: how many polls of the wait
/// window remain.
#[derive(Clone, Copy, Debug, PartialEq, Eq, Structural)]
pub struct SubmitState {
    pub polls_left: u32,
}

/// How one observation advances the wait: either the attempt terminates
/// with a classified outcome, or the window shrinks by one poll.
pub open spec fn spec_step(st: SubmitState, ev: PollEvent) -> (SubmitState, Option<Confirmation>) {
    match ev {
        PollEvent::Disconnected => (st, Some(Confirmation::TransportFailed)),
        PollEvent::Rejected(code) => (st, Some(Confirmation::ProgramRejected(code))),
        PollEvent::Reached(slot) => (st, Some(Confirmation::Committed(slot))),
        PollEvent::NotSeen => if st.polls_left == 0 {
            (st, Some(Confirmation::Indeterminate))
        } else {
            (SubmitState { polls_left: (st.polls_left - 1) as u32 }, None)
        },
    }
}

/// Classifies the transport's report of the initial send: an accepted
/// payload opens a wait window of `max_polls` observations; a send that
/// never went through is a transport failure, never an on-chain one.
pub fn start_submission(send: SendResult, max_polls: u32) -> (r: Result<SubmitState, Confirmation>)
    ensures
        send == SendResult::Accepted ==> r == Ok::<SubmitState, Confirmation>(
            SubmitState { polls_left: max_polls },
        ),
        send == SendResult::TransportError ==> r == Err::<SubmitState, Confirmation>(
            Confirmation::TransportFailed,
        ),
{
    match send {
        SendResult::Accepted => Ok(SubmitState { polls_left: max_polls }),
        SendResult::TransportError => Err(Confirmation::TransportFailed),
    }
}

/// Advances the wait by one observation; see `spec_step`.
pub fn submission_step(st: SubmitState, ev: PollEvent) -> (r: (SubmitState, Option<Confirmation>))
    ensures
        r == spec_step(st, ev),
{
    match ev {
        PollEvent::Disconnected => (st, Some(Confirmation::TransportFailed)),
        PollEvent::Rejected(code) => (st, Some(Confirmation::ProgramRejected(code))),
        PollEvent::Reached(slot) => (st, Some(Confirmation::Committed(slot))),
        PollEvent::NotSeen => {
            if st.polls_left == 0 {
                (st, Some(Confirmation::Indeterminate))
            } else {
                (SubmitState { polls_left: st.polls_left - 1 }, None)
            }
        },
    }
}

/// The outcome of a whole observation sequence: the first terminal
/// observation decides; a sequence that ends (the caller abandons the wait)
/// without one is indeterminate.
pub open spec fn spec_outcome(st: SubmitState, events: Seq<PollEvent>) -> Confirmation
    decreases events.len(),
{
    if events.len() == 0 {
        Confirmation::Indeterminate
    } else {
        let step = spec_step(st, events.first());
        match step.1 {
            Some(c) => c,
            None => spec_outcome(step.0, events.drop_first()),
        }
    }
}

/// Folds a recorded observation sequence into its terminal outcome.
pub fn confirm_outcome(start: SubmitState, events: &Vec<PollEvent>) -> (r: Confirmation)
    ensures
        r == spec_outcome(start, events@),
{
    let mut st = start;
    let mut i: usize = 0;
    proof {
        assert(events@.skip(0) =~= events@);
    }
    while i < events.len()
        invariant
            i <= events@.len(),
            spec_outcome(start, events@) == spec_outcome(st, events@.skip(i as int)),
        decreases events@.len() - i,
    {
        proof {
            assert(events@.skip(i as int).first() == events@[i as int]);
            assert(events@.skip(i as int).drop_first() =~= events@.skip(i as int + 1));
        }
        let step = submission_step(st, events[i]);
        match step.1 {
            Some(outcome) => {
                return outcome;
            },
            None => {
                st = step.0;
            },
        }
        i = i + 1;
    }
    proof {
        assert(events@.skip(events@.len() as int) =~= Seq::<PollEvent>::empty());
    }
    Confirmation::Indeterminate
}

/// Law: a transport failure during the wait is classified as a transport
/// error, never conflated with an on-chain rejection or with success.
pub proof fn lemma_transport_classified(st: SubmitState)
    ensures
        spec_step(st, PollEvent::Disconnected).1 == Some(Confirmation::TransportFailed),
        forall|code: u64|
            spec_step(st, PollEvent::Disconnected).1 != Some(Confirmation::ProgramRejected(code)),
        forall|slot: u64|
            spec_step(st, PollEvent::Disconnected).1 != Some(Confirmation::Committed(slot)),
{
}

/// Law: an on-chain rejection is classified as a program error carrying the
/// program's code, distinct from a transport failure and from an
/// indeterminate timeout.
pub proof fn lemma_rejection_classified(st: SubmitState, code: u64)
    ensures
        spec_step(st, PollEvent::Rejected(code)).1 == Some(Confirmation::ProgramRejected(code)),
        spec_step(st, PollEvent::Rejected(code)).1 != Some(Confirmation::TransportFailed),
        spec_step(st, PollEvent::Rejected(code)).1 != Some(Confirmation::Indeterminate),
{
}

/// Law: a wait in which no observation is terminal ends indeterminate —
/// never as a definite failure, and never as success.
pub proof fn lemma_window_exhausted(st: SubmitState, events: Seq<PollEvent>)
    requires
        forall|i: int| 0 <= i < events.len() ==> events[i] == PollEvent::NotSeen,
    ensures
        spec_outcome(st, events) == Confirmation::Indeterminate,
    decreases events.len(),
{
    if events.len() > 0 {
        assert(events.first() == PollEvent::NotSeen);
        if st.polls_left != 0 {
            let next = SubmitState { polls_left: (st.polls_left - 1) as u32 };
            assert(forall|i: int|
                0 <= i < events.drop_first().len() ==> events.drop_first()[i]
                    == PollEvent::NotSeen);
            lemma_window_exhausted(next, events.drop_first());
        }
    }
}

} // verus!
