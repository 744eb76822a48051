use mm_client::submit::{
    confirm_outcome, start_submission, submission_step, Confirmation, PollEvent, SendResult,
    SubmitState,
};

#[test]
fn send_transport_failure_is_a_transport_error() {
    let result = start_submission(SendResult::TransportError, 5);
    assert_eq!(result, Err(Confirmation::TransportFailed));
}

#[test]
fn accepted_send_opens_the_wait_window() {
    let state = start_submission(SendResult::Accepted, 5).unwrap();
    assert_eq!(state, SubmitState { polls_left: 5 });
}

#[test]
fn transport_failure_mid_wait_is_classified_as_transport() {
    let state = SubmitState { polls_left: 4 };
    let outcome = confirm_outcome(state, &vec![PollEvent::NotSeen, PollEvent::Disconnected]);
    assert_eq!(outcome, Confirmation::TransportFailed);
    assert_ne!(outcome, Confirmation::ProgramRejected(0));
    assert_ne!(outcome, Confirmation::Indeterminate);
}

#[test]
fn program_rejection_is_classified_as_on_chain_error() {
    let state = SubmitState { polls_left: 4 };
    let outcome = confirm_outcome(state, &vec![PollEvent::NotSeen, PollEvent::Rejected(42)]);
    assert_eq!(outcome, Confirmation::ProgramRejected(42));
    assert_ne!(outcome, Confirmation::TransportFailed);
    assert_ne!(outcome, Confirmation::Indeterminate);
}

#[test]
fn confirmation_reports_the_slot() {
    let state = SubmitState { polls_left: 4 };
    let outcome = confirm_outcome(state, &vec![PollEvent::NotSeen, PollEvent::Reached(991)]);
    assert_eq!(outcome, Confirmation::Committed(991));
}

#[test]
fn exhausted_window_is_indeterminate_not_failure() {
    let state = SubmitState { polls_left: 2 };
    let events = vec![PollEvent::NotSeen; 5];
    let outcome = confirm_outcome(state, &events);
    assert_eq!(outcome, Confirmation::Indeterminate);
    assert_ne!(outcome, Confirmation::TransportFailed);
    assert_ne!(outcome, Confirmation::ProgramRejected(0));
}

#[test]
fn abandoned_wait_is_indeterminate() {
    let state = SubmitState { polls_left: 9 };
    let outcome = confirm_outcome(state, &vec![]);
    assert_eq!(outcome, Confirmation::Indeterminate);
}

#[test]
fn one_step_decrements_the_window() {
    let state = SubmitState { polls_left: 3 };
    let (next, outcome) = submission_step(state, PollEvent::NotSeen);
    assert_eq!(outcome, None);
    assert_eq!(next, SubmitState { polls_left: 2 });
    let (_, terminal) = submission_step(SubmitState { polls_left: 0 }, PollEvent::NotSeen);
    assert_eq!(terminal, Some(Confirmation::Indeterminate));
}
