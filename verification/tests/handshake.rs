use matrix_web_bot::error::BotError;
use matrix_web_bot::handshake::{
    accept_begin, accept_step, cancel_begin, cancel_step, confirm_begin, confirm_step,
    is_already_accepted, is_already_done, is_wrong_state, next_attempt, AcceptPhase, CancelPhase, ConfirmPhase, EngineCall,
    EngineEvent, FlowSighting, LOOKUP_ATTEMPTS, LOOKUP_DELAY_MS, RECONCILE_INTERVAL_MS,
    SAS_DELAY_MS, SAS_ROUNDS, SETTLE_DELAY_MS,
};
use matrix_web_bot::verification::{SasObservation, VerificationCoordinator};

fn failed(message: &str) -> EngineEvent {
    EngineEvent::CallFailed {
        message: message.to_string(),
    }
}

fn sas(can_be_presented: bool, is_done: bool) -> EngineEvent {
    EngineEvent::FlowLookup(FlowSighting::Sas {
        can_be_presented,
        is_done,
    })
}

#[test]
fn timing_constants() {
    assert_eq!(LOOKUP_ATTEMPTS, 5);
    assert_eq!(LOOKUP_DELAY_MS, 200);
    assert_eq!(SAS_ROUNDS, 10);
    assert_eq!(SAS_DELAY_MS, 500);
    assert_eq!(SETTLE_DELAY_MS, 500);
    assert_eq!(RECONCILE_INTERVAL_MS, 2000);
}

#[test]
fn accept_needs_a_connection_and_a_user_id() {
    assert_eq!(
        accept_begin(false, true),
        (
            AcceptPhase::Finished,
            EngineCall::Finish(Err(BotError::NotConnected))
        )
    );
    assert_eq!(
        accept_begin(true, false),
        (
            AcceptPhase::Finished,
            EngineCall::Finish(Err(BotError::InvalidIdentifier))
        )
    );
    assert_eq!(
        accept_begin(true, true),
        (
            AcceptPhase::FindingRequest { attempt: 0 },
            EngineCall::FindRequest { delay_ms: 0 }
        )
    );
}

#[test]
fn accept_of_an_unknown_request_is_not_found_after_five_attempts() {
    let (mut phase, mut call) = accept_begin(true, true);
    let mut request_lookups = 0;
    let mut flow_lookups = 0;
    let mut delays = Vec::new();
    loop {
        let event = match call {
            EngineCall::FindRequest { delay_ms } => {
                request_lookups += 1;
                delays.push(delay_ms);
                EngineEvent::RequestLookup { found: false }
            }
            EngineCall::FindFlow { delay_ms } => {
                flow_lookups += 1;
                assert_eq!(delay_ms, 0);
                EngineEvent::FlowLookup(FlowSighting::Absent)
            }
            EngineCall::Finish(result) => {
                assert_eq!(result, Err(BotError::NotFound));
                break;
            }
            other => panic!("unexpected call {:?}", other),
        };
        let next = accept_step(true, phase, &event);
        phase = next.0;
        call = next.1;
    }
    assert_eq!(phase, AcceptPhase::Finished);
    assert_eq!(request_lookups, 5);
    assert_eq!(flow_lookups, 5);
    assert_eq!(delays, vec![0, 200, 200, 200, 200]);
}

#[test]
fn accept_of_a_found_request_accepts_its_challenge_too() {
    let (phase, call) = accept_step(
        true,
        AcceptPhase::FindingRequest { attempt: 0 },
        &EngineEvent::RequestLookup { found: true },
    );
    assert_eq!((phase, call), (AcceptPhase::AcceptingRequest, EngineCall::AcceptRequest));
    let (phase, call) = accept_step(true, phase, &EngineEvent::CallSucceeded);
    assert_eq!(
        (phase, call),
        (
            AcceptPhase::AwaitingSas { round: 0 },
            EngineCall::FindFlow { delay_ms: 500 }
        )
    );
    let (phase, call) = accept_step(true, phase, &EngineEvent::FlowLookup(FlowSighting::Absent));
    assert_eq!(
        (phase, call),
        (
            AcceptPhase::AwaitingSas { round: 1 },
            EngineCall::FindFlow { delay_ms: 500 }
        )
    );
    let (phase, call) = accept_step(true, phase, &sas(false, false));
    assert_eq!(
        (phase, call),
        (
            AcceptPhase::AcceptingOfferedSas { round: 1 },
            EngineCall::AcceptSas
        )
    );
    let (phase, call) = accept_step(true, phase, &EngineEvent::CallSucceeded);
    assert_eq!((phase, call), (AcceptPhase::Finished, EngineCall::Finish(Ok(()))));
}

#[test]
fn accept_request_that_the_engine_refuses() {
    assert_eq!(
        accept_step(true, AcceptPhase::AcceptingRequest, &failed("no")),
        (
            AcceptPhase::Finished,
            EngineCall::Finish(Err(BotError::RemoteRejected))
        )
    );
}

#[test]
fn request_that_was_accepted_before_goes_on_to_its_challenge() {
    assert_eq!(
        accept_step(
            true,
            AcceptPhase::AcceptingRequest,
            &failed("request already accepted")
        ),
        (
            AcceptPhase::AwaitingSas { round: 0 },
            EngineCall::FindFlow { delay_ms: 500 }
        )
    );
}

#[test]
fn attempts_are_counted_up_to_the_limit() {
    assert_eq!(next_attempt(0, 5), Some(1));
    assert_eq!(next_attempt(3, 5), Some(4));
    assert_eq!(next_attempt(4, 5), None);
    assert_eq!(next_attempt(200, 5), None);
    assert_eq!(next_attempt(0, 0), None);
    assert_eq!(next_attempt(0, 1), None);
    assert_eq!(next_attempt(254, 255), None);
    assert_eq!(next_attempt(253, 255), Some(254));
}

#[test]
fn accept_succeeds_when_the_challenge_never_shows() {
    let mut phase = AcceptPhase::AwaitingSas { round: 0 };
    let mut rounds = 0;
    loop {
        rounds += 1;
        let (next, call) = accept_step(true, phase, &EngineEvent::FlowLookup(FlowSighting::Absent));
        phase = next;
        match call {
            EngineCall::FindFlow { delay_ms } => assert_eq!(delay_ms, 500),
            EngineCall::Finish(result) => {
                assert_eq!(result, Ok(()));
                break;
            }
            other => panic!("unexpected call {:?}", other),
        }
    }
    assert_eq!(rounds, 10);
}

#[test]
fn another_method_in_the_waiting_rounds_is_waited_out() {
    assert_eq!(
        accept_step(
            true,
            AcceptPhase::AwaitingSas { round: 3 },
            &EngineEvent::FlowLookup(FlowSighting::OtherMethod)
        ),
        (
            AcceptPhase::AwaitingSas { round: 4 },
            EngineCall::FindFlow { delay_ms: 500 }
        )
    );
    assert_eq!(
        accept_step(
            true,
            AcceptPhase::AwaitingSas { round: 9 },
            &EngineEvent::FlowLookup(FlowSighting::OtherMethod)
        ),
        (AcceptPhase::Finished, EngineCall::Finish(Ok(())))
    );
}

#[test]
fn already_accepted_counts_as_success() {
    let done = (AcceptPhase::Finished, EngineCall::Finish(Ok(())));
    assert_eq!(
        accept_step(
            true,
            AcceptPhase::AcceptingOfferedSas { round: 2 },
            &failed("the flow was already started")
        ),
        done
    );
    assert_eq!(
        accept_step(
            true,
            AcceptPhase::AcceptingOfferedSas { round: 2 },
            &failed("accepted before")
        ),
        done
    );
    assert_eq!(
        accept_step(
            true,
            AcceptPhase::AcceptingFoundSas { presentable: true },
            &failed("already")
        ),
        done
    );
}

#[test]
fn other_failure_of_an_offered_challenge_is_tried_again() {
    assert_eq!(
        accept_step(
            true,
            AcceptPhase::AcceptingOfferedSas { round: 2 },
            &failed("timeout")
        ),
        (
            AcceptPhase::AwaitingSas { round: 3 },
            EngineCall::FindFlow { delay_ms: 500 }
        )
    );
    assert_eq!(
        accept_step(
            true,
            AcceptPhase::AcceptingOfferedSas { round: 9 },
            &failed("timeout")
        ),
        (AcceptPhase::Finished, EngineCall::Finish(Ok(())))
    );
}

#[test]
fn challenge_found_in_place_of_the_request() {
    assert_eq!(
        accept_step(true, AcceptPhase::FindingFlow { attempt: 0 }, &sas(true, false)),
        (
            AcceptPhase::AcceptingFoundSas { presentable: true },
            EngineCall::AcceptSas
        )
    );
    assert_eq!(
        accept_step(
            true,
            AcceptPhase::FindingFlow { attempt: 2 },
            &EngineEvent::FlowLookup(FlowSighting::OtherMethod)
        ),
        (
            AcceptPhase::Finished,
            EngineCall::Finish(Err(BotError::Unsupported))
        )
    );
    let rejected = (
        AcceptPhase::Finished,
        EngineCall::Finish(Err(BotError::RemoteRejected)),
    );
    let done = (AcceptPhase::Finished, EngineCall::Finish(Ok(())));
    assert_eq!(
        accept_step(
            true,
            AcceptPhase::AcceptingFoundSas { presentable: true },
            &failed("wrong state")
        ),
        rejected
    );
    assert_eq!(
        accept_step(
            true,
            AcceptPhase::AcceptingFoundSas { presentable: false },
            &failed("wrong state")
        ),
        done
    );
    assert_eq!(
        accept_step(
            true,
            AcceptPhase::AcceptingFoundSas { presentable: false },
            &failed("network")
        ),
        rejected
    );
    assert_eq!(
        accept_step(
            true,
            AcceptPhase::AcceptingFoundSas { presentable: false },
            &EngineEvent::CallSucceeded
        ),
        done
    );
}

#[test]
fn accept_that_loses_its_connection_ends_not_connected() {
    assert_eq!(
        accept_step(
            false,
            AcceptPhase::AwaitingSas { round: 1 },
            &EngineEvent::FlowLookup(FlowSighting::Absent)
        ),
        (
            AcceptPhase::Finished,
            EngineCall::Finish(Err(BotError::NotConnected))
        )
    );
}

#[test]
fn answer_out_of_turn_ends_the_accept() {
    let out_of_turn = (
        AcceptPhase::Finished,
        EngineCall::Finish(Err(BotError::OutOfTurn)),
    );
    assert_eq!(
        accept_step(true, AcceptPhase::AcceptingRequest, &sas(true, true)),
        out_of_turn
    );
    assert_eq!(
        accept_step(true, AcceptPhase::Finished, &EngineEvent::CallSucceeded),
        out_of_turn
    );
    assert_eq!(
        accept_step(false, AcceptPhase::Finished, &EngineEvent::CallSucceeded),
        out_of_turn
    );
    assert_eq!(
        accept_step(
            true,
            AcceptPhase::FindingRequest { attempt: 0 },
            &EngineEvent::Settled { is_done: true }
        ),
        out_of_turn
    );
}

#[test]
fn error_words() {
    assert!(is_already_accepted("Already? no: already"));
    assert!(is_already_accepted("it was accepted"));
    assert!(!is_already_accepted("Already Accepted"));
    assert!(is_already_done("was already cancelled"));
    assert!(!is_already_done("accepted"));
    assert!(is_wrong_state("invalid state"));
    assert!(!is_wrong_state("State"));
}

fn presentable() -> SasObservation {
    SasObservation {
        can_be_presented: true,
        is_done: false,
        emoji: None,
        decimals: Some((1, 2, 3)),
    }
}

#[test]
fn confirm_of_a_done_challenge_frees_the_slot() {
    let mut tracker = VerificationCoordinator::new();
    tracker.on_request("r1", "@a:example.org", "DEV");
    tracker.reconcile("r1", &presentable());
    assert!(tracker.active_sas().is_some());

    let (phase, call) = confirm_begin(true, true);
    assert_eq!(
        (phase, call),
        (
            ConfirmPhase::FindingSas { attempt: 0 },
            EngineCall::FindFlow { delay_ms: 0 }
        )
    );
    let (phase, call) = confirm_step(&mut tracker, true, phase, &sas(true, false));
    assert_eq!((phase, call), (ConfirmPhase::Confirming, EngineCall::ConfirmSas));
    let (phase, call) = confirm_step(&mut tracker, true, phase, &EngineEvent::CallSucceeded);
    assert_eq!(
        (phase, call),
        (
            ConfirmPhase::Settling,
            EngineCall::AwaitSettled { delay_ms: 500 }
        )
    );
    assert!(tracker.active_sas().is_some());
    let (phase, call) = confirm_step(
        &mut tracker,
        true,
        phase,
        &EngineEvent::Settled { is_done: true },
    );
    assert_eq!((phase, call), (ConfirmPhase::Finished, EngineCall::Finish(Ok(()))));
    assert!(tracker.active_sas().is_none());
    assert_eq!(tracker.requests().len(), 1);
}

#[test]
fn confirm_of_a_challenge_that_is_not_done_keeps_the_slot() {
    let mut tracker = VerificationCoordinator::new();
    tracker.on_request("r1", "@a:example.org", "DEV");
    tracker.reconcile("r1", &presentable());
    let (phase, call) = confirm_step(
        &mut tracker,
        true,
        ConfirmPhase::Settling,
        &EngineEvent::Settled { is_done: false },
    );
    assert_eq!((phase, call), (ConfirmPhase::Finished, EngineCall::Finish(Ok(()))));
    assert!(tracker.active_sas().is_some());
}

#[test]
fn confirm_without_a_challenge_is_not_found_after_five_attempts() {
    let mut tracker = VerificationCoordinator::new();
    let (mut phase, mut call) = confirm_begin(true, true);
    let mut lookups = Vec::new();
    loop {
        match call {
            EngineCall::FindFlow { delay_ms } => lookups.push(delay_ms),
            EngineCall::Finish(result) => {
                assert_eq!(result, Err(BotError::NotFound));
                break;
            }
            other => panic!("unexpected call {:?}", other),
        }
        let sighting = if lookups.len() % 2 == 0 {
            FlowSighting::Absent
        } else {
            FlowSighting::OtherMethod
        };
        let next = confirm_step(&mut tracker, true, phase, &EngineEvent::FlowLookup(sighting));
        phase = next.0;
        call = next.1;
    }
    assert_eq!(lookups, vec![0, 200, 200, 200, 200]);
}

#[test]
fn confirm_that_the_engine_refuses() {
    let mut tracker = VerificationCoordinator::new();
    assert_eq!(
        confirm_step(&mut tracker, true, ConfirmPhase::Confirming, &failed("no")),
        (
            ConfirmPhase::Finished,
            EngineCall::Finish(Err(BotError::RemoteRejected))
        )
    );
    assert_eq!(
        confirm_step(
            &mut tracker,
            false,
            ConfirmPhase::Confirming,
            &EngineEvent::CallSucceeded
        ),
        (
            ConfirmPhase::Finished,
            EngineCall::Finish(Err(BotError::NotConnected))
        )
    );
    assert_eq!(
        confirm_begin(false, true).1,
        EngineCall::Finish(Err(BotError::NotConnected))
    );
    assert_eq!(
        confirm_begin(true, false).1,
        EngineCall::Finish(Err(BotError::InvalidIdentifier))
    );
}

#[test]
fn cancel_of_a_pending_request_removes_it_and_its_challenge() {
    let mut tracker = VerificationCoordinator::new();
    tracker.on_request("r1", "@a:example.org", "DEV");
    tracker.on_request("r2", "@a:example.org", "DEV2");
    tracker.reconcile("r1", &presentable());
    assert_eq!(tracker.active_sas().unwrap().request_id, "r1");

    let (phase, call) = cancel_begin(true, true);
    assert_eq!(
        (phase, call),
        (
            CancelPhase::FindingRequest,
            EngineCall::FindRequest { delay_ms: 0 }
        )
    );
    let (phase, call) = cancel_step(
        &mut tracker,
        true,
        phase,
        "r1",
        &EngineEvent::RequestLookup { found: true },
    );
    assert_eq!(
        (phase, call),
        (CancelPhase::CancellingRequest, EngineCall::CancelRequest)
    );
    assert!(tracker.is_tracked("r1"));
    let (phase, call) = cancel_step(&mut tracker, true, phase, "r1", &EngineEvent::CallSucceeded);
    assert_eq!((phase, call), (CancelPhase::Finished, EngineCall::Finish(Ok(()))));
    assert!(!tracker.is_tracked("r1"));
    assert!(tracker.is_tracked("r2"));
    assert!(tracker.active_sas().is_none());
}

#[test]
fn cancel_of_another_request_keeps_the_challenge() {
    let mut tracker = VerificationCoordinator::new();
    tracker.on_request("r1", "@a:example.org", "DEV");
    tracker.on_request("r2", "@a:example.org", "DEV2");
    tracker.reconcile("r1", &presentable());
    let (phase, call) = cancel_step(
        &mut tracker,
        true,
        CancelPhase::FindingRequest,
        "r2",
        &EngineEvent::RequestLookup { found: false },
    );
    assert_eq!(
        (phase, call),
        (CancelPhase::FindingFlow, EngineCall::FindFlow { delay_ms: 0 })
    );
    let (phase, call) = cancel_step(&mut tracker, true, phase, "r2", &sas(false, false));
    assert_eq!((phase, call), (CancelPhase::CancellingSas, EngineCall::CancelSas));
    let (_, call) = cancel_step(&mut tracker, true, phase, "r2", &EngineEvent::CallSucceeded);
    assert_eq!(call, EngineCall::Finish(Ok(())));
    assert!(!tracker.is_tracked("r2"));
    assert!(tracker.is_tracked("r1"));
    assert_eq!(tracker.active_sas().unwrap().request_id, "r1");
}

#[test]
fn cancel_of_an_unknown_request_succeeds() {
    let mut tracker = VerificationCoordinator::new();
    tracker.on_request("r1", "@a:example.org", "DEV");
    tracker.reconcile("r1", &presentable());
    let (phase, _) = cancel_step(
        &mut tracker,
        true,
        CancelPhase::FindingRequest,
        "r9",
        &EngineEvent::RequestLookup { found: false },
    );
    let (phase, call) = cancel_step(
        &mut tracker,
        true,
        phase,
        "r9",
        &EngineEvent::FlowLookup(FlowSighting::Absent),
    );
    assert_eq!((phase, call), (CancelPhase::Finished, EngineCall::Finish(Ok(()))));
    assert!(tracker.is_tracked("r1"));
    assert_eq!(tracker.active_sas().unwrap().request_id, "r1");
}

#[test]
fn cancel_that_the_engine_refuses_changes_nothing() {
    let mut tracker = VerificationCoordinator::new();
    tracker.on_request("r1", "@a:example.org", "DEV");
    let (phase, call) = cancel_step(
        &mut tracker,
        true,
        CancelPhase::CancellingRequest,
        "r1",
        &failed("no"),
    );
    assert_eq!(
        (phase, call),
        (
            CancelPhase::Finished,
            EngineCall::Finish(Err(BotError::RemoteRejected))
        )
    );
    assert!(tracker.is_tracked("r1"));
    let (_, call) = cancel_step(
        &mut tracker,
        false,
        CancelPhase::CancellingRequest,
        "r1",
        &EngineEvent::CallSucceeded,
    );
    assert_eq!(call, EngineCall::Finish(Err(BotError::NotConnected)));
    assert!(tracker.is_tracked("r1"));
}

#[test]
fn confirm_that_was_done_before_counts_as_done_now() {
    let mut tracker = VerificationCoordinator::new();
    assert_eq!(
        confirm_step(
            &mut tracker,
            true,
            ConfirmPhase::Confirming,
            &failed("already confirmed")
        ),
        (
            ConfirmPhase::Settling,
            EngineCall::AwaitSettled { delay_ms: 500 }
        )
    );
}

#[test]
fn cancel_that_was_done_before_forgets_the_request() {
    let mut tracker = VerificationCoordinator::new();
    tracker.on_request("r1", "@a:example.org", "DEV");
    tracker.on_request("r2", "@a:example.org", "DEV");
    let (_, call) = cancel_step(
        &mut tracker,
        true,
        CancelPhase::CancellingRequest,
        "r1",
        &failed("already cancelled"),
    );
    assert_eq!(call, EngineCall::Finish(Ok(())));
    assert!(!tracker.is_tracked("r1"));
    let (_, call) = cancel_step(
        &mut tracker,
        true,
        CancelPhase::CancellingSas,
        "r2",
        &failed("already cancelled"),
    );
    assert_eq!(call, EngineCall::Finish(Ok(())));
    assert!(!tracker.is_tracked("r2"));
}

#[test]
fn cancel_of_a_flow_of_another_method_forgets_the_request() {
    let mut tracker = VerificationCoordinator::new();
    tracker.on_request("r1", "@a:example.org", "DEV");
    let (_, call) = cancel_step(
        &mut tracker,
        true,
        CancelPhase::FindingFlow,
        "r1",
        &EngineEvent::FlowLookup(FlowSighting::OtherMethod),
    );
    assert_eq!(call, EngineCall::Finish(Ok(())));
    assert!(!tracker.is_tracked("r1"));
}
