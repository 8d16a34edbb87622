//! The three operations on a verification request: accept, confirm, cancel.
//!
//! The engine that carries a verification out answers in its own time: a
//! request that was just announced may not be found yet, and an accepted
//! request turns into a challenge only some moments later. Each operation is
//! therefore a sequence of steps. A step takes what the engine answered to
//! the last call and says which call comes next, after which delay, or how
//! the operation ends. The number of attempts is bounded, so every operation
//! ends.

use vstd::prelude::*;
use crate::error::BotError;
use crate::text::{contains, mentions};
use crate::verification::{CoordinatorView, VerificationCoordinator};

verus! {

/// How often a request or a challenge is looked up before giving up.
pub const LOOKUP_ATTEMPTS: u8 = 5;

/// Milliseconds between two such lookups.
pub const LOOKUP_DELAY_MS: u64 = 200;

/// How often an accepted request is checked for its challenge.
pub const SAS_ROUNDS: u8 = 10;

/// Milliseconds before each such check.
pub const SAS_DELAY_MS: u64 = 500;

/// Milliseconds a confirmation is given to settle.
pub const SETTLE_DELAY_MS: u64 = 500;

/// Milliseconds between two reconciliations of the tracked requests.
pub const RECONCILE_INTERVAL_MS: u64 = 2000;

/// What the engine shows as the verification flow of a request.
#[derive(Debug, Clone, Copy, PartialEq, Eq, Structural)]
pub enum FlowSighting {
    /// No flow under this id.
    Absent,
    /// A flow with a short authentication string.
    Sas { can_be_presented: bool, is_done: bool },
    /// A flow of another method.
    OtherMethod,
}

/// What the engine answered to the last call.
#[derive(Debug, Clone)]
pub enum EngineEvent {
    /// The request was looked up.
    RequestLookup { found: bool },
    /// The flow was looked up.
    FlowLookup(FlowSighting),
    /// The call went through.
    CallSucceeded,
    /// The call failed with this message.
    CallFailed { message: String },
    /// The time to settle is over, and the challenge is done or not.
    Settled { is_done: bool },
}

/// What to do next.
#[derive(Debug, Clone, Copy, PartialEq, Eq)]
pub enum EngineCall {
    /// Wait, then look the request up.
    FindRequest { delay_ms: u64 },
    /// Wait, then look the flow up.
    FindFlow { delay_ms: u64 },
    /// Accept the request.
    AcceptRequest,
    /// Accept the challenge.
    AcceptSas,
    /// Confirm that the challenge matches.
    ConfirmSas,
    /// Wait, then see whether the challenge is done.
    AwaitSettled { delay_ms: u64 },
    /// Cancel the request.
    CancelRequest,
    /// Cancel the challenge.
    CancelSas,
    /// The operation is over, with this result.
    Finish(Result<(), BotError>),
}

/// Where an accept stands.
#[derive(Debug, Clone, Copy, PartialEq, Eq, Structural)]
pub enum AcceptPhase {
    /// The request is being looked up.
    FindingRequest { attempt: u8 },
    /// The request was not there; the flow is being looked up in its place.
    FindingFlow { attempt: u8 },
    /// The request is being accepted.
    AcceptingRequest,
    /// The request was accepted; its challenge is being looked for.
    AwaitingSas { round: u8 },
    /// The challenge of the accepted request is being accepted.
    AcceptingOfferedSas { round: u8 },
    /// A challenge that was found in place of the request is being
    /// accepted.
    AcceptingFoundSas { presentable: bool },
    /// The accept is over.
    Finished,
}

/// Where a confirm stands.
#[derive(Debug, Clone, Copy, PartialEq, Eq, Structural)]
pub enum ConfirmPhase {
    /// The challenge is being looked up.
    FindingSas { attempt: u8 },
    /// The challenge is being confirmed.
    Confirming,
    /// The confirmation is given time to settle.
    Settling,
    /// The confirm is over.
    Finished,
}

/// Where a cancel stands.
#[derive(Debug, Clone, Copy, PartialEq, Eq, Structural)]
pub enum CancelPhase {
    /// The request is being looked up.
    FindingRequest,
    /// The request is being cancelled.
    CancellingRequest,
    /// The request was not there; the flow is being looked up in its place.
    FindingFlow,
    /// The challenge is being cancelled.
    CancellingSas,
    /// The cancel is over.
    Finished,
}

/// The attempt that follows `attempt` where `limit` attempts are allowed:
/// none once the last one is used up.
pub open spec fn following_attempt(attempt: u8, limit: u8) -> Option<u8> {
    if attempt + 1 < limit {
        Some((attempt + 1) as u8)
    } else {
        None
    }
}

/// The attempt that follows `attempt` where `limit` attempts are allowed.
pub fn next_attempt(attempt: u8, limit: u8) -> (out: Option<u8>)
    ensures
        out == following_attempt(attempt, limit),
{
    if limit > 0 && attempt < limit - 1 {
        Some(attempt + 1)
    } else {
        None
    }
}

/// The message says that the challenge was accepted before.
pub open spec fn says_already_accepted(message: Seq<char>) -> bool {
    mentions(message, "already"@) || mentions(message, "accepted"@)
}

/// The message says that what was asked for was done before.
pub open spec fn says_already_done(message: Seq<char>) -> bool {
    mentions(message, "already"@)
}

/// The message speaks of the state that the challenge is in.
pub open spec fn says_wrong_state(message: Seq<char>) -> bool {
    mentions(message, "state"@)
}

/// Whether the message says that the challenge was accepted before.
pub fn is_already_accepted(message: &str) -> (out: bool)
    ensures
        out == says_already_accepted(message@),
{
    contains(message, "already") || contains(message, "accepted")
}

/// Whether the message says that what was asked for was done before.
pub fn is_already_done(message: &str) -> (out: bool)
    ensures
        out == says_already_done(message@),
{
    contains(message, "already")
}

/// Whether the message speaks of the state that the challenge is in.
pub fn is_wrong_state(message: &str) -> (out: bool)
    ensures
        out == says_wrong_state(message@),
{
    contains(message, "state")
}

/// The end of an accept.
pub open spec fn accept_end(result: Result<(), BotError>) -> (AcceptPhase, EngineCall) {
    (AcceptPhase::Finished, EngineCall::Finish(result))
}

/// The next check for the challenge of an accepted request, or the end of
/// the accept when the rounds are used up: the request was accepted, so the
/// accept succeeded.
pub open spec fn accept_next_round(round: u8) -> (AcceptPhase, EngineCall) {
    match following_attempt(round, SAS_ROUNDS) {
        Some(next) => (
            AcceptPhase::AwaitingSas { round: next },
            EngineCall::FindFlow { delay_ms: SAS_DELAY_MS },
        ),
        None => accept_end(Ok(())),
    }
}

/// How an accept starts.
pub open spec fn accept_start(connected: bool, user_id_valid: bool) -> (AcceptPhase, EngineCall) {
    if !connected {
        accept_end(Err(BotError::NotConnected))
    } else if !user_id_valid {
        accept_end(Err(BotError::InvalidIdentifier))
    } else {
        (AcceptPhase::FindingRequest { attempt: 0 }, EngineCall::FindRequest { delay_ms: 0 })
    }
}

/// One step of an accept.
pub open spec fn accept_next(connected: bool, phase: AcceptPhase, event: EngineEvent) -> (
    AcceptPhase,
    EngineCall,
) {
    if phase is Finished {
        accept_end(Err(BotError::OutOfTurn))
    } else if !connected {
        accept_end(Err(BotError::NotConnected))
    } else {
        match (phase, event) {
            (AcceptPhase::FindingRequest { attempt }, EngineEvent::RequestLookup { found }) => {
                if found {
                    (AcceptPhase::AcceptingRequest, EngineCall::AcceptRequest)
                } else {
                    (AcceptPhase::FindingFlow { attempt }, EngineCall::FindFlow { delay_ms: 0 })
                }
            },
            (AcceptPhase::FindingFlow { attempt }, EngineEvent::FlowLookup(sighting)) => {
                match sighting {
                    FlowSighting::Absent => match following_attempt(attempt, LOOKUP_ATTEMPTS) {
                        Some(next) => (
                            AcceptPhase::FindingRequest { attempt: next },
                            EngineCall::FindRequest { delay_ms: LOOKUP_DELAY_MS },
                        ),
                        None => accept_end(Err(BotError::NotFound)),
                    },
                    FlowSighting::Sas { can_be_presented, is_done } => (
                        AcceptPhase::AcceptingFoundSas { presentable: can_be_presented },
                        EngineCall::AcceptSas,
                    ),
                    FlowSighting::OtherMethod => accept_end(Err(BotError::Unsupported)),
                }
            },
            (AcceptPhase::AcceptingRequest, EngineEvent::CallSucceeded) => (
                AcceptPhase::AwaitingSas { round: 0 },
                EngineCall::FindFlow { delay_ms: SAS_DELAY_MS },
            ),
            (AcceptPhase::AcceptingRequest, EngineEvent::CallFailed { message }) => {
                if says_already_accepted(message@) {
                    (
                        AcceptPhase::AwaitingSas { round: 0 },
                        EngineCall::FindFlow { delay_ms: SAS_DELAY_MS },
                    )
                } else {
                    accept_end(Err(BotError::RemoteRejected))
                }
            },
            (AcceptPhase::AwaitingSas { round }, EngineEvent::FlowLookup(sighting)) => {
                if sighting is Sas {
                    (AcceptPhase::AcceptingOfferedSas { round }, EngineCall::AcceptSas)
                } else {
                    accept_next_round(round)
                }
            },
            (AcceptPhase::AcceptingOfferedSas { round }, EngineEvent::CallSucceeded) => accept_end(
                Ok(()),
            ),
            (AcceptPhase::AcceptingOfferedSas { round }, EngineEvent::CallFailed { message }) => {
                if says_already_accepted(message@) {
                    accept_end(Ok(()))
                } else {
                    accept_next_round(round)
                }
            },
            (AcceptPhase::AcceptingFoundSas { presentable }, EngineEvent::CallSucceeded) =>
                accept_end(Ok(())),
            (
                AcceptPhase::AcceptingFoundSas { presentable },
                EngineEvent::CallFailed { message },
            ) => {
                if says_already_accepted(message@) || (!presentable && says_wrong_state(
                    message@,
                )) {
                    accept_end(Ok(()))
                } else {
                    accept_end(Err(BotError::RemoteRejected))
                }
            },
            _ => accept_end(Err(BotError::OutOfTurn)),
        }
    }
}

/// An upper bound on the steps that an accept still takes.
pub open spec fn accept_steps_left(phase: AcceptPhase) -> nat {
    match phase {
        AcceptPhase::Finished => 0,
        AcceptPhase::AcceptingFoundSas { presentable } => 1,
        AcceptPhase::AcceptingOfferedSas { round } => if round < 9 {
            (2 * (9 - round) + 1) as nat
        } else {
            1
        },
        AcceptPhase::AwaitingSas { round } => if round < 9 {
            (2 * (9 - round) + 2) as nat
        } else {
            2
        },
        AcceptPhase::AcceptingRequest => 21,
        AcceptPhase::FindingFlow { attempt } => if attempt < 4 {
            (2 * (4 - attempt) + 22) as nat
        } else {
            22
        },
        AcceptPhase::FindingRequest { attempt } => if attempt < 4 {
            (2 * (4 - attempt) + 23) as nat
        } else {
            23
        },
    }
}

/// Starts an accept. It ends at once where there is no connection or the
/// user id is not well-formed; otherwise the request is looked up.
pub fn accept_begin(connected: bool, user_id_valid: bool) -> (out: (AcceptPhase, EngineCall))
    ensures
        out == accept_start(connected, user_id_valid),
{
    if !connected {
        (AcceptPhase::Finished, EngineCall::Finish(Err(BotError::NotConnected)))
    } else if !user_id_valid {
        (AcceptPhase::Finished, EngineCall::Finish(Err(BotError::InvalidIdentifier)))
    } else {
        (AcceptPhase::FindingRequest { attempt: 0 }, EngineCall::FindRequest { delay_ms: 0 })
    }
}

/// The next check for the challenge, or the end of the accept.
fn accept_round_after(round: u8) -> (out: (AcceptPhase, EngineCall))
    ensures
        out == accept_next_round(round),
{
    match next_attempt(round, SAS_ROUNDS) {
        Some(next) => (
            AcceptPhase::AwaitingSas { round: next },
            EngineCall::FindFlow { delay_ms: SAS_DELAY_MS },
        ),
        None => (AcceptPhase::Finished, EngineCall::Finish(Ok(()))),
    }
}

/// Takes one step of an accept: from the phase it is in and what the engine
/// answered, to the next phase and the next call.
///
/// A request that is found is accepted, and its challenge is then looked for
/// and accepted too, so that the codes can be shown without another round
/// trip. A challenge that is found in place of the request is accepted
/// directly. A failure that says the request or the challenge was accepted
/// before counts as success. A request that is found neither way within the attempts allowed
/// ends the accept with `NotFound`. Without a connection the accept ends with
/// `NotConnected`, and an answer that the phase did not wait for ends it with
/// `OutOfTurn`.
pub fn accept_step(connected: bool, phase: AcceptPhase, event: &EngineEvent) -> (out: (
    AcceptPhase,
    EngineCall,
))
    ensures
        out == accept_next(connected, phase, *event),
{
    let out_of_turn = (AcceptPhase::Finished, EngineCall::Finish(Err(BotError::OutOfTurn)));
    let done = (AcceptPhase::Finished, EngineCall::Finish(Ok(())));
    let rejected = (AcceptPhase::Finished, EngineCall::Finish(Err(BotError::RemoteRejected)));
    if !connected {
        return match phase {
            AcceptPhase::Finished => out_of_turn,
            _ => (AcceptPhase::Finished, EngineCall::Finish(Err(BotError::NotConnected))),
        };
    }
    match phase {
        AcceptPhase::Finished => out_of_turn,
        AcceptPhase::FindingRequest { attempt } => match event {
            EngineEvent::RequestLookup { found } => {
                if *found {
                    (AcceptPhase::AcceptingRequest, EngineCall::AcceptRequest)
                } else {
                    (AcceptPhase::FindingFlow { attempt }, EngineCall::FindFlow { delay_ms: 0 })
                }
            },
            _ => out_of_turn,
        },
        AcceptPhase::FindingFlow { attempt } => match event {
            EngineEvent::FlowLookup(FlowSighting::Absent) => {
                match next_attempt(attempt, LOOKUP_ATTEMPTS) {
                    Some(next) => (
                        AcceptPhase::FindingRequest { attempt: next },
                        EngineCall::FindRequest { delay_ms: LOOKUP_DELAY_MS },
                    ),
                    None => (AcceptPhase::Finished, EngineCall::Finish(Err(BotError::NotFound))),
                }
            },
            EngineEvent::FlowLookup(FlowSighting::Sas { can_be_presented, is_done }) => (
                AcceptPhase::AcceptingFoundSas { presentable: *can_be_presented },
                EngineCall::AcceptSas,
            ),
            EngineEvent::FlowLookup(FlowSighting::OtherMethod) => (
                AcceptPhase::Finished,
                EngineCall::Finish(Err(BotError::Unsupported)),
            ),
            _ => out_of_turn,
        },
        AcceptPhase::AcceptingRequest => match event {
            EngineEvent::CallSucceeded => (
                AcceptPhase::AwaitingSas { round: 0 },
                EngineCall::FindFlow { delay_ms: SAS_DELAY_MS },
            ),
            EngineEvent::CallFailed { message } => {
                if is_already_accepted(message.as_str()) {
                    (
                        AcceptPhase::AwaitingSas { round: 0 },
                        EngineCall::FindFlow { delay_ms: SAS_DELAY_MS },
                    )
                } else {
                    rejected
                }
            },
            _ => out_of_turn,
        },
        AcceptPhase::AwaitingSas { round } => match event {
            EngineEvent::FlowLookup(FlowSighting::Sas { can_be_presented, is_done }) => (
                AcceptPhase::AcceptingOfferedSas { round },
                EngineCall::AcceptSas,
            ),
            EngineEvent::FlowLookup(_) => accept_round_after(round),
            _ => out_of_turn,
        },
        AcceptPhase::AcceptingOfferedSas { round } => match event {
            EngineEvent::CallSucceeded => done,
            EngineEvent::CallFailed { message } => {
                if is_already_accepted(message.as_str()) {
                    done
                } else {
                    accept_round_after(round)
                }
            },
            _ => out_of_turn,
        },
        AcceptPhase::AcceptingFoundSas { presentable } => match event {
            EngineEvent::CallSucceeded => done,
            EngineEvent::CallFailed { message } => {
                if is_already_accepted(message.as_str()) || (!presentable && is_wrong_state(
                    message.as_str(),
                )) {
                    done
                } else {
                    rejected
                }
            },
            _ => out_of_turn,
        },
    }
}

/// Every step of an accept that is not over brings it nearer to its end, and
/// the call is `Finish` exactly when the accept is over. An accept therefore
/// ends after at most 33 steps.
pub proof fn lemma_accept_step_progress(connected: bool, phase: AcceptPhase, event: EngineEvent)
    ensures
        !(phase is Finished) ==> accept_steps_left(accept_next(connected, phase, event).0)
            < accept_steps_left(phase),
        accept_next(connected, phase, event).1 is Finish <==> accept_next(
            connected,
            phase,
            event,
        ).0 is Finished,
        accept_steps_left(phase) <= 33,
{
}

/// A failure that says the challenge was accepted before ends the accept
/// well, whichever way the challenge was found; such a failure of the
/// request lets the accept go on as if the request had been accepted now.
pub proof fn lemma_already_accepted_is_success(
    phase: AcceptPhase,
    message: String,
)
    requires
        phase is AcceptingOfferedSas || phase is AcceptingFoundSas,
        says_already_accepted(message@),
    ensures
        accept_next(true, phase, EngineEvent::CallFailed { message }) == accept_end(Ok(())),
        accept_next(true, AcceptPhase::AcceptingRequest, EngineEvent::CallFailed { message })
            == accept_next(true, AcceptPhase::AcceptingRequest, EngineEvent::CallSucceeded),
{
}

/// A failure of a confirm or a cancel that says it was done before has the
/// effect of a success.
pub proof fn lemma_already_done_is_success(message: String, state: CoordinatorView, id: Seq<char>)
    requires
        says_already_done(message@),
    ensures
        confirm_next(true, ConfirmPhase::Confirming, EngineEvent::CallFailed { message })
            == confirm_next(true, ConfirmPhase::Confirming, EngineEvent::CallSucceeded),
        cancel_next(true, CancelPhase::CancellingRequest, EngineEvent::CallFailed { message })
            == cancel_end(Ok(())),
        cancel_next(true, CancelPhase::CancellingSas, EngineEvent::CallFailed { message })
            == cancel_end(Ok(())),
        cancel_effect(
            true,
            CancelPhase::CancellingRequest,
            id,
            EngineEvent::CallFailed { message },
            state,
        ) == state.without(id),
{
}

/// An accept from its start through a sequence of answers: the phase it is
/// then in, and the call it then makes.
pub open spec fn accept_run(connected: bool, user_id_valid: bool, events: Seq<EngineEvent>) -> (
    AcceptPhase,
    EngineCall,
)
    decreases events.len(),
{
    if events.len() == 0 {
        accept_start(connected, user_id_valid)
    } else {
        accept_next(
            connected,
            accept_run(connected, user_id_valid, events.drop_last()).0,
            events.last(),
        )
    }
}

/// The answers of an engine that knows nothing of the request, to
/// `attempts` attempts: neither the request nor a flow is found.
pub open spec fn nothing_found(attempts: nat) -> Seq<EngineEvent> {
    Seq::new(
        2 * attempts,
        |i: int|
            if i % 2 == 0 {
                EngineEvent::RequestLookup { found: false }
            } else {
                EngineEvent::FlowLookup(FlowSighting::Absent)
            },
    )
}

/// Where an accept stands after `steps` answers of an engine that knows
/// nothing of the request.
proof fn lemma_nothing_found_prefix(steps: nat)
    requires
        steps <= 10,
    ensures
        ({
            let reached = accept_run(true, true, nothing_found(5).take(steps as int));
            if steps == 10 {
                reached == accept_end(Err(BotError::NotFound))
            } else if steps % 2 == 0 {
                reached.0 == (AcceptPhase::FindingRequest { attempt: (steps / 2) as u8 })
                    && !(reached.1 is Finish)
            } else {
                reached.0 == (AcceptPhase::FindingFlow { attempt: (steps / 2) as u8 }) && !(
                reached.1 is Finish)
            }
        }),
    decreases steps,
{
    let events = nothing_found(5).take(steps as int);
    if steps > 0 {
        lemma_nothing_found_prefix((steps - 1) as nat);
        assert(events.drop_last() =~= nothing_found(5).take(steps - 1));
        assert(events.last() == nothing_found(5)[steps - 1]);
    }
}

/// An accept of a request that the engine never shows, neither as a request
/// nor as a flow, ends with `NotFound` once the attempts are used up, and
/// not before.
pub proof fn lemma_accept_unknown_request_not_found()
    ensures
        accept_run(true, true, nothing_found(5)) == accept_end(Err(BotError::NotFound)),
        forall|steps: int|
            0 <= steps < 10 ==> !(#[trigger] accept_run(
                true,
                true,
                nothing_found(5).take(steps),
            ).1 is Finish),
{
    lemma_nothing_found_prefix(10);
    assert(nothing_found(5).take(10) =~= nothing_found(5));
    assert forall|steps: int| 0 <= steps < 10 implies !(#[trigger] accept_run(
        true,
        true,
        nothing_found(5).take(steps),
    ).1 is Finish) by {
        lemma_nothing_found_prefix(steps as nat);
    }
}

/// The end of a confirm.
pub open spec fn confirm_end(result: Result<(), BotError>) -> (ConfirmPhase, EngineCall) {
    (ConfirmPhase::Finished, EngineCall::Finish(result))
}

/// How a confirm starts.
pub open spec fn confirm_start(connected: bool, user_id_valid: bool) -> (
    ConfirmPhase,
    EngineCall,
) {
    if !connected {
        confirm_end(Err(BotError::NotConnected))
    } else if !user_id_valid {
        confirm_end(Err(BotError::InvalidIdentifier))
    } else {
        (ConfirmPhase::FindingSas { attempt: 0 }, EngineCall::FindFlow { delay_ms: 0 })
    }
}

/// One step of a confirm: the next phase and the next call.
pub open spec fn confirm_next(connected: bool, phase: ConfirmPhase, event: EngineEvent) -> (
    ConfirmPhase,
    EngineCall,
) {
    if phase is Finished {
        confirm_end(Err(BotError::OutOfTurn))
    } else if !connected {
        confirm_end(Err(BotError::NotConnected))
    } else {
        match (phase, event) {
            (ConfirmPhase::FindingSas { attempt }, EngineEvent::FlowLookup(sighting)) => {
                if sighting is Sas {
                    (ConfirmPhase::Confirming, EngineCall::ConfirmSas)
                } else {
                    match following_attempt(attempt, LOOKUP_ATTEMPTS) {
                        Some(next) => (
                            ConfirmPhase::FindingSas { attempt: next },
                            EngineCall::FindFlow { delay_ms: LOOKUP_DELAY_MS },
                        ),
                        None => confirm_end(Err(BotError::NotFound)),
                    }
                }
            },
            (ConfirmPhase::Confirming, EngineEvent::CallSucceeded) => (
                ConfirmPhase::Settling,
                EngineCall::AwaitSettled { delay_ms: SETTLE_DELAY_MS },
            ),
            (ConfirmPhase::Confirming, EngineEvent::CallFailed { message }) => {
                if says_already_done(message@) {
                    (ConfirmPhase::Settling, EngineCall::AwaitSettled { delay_ms: SETTLE_DELAY_MS })
                } else {
                    confirm_end(Err(BotError::RemoteRejected))
                }
            },
            (ConfirmPhase::Settling, EngineEvent::Settled { is_done }) => confirm_end(Ok(())),
            _ => confirm_end(Err(BotError::OutOfTurn)),
        }
    }
}

/// The tracker after one step of a confirm: the slot is freed where the
/// confirmed challenge is seen done, and nothing changes otherwise.
pub open spec fn confirm_effect(
    connected: bool,
    phase: ConfirmPhase,
    event: EngineEvent,
    state: CoordinatorView,
) -> CoordinatorView {
    match (phase, event) {
        (ConfirmPhase::Settling, EngineEvent::Settled { is_done }) if connected => state.confirmed(
            is_done,
        ),
        _ => state,
    }
}

/// An upper bound on the steps that a confirm still takes.
pub open spec fn confirm_steps_left(phase: ConfirmPhase) -> nat {
    match phase {
        ConfirmPhase::Finished => 0,
        ConfirmPhase::Settling => 1,
        ConfirmPhase::Confirming => 2,
        ConfirmPhase::FindingSas { attempt } => if attempt < 4 {
            (4 - attempt + 3) as nat
        } else {
            3
        },
    }
}

/// Starts a confirm. It ends at once where there is no connection or the
/// user id is not well-formed; otherwise the challenge is looked up.
pub fn confirm_begin(connected: bool, user_id_valid: bool) -> (out: (ConfirmPhase, EngineCall))
    ensures
        out == confirm_start(connected, user_id_valid),
{
    if !connected {
        (ConfirmPhase::Finished, EngineCall::Finish(Err(BotError::NotConnected)))
    } else if !user_id_valid {
        (ConfirmPhase::Finished, EngineCall::Finish(Err(BotError::InvalidIdentifier)))
    } else {
        (ConfirmPhase::FindingSas { attempt: 0 }, EngineCall::FindFlow { delay_ms: 0 })
    }
}

/// Takes one step of a confirm.
///
/// The challenge is looked up, within the attempts allowed; a challenge that
/// does not turn up ends the confirm with `NotFound`. A challenge that is
/// found is confirmed and given a moment to settle; a failure that says it
/// was confirmed before counts as a confirmation. Where it is then seen
/// done, the slot of the tracker is freed. Without a connection the confirm
/// ends with `NotConnected`, and an answer that the phase did not wait for
/// ends it with `OutOfTurn`.
pub fn confirm_step(
    tracker: &mut VerificationCoordinator,
    connected: bool,
    phase: ConfirmPhase,
    event: &EngineEvent,
) -> (out: (ConfirmPhase, EngineCall))
    ensures
        out == confirm_next(connected, phase, *event),
        final(tracker)@ == confirm_effect(connected, phase, *event, old(tracker)@),
        old(tracker)@.wf() ==> final(tracker)@.wf(),
{
    let out_of_turn = (ConfirmPhase::Finished, EngineCall::Finish(Err(BotError::OutOfTurn)));
    if !connected {
        return match phase {
            ConfirmPhase::Finished => out_of_turn,
            _ => (ConfirmPhase::Finished, EngineCall::Finish(Err(BotError::NotConnected))),
        };
    }
    match phase {
        ConfirmPhase::Finished => out_of_turn,
        ConfirmPhase::FindingSas { attempt } => match event {
            EngineEvent::FlowLookup(FlowSighting::Sas { can_be_presented, is_done }) => (
                ConfirmPhase::Confirming,
                EngineCall::ConfirmSas,
            ),
            EngineEvent::FlowLookup(_) => match next_attempt(attempt, LOOKUP_ATTEMPTS) {
                Some(next) => (
                    ConfirmPhase::FindingSas { attempt: next },
                    EngineCall::FindFlow { delay_ms: LOOKUP_DELAY_MS },
                ),
                None => (ConfirmPhase::Finished, EngineCall::Finish(Err(BotError::NotFound))),
            },
            _ => out_of_turn,
        },
        ConfirmPhase::Confirming => match event {
            EngineEvent::CallSucceeded => (
                ConfirmPhase::Settling,
                EngineCall::AwaitSettled { delay_ms: SETTLE_DELAY_MS },
            ),
            EngineEvent::CallFailed { message } => {
                if is_already_done(message.as_str()) {
                    (ConfirmPhase::Settling, EngineCall::AwaitSettled { delay_ms: SETTLE_DELAY_MS })
                } else {
                    (ConfirmPhase::Finished, EngineCall::Finish(Err(BotError::RemoteRejected)))
                }
            },
            _ => out_of_turn,
        },
        ConfirmPhase::Settling => match event {
            EngineEvent::Settled { is_done } => {
                tracker.on_confirmed(*is_done);
                (ConfirmPhase::Finished, EngineCall::Finish(Ok(())))
            },
            _ => out_of_turn,
        },
    }
}

/// Every step of a confirm that is not over brings it nearer to its end, and
/// the call is `Finish` exactly when the confirm is over.
pub proof fn lemma_confirm_step_progress(connected: bool, phase: ConfirmPhase, event: EngineEvent)
    ensures
        !(phase is Finished) ==> confirm_steps_left(confirm_next(connected, phase, event).0)
            < confirm_steps_left(phase),
        confirm_next(connected, phase, event).1 is Finish <==> confirm_next(
            connected,
            phase,
            event,
        ).0 is Finished,
        confirm_steps_left(phase) <= 7,
{
}

/// A confirm whose challenge is seen done after the confirmation leaves the
/// slot free, and ends well.
pub proof fn lemma_confirm_done_frees_slot(state: CoordinatorView)
    ensures
        confirm_effect(
            true,
            ConfirmPhase::Settling,
            EngineEvent::Settled { is_done: true },
            state,
        ).active is None,
        confirm_next(true, ConfirmPhase::Settling, EngineEvent::Settled { is_done: true })
            == confirm_end(Ok(())),
{
}

/// A confirm whose challenge never turns up ends with `NotFound` at the last
/// attempt, and goes on to the next attempt before.
pub proof fn lemma_confirm_missing_challenge(attempt: u8, sighting: FlowSighting)
    requires
        !(sighting is Sas),
    ensures
        confirm_next(
            true,
            ConfirmPhase::FindingSas { attempt },
            EngineEvent::FlowLookup(sighting),
        ).1 == if attempt + 1 < LOOKUP_ATTEMPTS {
            EngineCall::FindFlow { delay_ms: LOOKUP_DELAY_MS }
        } else {
            EngineCall::Finish(Err(BotError::NotFound))
        },
{
}

/// The end of a cancel.
pub open spec fn cancel_end(result: Result<(), BotError>) -> (CancelPhase, EngineCall) {
    (CancelPhase::Finished, EngineCall::Finish(result))
}

/// How a cancel starts.
pub open spec fn cancel_start(connected: bool, user_id_valid: bool) -> (CancelPhase, EngineCall) {
    if !connected {
        cancel_end(Err(BotError::NotConnected))
    } else if !user_id_valid {
        cancel_end(Err(BotError::InvalidIdentifier))
    } else {
        (CancelPhase::FindingRequest, EngineCall::FindRequest { delay_ms: 0 })
    }
}

/// The end of a cancel whose cancellation the engine refused: a refusal
/// that says the cancellation was done before counts as success.
pub open spec fn cancel_refused(message: Seq<char>) -> (CancelPhase, EngineCall) {
    if says_already_done(message) {
        cancel_end(Ok(()))
    } else {
        cancel_end(Err(BotError::RemoteRejected))
    }
}

/// One step of a cancel: the next phase and the next call.
pub open spec fn cancel_next(connected: bool, phase: CancelPhase, event: EngineEvent) -> (
    CancelPhase,
    EngineCall,
) {
    if phase is Finished {
        cancel_end(Err(BotError::OutOfTurn))
    } else if !connected {
        cancel_end(Err(BotError::NotConnected))
    } else {
        match (phase, event) {
            (CancelPhase::FindingRequest, EngineEvent::RequestLookup { found }) => {
                if found {
                    (CancelPhase::CancellingRequest, EngineCall::CancelRequest)
                } else {
                    (CancelPhase::FindingFlow, EngineCall::FindFlow { delay_ms: 0 })
                }
            },
            (CancelPhase::CancellingRequest, EngineEvent::CallSucceeded) => cancel_end(Ok(())),
            (CancelPhase::CancellingRequest, EngineEvent::CallFailed { message }) => {
                cancel_refused(message@)
            },
            (CancelPhase::FindingFlow, EngineEvent::FlowLookup(sighting)) => {
                if sighting is Sas {
                    (CancelPhase::CancellingSas, EngineCall::CancelSas)
                } else {
                    cancel_end(Ok(()))
                }
            },
            (CancelPhase::CancellingSas, EngineEvent::CallSucceeded) => cancel_end(Ok(())),
            (CancelPhase::CancellingSas, EngineEvent::CallFailed { message }) => cancel_refused(
                message@,
            ),
            _ => cancel_end(Err(BotError::OutOfTurn)),
        }
    }
}

/// The tracker after one step of a cancel: the request is forgotten exactly
/// when the step ends the cancel well.
pub open spec fn cancel_effect(
    connected: bool,
    phase: CancelPhase,
    request_id: Seq<char>,
    event: EngineEvent,
    state: CoordinatorView,
) -> CoordinatorView {
    if cancel_next(connected, phase, event) == cancel_end(Ok(())) {
        state.without(request_id)
    } else {
        state
    }
}

/// An upper bound on the steps that a cancel still takes.
pub open spec fn cancel_steps_left(phase: CancelPhase) -> nat {
    match phase {
        CancelPhase::Finished => 0,
        CancelPhase::CancellingSas => 1,
        CancelPhase::CancellingRequest => 1,
        CancelPhase::FindingFlow => 2,
        CancelPhase::FindingRequest => 3,
    }
}

/// Starts a cancel. It ends at once where there is no connection or the user
/// id is not well-formed; otherwise the request is looked up.
pub fn cancel_begin(connected: bool, user_id_valid: bool) -> (out: (CancelPhase, EngineCall))
    ensures
        out == cancel_start(connected, user_id_valid),
{
    if !connected {
        (CancelPhase::Finished, EngineCall::Finish(Err(BotError::NotConnected)))
    } else if !user_id_valid {
        (CancelPhase::Finished, EngineCall::Finish(Err(BotError::InvalidIdentifier)))
    } else {
        (CancelPhase::FindingRequest, EngineCall::FindRequest { delay_ms: 0 })
    }
}

/// Takes one step of a cancel.
///
/// The request is cancelled where the engine still shows it as a request,
/// else its challenge where the engine shows one. Once the engine has taken
/// the cancellation, and also where it shows neither a request nor a
/// challenge of this kind (the request is then taken as resolved already),
/// the tracker forgets the request and frees the slot if that request held
/// it. A refusal of the engine that says the cancellation was done before
/// counts as a cancellation. Any other refusal ends the cancel with
/// `RemoteRejected` and leaves the tracker as it was.
pub fn cancel_step(
    tracker: &mut VerificationCoordinator,
    connected: bool,
    phase: CancelPhase,
    request_id: &str,
    event: &EngineEvent,
) -> (out: (CancelPhase, EngineCall))
    ensures
        out == cancel_next(connected, phase, *event),
        final(tracker)@ == cancel_effect(connected, phase, request_id@, *event, old(tracker)@),
        old(tracker)@.wf() ==> final(tracker)@.wf(),
{
    let out_of_turn = (CancelPhase::Finished, EngineCall::Finish(Err(BotError::OutOfTurn)));
    let rejected = (CancelPhase::Finished, EngineCall::Finish(Err(BotError::RemoteRejected)));
    if !connected {
        return match phase {
            CancelPhase::Finished => out_of_turn,
            _ => (CancelPhase::Finished, EngineCall::Finish(Err(BotError::NotConnected))),
        };
    }
    match phase {
        CancelPhase::Finished => out_of_turn,
        CancelPhase::FindingRequest => match event {
            EngineEvent::RequestLookup { found } => {
                if *found {
                    (CancelPhase::CancellingRequest, EngineCall::CancelRequest)
                } else {
                    (CancelPhase::FindingFlow, EngineCall::FindFlow { delay_ms: 0 })
                }
            },
            _ => out_of_turn,
        },
        CancelPhase::CancellingRequest | CancelPhase::CancellingSas => match event {
            EngineEvent::CallSucceeded => {
                tracker.forget(request_id);
                (CancelPhase::Finished, EngineCall::Finish(Ok(())))
            },
            EngineEvent::CallFailed { message } => {
                if is_already_done(message.as_str()) {
                    tracker.forget(request_id);
                    (CancelPhase::Finished, EngineCall::Finish(Ok(())))
                } else {
                    rejected
                }
            },
            _ => out_of_turn,
        },
        CancelPhase::FindingFlow => match event {
            EngineEvent::FlowLookup(FlowSighting::Sas { can_be_presented, is_done }) => (
                CancelPhase::CancellingSas,
                EngineCall::CancelSas,
            ),
            EngineEvent::FlowLookup(_) => {
                tracker.forget(request_id);
                (CancelPhase::Finished, EngineCall::Finish(Ok(())))
            },
            _ => out_of_turn,
        },
    }
}

/// Every step of a cancel that is not over brings it nearer to its end, and
/// the call is `Finish` exactly when the cancel is over.
pub proof fn lemma_cancel_step_progress(connected: bool, phase: CancelPhase, event: EngineEvent)
    ensures
        !(phase is Finished) ==> cancel_steps_left(cancel_next(connected, phase, event).0)
            < cancel_steps_left(phase),
        cancel_next(connected, phase, event).1 is Finish <==> cancel_next(
            connected,
            phase,
            event,
        ).0 is Finished,
        cancel_steps_left(phase) <= 3,
{
}

/// Once a cancel has ended well, the request is no longer tracked and does
/// not hold the slot, whatever phase the cancel ended from; the other
/// requests are tracked as before.
pub proof fn lemma_cancel_forgets_request(
    connected: bool,
    phase: CancelPhase,
    request_id: Seq<char>,
    event: EngineEvent,
    state: CoordinatorView,
)
    requires
        cancel_next(connected, phase, event).1 == EngineCall::Finish(Ok(())),
    ensures
        ({
            let after = cancel_effect(connected, phase, request_id, event, state);
            &&& !after.tracks(request_id)
            &&& !(after.active matches Some(a) && a.request_id == request_id)
            &&& forall|other: Seq<char>|
                other != request_id ==> (after.tracks(other) <==> state.tracks(other))
        }),
{
    crate::verification::lemma_without_forgets(state, request_id);
}

/// A cancel of a request that the engine shows neither as a request nor as
/// a flow ends well after two lookups.
pub proof fn lemma_cancel_unknown_request_succeeds()
    ensures
        cancel_next(
            true,
            CancelPhase::FindingRequest,
            EngineEvent::RequestLookup { found: false },
        ) == (CancelPhase::FindingFlow, EngineCall::FindFlow { delay_ms: 0 }),
        cancel_next(
            true,
            CancelPhase::FindingFlow,
            EngineEvent::FlowLookup(FlowSighting::Absent),
        ) == cancel_end(Ok(())),
{
}

} // verus!
