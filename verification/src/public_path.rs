//! The public submission path: sign, broadcast to the transaction pool,
//! poll for the receipt with exponential backoff, and classify the
//! on-chain outcome.
//!
//! The path is a state machine.  The caller performs the network work
//! (each step names the next action) and feeds the result back as an
//! event; every decision between events is made — and verified — here.

use vstd::prelude::*;
use crate::backoff::{initial_poll_state, next_backoff_delay, spec_backoff_delay, ReceiptPollState,
    INITIAL_DELAY_SECS, MAX_ATTEMPTS};

verus! {

/// The node's suggested EIP-1559 fee values.
#[derive(Clone, Copy, Debug, PartialEq, Eq, Structural)]
pub struct FeeSuggestion {
    /// Suggested fee cap per gas.
    pub max_fee_per_gas: u128,
    /// Suggested priority fee per gas.
    pub max_priority_fee_per_gas: u128,
}

/// Which of the four concurrently fetched prerequisites failed.
#[derive(Clone, Copy, Debug, PartialEq, Eq, Structural)]
pub enum PrereqError {
    /// The sender's transaction count could not be fetched.
    NonceUnavailable,
    /// The node's fee suggestion could not be fetched.
    FeeEstimateUnavailable,
    /// The router contract handle could not be resolved.
    RouterUnavailable,
    /// The signing-capable client could not be resolved.
    ClientUnavailable,
}

/// Joins the four concurrent prerequisite fetches of an attempt: the
/// sender's nonce, the node's fee suggestion, the router handle and the
/// signing client.  All four must succeed; the first failure (in that
/// order) aborts the attempt naming the failed prerequisite.
pub fn check_prereqs(
    nonce: Option<u64>,
    fees: Option<FeeSuggestion>,
    router_ready: bool,
    client_ready: bool,
) -> (r: Result<(u64, FeeSuggestion), PrereqError>)
    ensures
        r == Err::<(u64, FeeSuggestion), PrereqError>(PrereqError::NonceUnavailable) <==> nonce
            is None,
        r == Err::<(u64, FeeSuggestion), PrereqError>(PrereqError::FeeEstimateUnavailable) <==> (
        nonce is Some && fees is None),
        r == Err::<(u64, FeeSuggestion), PrereqError>(PrereqError::RouterUnavailable) <==> (nonce
            is Some && fees is Some && !router_ready),
        r == Err::<(u64, FeeSuggestion), PrereqError>(PrereqError::ClientUnavailable) <==> (nonce
            is Some && fees is Some && router_ready && !client_ready),
        r matches Ok(p) ==> nonce == Some(p.0) && fees == Some(p.1) && router_ready
            && client_ready,
        r is Ok <==> (nonce is Some && fees is Some && router_ready && client_ready),
{
    match nonce {
        None => Err(PrereqError::NonceUnavailable),
        Some(n) => match fees {
            None => Err(PrereqError::FeeEstimateUnavailable),
            Some(f) => {
                if !router_ready {
                    Err(PrereqError::RouterUnavailable)
                } else if !client_ready {
                    Err(PrereqError::ClientUnavailable)
                } else {
                    Ok((n, f))
                }
            },
        },
    }
}

/// Terminal classification of a public-path attempt.
#[derive(Clone, Copy, Debug, PartialEq, Eq, Structural)]
pub enum PublicOutcome {
    /// A receipt with the success status code was observed.
    Confirmed,
    /// A receipt with any other status code was observed.
    Reverted { status: u64 },
    /// No receipt was observed within the backoff budget.
    TimedOut,
    /// A transport-level failure (signing, broadcasting, polling, or a
    /// receipt carrying no status at all).
    RpcError,
}

/// Classifies an observed receipt status code: the success code means
/// the swap confirmed; anything else is an on-chain revert, surfaced
/// with the status value.
pub fn classify_receipt(status: u64) -> (o: PublicOutcome)
    ensures
        status == 1 ==> o == PublicOutcome::Confirmed,
        status != 1 ==> o == (PublicOutcome::Reverted { status }),
{
    if status == 1 {
        PublicOutcome::Confirmed
    } else {
        PublicOutcome::Reverted { status }
    }
}

/// The public path's phase: sign, broadcast, poll, done.
#[derive(Clone, Copy, Debug, PartialEq, Eq, Structural)]
pub enum PublicPhase {
    /// The plan is built and awaits signing.
    Built,
    /// The transaction is signed and awaits broadcast.
    Signed,
    /// The transaction is in the pool; the receipt is being polled.
    Polling { poll: ReceiptPollState },
    /// A terminal outcome was reached.
    Done { outcome: PublicOutcome },
}

impl PublicPhase {
    /// Phase invariant: a polling phase carries a well-formed backoff
    /// state.
    pub open spec fn wf(&self) -> bool {
        match *self {
            PublicPhase::Polling { poll } => poll.wf(),
            _ => true,
        }
    }
}

/// What happened since the last step.
#[derive(Clone, Copy, Debug, PartialEq, Eq, Structural)]
pub enum PublicEvent {
    /// Signing succeeded.
    SignedOk,
    /// Signing failed.
    SignFailed,
    /// The transaction reached the pool.
    BroadcastOk,
    /// The broadcast failed at the transport level.
    BroadcastFailed,
    /// A receipt with the given status code was observed.
    Receipt { status: u64 },
    /// A receipt was observed but carried no status code.
    ReceiptWithoutStatus,
    /// No receipt yet.
    NoReceipt,
    /// Polling failed at the transport level.
    PollFailed,
}

/// What the caller must do next.
#[derive(Clone, Copy, Debug, PartialEq, Eq, Structural)]
pub enum PublicAction {
    /// Sign the plan.
    Sign,
    /// Broadcast the signed transaction.
    Broadcast,
    /// Poll for the receipt now.
    PollReceipt,
    /// Sleep for the given seconds, then poll again.
    Wait { seconds: u64 },
    /// The attempt is over.
    Stop,
}

/// Which events can arrive in which phase.
pub open spec fn spec_public_event_fits(phase: PublicPhase, event: PublicEvent) -> bool {
    match phase {
        PublicPhase::Built => event == PublicEvent::SignedOk || event == PublicEvent::SignFailed,
        PublicPhase::Signed => event == PublicEvent::BroadcastOk || event
            == PublicEvent::BroadcastFailed,
        PublicPhase::Polling { .. } => match event {
            PublicEvent::Receipt { .. } => true,
            PublicEvent::ReceiptWithoutStatus => true,
            PublicEvent::NoReceipt => true,
            PublicEvent::PollFailed => true,
            _ => false,
        },
        PublicPhase::Done { .. } => false,
    }
}

/// One step of the public path.  Signing and broadcast failures are
/// transport errors; an observed receipt is classified at once (a
/// success on the first poll confirms with no retry); an empty poll
/// waits the scheduled backoff delay and retries until the attempt
/// bound, after which the attempt times out.
pub fn public_step(phase: &PublicPhase, event: &PublicEvent) -> (r: (PublicPhase, PublicAction))
    requires
        phase.wf(),
        spec_public_event_fits(*phase, *event),
    ensures
        r.0.wf(),
        *phase == PublicPhase::Built && *event == PublicEvent::SignedOk ==> r == (
            PublicPhase::Signed,
            PublicAction::Broadcast,
        ),
        *phase == PublicPhase::Built && *event == PublicEvent::SignFailed ==> r == (
            (PublicPhase::Done { outcome: PublicOutcome::RpcError }),
            PublicAction::Stop,
        ),
        *phase == PublicPhase::Signed && *event == PublicEvent::BroadcastOk ==> r == (
            (PublicPhase::Polling {
                poll: ReceiptPollState { delay_secs: INITIAL_DELAY_SECS, attempts: 0 },
            }),
            PublicAction::PollReceipt,
        ),
        *phase == PublicPhase::Signed && *event == PublicEvent::BroadcastFailed ==> r == (
            (PublicPhase::Done { outcome: PublicOutcome::RpcError }),
            PublicAction::Stop,
        ),
        (phase matches PublicPhase::Polling { .. }) ==> match *event {
            PublicEvent::Receipt { status } => {
                &&& status == 1 ==> r == (
                    (PublicPhase::Done { outcome: PublicOutcome::Confirmed }),
                    PublicAction::Stop,
                )
                &&& status != 1 ==> r == (
                    (PublicPhase::Done { outcome: (PublicOutcome::Reverted { status }) }),
                    PublicAction::Stop,
                )
            },
            PublicEvent::ReceiptWithoutStatus => r == (
                (PublicPhase::Done { outcome: PublicOutcome::RpcError }),
                PublicAction::Stop,
            ),
            PublicEvent::PollFailed => r == (
                (PublicPhase::Done { outcome: PublicOutcome::RpcError }),
                PublicAction::Stop,
            ),
            PublicEvent::NoReceipt => {
                let poll = phase->Polling_poll;
                &&& poll.attempts >= MAX_ATTEMPTS ==> r == (
                    (PublicPhase::Done { outcome: PublicOutcome::TimedOut }),
                    PublicAction::Stop,
                )
                &&& poll.attempts < MAX_ATTEMPTS ==> {
                    &&& r.1 == (PublicAction::Wait { seconds: poll.delay_secs })
                    &&& r.0 == (PublicPhase::Polling {
                        poll: ReceiptPollState {
                            delay_secs: spec_backoff_delay((poll.attempts + 1) as nat) as u64,
                            attempts: (poll.attempts + 1) as u64,
                        },
                    })
                }
            },
            _ => true,
        },
{
    match phase {
        PublicPhase::Built => {
            match event {
                PublicEvent::SignedOk => (PublicPhase::Signed, PublicAction::Broadcast),
                _ => (PublicPhase::Done { outcome: PublicOutcome::RpcError }, PublicAction::Stop),
            }
        },
        PublicPhase::Signed => {
            match event {
                PublicEvent::BroadcastOk => (
                    PublicPhase::Polling { poll: initial_poll_state() },
                    PublicAction::PollReceipt,
                ),
                _ => (PublicPhase::Done { outcome: PublicOutcome::RpcError }, PublicAction::Stop),
            }
        },
        PublicPhase::Polling { poll } => {
            match event {
                PublicEvent::Receipt { status } => (
                    PublicPhase::Done { outcome: classify_receipt(*status) },
                    PublicAction::Stop,
                ),
                PublicEvent::NoReceipt => {
                    if poll.attempts >= MAX_ATTEMPTS {
                        (
                            PublicPhase::Done { outcome: PublicOutcome::TimedOut },
                            PublicAction::Stop,
                        )
                    } else {
                        let next = ReceiptPollState {
                            delay_secs: next_backoff_delay(poll.delay_secs),
                            attempts: poll.attempts + 1,
                        };
                        (
                            PublicPhase::Polling { poll: next },
                            PublicAction::Wait { seconds: poll.delay_secs },
                        )
                    }
                },
                _ => (PublicPhase::Done { outcome: PublicOutcome::RpcError }, PublicAction::Stop),
            }
        },
        PublicPhase::Done { outcome } => (
            PublicPhase::Done { outcome: *outcome },
            PublicAction::Stop,
        ),
    }
}

} // verus!
