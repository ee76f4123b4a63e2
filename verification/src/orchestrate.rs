//! The round orchestrator: iterates the configured rounds and wallets,
//! dispatches each wallet's attempt to the public or private path per
//! the run-wide mode flag, paces rounds with a fixed delay, and aborts
//! the whole run on the first failed wallet (fail-fast policy).

use vstd::prelude::*;
use crate::amounts::{AUTO_SLIPPAGE_SCALED, TOLERANCE_SCALE};

verus! {

/// The node endpoints a run connects through.
#[derive(Clone, Debug)]
#[allow(non_snake_case)]
pub struct RpcSettings {
    /// HTTP endpoint of the node.
    pub Url_Https: String,
    /// Persistent-socket endpoint of the node.
    pub Url_Wss: String,
}

/// An error carrying a plain message.
#[derive(Debug)]
pub struct CustomError(pub String);

impl CustomError {
    /// The error's message.
    pub fn message(&self) -> (r: &String)
        ensures
            r@ == self.0@,
    {
        &self.0
    }
}

/// Immutable per-run configuration.  Amounts are in the chain's
/// smallest units; the slippage tolerance is a fraction in the 10^18
/// fixed-point scale.
#[derive(Clone, Debug)]
pub struct RunParameters {
    /// The target token's address, as a hex string.
    pub token_address: String,
    /// Configured slippage tolerance, scaled by 10^18.
    pub slippage_scaled: u128,
    /// Whether the fixed "auto" tolerance overrides the configured one.
    pub auto_slippage: bool,
    /// Premium added to the node-suggested fee cap, in smallest units.
    pub buy_extra_gas_wei: u128,
    /// Tip added to the node-suggested priority fee, in smallest units.
    pub miner_tip_wei: u128,
    /// Seconds slept after each round.
    pub delay_between_rounds_secs: u64,
    /// How many rounds to run.
    pub number_of_rounds: u32,
    /// Whether attempts go through the private bundle path.
    pub private_mode: bool,
    /// The node endpoints.
    pub rpc: RpcSettings,
}

impl RunParameters {
    /// The configuration invariant: the tolerance is a fraction below
    /// one.
    pub open spec fn wf(&self) -> bool {
        self.slippage_scaled < TOLERANCE_SCALE
    }
}

/// One wallet's configured spend.
#[derive(Clone, Debug)]
pub struct WalletSpend {
    /// The wallet's configured name.
    pub name: String,
    /// The native-currency amount to spend, in smallest units.
    pub spend_wei: u128,
}

/// The values one wallet's attempt starts from: the spend, the
/// maximum-output cap (set equal to the spend, so the quote clamp can
/// only lower the input), and the resolved slippage tolerance.
#[derive(Clone, Copy, Debug, PartialEq, Eq, Structural)]
pub struct AttemptParams {
    /// Native currency to spend, in smallest units.
    pub spend_wei: u128,
    /// Maximum-output cap handed to the quote engine.
    pub max_buy_amount: u128,
    /// The resolved slippage tolerance, scaled by 10^18.
    pub slippage_scaled: u128,
}

/// Computes one wallet's attempt parameters: the cap equals the
/// configured spend, and the "auto" flag resolves the tolerance to the
/// fixed 0.5%.
pub fn wallet_attempt_params(params: &RunParameters, spend_wei: u128) -> (r: AttemptParams)
    requires
        params.wf(),
    ensures
        r.spend_wei == spend_wei,
        r.max_buy_amount == spend_wei,
        r.slippage_scaled == if params.auto_slippage {
            AUTO_SLIPPAGE_SCALED
        } else {
            params.slippage_scaled
        },
        r.slippage_scaled < TOLERANCE_SCALE,
{
    AttemptParams {
        spend_wei,
        max_buy_amount: spend_wei,
        slippage_scaled: crate::amounts::resolve_slippage(
            params.auto_slippage,
            params.slippage_scaled,
        ),
    }
}

/// Where the run stands.
#[derive(Clone, Copy, Debug, PartialEq, Eq, Structural)]
pub enum RunPhase {
    /// A wallet's attempt is in flight.
    RunningWallet { round: u32, wallet_index: usize },
    /// The round is over; the inter-round delay is being waited out.
    Sleeping { round: u32 },
    /// All rounds completed.
    Finished,
    /// A wallet failed; the run stopped there (fail-fast).
    Aborted,
}

impl RunPhase {
    /// Phase invariant against the run's bounds.
    pub open spec fn wf(&self, number_of_rounds: u32, n_wallets: usize) -> bool {
        match *self {
            RunPhase::RunningWallet { round, wallet_index } => round < number_of_rounds
                && wallet_index < n_wallets,
            RunPhase::Sleeping { round } => round < number_of_rounds,
            _ => true,
        }
    }
}

/// What happened since the last step.
#[derive(Clone, Copy, Debug, PartialEq, Eq, Structural)]
pub enum RunEvent {
    /// The in-flight wallet's attempt ended, well or badly.
    WalletFinished { success: bool },
    /// The inter-round delay elapsed.
    SleepFinished,
}

/// What the caller must do next.
#[derive(Clone, Copy, Debug, PartialEq, Eq, Structural)]
pub enum RunAction {
    /// Run the given wallet's attempt on the given path.
    StartWallet { wallet_index: usize, private: bool },
    /// Sleep the inter-round delay.
    Sleep { seconds: u64 },
    /// The run is over.
    Stop,
}

/// Which events can arrive in which phase.
pub open spec fn spec_run_event_fits(phase: RunPhase, event: RunEvent) -> bool {
    match phase {
        RunPhase::RunningWallet { .. } => event matches RunEvent::WalletFinished { .. },
        RunPhase::Sleeping { .. } => event == RunEvent::SleepFinished,
        _ => false,
    }
}

/// Starts a run: with no rounds there is nothing to do; with rounds but
/// no wallets each round is only the delay; otherwise the first
/// wallet's attempt starts on the configured path.
pub fn start_run(params: &RunParameters, n_wallets: usize) -> (r: (RunPhase, RunAction))
    requires
        params.wf(),
    ensures
        r.0.wf(params.number_of_rounds, n_wallets),
        params.number_of_rounds == 0 ==> r == (RunPhase::Finished, RunAction::Stop),
        params.number_of_rounds > 0 && n_wallets == 0 ==> r == (
            (RunPhase::Sleeping { round: 0 }),
            (RunAction::Sleep { seconds: params.delay_between_rounds_secs }),
        ),
        params.number_of_rounds > 0 && n_wallets > 0 ==> r == (
            (RunPhase::RunningWallet { round: 0, wallet_index: 0 }),
            (RunAction::StartWallet { wallet_index: 0, private: params.private_mode }),
        ),
{
    if params.number_of_rounds == 0 {
        (RunPhase::Finished, RunAction::Stop)
    } else if n_wallets == 0 {
        (
            RunPhase::Sleeping { round: 0 },
            RunAction::Sleep { seconds: params.delay_between_rounds_secs },
        )
    } else {
        (
            RunPhase::RunningWallet { round: 0, wallet_index: 0 },
            RunAction::StartWallet { wallet_index: 0, private: params.private_mode },
        )
    }
}

/// One step of the run.  A failed wallet aborts the whole run at once:
/// no further wallet is started (fail-fast).  A successful wallet hands
/// over to the next wallet of the round, or to the inter-round delay
/// after the last wallet; the delay hands over to the next round's
/// first wallet, or finishes the run after the last round.
pub fn run_step(params: &RunParameters, n_wallets: usize, phase: &RunPhase, event: &RunEvent) -> (r:
    (RunPhase, RunAction))
    requires
        params.wf(),
        phase.wf(params.number_of_rounds, n_wallets),
        spec_run_event_fits(*phase, *event),
    ensures
        r.0.wf(params.number_of_rounds, n_wallets),
        (phase matches RunPhase::RunningWallet { round, wallet_index }) ==> match *event {
            RunEvent::WalletFinished { success } => {
                let round = phase->RunningWallet_round;
                let wallet_index = phase->RunningWallet_wallet_index;
                &&& !success ==> r == (RunPhase::Aborted, RunAction::Stop)
                &&& (success && wallet_index + 1 < n_wallets) ==> r == (
                    (RunPhase::RunningWallet { round, wallet_index: (wallet_index + 1) as usize }),
                    (RunAction::StartWallet {
                        wallet_index: (wallet_index + 1) as usize,
                        private: params.private_mode,
                    }),
                )
                &&& (success && wallet_index + 1 == n_wallets) ==> r == (
                    (RunPhase::Sleeping { round }),
                    (RunAction::Sleep { seconds: params.delay_between_rounds_secs }),
                )
            },
            _ => true,
        },
        (phase matches RunPhase::Sleeping { round }) ==> {
            let round = phase->Sleeping_round;
            &&& (round + 1 < params.number_of_rounds && n_wallets > 0) ==> r == (
                (RunPhase::RunningWallet { round: (round + 1) as u32, wallet_index: 0 }),
                (RunAction::StartWallet { wallet_index: 0, private: params.private_mode }),
            )
            &&& (round + 1 < params.number_of_rounds && n_wallets == 0) ==> r == (
                (RunPhase::Sleeping { round: (round + 1) as u32 }),
                (RunAction::Sleep { seconds: params.delay_between_rounds_secs }),
            )
            &&& round + 1 >= params.number_of_rounds ==> r == (RunPhase::Finished, RunAction::Stop)
        },
{
    match phase {
        RunPhase::RunningWallet { round, wallet_index } => {
            match event {
                RunEvent::WalletFinished { success } => {
                    if !*success {
                        (RunPhase::Aborted, RunAction::Stop)
                    } else if *wallet_index + 1 < n_wallets {
                        (
                            RunPhase::RunningWallet {
                                round: *round,
                                wallet_index: *wallet_index + 1,
                            },
                            RunAction::StartWallet {
                                wallet_index: *wallet_index + 1,
                                private: params.private_mode,
                            },
                        )
                    } else {
                        (
                            RunPhase::Sleeping { round: *round },
                            RunAction::Sleep { seconds: params.delay_between_rounds_secs },
                        )
                    }
                },
                _ => (RunPhase::Aborted, RunAction::Stop),
            }
        },
        RunPhase::Sleeping { round } => {
            if *round + 1 < params.number_of_rounds {
                if n_wallets > 0 {
                    (
                        RunPhase::RunningWallet { round: *round + 1, wallet_index: 0 },
                        RunAction::StartWallet { wallet_index: 0, private: params.private_mode },
                    )
                } else {
                    (
                        RunPhase::Sleeping { round: *round + 1 },
                        RunAction::Sleep { seconds: params.delay_between_rounds_secs },
                    )
                }
            } else {
                (RunPhase::Finished, RunAction::Stop)
            }
        },
        _ => (RunPhase::Finished, RunAction::Stop),
    }
}

} // verus!
