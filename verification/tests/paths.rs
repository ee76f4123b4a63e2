use swapbot::backoff::{INITIAL_DELAY_SECS, MAX_ATTEMPTS, MAX_DELAY_SECS};
use swapbot::bundle::{
    assemble_bundle, builder_endpoints, private_step, relay_endpoint, scan_outcomes,
    BundleVerdict, PrivateAction, PrivateEvent, PrivateOutcome, PrivatePhase, RelayOutcome,
};
use swapbot::orchestrate::{
    run_step, start_run, wallet_attempt_params, RpcSettings, RunAction, RunEvent, RunParameters,
    RunPhase,
};
use swapbot::public_path::{
    check_prereqs, classify_receipt, public_step, FeeSuggestion, PrereqError, PublicAction,
    PublicEvent, PublicOutcome, PublicPhase,
};

fn broadcast(phase: PublicPhase) -> PublicPhase {
    let (p, a) = public_step(&phase, &PublicEvent::SignedOk);
    assert_eq!(a, PublicAction::Broadcast);
    let (p, a) = public_step(&p, &PublicEvent::BroadcastOk);
    assert_eq!(a, PublicAction::PollReceipt);
    p
}

#[test]
fn public_confirms_on_first_successful_poll() {
    let polling = broadcast(PublicPhase::Built);
    let (p, a) = public_step(&polling, &PublicEvent::Receipt { status: 1 });
    assert_eq!(p, PublicPhase::Done { outcome: PublicOutcome::Confirmed });
    assert_eq!(a, PublicAction::Stop);
}

#[test]
fn public_backoff_schedule_then_timeout() {
    let mut phase = broadcast(PublicPhase::Built);
    let mut waits = Vec::new();
    loop {
        let (p, a) = public_step(&phase, &PublicEvent::NoReceipt);
        phase = p;
        match a {
            PublicAction::Wait { seconds } => waits.push(seconds),
            PublicAction::Stop => break,
            other => panic!("unexpected action {:?}", other),
        }
    }
    assert_eq!(waits, vec![5, 10, 20, 40, 60]);
    assert_eq!(waits.len() as u64, MAX_ATTEMPTS);
    assert_eq!(waits[0], INITIAL_DELAY_SECS);
    assert!(waits.iter().all(|w| *w <= MAX_DELAY_SECS));
    assert_eq!(phase, PublicPhase::Done { outcome: PublicOutcome::TimedOut });
}

#[test]
fn public_reverted_receipt_surfaces_status() {
    let polling = broadcast(PublicPhase::Built);
    let (p, _) = public_step(&polling, &PublicEvent::Receipt { status: 0 });
    assert_eq!(p, PublicPhase::Done { outcome: PublicOutcome::Reverted { status: 0 } });
    assert_eq!(classify_receipt(7), PublicOutcome::Reverted { status: 7 });
    assert_eq!(classify_receipt(1), PublicOutcome::Confirmed);
}

#[test]
fn public_transport_failures() {
    let (p, _) = public_step(&PublicPhase::Built, &PublicEvent::SignFailed);
    assert_eq!(p, PublicPhase::Done { outcome: PublicOutcome::RpcError });
    let (p, _) = public_step(&PublicPhase::Signed, &PublicEvent::BroadcastFailed);
    assert_eq!(p, PublicPhase::Done { outcome: PublicOutcome::RpcError });
    let polling = broadcast(PublicPhase::Built);
    let (p, _) = public_step(&polling, &PublicEvent::PollFailed);
    assert_eq!(p, PublicPhase::Done { outcome: PublicOutcome::RpcError });
    let (p, _) = public_step(&polling, &PublicEvent::ReceiptWithoutStatus);
    assert_eq!(p, PublicPhase::Done { outcome: PublicOutcome::RpcError });
}

#[test]
fn prereq_failures_name_the_prerequisite() {
    let fees = FeeSuggestion { max_fee_per_gas: 10, max_priority_fee_per_gas: 2 };
    assert_eq!(
        check_prereqs(None, Some(fees), true, true),
        Err(PrereqError::NonceUnavailable)
    );
    assert_eq!(check_prereqs(Some(1), None, true, true), Err(PrereqError::FeeEstimateUnavailable));
    assert_eq!(
        check_prereqs(Some(1), Some(fees), false, true),
        Err(PrereqError::RouterUnavailable)
    );
    assert_eq!(
        check_prereqs(Some(1), Some(fees), true, false),
        Err(PrereqError::ClientUnavailable)
    );
    assert_eq!(check_prereqs(Some(1), Some(fees), true, true), Ok((1, fees)));
}

#[test]
fn private_simulation_failure_never_submits() {
    let (p, a) = private_step(
        &PrivatePhase::Built,
        &PrivateEvent::SignedOk { raw: vec![1, 2, 3] },
    );
    assert!(matches!(a, PrivateAction::FetchBlockNumber));
    let (p, a) = private_step(&p, &PrivateEvent::BlockFetched { current_block: 100 });
    assert!(matches!(a, PrivateAction::Simulate { .. }));
    let (p, a) = private_step(
        &p,
        &PrivateEvent::SimulationFailed { reason: "insufficient funds".to_string() },
    );
    match p {
        PrivatePhase::Done { outcome: PrivateOutcome::SimulationFailed { reason } } => {
            assert_eq!(reason, "insufficient funds");
        }
        other => panic!("unexpected phase {:?}", other),
    }
    assert!(matches!(a, PrivateAction::Stop));
    assert!(!matches!(a, PrivateAction::SubmitBundle { .. }));
}

#[test]
fn private_happy_path_submits_the_simulated_bundle() {
    let raw = vec![9u8, 8, 7];
    let (p, a) = private_step(
        &PrivatePhase::Built,
        &PrivateEvent::SignedOk { raw: raw.clone() },
    );
    assert!(matches!(a, PrivateAction::FetchBlockNumber));
    let (p, a) = private_step(&p, &PrivateEvent::BlockFetched { current_block: 100 });
    let simulated = match a {
        PrivateAction::Simulate { bundle } => bundle,
        other => panic!("unexpected action {:?}", other),
    };
    assert_eq!(simulated.txs, vec![raw.clone()]);
    assert_eq!(simulated.target_block, 101);
    assert_eq!(simulated.simulation_block, 101);
    assert_eq!(simulated.simulation_timestamp, 0);
    let (p, a) = private_step(&p, &PrivateEvent::SimulationOk);
    let submitted = match a {
        PrivateAction::SubmitBundle { bundle } => bundle,
        other => panic!("unexpected action {:?}", other),
    };
    assert_eq!(submitted, simulated);
    let outcomes = vec![RelayOutcome::Accepted { tx_hashes: vec![vec![0xabu8; 32]] }];
    let (p, a) = private_step(&p, &PrivateEvent::BundleSubmitted { outcomes });
    assert!(matches!(a, PrivateAction::Stop));
    match p {
        PrivatePhase::Done { outcome: PrivateOutcome::Confirmed { tx_hash } } => {
            assert_eq!(tx_hash, vec![0xabu8; 32]);
        }
        other => panic!("unexpected phase {:?}", other),
    }
}

#[test]
fn private_outcome_scanning() {
    assert!(matches!(scan_outcomes(&vec![]), BundleVerdict::NoOutcomes));
    assert!(matches!(
        scan_outcomes(&vec![RelayOutcome::Failed]),
        BundleVerdict::RelayRejected
    ));
    assert!(matches!(
        scan_outcomes(&vec![RelayOutcome::Accepted { tx_hashes: vec![] }]),
        BundleVerdict::MissingHash
    ));
    match scan_outcomes(&vec![
        RelayOutcome::Accepted { tx_hashes: vec![vec![1, 2], vec![3]] },
        RelayOutcome::Failed,
    ]) {
        BundleVerdict::Confirmed { tx_hash } => assert_eq!(tx_hash, vec![1, 2]),
        other => panic!("unexpected verdict {:?}", other),
    }
}

#[test]
fn bundle_targets_next_block() {
    let b = assemble_bundle(vec![9, 9, 9], 100);
    assert_eq!(b.txs.len(), 1);
    assert_eq!(b.txs[0], vec![9, 9, 9]);
    assert_eq!(b.target_block, 101);
    assert_eq!(b.simulation_block, 101);
    assert_eq!(b.simulation_timestamp, 0);
}

#[test]
fn fixed_relay_and_builder_endpoints() {
    assert_eq!(relay_endpoint(), "https://relay.flashbots.net");
    let builders = builder_endpoints();
    assert_eq!(builders.len(), 15);
    assert_eq!(builders[0], "https://builder0x69.io");
    assert_eq!(builders[14], "https://rpc.f1b.io");
}

fn params(rounds: u32, private: bool) -> RunParameters {
    RunParameters {
        token_address: "0x1f9840a85d5aF5bf1D1762F925BDADdC4201F984".to_string(),
        slippage_scaled: 10_000_000_000_000_000,
        auto_slippage: false,
        buy_extra_gas_wei: 1_000_000_000,
        miner_tip_wei: 2_000_000_000,
        delay_between_rounds_secs: 3,
        number_of_rounds: rounds,
        private_mode: private,
        rpc: RpcSettings {
            Url_Https: "https://node.example".to_string(),
            Url_Wss: "wss://node.example".to_string(),
        },
    }
}

#[test]
fn run_aborts_before_second_wallet_on_failure() {
    // two wallets, public mode: the first wallet's failed attempt stops
    // the run before the second wallet is ever started
    let p = params(1, false);
    let (phase, action) = start_run(&p, 2);
    assert_eq!(action, RunAction::StartWallet { wallet_index: 0, private: false });
    let (phase, action) = run_step(&p, 2, &phase, &RunEvent::WalletFinished { success: false });
    assert_eq!(phase, RunPhase::Aborted);
    assert_eq!(action, RunAction::Stop);
}

#[test]
fn run_walks_wallets_rounds_and_delays() {
    let p = params(2, true);
    let (phase, action) = start_run(&p, 2);
    assert_eq!(action, RunAction::StartWallet { wallet_index: 0, private: true });
    let (phase, action) = run_step(&p, 2, &phase, &RunEvent::WalletFinished { success: true });
    assert_eq!(action, RunAction::StartWallet { wallet_index: 1, private: true });
    let (phase, action) = run_step(&p, 2, &phase, &RunEvent::WalletFinished { success: true });
    assert_eq!(action, RunAction::Sleep { seconds: 3 });
    let (phase, action) = run_step(&p, 2, &phase, &RunEvent::SleepFinished);
    assert_eq!(action, RunAction::StartWallet { wallet_index: 0, private: true });
    assert_eq!(phase, RunPhase::RunningWallet { round: 1, wallet_index: 0 });
    let (phase, _) = run_step(&p, 2, &phase, &RunEvent::WalletFinished { success: true });
    let (phase, _) = run_step(&p, 2, &phase, &RunEvent::WalletFinished { success: true });
    let (phase, action) = run_step(&p, 2, &phase, &RunEvent::SleepFinished);
    assert_eq!(phase, RunPhase::Finished);
    assert_eq!(action, RunAction::Stop);
}

#[test]
fn run_with_no_rounds_or_wallets() {
    let p = params(0, false);
    assert_eq!(start_run(&p, 2), (RunPhase::Finished, RunAction::Stop));
    let p = params(1, false);
    let (phase, action) = start_run(&p, 0);
    assert_eq!(phase, RunPhase::Sleeping { round: 0 });
    assert_eq!(action, RunAction::Sleep { seconds: 3 });
    assert_eq!(run_step(&p, 0, &phase, &RunEvent::SleepFinished), (RunPhase::Finished, RunAction::Stop));
}

#[test]
fn attempt_params_cap_equals_spend() {
    let p = params(1, false);
    let a = wallet_attempt_params(&p, 777);
    assert_eq!(a.spend_wei, 777);
    assert_eq!(a.max_buy_amount, 777);
    assert_eq!(a.slippage_scaled, 10_000_000_000_000_000);
    let mut auto = params(1, false);
    auto.auto_slippage = true;
    let a = wallet_attempt_params(&auto, 777);
    assert_eq!(a.slippage_scaled, 5_000_000_000_000_000);
}
