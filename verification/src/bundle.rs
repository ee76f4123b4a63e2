//! The private bundle path: wrap the signed transaction in a relay
//! bundle for the next block, simulate it against relay state, submit
//! it to the relay (which fans out to a fixed set of block builders),
//! and judge the per-block submission outcomes.
//!
//! Like the public path this is a state machine: the caller performs
//! the relay calls and feeds the results back as events; every decision
//! is made — and verified — here.  The phases carry the signed bytes
//! and the assembled bundle, so the contract ties the bundle that is
//! submitted to the one that was simulated, and both to the signed
//! transaction.  A failed simulation ends the attempt before anything
//! is broadcast.

use vstd::prelude::*;
use crate::addr::copy_bytes;

verus! {

/// A relay bundle: an ordered set of signed transactions targeted at
/// one block, with its simulation parameters.
#[derive(Clone, Debug, PartialEq, Eq)]
pub struct Bundle {
    /// Raw signed transactions, in order.
    pub txs: Vec<Vec<u8>>,
    /// The block the bundle is proposed for.
    pub target_block: u64,
    /// The block the simulation runs against.
    pub simulation_block: u64,
    /// Simulation timestamp; zero means the simulation block's own.
    pub simulation_timestamp: u64,
}

impl Bundle {
    /// The bundle invariant: it holds at least one transaction, is
    /// simulated against its own target block, and leaves the
    /// simulation timestamp to the block's own.
    pub open spec fn wf(&self) -> bool {
        &&& self.txs@.len() >= 1
        &&& self.simulation_block == self.target_block
        &&& self.simulation_timestamp == 0
    }
}

/// Whether two bundles hold the same transactions, the same target
/// block and the same simulation parameters.
pub open spec fn spec_same_bundle(a: Bundle, b: Bundle) -> bool {
    &&& a.txs@.len() == b.txs@.len()
    &&& forall|i: int| 0 <= i < a.txs@.len() ==> a.txs@[i]@ == #[trigger] b.txs@[i]@
    &&& a.target_block == b.target_block
    &&& a.simulation_block == b.simulation_block
    &&& a.simulation_timestamp == b.simulation_timestamp
}

/// Copies a bundle.
fn copy_bundle(b: &Bundle) -> (r: Bundle)
    ensures
        spec_same_bundle(r, *b),
{
    let mut txs: Vec<Vec<u8>> = Vec::new();
    let mut i: usize = 0;
    while i < b.txs.len()
        invariant
            0 <= i <= b.txs@.len(),
            txs@.len() == i,
            forall|j: int| 0 <= j < i ==> txs@[j]@ == #[trigger] b.txs@[j]@,
        decreases b.txs@.len() - i,
    {
        txs.push(copy_bytes(&b.txs[i]));
        i = i + 1;
    }
    Bundle {
        txs,
        target_block: b.target_block,
        simulation_block: b.simulation_block,
        simulation_timestamp: b.simulation_timestamp,
    }
}

/// Copies a string.
fn copy_string(s: &String) -> (r: String)
    ensures
        r@ == s@,
{
    s.as_str().to_owned()
}

/// Wraps one signed transaction in a bundle targeting the block after
/// the current one, with the simulation block set to the same height
/// and a zero simulation timestamp.
pub fn assemble_bundle(signed_tx: Vec<u8>, current_block: u64) -> (b: Bundle)
    requires
        current_block < u64::MAX,
    ensures
        b.wf(),
        b.txs@.len() == 1,
        b.txs@[0] == signed_tx,
        b.target_block == current_block + 1,
        b.simulation_block == b.target_block,
        b.simulation_timestamp == 0,
{
    let mut txs: Vec<Vec<u8>> = Vec::new();
    txs.push(signed_tx);
    Bundle {
        txs,
        target_block: current_block + 1,
        simulation_block: current_block + 1,
        simulation_timestamp: 0,
    }
}

/// One per-target-block outcome reported by the relay for a submitted
/// bundle.
#[derive(Clone, Debug)]
pub enum RelayOutcome {
    /// The relay accepted the bundle and reports the hashes of the
    /// transactions it holds.
    Accepted { tx_hashes: Vec<Vec<u8>> },
    /// The relay reported an error for this outcome.
    Failed,
}

/// The judgement over a submission's outcomes.
#[derive(Clone, Debug)]
pub enum BundleVerdict {
    /// The first outcome carried a transaction hash: the bundle was
    /// accepted into a builder's bundle set.
    Confirmed { tx_hash: Vec<u8> },
    /// The first outcome reported a relay error.
    RelayRejected,
    /// The first outcome was accepted but carried no transaction hash.
    MissingHash,
    /// The relay returned no outcomes at all.
    NoOutcomes,
}

/// Judges the relay's outcomes: the first outcome decides.  An accepted
/// outcome with a hash confirms (its first hash is the transaction's);
/// an accepted outcome without hashes, an error outcome, and an empty
/// outcome list each end the attempt.
pub fn scan_outcomes(outcomes: &Vec<RelayOutcome>) -> (r: BundleVerdict)
    ensures
        outcomes@.len() == 0 ==> r is NoOutcomes,
        outcomes@.len() > 0 ==> match outcomes@[0] {
            RelayOutcome::Accepted { tx_hashes } => {
                &&& tx_hashes@.len() > 0 ==> (r matches BundleVerdict::Confirmed { tx_hash }
                    && tx_hash@ == tx_hashes@[0]@)
                &&& tx_hashes@.len() == 0 ==> r is MissingHash
            },
            RelayOutcome::Failed => r is RelayRejected,
        },
{
    if outcomes.len() == 0 {
        return BundleVerdict::NoOutcomes;
    }
    match &outcomes[0] {
        RelayOutcome::Failed => BundleVerdict::RelayRejected,
        RelayOutcome::Accepted { tx_hashes } => {
            if tx_hashes.len() == 0 {
                BundleVerdict::MissingHash
            } else {
                BundleVerdict::Confirmed { tx_hash: copy_bytes(&tx_hashes[0]) }
            }
        },
    }
}

/// Terminal classification of a private-path attempt.
#[derive(Clone, Debug)]
pub enum PrivateOutcome {
    /// A builder accepted the bundle; the transaction's hash is kept.
    /// This is acceptance into a bundle set, not on-chain inclusion.
    Confirmed { tx_hash: Vec<u8> },
    /// The relay-side simulation failed with the relay-reported
    /// reason; nothing was broadcast.
    SimulationFailed { reason: String },
    /// The relay reported an error for the submission.
    RelayRejected,
    /// The submission produced no accepted outcome with a hash.
    NotIncluded,
    /// Signing, block-number fetch or submission failed at the
    /// transport level.
    TransportFailed,
}

/// The private path's phase.
#[derive(Clone, Debug)]
pub enum PrivatePhase {
    /// The plan is built and awaits signing.
    Built,
    /// The transaction is signed; the target block must be fetched.
    Signed { raw: Vec<u8> },
    /// The bundle is assembled and awaits simulation.
    BundleAssembled { bundle: Bundle },
    /// Simulation succeeded; this very bundle may be submitted.
    Simulated { bundle: Bundle },
    /// A terminal outcome was reached.
    Done { outcome: PrivateOutcome },
}

impl PrivatePhase {
    /// Phase invariant: a carried bundle is well formed.
    pub open spec fn wf(&self) -> bool {
        match *self {
            PrivatePhase::BundleAssembled { bundle } => bundle.wf(),
            PrivatePhase::Simulated { bundle } => bundle.wf(),
            _ => true,
        }
    }
}

/// What happened since the last step.
#[derive(Clone, Debug)]
pub enum PrivateEvent {
    /// Signing succeeded, yielding the raw signed transaction.
    SignedOk { raw: Vec<u8> },
    /// Signing failed.
    SignFailed,
    /// The current block number was fetched (the bundle targets the
    /// next one).
    BlockFetched { current_block: u64 },
    /// The block-number fetch failed.
    BlockFetchFailed,
    /// The relay simulated the bundle without error.
    SimulationOk,
    /// The relay reported a simulation failure with a reason.
    SimulationFailed { reason: String },
    /// Submission returned the relay's per-block outcomes.
    BundleSubmitted { outcomes: Vec<RelayOutcome> },
    /// Submission failed at the transport level.
    SubmitFailed,
}

/// What the caller must do next.
#[derive(Clone, Debug)]
pub enum PrivateAction {
    /// Sign the plan.
    Sign,
    /// Fetch the current block number.
    FetchBlockNumber,
    /// Simulate this bundle against the relay.
    Simulate { bundle: Bundle },
    /// Submit this bundle to the relay and builders.
    SubmitBundle { bundle: Bundle },
    /// The attempt is over.
    Stop,
}

/// Which events can arrive in which phase.
pub open spec fn spec_private_event_fits(phase: PrivatePhase, event: PrivateEvent) -> bool {
    match phase {
        PrivatePhase::Built => (event matches PrivateEvent::SignedOk { .. }) || event
            is SignFailed,
        PrivatePhase::Signed { .. } => (event matches PrivateEvent::BlockFetched { .. }) || event
            is BlockFetchFailed,
        PrivatePhase::BundleAssembled { .. } => event is SimulationOk || (event
            matches PrivateEvent::SimulationFailed { .. }),
        PrivatePhase::Simulated { .. } => (event matches PrivateEvent::BundleSubmitted { .. })
            || event is SubmitFailed,
        PrivatePhase::Done { .. } => false,
    }
}

/// One step of the private path.  Sign, fetch the target block,
/// assemble the bundle from the signed bytes, simulate, and only on a
/// clean simulation submit — the submitted bundle is, by contract, the
/// very bundle that was simulated.  A reported simulation failure ends
/// the attempt carrying the relay's reason, with no submission, so a
/// bundle destined to fail is never broadcast.  The first submission
/// outcome decides the verdict.
pub fn private_step(phase: &PrivatePhase, event: &PrivateEvent) -> (r: (
    PrivatePhase,
    PrivateAction,
))
    requires
        phase.wf(),
        spec_private_event_fits(*phase, *event),
        event matches PrivateEvent::BlockFetched { current_block } ==> current_block < u64::MAX,
    ensures
        r.0.wf(),
        phase is Built ==> match *event {
            PrivateEvent::SignedOk { raw } => (r.0 matches PrivatePhase::Signed { raw: kept }
                && kept@ == raw@) && r.1 is FetchBlockNumber,
            PrivateEvent::SignFailed => (r.0 matches PrivatePhase::Done { outcome } && outcome
                is TransportFailed) && r.1 is Stop,
            _ => true,
        },
        phase is Signed ==> match *event {
            PrivateEvent::BlockFetched { current_block } => {
                let raw = phase->Signed_raw;
                &&& (r.0 matches PrivatePhase::BundleAssembled { bundle } && {
                    &&& bundle.wf()
                    &&& bundle.txs@.len() == 1
                    &&& bundle.txs@[0]@ == raw@
                    &&& bundle.target_block == current_block + 1
                    &&& bundle.simulation_block == bundle.target_block
                    &&& bundle.simulation_timestamp == 0
                })
                &&& (r.1 matches PrivateAction::Simulate { bundle } && spec_same_bundle(
                    bundle,
                    r.0->BundleAssembled_bundle,
                ))
            },
            PrivateEvent::BlockFetchFailed => (r.0 matches PrivatePhase::Done { outcome }
                && outcome is TransportFailed) && r.1 is Stop,
            _ => true,
        },
        phase is BundleAssembled ==> match *event {
            PrivateEvent::SimulationOk => {
                let simulated = phase->BundleAssembled_bundle;
                &&& (r.0 matches PrivatePhase::Simulated { bundle } && spec_same_bundle(
                    bundle,
                    simulated,
                ))
                &&& (r.1 matches PrivateAction::SubmitBundle { bundle } && spec_same_bundle(
                    bundle,
                    simulated,
                ))
            },
            PrivateEvent::SimulationFailed { reason } => (r.0 matches PrivatePhase::Done {
                outcome,
            } && (outcome matches PrivateOutcome::SimulationFailed { reason: kept } && kept@
                == reason@)) && r.1 is Stop && !(r.1 matches PrivateAction::SubmitBundle { .. }),
            _ => true,
        },
        phase is Simulated && event is SubmitFailed ==> (r.0 matches PrivatePhase::Done { outcome }
            && outcome is TransportFailed) && r.1 is Stop,
        phase is Simulated ==> (event matches PrivateEvent::BundleSubmitted { outcomes } ==> r.1
            is Stop && (r.0 matches PrivatePhase::Done { outcome } && {
            &&& outcomes@.len() == 0 ==> outcome is NotIncluded
            &&& outcomes@.len() > 0 ==> match outcomes@[0] {
                RelayOutcome::Accepted { tx_hashes } => {
                    &&& tx_hashes@.len() > 0 ==> (outcome matches PrivateOutcome::Confirmed {
                        tx_hash,
                    } && tx_hash@ == tx_hashes@[0]@)
                    &&& tx_hashes@.len() == 0 ==> outcome is NotIncluded
                },
                RelayOutcome::Failed => outcome is RelayRejected,
            }
        })),
{
    match phase {
        PrivatePhase::Built => {
            match event {
                PrivateEvent::SignedOk { raw } => (
                    PrivatePhase::Signed { raw: copy_bytes(raw) },
                    PrivateAction::FetchBlockNumber,
                ),
                _ => (
                    PrivatePhase::Done { outcome: PrivateOutcome::TransportFailed },
                    PrivateAction::Stop,
                ),
            }
        },
        PrivatePhase::Signed { raw } => {
            match event {
                PrivateEvent::BlockFetched { current_block } => {
                    let bundle = assemble_bundle(copy_bytes(raw), *current_block);
                    let for_action = copy_bundle(&bundle);
                    (
                        PrivatePhase::BundleAssembled { bundle },
                        PrivateAction::Simulate { bundle: for_action },
                    )
                },
                _ => (
                    PrivatePhase::Done { outcome: PrivateOutcome::TransportFailed },
                    PrivateAction::Stop,
                ),
            }
        },
        PrivatePhase::BundleAssembled { bundle } => {
            match event {
                PrivateEvent::SimulationOk => (
                    PrivatePhase::Simulated { bundle: copy_bundle(bundle) },
                    PrivateAction::SubmitBundle { bundle: copy_bundle(bundle) },
                ),
                PrivateEvent::SimulationFailed { reason } => (
                    PrivatePhase::Done {
                        outcome: PrivateOutcome::SimulationFailed { reason: copy_string(reason) },
                    },
                    PrivateAction::Stop,
                ),
                _ => (
                    PrivatePhase::Done { outcome: PrivateOutcome::TransportFailed },
                    PrivateAction::Stop,
                ),
            }
        },
        PrivatePhase::Simulated { .. } => {
            match event {
                PrivateEvent::BundleSubmitted { outcomes } => {
                    let outcome = match scan_outcomes(outcomes) {
                        BundleVerdict::Confirmed { tx_hash } => PrivateOutcome::Confirmed {
                            tx_hash,
                        },
                        BundleVerdict::RelayRejected => PrivateOutcome::RelayRejected,
                        BundleVerdict::MissingHash => PrivateOutcome::NotIncluded,
                        BundleVerdict::NoOutcomes => PrivateOutcome::NotIncluded,
                    };
                    (PrivatePhase::Done { outcome }, PrivateAction::Stop)
                },
                _ => (
                    PrivatePhase::Done { outcome: PrivateOutcome::TransportFailed },
                    PrivateAction::Stop,
                ),
            }
        },
        PrivatePhase::Done { .. } => (
            PrivatePhase::Done { outcome: PrivateOutcome::TransportFailed },
            PrivateAction::Stop,
        ),
    }
}

/// The relay endpoint the bundle is simulated against and submitted to.
pub fn relay_endpoint() -> (r: String)
    ensures
        r@ == "https://relay.flashbots.net"@,
{
    "https://relay.flashbots.net".to_owned()
}

/// The fixed set of block-builder endpoints the submission fans out to,
/// in addition to the relay.
pub fn builder_endpoints() -> (r: Vec<String>)
    ensures
        r@.len() == 15,
        r@[0]@ == "https://builder0x69.io"@,
        r@[1]@ == "https://rpc.beaverbuild.org"@,
        r@[2]@ == "https://relay.flashbots.net"@,
        r@[3]@ == "https://rsync-builder.xyz"@,
        r@[4]@ == "https://api.blocknative.com/v1/auction"@,
        r@[5]@ == "https://builder.gmbit.co/rpc"@,
        r@[6]@ == "https://eth-builder.com"@,
        r@[7]@ == "https://rpc.titanbuilder.xyz"@,
        r@[8]@ == "https://buildai.net"@,
        r@[9]@ == "https://rpc.payload.de"@,
        r@[10]@ == "https://mev.api.blxrbdn.com"@,
        r@[11]@ == "https://rpc.lightspeedbuilder.info"@,
        r@[12]@ == "https://rpc.nfactorial.xyz"@,
        r@[13]@ == "https://boba-builder.com/searcher"@,
        r@[14]@ == "https://rpc.f1b.io"@,
{
    let mut out: Vec<String> = Vec::new();
    out.push("https://builder0x69.io".to_owned());
    out.push("https://rpc.beaverbuild.org".to_owned());
    out.push("https://relay.flashbots.net".to_owned());
    out.push("https://rsync-builder.xyz".to_owned());
    out.push("https://api.blocknative.com/v1/auction".to_owned());
    out.push("https://builder.gmbit.co/rpc".to_owned());
    out.push("https://eth-builder.com".to_owned());
    out.push("https://rpc.titanbuilder.xyz".to_owned());
    out.push("https://buildai.net".to_owned());
    out.push("https://rpc.payload.de".to_owned());
    out.push("https://mev.api.blxrbdn.com".to_owned());
    out.push("https://rpc.lightspeedbuilder.info".to_owned());
    out.push("https://rpc.nfactorial.xyz".to_owned());
    out.push("https://boba-builder.com/searcher".to_owned());
    out.push("https://rpc.f1b.io".to_owned());
    out
}

} // verus!
