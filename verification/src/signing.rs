//! Signing a transaction plan and re-parsing the signed bytes.
//!
//! Both operations are performed by the `ethers` crates behind trusted
//! wrappers: signing is deterministic ECDSA over the plan's RLP
//! encoding, and re-parsing decodes the RLP and recovers the sender
//! from the signature, so each result — including whether the
//! operation succeeds — is a function of its arguments alone and is
//! given a name here rather than spelled out.

use vstd::prelude::*;
use ethers_core::types::transaction::eip2718::TypedTransaction;
use ethers_core::types::{Bytes, Eip1559TransactionRequest, NameOrAddress, H160, U256};
use ethers_signers::LocalWallet;
use crate::plan::TransactionPlan;

verus! {

/// The raw signed form of a plan: the typed-transaction RLP encoding,
/// signed with deterministic ECDSA under the given key and chain.
/// `None` exactly when the key is not a valid signing key or signing
/// fails for these arguments.
pub uninterp spec fn spec_signed_raw(
    sender: Seq<u8>,
    recipient: Seq<u8>,
    value: u128,
    gas_limit: u64,
    max_priority_fee_per_gas: u128,
    max_fee_per_gas: u128,
    call_data: Seq<u8>,
    nonce: u64,
    chain_id: u64,
    key: Seq<u8>,
) -> Option<Seq<u8>>;

/// The chain address belonging to a signing key.
pub uninterp spec fn spec_signer_address(key: Seq<u8>) -> Seq<u8>;

/// The fields recovered from a raw signed transaction.
#[derive(Clone, Debug, PartialEq, Eq)]
pub struct DecodedTx {
    /// The sender, recovered from the signature.
    pub sender: Vec<u8>,
    /// The recipient address.
    pub recipient: Vec<u8>,
    /// Native currency attached to the call.
    pub value: u128,
    /// The sender's transaction sequence number.
    pub nonce: u64,
    /// Priority fee per gas.
    pub max_priority_fee_per_gas: u128,
    /// Fee cap per gas.
    pub max_fee_per_gas: u128,
}

/// What re-parsing yields for given bytes: decoding is a function of
/// the bytes alone.
pub uninterp spec fn spec_decoded_signed(b: Seq<u8>) -> Option<DecodedTx>;

/// Relies on ethers: `Wallet::from_bytes` (fails exactly on an invalid
/// scalar), `Wallet::sign_transaction_sync` (deterministic ECDSA over
/// the transaction's hash; its EIP-155 `v` arithmetic needs the bound
/// on `chain_id`), `TypedTransaction::rlp_signed`, and — for the
/// round-trip clause — `TypedTransaction::decode_signed` together with
/// `Signature::recover`, whose purpose is to yield the signer's
/// address, here `Wallet::address` of the key.
#[verifier::external_body]
fn sign_plan_bytes(plan: &TransactionPlan, key: &[u8], chain_id: u64) -> (r: Option<Vec<u8>>)
    requires
        plan.wf(),
        key@.len() == 32,
        2 * chain_id + 36 <= u64::MAX,
    ensures
        r is Some <==> spec_signed_raw(
            plan.sender.bytes@,
            plan.recipient.bytes@,
            plan.value,
            plan.gas_limit,
            plan.max_priority_fee_per_gas,
            plan.max_fee_per_gas,
            plan.call_data@,
            plan.nonce,
            chain_id,
            key@,
        ) is Some,
        r matches Some(b) ==> spec_signed_raw(
            plan.sender.bytes@,
            plan.recipient.bytes@,
            plan.value,
            plan.gas_limit,
            plan.max_priority_fee_per_gas,
            plan.max_fee_per_gas,
            plan.call_data@,
            plan.nonce,
            chain_id,
            key@,
        ) == Some(b@),
        r matches Some(b) ==> (spec_decoded_signed(b@) matches Some(d) && d.sender@
            == spec_signer_address(key@) && d.recipient@ == plan.recipient.bytes@ && d.value
            == plan.value && d.nonce == plan.nonce && d.max_priority_fee_per_gas
            == plan.max_priority_fee_per_gas && d.max_fee_per_gas == plan.max_fee_per_gas),
{
    let wallet = LocalWallet::from_bytes(key).ok()?;
    let req = Eip1559TransactionRequest::new()
        .from(H160::from_slice(&plan.sender.bytes))
        .to(H160::from_slice(&plan.recipient.bytes))
        .value(U256::from(plan.value))
        .gas(U256::from(plan.gas_limit))
        .max_priority_fee_per_gas(U256::from(plan.max_priority_fee_per_gas))
        .max_fee_per_gas(U256::from(plan.max_fee_per_gas))
        .data(Bytes::from(plan.call_data.clone()))
        .nonce(U256::from(plan.nonce))
        .chain_id(chain_id);
    let tx = TypedTransaction::Eip1559(req);
    let sig = wallet.sign_transaction_sync(&tx).ok()?;
    Some(tx.rlp_signed(&sig).to_vec())
}

/// Signs the plan with the given 32-byte signing key for the given
/// chain, yielding the raw bytes ready for broadcast or bundling.
/// Succeeds exactly when the named signing result exists (the key is
/// accepted), and the bytes re-parse to the very fields the plan was
/// built with, the sender being the key's own address.
pub fn sign_plan(plan: &TransactionPlan, key: &Vec<u8>, chain_id: u64) -> (r: Option<Vec<u8>>)
    requires
        plan.wf(),
        key@.len() == 32,
        2 * chain_id + 36 <= u64::MAX,
    ensures
        r is Some <==> spec_signed_raw(
            plan.sender.bytes@,
            plan.recipient.bytes@,
            plan.value,
            plan.gas_limit,
            plan.max_priority_fee_per_gas,
            plan.max_fee_per_gas,
            plan.call_data@,
            plan.nonce,
            chain_id,
            key@,
        ) is Some,
        r matches Some(b) ==> spec_signed_raw(
            plan.sender.bytes@,
            plan.recipient.bytes@,
            plan.value,
            plan.gas_limit,
            plan.max_priority_fee_per_gas,
            plan.max_fee_per_gas,
            plan.call_data@,
            plan.nonce,
            chain_id,
            key@,
        ) == Some(b@),
        r matches Some(b) ==> (spec_decoded_signed(b@) matches Some(d) && d.sender@
            == spec_signer_address(key@) && d.recipient@ == plan.recipient.bytes@ && d.value
            == plan.value && d.nonce == plan.nonce && d.max_priority_fee_per_gas
            == plan.max_priority_fee_per_gas && d.max_fee_per_gas == plan.max_fee_per_gas),
{
    sign_plan_bytes(plan, key.as_slice(), chain_id)
}

/// Relies on ethers: `TypedTransaction::decode_signed`, which decodes
/// the RLP and recovers the sender from the signature.
#[verifier::external_body]
fn decode_signed_bytes(bytes: &[u8]) -> (r: Option<DecodedTx>)
    ensures
        r == spec_decoded_signed(bytes@),
{
    let rlp = ethers_core::utils::rlp::Rlp::new(bytes);
    let (tx, _sig) = TypedTransaction::decode_signed(&rlp).ok()?;
    let t = match tx { TypedTransaction::Eip1559(t) => t, _ => return None };
    let recipient = match t.to? { NameOrAddress::Address(a) => a.as_bytes().to_vec(), _ => return None };
    Some(DecodedTx {
        sender: t.from?.as_bytes().to_vec(),
        recipient,
        value: u128::try_from(t.value?).ok()?,
        nonce: u64::try_from(t.nonce?).ok()?,
        max_priority_fee_per_gas: u128::try_from(t.max_priority_fee_per_gas?).ok()?,
        max_fee_per_gas: u128::try_from(t.max_fee_per_gas?).ok()?,
    })
}

/// Re-parses a raw signed transaction, recovering the sender and the
/// fields it was built with.  Returns `None` when the bytes are not a
/// well-formed signed transaction of the expected kind.
pub fn reparse_signed(raw: &Vec<u8>) -> (r: Option<DecodedTx>)
    ensures
        r == spec_decoded_signed(raw@),
{
    decode_signed_bytes(raw.as_slice())
}

} // verus!
