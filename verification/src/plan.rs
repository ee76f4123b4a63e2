//! The transaction-plan builder: assembles the chain transaction for
//! one swap attempt — recipient, value, gas limit, the two EIP-1559 fee
//! fields, call data, nonce and deadline.

use vstd::prelude::*;
use vstd::string::StringSliceAdditionalSpecFns;
use crate::addr::{copy_bytes, parse_address, spec_address_bytes, spec_router_address,
    spec_weth_address, spec_wf_address_hex, uniswap_v2_router_address, weth_address, Address};
use crate::abi::{encode_swap_calldata, spec_path_views, spec_swap_calldata};

verus! {

/// The fixed conservative gas limit sized for the known router call.
pub const SWAP_GAS_LIMIT: u64 = 313252;

/// How many seconds past "now" the swap call stays valid.
pub const DEADLINE_WINDOW_SECS: u64 = 60;

/// Failure of plan construction.
#[derive(Clone, Copy, Debug, PartialEq, Eq, Structural)]
pub enum PlanError {
    /// The target token's address string is not well formed.
    InvalidTokenAddress,
    /// A fee field would exceed the 128-bit width.
    FeeOverflow,
}

/// The deadline passed to the swap call: the given wall-clock time (in
/// unix seconds) plus a fixed sixty-second window.
pub fn deadline_timestamp(now_unix_secs: u64) -> (r: u64)
    requires
        now_unix_secs + DEADLINE_WINDOW_SECS <= u64::MAX,
    ensures
        r == now_unix_secs + DEADLINE_WINDOW_SECS,
{
    now_unix_secs + DEADLINE_WINDOW_SECS
}

/// A fully assembled chain transaction for one swap attempt.
#[derive(Clone, Debug)]
pub struct TransactionPlan {
    /// The sending wallet's address.
    pub sender: Address,
    /// The router contract's address.
    pub recipient: Address,
    /// Native currency attached to the call.
    pub value: u128,
    /// Fixed gas limit for the router call.
    pub gas_limit: u64,
    /// Priority fee: the node's suggestion plus the configured tip.
    pub max_priority_fee_per_gas: u128,
    /// Fee cap: the node's suggestion plus the configured premium.
    pub max_fee_per_gas: u128,
    /// ABI call data of the swap method.
    pub call_data: Vec<u8>,
    /// The sender's transaction sequence number.
    pub nonce: u64,
    /// Unix timestamp after which the router rejects the call.
    pub deadline: u64,
}

impl TransactionPlan {
    /// The plan's invariant: both addresses are 20 bytes.
    pub open spec fn wf(&self) -> bool {
        self.sender.wf() && self.recipient.wf()
    }
}

/// Adds the configured premium onto a node-suggested fee value; fails
/// instead of wrapping when the sum exceeds the 128-bit width.
pub fn fee_with_premium(suggested: u128, premium: u128) -> (r: Result<u128, PlanError>)
    ensures
        suggested + premium <= u128::MAX ==> r == Ok::<u128, PlanError>((suggested + premium) as u128),
        suggested + premium > u128::MAX ==> r == Err::<u128, PlanError>(PlanError::FeeOverflow),
{
    match suggested.checked_add(premium) {
        Some(v) => Ok(v),
        None => Err(PlanError::FeeOverflow),
    }
}

/// Assembles the transaction plan for one swap attempt.  The swap path
/// is the two-hop wrapped-native-token → target-token path; the call
/// data carries the slippage-protected minimum output, the path, the
/// sender as recipient of the tokens, and a deadline sixty seconds past
/// the given wall-clock time.  Fee fields are the node-suggested values
/// plus the configured premiums, checked against overflow.
pub fn build_plan(
    sender: &Address,
    token_address: &str,
    amount_in: u128,
    min_amount_out: u128,
    suggested_max_fee: u128,
    suggested_priority_fee: u128,
    buy_extra_gas: u128,
    miner_tip: u128,
    nonce: u64,
    now_unix_secs: u64,
) -> (r: Result<TransactionPlan, PlanError>)
    requires
        sender.wf(),
        now_unix_secs + DEADLINE_WINDOW_SECS <= u64::MAX,
    ensures
        r == Err::<TransactionPlan, PlanError>(PlanError::InvalidTokenAddress)
            <==> !spec_wf_address_hex(token_address.spec_bytes()),
        r == Err::<TransactionPlan, PlanError>(PlanError::FeeOverflow)
            <==> (spec_wf_address_hex(token_address.spec_bytes())
                && (suggested_max_fee + buy_extra_gas > u128::MAX
                    || suggested_priority_fee + miner_tip > u128::MAX)),
        r matches Ok(p) ==> {
            &&& p.wf()
            &&& p.sender.bytes@ == sender.bytes@
            &&& p.recipient.bytes@ == spec_router_address()
            &&& p.value == amount_in
            &&& p.gas_limit == SWAP_GAS_LIMIT
            &&& p.max_fee_per_gas == suggested_max_fee + buy_extra_gas
            &&& p.max_priority_fee_per_gas == suggested_priority_fee + miner_tip
            &&& p.nonce == nonce
            &&& p.deadline == now_unix_secs + DEADLINE_WINDOW_SECS
            &&& p.call_data@ == spec_swap_calldata(
                min_amount_out,
                seq![
                    spec_weth_address(),
                    spec_address_bytes(token_address.spec_bytes()),
                ],
                sender.bytes@,
                (now_unix_secs + DEADLINE_WINDOW_SECS) as u64,
            )
        },
        r is Ok <==> (spec_wf_address_hex(token_address.spec_bytes()) && suggested_max_fee
            + buy_extra_gas <= u128::MAX && suggested_priority_fee + miner_tip <= u128::MAX),
{
    let token = match parse_address(token_address) {
        Some(a) => a,
        None => {
            return Err(PlanError::InvalidTokenAddress);
        },
    };
    let max_fee_per_gas = match fee_with_premium(suggested_max_fee, buy_extra_gas) {
        Ok(v) => v,
        Err(e) => {
            return Err(e);
        },
    };
    let max_priority_fee_per_gas = match fee_with_premium(suggested_priority_fee, miner_tip) {
        Ok(v) => v,
        Err(e) => {
            return Err(e);
        },
    };
    let deadline = deadline_timestamp(now_unix_secs);
    let mut path: Vec<Address> = Vec::new();
    path.push(weth_address());
    path.push(token);
    let call_data = encode_swap_calldata(min_amount_out, &path, sender, deadline);
    proof {
        assert(spec_path_views(path@) =~= seq![
            spec_weth_address(),
            spec_address_bytes(token_address.spec_bytes()),
        ]);
    }
    Ok(
        TransactionPlan {
            sender: Address { bytes: copy_bytes(&sender.bytes) },
            recipient: uniswap_v2_router_address(),
            value: amount_in,
            gas_limit: SWAP_GAS_LIMIT,
            max_priority_fee_per_gas,
            max_fee_per_gas,
            call_data,
            nonce,
            deadline,
        },
    )
}

} // verus!
