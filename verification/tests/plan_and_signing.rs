use ethers_core::abi::Token;
use ethers_core::types::{H160, U256};
use ethers_core::utils::id;
use ethers_signers::{LocalWallet, Signer};
use swapbot::abi::{encode_get_amounts_in, encode_get_amounts_out, encode_swap_calldata};
use swapbot::addr::{parse_address, uniswap_v2_router_address, weth_address, Address};
use swapbot::plan::{
    build_plan, deadline_timestamp, fee_with_premium, PlanError, SWAP_GAS_LIMIT,
};
use swapbot::signing::{reparse_signed, sign_plan};

const TOKEN: &str = "0x1f9840a85d5aF5bf1D1762F925BDADdC4201F984";

fn token_h160(a: &Address) -> H160 {
    H160::from_slice(&a.bytes)
}

#[test]
fn address_parsing() {
    let a = parse_address(TOKEN).unwrap();
    assert_eq!(a.bytes.len(), 20);
    assert_eq!(a.bytes[0], 0x1f);
    assert_eq!(a.bytes[19], 0x84);
    // the parsed bytes agree with the reference parser
    assert_eq!(a.bytes, TOKEN.parse::<H160>().unwrap().as_bytes().to_vec());
    assert!(parse_address("0x1234").is_none());
    assert!(parse_address("1f9840a85d5aF5bf1D1762F925BDADdC4201F98400").is_none());
    assert!(parse_address("0x1f9840a85d5aF5bf1D1762F925BDADdC4201F9g4").is_none());
}

#[test]
fn known_addresses() {
    let router = uniswap_v2_router_address();
    assert_eq!(
        router.bytes,
        "0x7a250d5630B4cF539739dF2C5dAcb4c659F2488D".parse::<H160>().unwrap().as_bytes().to_vec()
    );
    let weth = weth_address();
    assert_eq!(
        weth.bytes,
        "0xC02aaA39b223FE8D0A0e5C4F27eAD9083C756Cc2".parse::<H160>().unwrap().as_bytes().to_vec()
    );
}

#[test]
fn quote_calldata_matches_reference_encoder() {
    let weth = weth_address();
    let token = parse_address(TOKEN).unwrap();
    let path = vec![weth.clone(), token.clone()];
    let amount: u128 = 123_456_789_000_000_000;

    let tokens = [
        Token::Uint(U256::from(amount)),
        Token::Array(vec![
            Token::Address(token_h160(&weth)),
            Token::Address(token_h160(&token)),
        ]),
    ];
    let body = ethers_core::abi::encode(&tokens);

    let mut expected_in = id("getAmountsIn(uint256,address[])").to_vec();
    expected_in.extend_from_slice(&body);
    assert_eq!(encode_get_amounts_in(amount, &path), expected_in);

    let mut expected_out = id("getAmountsOut(uint256,address[])").to_vec();
    expected_out.extend_from_slice(&body);
    assert_eq!(encode_get_amounts_out(amount, &path), expected_out);
}

#[test]
fn swap_calldata_matches_reference_encoder() {
    let weth = weth_address();
    let token = parse_address(TOKEN).unwrap();
    let recipient = parse_address("0x00000000219ab540356cBB839Cbe05303d7705Fa").unwrap();
    let path = vec![weth.clone(), token.clone()];
    let min_out: u128 = 990;
    let deadline: u64 = 1_700_000_060;

    let tokens = [
        Token::Uint(U256::from(min_out)),
        Token::Array(vec![
            Token::Address(token_h160(&weth)),
            Token::Address(token_h160(&token)),
        ]),
        Token::Address(token_h160(&recipient)),
        Token::Uint(U256::from(deadline)),
    ];
    let mut expected = id(
        "swapExactETHForTokensSupportingFeeOnTransferTokens(uint256,address[],address,uint256)",
    )
    .to_vec();
    expected.extend_from_slice(&ethers_core::abi::encode(&tokens));
    assert_eq!(encode_swap_calldata(min_out, &path, &recipient, deadline), expected);
}

#[test]
fn deadline_and_fees() {
    assert_eq!(deadline_timestamp(1_700_000_000), 1_700_000_060);
    assert_eq!(fee_with_premium(10, 5), Ok(15));
    assert_eq!(fee_with_premium(u128::MAX, 1), Err(PlanError::FeeOverflow));
}

#[test]
fn build_plan_assembles_all_fields() {
    let sender = parse_address("0x00000000219ab540356cBB839Cbe05303d7705Fa").unwrap();
    let now: u64 = 1_700_000_000;
    let plan = build_plan(&sender, TOKEN, 1000, 990, 30, 2, 7, 3, 42, now).unwrap();
    assert_eq!(plan.sender.bytes, sender.bytes);
    assert_eq!(plan.recipient.bytes, uniswap_v2_router_address().bytes);
    assert_eq!(plan.value, 1000);
    assert_eq!(plan.gas_limit, SWAP_GAS_LIMIT);
    assert_eq!(plan.max_fee_per_gas, 37);
    assert_eq!(plan.max_priority_fee_per_gas, 5);
    assert_eq!(plan.nonce, 42);
    assert_eq!(plan.deadline, now + 60);
    let path = vec![weth_address(), parse_address(TOKEN).unwrap()];
    assert_eq!(plan.call_data, encode_swap_calldata(990, &path, &sender, now + 60));
}

#[test]
fn build_plan_failures() {
    let sender = parse_address("0x00000000219ab540356cBB839Cbe05303d7705Fa").unwrap();
    assert_eq!(
        build_plan(&sender, "not an address", 1, 1, 1, 1, 1, 1, 1, 0).unwrap_err(),
        PlanError::InvalidTokenAddress
    );
    assert_eq!(
        build_plan(&sender, TOKEN, 1, 1, u128::MAX, 1, 1, 1, 1, 0).unwrap_err(),
        PlanError::FeeOverflow
    );
    assert_eq!(
        build_plan(&sender, TOKEN, 1, 1, 1, u128::MAX, 1, 1, 1, 0).unwrap_err(),
        PlanError::FeeOverflow
    );
}

#[test]
fn signed_plan_reparses_to_the_same_fields() {
    // a constructed plan, signed and re-parsed, recovers the sender,
    // recipient, value, nonce and fee fields it was built with
    let key = vec![0x11u8; 32];
    let wallet = LocalWallet::from_bytes(&key).unwrap();
    let sender = Address { bytes: wallet.address().as_bytes().to_vec() };
    let now: u64 = 1_700_000_000;
    let plan = build_plan(&sender, TOKEN, 1000, 990, 30, 2, 7, 3, 42, now).unwrap();

    let raw = sign_plan(&plan, &key, 1).unwrap();
    let decoded = reparse_signed(&raw).unwrap();
    assert_eq!(decoded.sender, sender.bytes);
    assert_eq!(decoded.recipient, plan.recipient.bytes);
    assert_eq!(decoded.value, plan.value);
    assert_eq!(decoded.nonce, plan.nonce);
    assert_eq!(decoded.max_priority_fee_per_gas, plan.max_priority_fee_per_gas);
    assert_eq!(decoded.max_fee_per_gas, plan.max_fee_per_gas);
}

#[test]
fn reparse_rejects_garbage() {
    assert!(reparse_signed(&vec![0x99, 0x01, 0x02]).is_none());
}
