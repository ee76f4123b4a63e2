use swapbot::abi::decode_amounts;
use swapbot::amounts::{
    after_output, after_required_input, begin_quote, clamp_spend, min_amount_out,
    resolve_slippage, QuoteError, QuoteQuery, AUTO_SLIPPAGE_SCALED, TOLERANCE_SCALE,
};

/// Builds an ABI reply holding the given amounts: an offset word (32),
/// a length word, and one 32-byte big-endian word per amount.
fn amounts_reply(values: &[u128]) -> Vec<u8> {
    let mut out = Vec::new();
    push_word(&mut out, 32);
    push_word(&mut out, values.len() as u128);
    for v in values {
        push_word(&mut out, *v);
    }
    out
}

fn push_word(out: &mut Vec<u8>, v: u128) {
    out.extend_from_slice(&[0u8; 16]);
    out.extend_from_slice(&v.to_be_bytes());
}

#[test]
fn slippage_scenario_one_percent() {
    // spend 0.1 native units, 1% tolerance, gross 1000 => minimum 990
    let tol = TOLERANCE_SCALE / 100;
    assert_eq!(min_amount_out(1000, tol), Ok(990));
}

#[test]
fn slippage_zero_tolerance_keeps_gross() {
    assert_eq!(min_amount_out(1000, 0), Ok(1000));
}

#[test]
fn slippage_auto_resolves_to_half_percent() {
    assert_eq!(resolve_slippage(true, 0), AUTO_SLIPPAGE_SCALED);
    assert_eq!(resolve_slippage(false, 123), 123);
    assert_eq!(min_amount_out(1000, AUTO_SLIPPAGE_SCALED), Ok(995));
}

#[test]
fn slippage_overflow_fails_not_wraps() {
    assert_eq!(min_amount_out(u128::MAX, 2), Err(QuoteError::SlippageOverflow));
}

#[test]
fn slippage_floor_division() {
    // gross 999, tolerance 1%: deduction floor(9.99) = 9
    let tol = TOLERANCE_SCALE / 100;
    assert_eq!(min_amount_out(999, tol), Ok(990));
}

#[test]
fn clamp_takes_the_lesser() {
    assert_eq!(clamp_spend(5, 3), 3);
    assert_eq!(clamp_spend(3, 5), 3);
    assert_eq!(clamp_spend(4, 4), 4);
}

#[test]
fn begin_quote_zero_cap_spends_directly() {
    assert_eq!(begin_quote(7, 0), QuoteQuery::OutputForInput { amount_in: 7 });
    assert_eq!(begin_quote(7, 9), QuoteQuery::RequiredInput { amount_out_cap: 9 });
}

#[test]
fn required_input_clamps_spend() {
    let reply = amounts_reply(&[40, 100]);
    let q = after_required_input(70, Some(&reply)).unwrap();
    assert_eq!(q, QuoteQuery::OutputForInput { amount_in: 40 });
    // the configured spend already below the required input stays
    let q = after_required_input(30, Some(&reply)).unwrap();
    assert_eq!(q, QuoteQuery::OutputForInput { amount_in: 30 });
}

#[test]
fn required_input_call_failure() {
    assert_eq!(after_required_input(70, None), Err(QuoteError::CallFailed));
}

#[test]
fn required_input_out_of_range_fails() {
    // the router-reported required input exceeds the 128-bit width
    let mut reply = amounts_reply(&[1, 2]);
    reply[64] = 1;
    assert_eq!(after_required_input(70, Some(&reply)), Err(QuoteError::ValueOutOfRange));
}

#[test]
fn required_input_empty_reply() {
    let reply = amounts_reply(&[]);
    assert_eq!(after_required_input(70, Some(&reply)), Err(QuoteError::EmptyResult));
}

#[test]
fn output_reply_yields_protected_quote() {
    // spend 0.1 native units at 1% tolerance; the router quotes a gross
    // output of 1000 token units (the last amount of the reply), so the
    // protected minimum is 990
    let spend: u128 = 100_000_000_000_000_000;
    let reply = amounts_reply(&[spend, 1000]);
    let tol = TOLERANCE_SCALE / 100;
    let q = after_output(spend, Some(&reply), tol).unwrap();
    assert_eq!(q.amount_in, spend);
    assert_eq!(q.amount_out_gross, 1000);
    assert_eq!(q.min_amount_out, 990);
}

#[test]
fn output_reply_failures() {
    let tol = TOLERANCE_SCALE / 100;
    assert_eq!(after_output(50, None, tol), Err(QuoteError::CallFailed));
    let empty = amounts_reply(&[]);
    assert_eq!(after_output(50, Some(&empty), tol), Err(QuoteError::EmptyResult));
    let overflowing = amounts_reply(&[u128::MAX]);
    assert_eq!(after_output(50, Some(&overflowing), 2), Err(QuoteError::SlippageOverflow));
}

#[test]
fn decode_amounts_reads_values() {
    let reply = amounts_reply(&[1, u128::MAX, 0]);
    assert_eq!(decode_amounts(&reply), Ok(vec![1, u128::MAX, 0]));
}

#[test]
fn decode_amounts_rejects_malformed() {
    // too short
    assert_eq!(decode_amounts(&[0u8; 63]), Err(QuoteError::MalformedResponse));
    // wrong offset word
    let mut bad = amounts_reply(&[1]);
    bad[31] = 64;
    assert_eq!(decode_amounts(&bad), Err(QuoteError::MalformedResponse));
    // length word disagreeing with the byte count
    let mut short = amounts_reply(&[1, 2]);
    short.truncate(96);
    assert_eq!(decode_amounts(&short), Err(QuoteError::MalformedResponse));
}

#[test]
fn decode_amounts_rejects_wide_values() {
    // a 256-bit value above the 128-bit range
    let mut reply = amounts_reply(&[7]);
    reply[64] = 1;
    assert_eq!(decode_amounts(&reply), Err(QuoteError::ValueOutOfRange));
}
