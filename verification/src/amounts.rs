//! Quote-engine arithmetic: slippage-protected minimum output and
//! clamping of the desired spend against a maximum-output cap.
//!
//! All amounts are in the chain's smallest units and are held in fixed
//! width unsigned integers; every operation that could wrap is checked
//! and fails explicitly instead.

use vstd::prelude::*;
use vstd::arithmetic::div_mod::{lemma_div_is_ordered, lemma_div_multiples_vanish, lemma_div_pos_is_pos};
use vstd::arithmetic::mul::{lemma_mul_inequality, lemma_mul_nonnegative};

verus! {

/// One whole unit in the 10^18 fixed-point scale used for slippage tolerances.
pub const TOLERANCE_SCALE: u128 = 1_000_000_000_000_000_000;

/// The tolerance that the "auto" slippage setting resolves to: 0.5%,
/// in the 10^18 fixed-point scale.
pub const AUTO_SLIPPAGE_SCALED: u128 = 5_000_000_000_000_000;

/// Failure of a quote computation.
#[derive(Clone, Copy, Debug, PartialEq, Eq, Structural)]
pub enum QuoteError {
    /// The router's read-only call failed (reverted or was unreachable).
    CallFailed,
    /// The router returned an empty amounts array.
    EmptyResult,
    /// The router's reply bytes were not a well-formed amounts array.
    MalformedResponse,
    /// A returned amount does not fit the 128-bit representation.
    ValueOutOfRange,
    /// `amount_out_gross * scaled_tolerance` exceeds the 128-bit width.
    SlippageOverflow,
}

/// The slippage deduction: `floor(gross * scaled_tol / 10^18)`.
pub open spec fn spec_deduction(gross: int, scaled_tol: int) -> int {
    (gross * scaled_tol) / (TOLERANCE_SCALE as int)
}

/// The slippage-protected minimum acceptable output.
pub open spec fn spec_min_amount_out(gross: int, scaled_tol: int) -> int {
    gross - spec_deduction(gross, scaled_tol)
}

/// For every non-negative gross amount and every tolerance in [0, 1),
/// the deduction is between 0 and the gross amount, so the protected
/// minimum output satisfies `0 <= min_amount_out <= gross`.
pub proof fn lemma_slippage_protection(gross: int, scaled_tol: int)
    requires
        0 <= gross,
        0 <= scaled_tol < TOLERANCE_SCALE,
    ensures
        0 <= spec_deduction(gross, scaled_tol) <= gross,
        0 <= spec_min_amount_out(gross, scaled_tol) <= gross,
{
    let scale = TOLERANCE_SCALE as int;
    lemma_mul_nonnegative(gross, scaled_tol);
    lemma_div_pos_is_pos(gross * scaled_tol, scale);
    lemma_mul_inequality(scaled_tol, scale, gross);
    assert(gross * scaled_tol == scaled_tol * gross) by (nonlinear_arith);
    assert(gross * scale == scale * gross) by (nonlinear_arith);
    lemma_div_is_ordered(gross * scaled_tol, gross * scale, scale);
    lemma_div_multiples_vanish(gross, scale);
}

/// Computes the slippage-protected minimum output from the gross quoted
/// output and a tolerance in the 10^18 fixed-point scale.  The
/// multiplication is checked: on overflow the computation fails instead
/// of wrapping.
pub fn min_amount_out(gross: u128, scaled_tol: u128) -> (r: Result<u128, QuoteError>)
    requires
        scaled_tol < TOLERANCE_SCALE,
    ensures
        gross * scaled_tol <= u128::MAX ==> r == Ok::<u128, QuoteError>(
            spec_min_amount_out(gross as int, scaled_tol as int) as u128,
        ),
        gross * scaled_tol > u128::MAX ==> r == Err::<u128, QuoteError>(
            QuoteError::SlippageOverflow,
        ),
        r matches Ok(m) ==> m <= gross,
{
    match gross.checked_mul(scaled_tol) {
        Some(product) => {
            let deduction = product / TOLERANCE_SCALE;
            proof {
                lemma_slippage_protection(gross as int, scaled_tol as int);
            }
            Ok(gross - deduction)
        },
        None => Err(QuoteError::SlippageOverflow),
    }
}

/// The input amount the attempt resolves to, given the desired spend,
/// the maximum-output cap, and (for a non-zero cap) the router-reported
/// input required to produce the cap.
pub open spec fn spec_resolved_input(spend: u128, cap: u128, required_for_cap: u128) -> u128 {
    if cap == 0 {
        spend
    } else if required_for_cap < spend {
        required_for_cap
    } else {
        spend
    }
}

/// With a positive cap the resolved input is the lesser of the desired
/// spend and the input required to produce the cap; with a zero cap it
/// is exactly the desired spend.
pub proof fn lemma_quote_clamping(spend: u128, cap: u128, required_for_cap: u128)
    ensures
        cap > 0 ==> spec_resolved_input(spend, cap, required_for_cap) == vstd::math::min(
            spend as int,
            required_for_cap as int,
        ),
        cap == 0 ==> spec_resolved_input(spend, cap, required_for_cap) == spend,
{
}

/// Clamps the desired spend to the input required for the cap.
pub fn clamp_spend(spend: u128, required_for_cap: u128) -> (r: u128)
    ensures
        r == vstd::math::min(spend as int, required_for_cap as int),
{
    if required_for_cap < spend {
        required_for_cap
    } else {
        spend
    }
}

/// Resolves the configured slippage setting: the "auto" flag selects the
/// fixed 0.5% tolerance, otherwise the explicitly configured tolerance
/// is used as given.
pub fn resolve_slippage(auto: bool, configured_scaled: u128) -> (r: u128)
    requires
        configured_scaled < TOLERANCE_SCALE,
    ensures
        r == if auto { AUTO_SLIPPAGE_SCALED } else { configured_scaled },
        r < TOLERANCE_SCALE,
{
    if auto {
        AUTO_SLIPPAGE_SCALED
    } else {
        configured_scaled
    }
}

/// The router query an attempt must perform next.
#[derive(Clone, Copy, Debug, PartialEq, Eq, Structural)]
pub enum QuoteQuery {
    /// Ask the router for the input amounts required along the path to
    /// produce the capped output.
    RequiredInput { amount_out_cap: u128 },
    /// Ask the router for the output amounts obtainable along the path
    /// for the resolved input.
    OutputForInput { amount_in: u128 },
}

/// Begins a quote: with a non-zero maximum-output cap the router is
/// first asked for the input required to produce the cap; with a zero
/// cap the desired spend is used directly.
pub fn begin_quote(spend: u128, cap: u128) -> (q: QuoteQuery)
    ensures
        cap != 0 ==> q == (QuoteQuery::RequiredInput { amount_out_cap: cap }),
        cap == 0 ==> q == (QuoteQuery::OutputForInput { amount_in: spend }),
{
    if cap != 0 {
        QuoteQuery::RequiredInput { amount_out_cap: cap }
    } else {
        QuoteQuery::OutputForInput { amount_in: spend }
    }
}

/// Handles the reply to the required-input query: decodes the amounts,
/// clamps the desired spend to the router-reported required input, and
/// names the follow-up output query.  `reply` is `None` when the
/// router's call failed.
pub fn after_required_input(spend: u128, reply: Option<&Vec<u8>>) -> (r: Result<
    QuoteQuery,
    QuoteError,
>)
    ensures
        r == Err::<QuoteQuery, QuoteError>(QuoteError::CallFailed) <==> reply is None,
        reply matches Some(b) ==> {
            &&& r == Err::<QuoteQuery, QuoteError>(QuoteError::MalformedResponse)
                <==> !crate::abi::spec_amounts_reply_wf(b@)
            &&& r == Err::<QuoteQuery, QuoteError>(QuoteError::ValueOutOfRange)
                <==> (crate::abi::spec_amounts_reply_wf(b@) && !crate::abi::spec_reply_in_range(b@))
            &&& r == Err::<QuoteQuery, QuoteError>(QuoteError::EmptyResult)
                <==> (crate::abi::spec_amounts_reply_wf(b@) && crate::abi::spec_reply_in_range(b@)
                    && crate::abi::spec_reply_count(b@) == 0)
            &&& r matches Ok(q) ==> crate::abi::spec_amounts_reply_wf(b@)
                && crate::abi::spec_reply_in_range(b@) && crate::abi::spec_reply_count(b@) > 0 && q
                == QuoteQuery::OutputForInput {
                amount_in: vstd::math::min(
                    spend as int,
                    crate::abi::spec_reply_amount(b@, 0) as int,
                ) as u128,
            }
            &&& r is Ok <==> (crate::abi::spec_amounts_reply_wf(b@)
                && crate::abi::spec_reply_in_range(b@) && crate::abi::spec_reply_count(b@) > 0)
        },
{
    match reply {
        None => Err(QuoteError::CallFailed),
        Some(b) => match crate::abi::decode_amounts(b.as_slice()) {
            Err(e) => Err(e),
            Ok(amounts) => {
                if amounts.len() == 0 {
                    Err(QuoteError::EmptyResult)
                } else {
                    Ok(QuoteQuery::OutputForInput { amount_in: clamp_spend(spend, amounts[0]) })
                }
            },
        },
    }
}

/// Handles the reply to the output query: decodes the amounts, takes
/// the last one as the gross output along the path, and applies the
/// slippage cut.  `reply` is `None` when the router's call failed.
pub fn after_output(amount_in: u128, reply: Option<&Vec<u8>>, scaled_tol: u128) -> (r: Result<
    Quote,
    QuoteError,
>)
    requires
        scaled_tol < TOLERANCE_SCALE,
    ensures
        r == Err::<Quote, QuoteError>(QuoteError::CallFailed) <==> reply is None,
        reply matches Some(b) ==> {
            &&& r == Err::<Quote, QuoteError>(QuoteError::MalformedResponse)
                <==> !crate::abi::spec_amounts_reply_wf(b@)
            &&& r == Err::<Quote, QuoteError>(QuoteError::ValueOutOfRange)
                <==> (crate::abi::spec_amounts_reply_wf(b@) && !crate::abi::spec_reply_in_range(b@))
            &&& r == Err::<Quote, QuoteError>(QuoteError::EmptyResult)
                <==> (crate::abi::spec_amounts_reply_wf(b@) && crate::abi::spec_reply_in_range(b@)
                    && crate::abi::spec_reply_count(b@) == 0)
            &&& (crate::abi::spec_amounts_reply_wf(b@) && crate::abi::spec_reply_in_range(b@)
                && crate::abi::spec_reply_count(b@) > 0) ==> {
                let gross = crate::abi::spec_reply_amount(
                    b@,
                    crate::abi::spec_reply_count(b@) - 1,
                ) as u128;
                &&& gross * scaled_tol > u128::MAX ==> r == Err::<Quote, QuoteError>(
                    QuoteError::SlippageOverflow,
                )
                &&& gross * scaled_tol <= u128::MAX ==> r == Ok::<Quote, QuoteError>(
                    Quote {
                        amount_in,
                        amount_out_gross: gross,
                        min_amount_out: spec_min_amount_out(
                            gross as int,
                            scaled_tol as int,
                        ) as u128,
                    },
                )
            }
        },
        r matches Ok(q) ==> q.wf() && q.amount_in == amount_in,
{
    match reply {
        None => Err(QuoteError::CallFailed),
        Some(b) => match crate::abi::decode_amounts(b.as_slice()) {
            Err(e) => Err(e),
            Ok(amounts) => {
                if amounts.len() == 0 {
                    Err(QuoteError::EmptyResult)
                } else {
                    let gross = amounts[amounts.len() - 1];
                    match min_amount_out(gross, scaled_tol) {
                        Err(e) => Err(e),
                        Ok(m) => Ok(
                            Quote { amount_in, amount_out_gross: gross, min_amount_out: m },
                        ),
                    }
                }
            },
        },
    }
}

/// A computed quote: the input amount to spend, the gross output the
/// router quoted for it, and the slippage-protected minimum output.
#[derive(Clone, Copy, Debug, PartialEq, Eq, Structural)]
pub struct Quote {
    /// Input amount, in the chain's native currency units.
    pub amount_in: u128,
    /// Quoted output in token units, before the slippage cut.
    pub amount_out_gross: u128,
    /// Minimum acceptable output after the slippage cut.
    pub min_amount_out: u128,
}

impl Quote {
    /// The quote's invariant: the protected minimum never exceeds the
    /// gross quoted output.
    pub open spec fn wf(self) -> bool {
        self.min_amount_out <= self.amount_out_gross
    }
}

} // verus!
