//! The receipt-polling backoff policy: a delay that starts at five
//! seconds, doubles each iteration and is capped at sixty seconds,
//! together with an attempt counter that bounds the loop.

use vstd::prelude::*;

verus! {

/// First polling delay, in seconds.
pub const INITIAL_DELAY_SECS: u64 = 5;

/// The cap on the polling delay, in seconds.
pub const MAX_DELAY_SECS: u64 = 60;

/// How many empty polls the public path tolerates before giving up.
pub const MAX_ATTEMPTS: u64 = 5;

/// The delay, in seconds, waited after empty poll number `n` (counting
/// from zero): five seconds doubled each time, capped at sixty.
pub open spec fn spec_backoff_delay(n: nat) -> nat
    decreases n,
{
    if n == 0 {
        INITIAL_DELAY_SECS as nat
    } else if spec_backoff_delay((n - 1) as nat) * 2 >= MAX_DELAY_SECS {
        MAX_DELAY_SECS as nat
    } else {
        spec_backoff_delay((n - 1) as nat) * 2
    }
}

/// The backoff schedule is 5, 10, 20, 40, 60, 60, 60, …: it doubles
/// until the cap and never exceeds it.
pub proof fn lemma_backoff_schedule(n: nat)
    ensures
        spec_backoff_delay(0) == 5,
        spec_backoff_delay(1) == 10,
        spec_backoff_delay(2) == 20,
        spec_backoff_delay(3) == 40,
        n >= 4 ==> spec_backoff_delay(n) == 60,
        spec_backoff_delay(n) <= 60,
    decreases n,
{
    if n >= 5 {
        lemma_backoff_schedule((n - 1) as nat);
    } else {
        lemma_backoff_schedule_prefix();
    }
}

proof fn lemma_backoff_schedule_prefix()
    ensures
        spec_backoff_delay(0) == 5,
        spec_backoff_delay(1) == 10,
        spec_backoff_delay(2) == 20,
        spec_backoff_delay(3) == 40,
        spec_backoff_delay(4) == 60,
{
    assert(spec_backoff_delay(0) == 5);
    assert(spec_backoff_delay(1) == 10);
    assert(spec_backoff_delay(2) == 20);
    assert(spec_backoff_delay(3) == 40);
    assert(spec_backoff_delay(4) == 60);
}

/// The seconds waited in total over the first `n` empty polls.
pub open spec fn spec_backoff_total(n: nat) -> nat
    decreases n,
{
    if n == 0 {
        0
    } else {
        spec_backoff_total((n - 1) as nat) + spec_backoff_delay((n - 1) as nat)
    }
}

/// An attempt that never sees a receipt waits out exactly the
/// 5 + 10 + 20 + 40 + 60 second schedule before it times out.
pub proof fn lemma_backoff_budget()
    ensures
        spec_backoff_total(MAX_ATTEMPTS as nat) == 135,
{
    lemma_backoff_schedule_prefix();
    assert(spec_backoff_total(0) == 0);
    assert(spec_backoff_total(1) == 5);
    assert(spec_backoff_total(2) == 15);
    assert(spec_backoff_total(3) == 35);
    assert(spec_backoff_total(4) == 75);
    assert(spec_backoff_total(5) == 135);
}

/// The confirmation loop's state: the delay to wait after the next
/// empty poll, and how many empty polls have been seen.
#[derive(Clone, Copy, Debug, PartialEq, Eq, Structural)]
pub struct ReceiptPollState {
    /// Seconds to wait if the next poll finds no receipt.
    pub delay_secs: u64,
    /// Empty polls seen so far.
    pub attempts: u64,
}

impl ReceiptPollState {
    /// The state's invariant: the delay is the scheduled one for the
    /// attempt count, and the count never passes the bound.
    pub open spec fn wf(&self) -> bool {
        &&& self.attempts <= MAX_ATTEMPTS
        &&& self.delay_secs == spec_backoff_delay(self.attempts as nat)
    }
}

/// The poll state at submission time: no attempts, five-second delay.
pub fn initial_poll_state() -> (s: ReceiptPollState)
    ensures
        s.wf(),
        s.attempts == 0,
        s.delay_secs == INITIAL_DELAY_SECS,
{
    ReceiptPollState { delay_secs: INITIAL_DELAY_SECS, attempts: 0 }
}

/// The delay following the given one: doubled, capped at sixty seconds.
pub fn next_backoff_delay(delay_secs: u64) -> (r: u64)
    requires
        delay_secs <= MAX_DELAY_SECS,
    ensures
        r == if 2 * delay_secs >= MAX_DELAY_SECS { MAX_DELAY_SECS as int } else { 2 * delay_secs },
        r <= MAX_DELAY_SECS,
{
    if delay_secs >= 30 {
        MAX_DELAY_SECS
    } else {
        2 * delay_secs
    }
}

} // verus!
