//! Connection-lifecycle decisions.
//!
//! The socket itself lives outside the library; what is verified here is
//! every decision the connection manager makes: the exponential backoff and
//! retry cut-off of the liveness probe, and the heartbeat suppression on the
//! receive path. The caller performs one read, hands the bytes in, and
//! carries the returned decision out (sleep, tear down, forward a packet).

use crate::json::parse_packet;
use crate::models::Packet;
use vstd::arithmetic::power2::lemma2_to64;
use vstd::arithmetic::power2::lemma2_to64_rest;
use vstd::arithmetic::power2::lemma_pow2_strictly_increases;
use vstd::arithmetic::power2::pow2;
use vstd::bits::lemma_u64_pow2_no_overflow;
use vstd::bits::lemma_u64_shl_is_mul;
use vstd::prelude::*;

verus! {

/// A status transition of the connection manager, reconciled outside the
/// library into the shared `connected` flag and the log.
#[derive(Debug)]
pub enum ConnectionStatus {
    Connected,
    Failed(String),
}

/// The timeout window before retry `k`: the initial window doubled `k`
/// times, pegged at `u64::MAX` milliseconds.
pub open spec fn spec_backoff(initial_ms: u64, k: u64) -> u64 {
    if initial_ms * pow2(k as nat) > u64::MAX {
        u64::MAX
    } else {
        (initial_ms * pow2(k as nat)) as u64
    }
}

/// `initial_ms * 2^k`, saturating at `u64::MAX`.
fn backoff_timeout(initial_ms: u64, k: u64) -> (r: u64)
    ensures
        r == spec_backoff(initial_ms, k),
{
    if initial_ms == 0 {
        proof {
            lemma_u64_pow2_no_overflow(0);
        }
        0
    } else if k >= 64 {
        proof {
            lemma2_to64();
            lemma2_to64_rest();
            if k > 64 {
                lemma_pow2_strictly_increases(64, k as nat);
            }
            assert(initial_ms * pow2(k as nat) >= 1 * pow2(k as nat)) by (nonlinear_arith)
                requires
                    initial_ms >= 1,
            ;
        }
        u64::MAX
    } else {
        let factor: u64 = 1u64 << k;
        proof {
            lemma_u64_pow2_no_overflow(k as nat);
            lemma_u64_shl_is_mul(1u64, k);
        }
        match initial_ms.checked_mul(factor) {
            Some(x) => x,
            None => u64::MAX,
        }
    }
}

/// One liveness-probe decision after a receive timeout or decode error:
/// counts the failure, keeps the connection while the counter is within
/// `max_retries` (returning `true` with the next, doubled timeout window
/// installed), and orders a teardown (`false`) once the counter passes the
/// limit.
pub fn try_pinging(
    retries: &mut u64,
    max_retries: u64,
    timeout_ms: &mut u64,
    initial_timeout_ms: u64,
) -> (keep: bool)
    requires
        *old(retries) < u64::MAX,
    ensures
        *final(retries) == *old(retries) + 1,
        keep <==> *final(retries) <= max_retries,
        keep ==> *final(timeout_ms) == spec_backoff(initial_timeout_ms, *final(retries)),
        !keep ==> *final(timeout_ms) == *old(timeout_ms),
{
    *retries = *retries + 1;
    if *retries > max_retries {
        return false;
    }
    *timeout_ms = backoff_timeout(initial_timeout_ms, *retries);
    true
}

/// On a successful frame the probe starts over: the counter and the timeout
/// window return to their baseline.
pub fn reset_liveness(retries: &mut u64, timeout_ms: &mut u64, initial_timeout_ms: u64)
    ensures
        *final(retries) == 0,
        *final(timeout_ms) == initial_timeout_ms,
{
    *retries = 0;
    *timeout_ms = initial_timeout_ms;
}

/// True when a decoded packet should reach the dispatcher: every type but
/// the heartbeat liveness signal is forwarded.
pub fn should_forward(p: &Packet) -> (r: bool)
    ensures
        r <==> p.kind@ != "Heartbeat"@,
{
    let heartbeat: String = "Heartbeat".to_owned();
    !(p.kind == heartbeat)
}

/// One receive step past the frame layer: decodes a frame payload into a
/// packet and suppresses heartbeats. Whatever comes back, a heartbeat is
/// never handed on, any forwarded packet is the decoded one unchanged, and
/// bytes that are not one JSON document forward nothing.
pub fn process_payload(payload: &[u8]) -> (r: Option<Packet>)
    ensures
        r matches Some(p) ==> p.kind@ != "Heartbeat"@,
        !crate::json::json_parses(payload@) ==> r is None,
{
    match parse_packet(payload) {
        Some(p) => {
            if should_forward(&p) {
                Some(p)
            } else {
                None
            }
        },
        None => None,
    }
}

/// While the retry counter is within the limit, the window used on attempt
/// `k` is exactly the initial window scaled by `2^k` whenever that product
/// fits in `u64` (and pegs at `u64::MAX` when it does not).
pub proof fn lemma_backoff_progression(initial_ms: u64, k: u64)
    requires
        initial_ms * pow2(k as nat) <= u64::MAX,
    ensures
        spec_backoff(initial_ms, k) == initial_ms * pow2(k as nat),
{
}

/// Each kept retry doubles the previous timeout window, as long as the
/// doubled window still fits.
pub proof fn lemma_backoff_doubles(initial_ms: u64, k: u64)
    requires
        k < u64::MAX,
        initial_ms * pow2((k + 1) as nat) <= u64::MAX,
    ensures
        spec_backoff(initial_ms, (k + 1) as u64) == 2 * spec_backoff(initial_ms, k),
{
    assert(pow2((k + 1) as nat) == 2 * pow2(k as nat)) by {
        vstd::arithmetic::power2::lemma_pow2_unfold((k + 1) as nat);
    }
    assert(initial_ms * pow2((k + 1) as nat) == 2 * (initial_ms * pow2(k as nat)))
        by (nonlinear_arith)
        requires
            pow2((k + 1) as nat) == 2 * pow2(k as nat),
    ;
}

} // verus!
