//! The connect-retry backoff schedule: attempt `i` (counted from zero) is
//! followed, when it fails, by a sleep of `base * 2^i` seconds.

use vstd::prelude::*;

verus! {

/// How many connection attempts are made before giving up.
pub const CONNECT_ATTEMPTS: u32 = 5;

/// The largest backoff base for which every delay of the schedule fits in
/// a `u32` count of seconds.
pub const MAX_BACKOFF_BASE: u32 = u32::MAX / 16;

/// `2^k`.
pub open spec fn pow2(k: nat) -> nat
    decreases k,
{
    if k == 0 {
        1
    } else {
        2 * pow2((k - 1) as nat)
    }
}

/// The delay slept after failed attempt `i` (counted from zero).
pub open spec fn backoff_delay(base: nat, i: nat) -> nat {
    base * pow2(i)
}

/// The total time slept before attempt `k` (counted from zero): the sum of
/// the delays that follow attempts `0, 1, ..., k - 1`.
pub open spec fn total_backoff(base: nat, k: nat) -> nat
    decreases k,
{
    if k == 0 {
        0
    } else {
        total_backoff(base, (k - 1) as nat) + backoff_delay(base, (k - 1) as nat)
    }
}

pub proof fn lemma_pow2_pos(k: nat)
    ensures
        pow2(k) >= 1,
    decreases k,
{
    if k > 0 {
        lemma_pow2_pos((k - 1) as nat);
    }
}

/// The waits of the schedule add up geometrically: the total time slept
/// before attempt `k` is `base * (2^k - 1)`. With the default base of one
/// second the waits before attempts `0..5` are 0, 1, 3, 7 and 15 seconds,
/// and a run that exhausts all five attempts sleeps 31 seconds in all.
pub proof fn lemma_total_backoff(base: nat, k: nat)
    ensures
        total_backoff(base, k) == base * (pow2(k) - 1),
    decreases k,
{
    if k == 0 {
        assert(pow2(0) == 1);
    } else {
        let j = (k - 1) as nat;
        lemma_total_backoff(base, j);
        lemma_pow2_pos(j);
        assert(pow2(k) == 2 * pow2(j));
        assert(base * (pow2(j) - 1) + base * pow2(j) == base * (2 * pow2(j) - 1))
            by (nonlinear_arith)
            requires
                pow2(j) >= 1,
        ;
    }
}

/// Computes the delay of the schedule for attempt `i`.
pub fn delay_secs(base: u32, i: u32) -> (d: u32)
    requires
        i < CONNECT_ATTEMPTS,
        base <= MAX_BACKOFF_BASE,
    ensures
        d == backoff_delay(base as nat, i as nat),
{
    let p: u32 = if i == 0 {
        1
    } else if i == 1 {
        2
    } else if i == 2 {
        4
    } else if i == 3 {
        8
    } else {
        16
    };
    proof {
        assert(pow2(0) == 1);
        assert(pow2(1) == 2);
        assert(pow2(2) == 4);
        assert(pow2(3) == 8);
        assert(pow2(4) == 16);
        assert(base * p <= MAX_BACKOFF_BASE * 16) by (nonlinear_arith)
            requires
                base <= MAX_BACKOFF_BASE,
                1 <= p <= 16,
        ;
    }
    base * p
}

} // verus!
