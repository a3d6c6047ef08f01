use vstd::arithmetic::power2::{lemma2_to64, lemma_pow2_unfold, pow2};
use vstd::prelude::*;

verus! {

/// Delay before the first reconnection attempt after a failure.
pub const INITIAL_RECONNECT_DELAY_MS: u64 = 5000;

/// Ceiling of the reconnection delay.
pub const MAX_RECONNECT_DELAY_MS: u64 = 30000;

/// A stored delay is either unset or at most the ceiling.
pub open spec fn delay_is_bounded(stored: Option<u64>) -> bool {
    stored matches Some(d) ==> d <= MAX_RECONNECT_DELAY_MS
}

/// The delay that the next reconnection timer is armed with.
pub open spec fn delay_to_use(stored: Option<u64>) -> u64 {
    match stored {
        Some(d) => d,
        None => INITIAL_RECONNECT_DELAY_MS,
    }
}

/// The delay stored for the attempt after one that waited `delay`.
pub open spec fn doubled_capped(delay: u64) -> u64 {
    if 2 * delay <= MAX_RECONNECT_DELAY_MS {
        (2 * delay) as u64
    } else {
        MAX_RECONNECT_DELAY_MS
    }
}

/// The stored delay after `n` consecutive failures, starting unset.
pub open spec fn stored_after_failures(n: nat) -> Option<u64>
    decreases n,
{
    if n == 0 {
        None
    } else {
        Some(doubled_capped(delay_to_use(stored_after_failures((n - 1) as nat))))
    }
}

/// Returns the delay to arm now and the delay to store for the next attempt.
pub fn next_reconnect_delay(stored: Option<u64>) -> (r: (u64, u64))
    requires
        delay_is_bounded(stored),
    ensures
        r.0 == delay_to_use(stored),
        r.1 == doubled_capped(r.0),
        r.1 <= MAX_RECONNECT_DELAY_MS,
{
    let delay: u64 = match stored {
        Some(d) => d,
        None => INITIAL_RECONNECT_DELAY_MS,
    };
    let doubled: u64 = delay * 2;
    let next: u64 = if doubled <= MAX_RECONNECT_DELAY_MS {
        doubled
    } else {
        MAX_RECONNECT_DELAY_MS
    };
    (delay, next)
}

/// After `n >= 1` consecutive failures from an unset delay, the timer of the
/// `n`-th failure waits `min(5000 * 2^(n-1), 30000)` milliseconds; and since a
/// success unsets the stored delay, the next failure waits 5000 again.
pub proof fn backoff_after_failures(n: nat)
    requires
        n >= 1,
    ensures
        delay_to_use(stored_after_failures((n - 1) as nat)) as int == if 5000 * pow2((n - 1) as nat)
            <= 30000 {
            5000 * pow2((n - 1) as nat)
        } else {
            30000
        },
        delay_to_use(None) == INITIAL_RECONNECT_DELAY_MS,
        delay_is_bounded(stored_after_failures(n)),
    decreases n,
{
    if n == 1 {
        lemma2_to64();
    } else {
        let m = (n - 1) as nat;
        backoff_after_failures(m);
        lemma_pow2_unfold(m);
        assert(pow2(m) == 2 * pow2((m - 1) as nat));
        let prev = delay_to_use(stored_after_failures((m - 1) as nat));
        assert(stored_after_failures(m) == Some(doubled_capped(prev)));
    }
}

} // verus!
