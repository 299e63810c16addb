//! Waiting times: exponential backoff between retries and jitter on every
//! delay, so that many waiters do not wake in step.

use vstd::prelude::*;

verus! {

/// The first backoff delay: one second.
pub const BACKOFF_INITIAL_MS: u64 = 1000;

/// The longest backoff delay: thirty seconds.
pub const BACKOFF_CAP_MS: u64 = 30000;

/// The delay before jitter after `attempt` failures in a row: one second,
/// doubled with each further failure, and never more than thirty seconds.
pub open spec fn backoff_base_ms(attempt: nat) -> nat
    decreases attempt,
{
    if attempt == 0 {
        1000
    } else if backoff_base_ms((attempt - 1) as nat) * 2 >= 30000 {
        30000
    } else {
        backoff_base_ms((attempt - 1) as nat) * 2
    }
}

/// `base_ms` moved by the jitter that `sample` picks: a delay between 80% and
/// 120% of the base, every whole millisecond in that range being reachable.
pub open spec fn jittered_ms(base_ms: nat, sample: u64) -> nat {
    (base_ms * 4 / 5 + sample as nat % (base_ms * 2 / 5 + 1)) as nat
}

/// The backoff delay never leaves the range from one to thirty seconds and
/// never shrinks as failures add up.
pub proof fn lemma_backoff_bounds(attempt: nat)
    ensures
        1000 <= backoff_base_ms(attempt) <= 30000,
        backoff_base_ms(attempt) <= backoff_base_ms(attempt + 1),
    decreases attempt,
{
    if attempt > 0 {
        lemma_backoff_bounds((attempt - 1) as nat);
    }
}

/// From the fifth failure in a row on, the delay stays at the cap.
pub proof fn lemma_backoff_reaches_cap(attempt: nat)
    requires
        attempt >= 5,
    ensures
        backoff_base_ms(attempt) == 30000,
    decreases attempt,
{
    reveal_with_fuel(backoff_base_ms, 6);
    if attempt > 5 {
        lemma_backoff_reaches_cap((attempt - 1) as nat);
    }
}

/// Jitter moves a delay by at most a fifth of it, up or down.
pub proof fn lemma_jitter_within_a_fifth(base_ms: nat, sample: u64)
    ensures
        base_ms * 4 / 5 <= jittered_ms(base_ms, sample) <= base_ms * 4 / 5 + base_ms * 2 / 5,
        base_ms * 4 <= jittered_ms(base_ms, sample) * 5 + 4,
        jittered_ms(base_ms, sample) * 5 <= base_ms * 6,
{
}

/// Computes the backoff delay before jitter after `attempt` failures in a row.
pub fn backoff_base(attempt: u32) -> (ms: u64)
    ensures
        ms == backoff_base_ms(attempt as nat),
{
    let mut ms: u64 = BACKOFF_INITIAL_MS;
    let mut i: u32 = 0;
    while i < attempt && ms < BACKOFF_CAP_MS
        invariant
            i <= attempt,
            ms == backoff_base_ms(i as nat),
            1000 <= ms <= 30000,
        decreases attempt - i,
    {
        ms = if ms * 2 >= BACKOFF_CAP_MS {
            BACKOFF_CAP_MS
        } else {
            ms * 2
        };
        i += 1;
    }
    proof {
        if i < attempt {
            lemma_capped_stays(i as nat, attempt as nat);
        }
    }
    ms
}

proof fn lemma_capped_stays(from: nat, to: nat)
    requires
        from <= to,
        backoff_base_ms(from) == 30000,
    ensures
        backoff_base_ms(to) == 30000,
    decreases to - from,
{
    if from < to {
        lemma_capped_stays(from, (to - 1) as nat);
    }
}

/// Applies jitter to a delay. `sample` is any number the caller drew at
/// random; the result is the same for the same sample. The delay must leave
/// room for the arithmetic: four times it has to fit in 64 bits.
pub fn jittered(base_ms: u64, sample: u64) -> (ms: u64)
    requires
        base_ms <= u64::MAX / 4,
    ensures
        ms == jittered_ms(base_ms as nat, sample),
{
    let low: u64 = base_ms * 4 / 5;
    let span: u64 = base_ms * 2 / 5 + 1;
    low + sample % span
}

/// The delay to wait after `attempt` failures in a row, jitter included.
pub fn backoff_delay(attempt: u32, sample: u64) -> (ms: u64)
    ensures
        ms == jittered_ms(backoff_base_ms(attempt as nat), sample),
        800 <= ms <= 36000,
{
    proof {
        lemma_backoff_bounds(attempt as nat);
    }
    jittered(backoff_base(attempt), sample)
}

} // verus!
