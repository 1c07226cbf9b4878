//! Growth of the GPU instance buffers.
use vstd::arithmetic::power2::{lemma_pow2_unfold, pow2};
use vstd::prelude::*;

verus! {

/// `p` is a power of two.
pub open spec fn is_power_of_two(p: int) -> bool {
    exists|k: nat| p == pow2(k)
}

/// The smallest power of two that is at least `n` (1 for `n <= 1`).
pub open spec fn is_next_power_of_two(p: int, n: int) -> bool {
    &&& is_power_of_two(p)
    &&& p >= n
    &&& p >= 1
    &&& (p == 1 || p / 2 < n)
}

/// The smallest power of two at least `n`; `n` must leave room for it in a
/// `usize`.
pub fn next_power_of_two(n: usize) -> (p: usize)
    requires
        n <= usize::MAX / 2 + 1,
    ensures
        is_next_power_of_two(p as int, n as int),
{
    let mut p: usize = 1;
    let ghost mut k: nat = 0;
    assert(pow2(0) == 1) by {
        vstd::arithmetic::power2::lemma2_to64();
    }
    while p < n
        invariant
            n <= usize::MAX / 2 + 1,
            p as int == pow2(k),
            p >= 1,
            p == 1 || p / 2 < n,
        decreases usize::MAX - p,
    {
        proof {
            lemma_pow2_unfold(k + 1);
        }
        p = p * 2;
        proof {
            k = k + 1;
        }
    }
    assert(is_power_of_two(p as int)) by {
        assert(p as int == pow2(k));
    }
    p
}

/// The capacity of an instance buffer, in instances, after asking it to hold
/// `count` instances: unchanged when they fit, otherwise grown to the next
/// power of two at or above `count`.
pub open spec fn grown_capacity(cap: int, count: int, next: int) -> bool {
    if count > cap {
        is_next_power_of_two(next, count)
    } else {
        next == cap
    }
}

/// The capacity of an instance buffer of capacity `cap` that must hold
/// `count` instances.
pub fn instance_capacity(cap: usize, count: usize) -> (next: usize)
    requires
        count > cap ==> count <= usize::MAX / 2 + 1,
    ensures
        grown_capacity(cap as int, count as int, next as int),
{
    if count > cap {
        next_power_of_two(count)
    } else {
        cap
    }
}

/// Law: after growth the buffer holds every instance, it never shrinks, and
/// when it grows it grows to less than twice what is needed.
pub proof fn lemma_capacity_suffices(cap: int, count: int, next: int)
    requires
        cap >= 0,
        count >= 0,
        grown_capacity(cap, count, next),
    ensures
        next >= count,
        next >= cap,
        next > cap ==> next < 2 * count,
{
}

} // verus!
