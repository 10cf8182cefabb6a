//! Growth policy of the per-context vertex and index buffers.
//!
//! A [`GeometryBuffer`] records how many bytes the GPU buffer behind it can
//! hold. The capacity starts at zero (no buffer), only ever grows, and grows
//! to the least power of two that fits the requirement. Allocating the GPU
//! buffer itself is the caller's business: a changed [`BufferHandle`] tells
//! it that a buffer of the new size has to be created.

use vstd::arithmetic::power2::is_pow2;
use vstd::prelude::*;

verus! {

/// The least power of two that is at least `n`: 1 for `n <= 1`, and otherwise
/// twice the least power of two that is at least half of `n`, rounded up.
pub open spec fn spec_next_power_of_two(n: nat) -> nat
    decreases n,
{
    if n <= 1 {
        1
    } else {
        2 * spec_next_power_of_two((n + 1) / 2)
    }
}

/// The largest requirement a buffer can grow to: the largest power of two
/// that a `usize` holds.
pub open spec fn spec_max_capacity() -> nat {
    (usize::MAX / 2 + 1) as nat
}

/// Capacity after asking a buffer of capacity `capacity` for room for
/// `required` bytes: unchanged where that fits, and otherwise the least power
/// of two that does.
pub open spec fn spec_grown(capacity: nat, required: nat) -> nat {
    if required > capacity {
        spec_next_power_of_two(required)
    } else {
        capacity
    }
}

/// Doubling a power of two gives a power of two.
proof fn lemma_pow2_double(p: int)
    requires
        is_pow2(p),
    ensures
        is_pow2(2 * p),
{
    reveal(is_pow2);
}

/// Between a power of two and its double there is no other power of two.
proof fn lemma_pow2_gap(a: int, b: int)
    requires
        is_pow2(a),
        is_pow2(b),
        a < b,
    ensures
        2 * a <= b,
    decreases b,
{
    reveal(is_pow2);
    if a != 1 {
        lemma_pow2_gap(a / 2, b / 2);
    }
}

/// `spec_next_power_of_two(n)` is a power of two, is at least `n`, and no
/// smaller power of two is at least `n`.
pub proof fn lemma_next_power_of_two_is_least(n: nat)
    ensures
        is_pow2(spec_next_power_of_two(n) as int),
        spec_next_power_of_two(n) >= n,
        forall|p: int| is_pow2(p) && p >= n ==> spec_next_power_of_two(n) <= p,
    decreases n,
{
    reveal(is_pow2);
    if n > 1 {
        let half = ((n + 1) / 2) as nat;
        lemma_next_power_of_two_is_least(half);
        let r = spec_next_power_of_two(half);
        assert forall|p: int| is_pow2(p) && p >= n implies 2 * r <= p by {
            assert(is_pow2(p / 2));
        }
    }
}

/// A power of two `r` that is at least `n`, and whose half is not, is the
/// least power of two that is at least `n`.
proof fn lemma_next_power_of_two_unique(n: nat, r: nat)
    requires
        is_pow2(r as int),
        r >= n,
        r == 1 || r / 2 < n,
    ensures
        r == spec_next_power_of_two(n),
{
    lemma_next_power_of_two_is_least(n);
    let s = spec_next_power_of_two(n);
    if s < r {
        lemma_pow2_gap(s as int, r as int);
    }
}

/// A power of two is its own next power of two.
pub proof fn lemma_next_power_of_two_of_power(n: nat)
    requires
        is_pow2(n as int),
    ensures
        spec_next_power_of_two(n) == n,
{
    lemma_next_power_of_two_is_least(n);
}

/// Asking again for the same or less never changes the capacity: growing is
/// idempotent.
pub proof fn lemma_grown_idempotent(capacity: nat, first: nat, second: nat)
    requires
        second <= first,
    ensures
        spec_grown(spec_grown(capacity, first), second) == spec_grown(capacity, first),
{
    lemma_next_power_of_two_is_least(first);
}

/// Growing to a requirement that is itself a power of two gives exactly that
/// capacity.
pub proof fn lemma_grown_exact_for_power(capacity: nat, required: nat)
    requires
        is_pow2(required as int),
        required > capacity,
    ensures
        spec_grown(capacity, required) == required,
{
    lemma_next_power_of_two_of_power(required);
}

/// Capacity never shrinks, and after growing it fits the requirement.
pub proof fn lemma_grown_monotone(capacity: nat, required: nat)
    ensures
        spec_grown(capacity, required) >= capacity,
        spec_grown(capacity, required) >= required,
{
    lemma_next_power_of_two_is_least(required);
}

/// The largest requirement a buffer can grow to.
pub fn max_capacity() -> (r: usize)
    ensures
        r == spec_max_capacity(),
{
    usize::MAX / 2 + 1
}

/// Computes the least power of two that is at least `n`.
pub fn next_power_of_two(n: usize) -> (r: usize)
    requires
        n <= spec_max_capacity(),
    ensures
        r == spec_next_power_of_two(n as nat),
{
    let mut p: usize = 1;
    proof {
        reveal(is_pow2);
    }
    while p < n
        invariant
            n <= spec_max_capacity(),
            1 <= p,
            is_pow2(p as int),
            p == 1 || p / 2 < n,
        decreases usize::MAX - p,
    {
        proof {
            lemma_pow2_double(p as int);
        }
        p = p * 2;
    }
    proof {
        lemma_next_power_of_two_unique(n as nat, p as nat);
    }
    p
}

/// Names one allocation of a GPU buffer by its size in bytes. Because the
/// capacity of a [`GeometryBuffer`] strictly grows with every reallocation, a
/// size never names two allocations of the same buffer.
#[derive(Clone, Copy, Debug, PartialEq, Eq, Hash, Structural)]
pub struct BufferHandle {
    /// Size of the allocation in bytes.
    pub size: usize,
}

/// Capacity bookkeeping for one growable GPU buffer.
#[derive(Debug)]
pub struct GeometryBuffer {
    capacity: usize,
}

impl GeometryBuffer {
    /// Bytes the current allocation holds; zero while nothing is allocated.
    pub closed spec fn spec_capacity(&self) -> nat {
        self.capacity as nat
    }

    /// The capacity is zero or a power of two.
    pub open spec fn wf(&self) -> bool {
        self.spec_capacity() == 0 || is_pow2(self.spec_capacity() as int)
    }

    /// The handle of the current allocation, if there is one.
    pub open spec fn spec_handle(&self) -> Option<BufferHandle> {
        if self.spec_capacity() == 0 {
            None
        } else {
            Some(BufferHandle { size: self.spec_capacity() as usize })
        }
    }

    /// A buffer with nothing allocated.
    pub fn new() -> (b: Self)
        ensures
            b.spec_capacity() == 0,
            b.wf(),
    {
        GeometryBuffer { capacity: 0 }
    }

    /// Bytes the current allocation holds.
    pub fn capacity(&self) -> (r: usize)
        ensures
            r == self.spec_capacity(),
    {
        self.capacity
    }

    /// The handle of the current allocation, or `None` while nothing is
    /// allocated.
    pub fn handle(&self) -> (h: Option<BufferHandle>)
        ensures
            h == self.spec_handle(),
            h is Some <==> self.spec_capacity() > 0,
            h matches Some(handle) ==> handle.size == self.spec_capacity(),
    {
        if self.capacity == 0 {
            None
        } else {
            Some(BufferHandle { size: self.capacity })
        }
    }

    /// Makes room for `required_bytes`. The capacity changes only when the
    /// requirement exceeds it, and then becomes the least power of two that
    /// fits. The returned handle differs from the one before the call exactly
    /// when a new allocation is needed.
    pub fn ensure_capacity(&mut self, required_bytes: usize) -> (handle: Option<BufferHandle>)
        requires
            old(self).wf(),
            required_bytes <= spec_max_capacity(),
        ensures
            final(self).wf(),
            final(self).spec_capacity() == spec_grown(
                old(self).spec_capacity(),
                required_bytes as nat,
            ),
            final(self).spec_capacity() >= required_bytes,
            handle == final(self).spec_handle(),
            handle matches Some(h) ==> h.size == final(self).spec_capacity(),
            handle != old(self).spec_handle() <==> required_bytes > old(self).spec_capacity(),
    {
        proof {
            lemma_next_power_of_two_is_least(required_bytes as nat);
        }
        if required_bytes > self.capacity {
            self.capacity = next_power_of_two(required_bytes);
        }
        self.handle()
    }
}

} // verus!
