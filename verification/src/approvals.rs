//! Approval bitmaps: one bit per member slot, and the number of approvals
//! that a bitmap records.
use vstd::prelude::*;

verus! {

/// Whether bit `i` of `bitmap` is set.
pub open spec fn has_bit(bitmap: u64, i: u64) -> bool {
    bitmap & (1u64 << i) != 0
}

/// The number of set bits among the lowest `n` bits of `bitmap`.
pub open spec fn count_bits(bitmap: u64, n: nat) -> nat
    decreases n,
{
    if n == 0 {
        0
    } else {
        count_bits(bitmap, (n - 1) as nat) + if has_bit(bitmap, (n - 1) as u64) {
            1nat
        } else {
            0nat
        }
    }
}

/// Setting bit `i` sets exactly that bit and leaves the others as they were.
pub proof fn lemma_set_bit(bitmap: u64, i: u64, j: u64)
    requires
        i < 64,
        j < 64,
    ensures
        has_bit(bitmap | (1u64 << i), j) == (has_bit(bitmap, j) || i == j),
{
    assert((bitmap | (1u64 << i)) & (1u64 << j) != 0 <==> (bitmap & (1u64 << j) != 0 || i == j))
        by (bit_vector)
        requires
            i < 64,
            j < 64,
    ;
}

/// Setting a bit that was clear, below `n`, adds one to the count of the lowest
/// `n` bits.
pub proof fn lemma_count_after_set(bitmap: u64, i: u64, n: nat)
    requires
        i < n <= 64,
        !has_bit(bitmap, i),
    ensures
        count_bits(bitmap | (1u64 << i), n) == count_bits(bitmap, n) + 1,
    decreases n,
{
    let k = (n - 1) as u64;
    lemma_set_bit(bitmap, i, k);
    if k == i {
        lemma_count_unchanged_below(bitmap, i, (n - 1) as nat);
    } else {
        lemma_count_after_set(bitmap, i, (n - 1) as nat);
    }
}

/// Setting bit `i` does not change the count of the bits below `i`.
pub proof fn lemma_count_unchanged_below(bitmap: u64, i: u64, n: nat)
    requires
        n <= i < 64,
    ensures
        count_bits(bitmap | (1u64 << i), n) == count_bits(bitmap, n),
    decreases n,
{
    if n > 0 {
        lemma_set_bit(bitmap, i, (n - 1) as u64);
        lemma_count_unchanged_below(bitmap, i, (n - 1) as nat);
    }
}

/// A bitmap holding a single bit `i` counts one approval below any `n > i`.
pub proof fn lemma_count_single(i: u64, n: nat)
    requires
        i < n <= 64,
    ensures
        count_bits(1u64 << i, n) == 1,
{
    assert(0u64 | (1u64 << i) == 1u64 << i) by (bit_vector);
    assert forall|j: u64| j < 64 implies !has_bit(0u64, j) by {
        assert(0u64 & (1u64 << j) == 0) by (bit_vector);
    }
    lemma_count_zero(n);
    lemma_count_after_set(0u64, i, n);
}

/// The empty bitmap counts no approvals.
pub proof fn lemma_count_zero(n: nat)
    requires
        n <= 64,
    ensures
        count_bits(0u64, n) == 0,
    decreases n,
{
    if n > 0 {
        let k = (n - 1) as u64;
        assert(0u64 & (1u64 << k) == 0) by (bit_vector);
        lemma_count_zero((n - 1) as nat);
    }
}

/// The count of the lowest `n` bits is at most `n`.
pub proof fn lemma_count_bound(bitmap: u64, n: nat)
    ensures
        count_bits(bitmap, n) <= n,
    decreases n,
{
    if n > 0 {
        lemma_count_bound(bitmap, (n - 1) as nat);
    }
}

} // verus!
