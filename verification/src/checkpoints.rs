use vstd::prelude::*;

verus! {

/// Number of checkpoint slots that a bitmap can record.
pub const BITMAP_WIDTH: u8 = 16;

/// Checkpoint `index` is recorded as verified in `bitmap`.
pub open spec fn bit_is_set(bitmap: u16, index: u8) -> bool {
    index < 16 && bitmap & (1u16 << (index as u16)) != 0
}

/// `bitmap` with checkpoint `index` recorded as verified.
pub open spec fn with_bit(bitmap: u16, index: u8) -> u16 {
    bitmap | (1u16 << (index as u16))
}

/// How many checkpoints with an index below `n` are recorded in `bitmap`.
pub open spec fn count_below(bitmap: u16, n: nat) -> nat
    decreases n,
{
    if n == 0 {
        0
    } else {
        count_below(bitmap, (n - 1) as nat) + if bit_is_set(bitmap, (n - 1) as u8) {
            1nat
        } else {
            0nat
        }
    }
}

/// How many checkpoints are recorded in `bitmap`.
pub open spec fn popcount(bitmap: u16) -> nat {
    count_below(bitmap, 16)
}

/// The checkpoints recorded in `bitmap`, as the set of their indices.
pub open spec fn verified_set(bitmap: u16) -> Set<u8> {
    Set::new(|index: u8| bit_is_set(bitmap, index))
}

/// The checkpoints recorded in `bitmap` whose index is below `n`.
pub open spec fn verified_set_below(bitmap: u16, n: nat) -> Set<u8> {
    Set::new(|index: u8| index < n && bit_is_set(bitmap, index))
}

/// Every checkpoint recorded in `bitmap` has an index below `limit`.
pub open spec fn confined_below(bitmap: u16, limit: u8) -> bool {
    forall|index: u8| bit_is_set(bitmap, index) ==> index < limit
}

proof fn lemma_bit_after_set(bitmap: u16, index: u16, other: u16)
    by (bit_vector)
    requires
        index < 16,
        other < 16,
    ensures
        ((bitmap | (1u16 << index)) & (1u16 << other) != 0) == (other == index || bitmap & (1u16
            << other) != 0),
{
}

proof fn lemma_no_bit_in_zero(index: u16)
    by (bit_vector)
    requires
        index < 16,
    ensures
        0u16 & (1u16 << index) == 0,
{
}

/// Recording checkpoint `index` sets that bit and leaves every other bit alone.
pub proof fn lemma_with_bit(bitmap: u16, index: u8, other: u8)
    requires
        index < 16,
    ensures
        bit_is_set(with_bit(bitmap, index), other) == (other == index || bit_is_set(bitmap, other)),
{
    if other < 16 {
        lemma_bit_after_set(bitmap, index as u16, other as u16);
    }
}

/// Bitmaps that agree below `n` record equally many checkpoints below `n`.
proof fn lemma_count_below_agrees(a: u16, b: u16, n: nat)
    requires
        n <= 16,
        forall|index: u8| index < n ==> bit_is_set(a, index) == bit_is_set(b, index),
    ensures
        count_below(a, n) == count_below(b, n),
    decreases n,
{
    if n > 0 {
        lemma_count_below_agrees(a, b, (n - 1) as nat);
        assert(bit_is_set(a, (n - 1) as u8) == bit_is_set(b, (n - 1) as u8));
    }
}

/// At most `n` checkpoints have an index below `n`.
proof fn lemma_count_below_bound(bitmap: u16, n: nat)
    ensures
        count_below(bitmap, n) <= n,
    decreases n,
{
    if n > 0 {
        lemma_count_below_bound(bitmap, (n - 1) as nat);
    }
}

/// With checkpoint `index` unrecorded, fewer than `n` checkpoints lie below
/// any `n` above `index`.
proof fn lemma_count_below_with_gap(bitmap: u16, index: u8, n: nat)
    requires
        index < n,
        !bit_is_set(bitmap, index),
    ensures
        count_below(bitmap, n) < n,
    decreases n,
{
    if n - 1 == index {
        lemma_count_below_bound(bitmap, (n - 1) as nat);
    } else {
        lemma_count_below_with_gap(bitmap, index, (n - 1) as nat);
    }
}

/// Checkpoints at or above `limit` being unrecorded, counting up to any
/// `n >= limit` finds what counting up to `limit` finds.
proof fn lemma_count_below_confined(bitmap: u16, limit: u8, n: nat)
    requires
        confined_below(bitmap, limit),
        limit <= n <= 16,
    ensures
        count_below(bitmap, n) == count_below(bitmap, limit as nat),
    decreases n,
{
    if n > limit {
        lemma_count_below_confined(bitmap, limit, (n - 1) as nat);
        assert(!bit_is_set(bitmap, (n - 1) as u8));
    }
}

/// Recording a new checkpoint below `n` raises the count below `n` by one.
proof fn lemma_count_below_with_bit(bitmap: u16, index: u8, n: nat)
    requires
        index < n <= 16,
        !bit_is_set(bitmap, index),
    ensures
        count_below(with_bit(bitmap, index), n) == count_below(bitmap, n) + 1,
    decreases n,
{
    let marked = with_bit(bitmap, index);
    lemma_with_bit(bitmap, index, (n - 1) as u8);
    if n - 1 == index {
        assert forall|other: u8| other < index implies bit_is_set(marked, other) == bit_is_set(
            bitmap,
            other,
        ) by {
            lemma_with_bit(bitmap, index, other);
        }
        lemma_count_below_agrees(marked, bitmap, (n - 1) as nat);
    } else {
        lemma_count_below_with_bit(bitmap, index, (n - 1) as nat);
    }
}

/// The checkpoints below `n` are finitely many, and `count_below` counts them.
proof fn lemma_verified_set_below(bitmap: u16, n: nat)
    requires
        n <= 16,
    ensures
        verified_set_below(bitmap, n).finite(),
        verified_set_below(bitmap, n).len() == count_below(bitmap, n),
    decreases n,
{
    if n == 0 {
        assert(verified_set_below(bitmap, n) =~= Set::<u8>::empty());
    } else {
        let last = (n - 1) as u8;
        let before = verified_set_below(bitmap, (n - 1) as nat);
        lemma_verified_set_below(bitmap, (n - 1) as nat);
        if bit_is_set(bitmap, last) {
            assert(verified_set_below(bitmap, n) =~= before.insert(last));
        } else {
            assert(verified_set_below(bitmap, n) =~= before);
        }
    }
}

/// The number of bits set in a bitmap is the number of checkpoints that it
/// records.
pub proof fn lemma_popcount_is_cardinality(bitmap: u16)
    ensures
        verified_set(bitmap).finite(),
        verified_set(bitmap).len() == popcount(bitmap),
{
    lemma_verified_set_below(bitmap, 16);
    assert(verified_set(bitmap) =~= verified_set_below(bitmap, 16));
}

/// Recording checkpoint `index` adds it to the set of recorded checkpoints
/// and changes nothing else.
pub proof fn lemma_verified_set_with_bit(bitmap: u16, index: u8)
    requires
        index < 16,
    ensures
        verified_set(with_bit(bitmap, index)) == verified_set(bitmap).insert(index),
{
    let marked = verified_set(with_bit(bitmap, index));
    let grown = verified_set(bitmap).insert(index);
    assert forall|other: u8| marked.contains(other) == grown.contains(other) by {
        lemma_with_bit(bitmap, index, other);
    }
    assert(marked =~= grown);
}

/// The empty bitmap records nothing.
pub proof fn lemma_empty_bitmap()
    ensures
        popcount(0) == 0,
        forall|index: u8| !bit_is_set(0, index),
{
    assert forall|index: u8| !bit_is_set(0, index) by {
        if index < 16 {
            lemma_no_bit_in_zero(index as u16);
        }
    }
    lemma_count_below_confined(0, 0, 16);
}

/// Recording a checkpoint that was not recorded before raises the count by
/// exactly one.
pub proof fn lemma_popcount_with_bit(bitmap: u16, index: u8)
    requires
        index < 16,
        !bit_is_set(bitmap, index),
    ensures
        popcount(with_bit(bitmap, index)) == popcount(bitmap) + 1,
{
    lemma_count_below_with_bit(bitmap, index, 16);
}

/// A bitmap confined below `limit` records at most `limit` checkpoints, and
/// fewer while some checkpoint below `limit` is unrecorded.
pub proof fn lemma_popcount_confined(bitmap: u16, limit: u8)
    requires
        limit <= 16,
        confined_below(bitmap, limit),
    ensures
        popcount(bitmap) <= limit,
        forall|index: u8| index < limit && !bit_is_set(bitmap, index) ==> popcount(bitmap) < limit,
{
    lemma_count_below_confined(bitmap, limit, 16);
    lemma_count_below_bound(bitmap, limit as nat);
    assert forall|index: u8| index < limit && !bit_is_set(bitmap, index) implies popcount(bitmap)
        < limit by {
        lemma_count_below_with_gap(bitmap, index, limit as nat);
    }
}

/// Recording a checkpoint below `limit` keeps the bitmap confined below it.
pub proof fn lemma_with_bit_confined(bitmap: u16, index: u8, limit: u8)
    requires
        index < limit,
        index < 16,
        confined_below(bitmap, limit),
    ensures
        confined_below(with_bit(bitmap, index), limit),
{
    assert forall|other: u8| bit_is_set(with_bit(bitmap, index), other) implies other < limit by {
        lemma_with_bit(bitmap, index, other);
    }
}

/// Whether checkpoint `index` is recorded in `bitmap`.
pub fn is_verified(bitmap: u16, index: u8) -> (r: bool)
    requires
        index < BITMAP_WIDTH,
    ensures
        r == bit_is_set(bitmap, index),
{
    bitmap & (1u16 << (index as u16)) != 0
}

/// `bitmap` with checkpoint `index` recorded.
pub fn mark_verified(bitmap: u16, index: u8) -> (r: u16)
    requires
        index < BITMAP_WIDTH,
    ensures
        r == with_bit(bitmap, index),
        verified_set(r) == verified_set(bitmap).insert(index),
        bit_is_set(r, index),
        forall|other: u8| other != index ==> bit_is_set(r, other) == bit_is_set(bitmap, other),
        !bit_is_set(bitmap, index) ==> popcount(r) == popcount(bitmap) + 1,
{
    proof {
        lemma_verified_set_with_bit(bitmap, index);
        assert forall|other: u8|
            bit_is_set(with_bit(bitmap, index), other) == (other == index || bit_is_set(
                bitmap,
                other,
            )) by {
            lemma_with_bit(bitmap, index, other);
        }
        if !bit_is_set(bitmap, index) {
            lemma_popcount_with_bit(bitmap, index);
        }
    }
    bitmap | (1u16 << (index as u16))
}

/// The number of checkpoints recorded in `bitmap`.
pub fn count_verified(bitmap: u16) -> (r: u8)
    ensures
        r == popcount(bitmap),
        r == verified_set(bitmap).len(),
{
    proof {
        lemma_popcount_is_cardinality(bitmap);
    }
    let mut found: u8 = 0;
    let mut index: u8 = 0;
    while index < 16
        invariant
            index <= 16,
            found == count_below(bitmap, index as nat),
            found <= index,
        decreases 16 - index,
    {
        if is_verified(bitmap, index) {
            found = found + 1;
        }
        index = index + 1;
    }
    found
}

/// Whether every checkpoint recorded in `bitmap` has an index below `limit`.
pub fn is_confined_below(bitmap: u16, limit: u8) -> (r: bool)
    ensures
        r == confined_below(bitmap, limit),
{
    let mut index: u8 = limit;
    while index < 16
        invariant
            limit <= index,
            forall|seen: u8| limit <= seen < index ==> !bit_is_set(bitmap, seen),
        decreases 16 - index,
    {
        if is_verified(bitmap, index) {
            return false;
        }
        index = index + 1;
    }
    true
}

} // verus!
