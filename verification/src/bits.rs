use vstd::prelude::*;

verus! {

/// True when bit `i` of `v` is high.
pub open spec fn bit(v: u8, i: u8) -> bool {
    (v >> i) & 1 == 1
}

/// `v` with bit `i` driven to `level`.
pub open spec fn spec_set_bit(v: u8, i: u8, level: bool) -> u8 {
    if level {
        v | (1u8 << i)
    } else {
        v & !(1u8 << i)
    }
}

/// Read bit `i` of `v`.
pub fn get_bit(v: u8, i: u8) -> (b: bool)
    requires
        i < 8,
    ensures
        b == bit(v, i),
{
    (v >> i) & 1 == 1
}

/// Drive bit `i` of `v` to `level`, leaving the other bits alone.
pub fn set_bit(v: u8, i: u8, level: bool) -> (r: u8)
    requires
        i < 8,
    ensures
        r == spec_set_bit(v, i, level),
{
    if level {
        v | (1u8 << i)
    } else {
        v & !(1u8 << i)
    }
}

/// Driving one bit changes that bit and no other.
pub proof fn lemma_set_bit(v: u8, i: u8, level: bool)
    by (bit_vector)
    requires
        i < 8,
    ensures
        forall|j: u8|
            j < 8 ==> #[trigger] bit(spec_set_bit(v, i, level), j) == if j == i {
                level
            } else {
                bit(v, j)
            },
{
}

/// The masked merge `(src & mask) | (keep & !mask)` picks each bit from
/// `src` where the mask is high and from `keep` where it is low.
pub proof fn lemma_merge_bits(src: u8, keep: u8, mask: u8)
    by (bit_vector)
    ensures
        forall|j: u8|
            j < 8 ==> #[trigger] bit((src & mask) | (keep & !mask), j) == if bit(mask, j) {
                bit(src, j)
            } else {
                bit(keep, j)
            },
{
}

/// Bitwise and, or and not act on each bit alone.
pub proof fn lemma_bit_ops(a: u8, b: u8)
    by (bit_vector)
    ensures
        forall|j: u8| j < 8 ==> #[trigger] bit(a & b, j) == (bit(a, j) && bit(b, j)),
        forall|j: u8| j < 8 ==> #[trigger] bit(a | b, j) == (bit(a, j) || bit(b, j)),
        forall|j: u8| j < 8 ==> #[trigger] bit(!a, j) == !bit(a, j),
{
}

proof fn lemma_bits_eq_inner(a: u8, b: u8)
    by (bit_vector)
    requires
        bit(a, 0) == bit(b, 0),
        bit(a, 1) == bit(b, 1),
        bit(a, 2) == bit(b, 2),
        bit(a, 3) == bit(b, 3),
        bit(a, 4) == bit(b, 4),
        bit(a, 5) == bit(b, 5),
        bit(a, 6) == bit(b, 6),
        bit(a, 7) == bit(b, 7),
    ensures
        a == b,
{
}

/// Two bytes that agree on all eight bits are equal.
pub proof fn lemma_bits_eq(a: u8, b: u8)
    requires
        forall|j: u8| j < 8 ==> bit(a, j) == bit(b, j),
    ensures
        a == b,
{
    assert(bit(a, 0) == bit(b, 0));
    assert(bit(a, 1) == bit(b, 1));
    assert(bit(a, 2) == bit(b, 2));
    assert(bit(a, 3) == bit(b, 3));
    assert(bit(a, 4) == bit(b, 4));
    assert(bit(a, 5) == bit(b, 5));
    assert(bit(a, 6) == bit(b, 6));
    assert(bit(a, 7) == bit(b, 7));
    lemma_bits_eq_inner(a, b);
}

} // verus!
