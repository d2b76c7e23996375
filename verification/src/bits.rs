//! Facts about flag words, proved once for both flag sets of the crate.

use vstd::prelude::*;

verus! {

/// The bits that a flag word of this crate may carry.
pub const FLAG_SPACE: usize = 0xf;

/// Whether `m` is one of the four flag positions.
pub open spec fn single_flag(m: usize) -> bool {
    m == 1 || m == 2 || m == 4 || m == 8
}

/// Whether the flag at position `m` is set in `a`.
pub open spec fn has_flag(a: usize, m: usize) -> bool {
    a & m != 0
}

/// Whether `a` carries no bit outside the four flag positions.
pub open spec fn in_space(a: usize) -> bool {
    a & !FLAG_SPACE == 0
}

pub proof fn lemma_union(a: usize, b: usize, m: usize)
    by (bit_vector)
    ensures
        has_flag(a | b, m) == (has_flag(a, m) || has_flag(b, m)),
        in_space(a) && in_space(b) ==> in_space(a | b),
{
}

pub proof fn lemma_intersection(a: usize, b: usize, m: usize)
    by (bit_vector)
    requires
        single_flag(m),
    ensures
        has_flag(a & b, m) == (has_flag(a, m) && has_flag(b, m)),
        in_space(a) ==> in_space(a & b),
{
}

pub proof fn lemma_difference(a: usize, b: usize, m: usize)
    by (bit_vector)
    requires
        single_flag(m),
    ensures
        has_flag(a & !b, m) == (has_flag(a, m) && !has_flag(b, m)),
        in_space(a) ==> in_space(a & !b),
{
}

pub proof fn lemma_complement(a: usize, m: usize)
    by (bit_vector)
    requires
        single_flag(m),
    ensures
        has_flag(!a & FLAG_SPACE, m) == !has_flag(a, m),
        in_space(!a & FLAG_SPACE),
{
}

pub proof fn lemma_subset(a: usize, b: usize)
    by (bit_vector)
    requires
        in_space(b),
    ensures
        (a & b == b) == ((has_flag(b, 1) ==> has_flag(a, 1)) && (has_flag(b, 2) ==> has_flag(a, 2))
            && (has_flag(b, 4) ==> has_flag(a, 4)) && (has_flag(b, 8) ==> has_flag(a, 8))),
{
}

pub proof fn lemma_equal(a: usize, b: usize)
    by (bit_vector)
    requires
        in_space(a),
        in_space(b),
        has_flag(a, 1) == has_flag(b, 1),
        has_flag(a, 2) == has_flag(b, 2),
        has_flag(a, 4) == has_flag(b, 4),
        has_flag(a, 8) == has_flag(b, 8),
    ensures
        a == b,
{
}

pub proof fn lemma_single(m: usize, k: usize)
    by (bit_vector)
    requires
        single_flag(m),
        single_flag(k),
    ensures
        has_flag(m, k) == (m == k),
        in_space(m),
        !has_flag(0, k),
        in_space(0),
        has_flag(FLAG_SPACE, k),
        in_space(FLAG_SPACE),
{
}

} // verus!
