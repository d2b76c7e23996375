//! How a registration asks to be notified.

use vstd::prelude::*;
use crate::bits::{has_flag, in_space, FLAG_SPACE};
use crate::bits::{lemma_complement, lemma_difference, lemma_equal, lemma_intersection, lemma_single, lemma_subset, lemma_union};

verus! {

/// One way in which notification can be asked for.
#[derive(Clone, Copy, Debug, PartialEq, Eq, Structural)]
pub enum PollMode {
    /// Notify once for each change of state.
    Edge,
    /// Notify in every cycle for as long as the condition holds.
    Level,
    /// Notify once, then stay silent until the registration is renewed.
    Oneshot,
    /// Watch for urgent, out-of-band data in place of ordinary data.
    Urgent,
}

/// A set of notification modes, kept as bit flags. Of `Edge` and `Level` one is
/// in force at a time: `Level` where it is a member or `Edge` is not.
#[derive(Clone, Copy, Debug, PartialEq, Eq, Structural)]
pub struct PollOpt {
    bits: usize,
}

/// The flag position of a mode.
pub closed spec fn mode_bit(mode: PollMode) -> usize {
    match mode {
        PollMode::Edge => 1,
        PollMode::Level => 2,
        PollMode::Oneshot => 4,
        PollMode::Urgent => 8,
    }
}

impl View for PollOpt {
    type V = Set<PollMode>;

    /// The modes whose flags are set.
    closed spec fn view(&self) -> Set<PollMode> {
        Set::new(|mode: PollMode| has_flag(self.bits, mode_bit(mode)))
    }
}

impl PollOpt {
    /// No flag outside the four modes is ever set, so that two sets with the
    /// same members are the same value.
    #[verifier::type_invariant]
    pub closed spec fn canonical(self) -> bool {
        in_space(self.bits)
    }

    /// Two canonical sets with the same members are equal.
    pub proof fn lemma_extensional(self, other: PollOpt)
        requires
            self.canonical(),
            other.canonical(),
            self@ == other@,
        ensures
            self == other,
    {
        assert forall|k: PollMode| has_flag(self.bits, mode_bit(k)) == has_flag(other.bits, mode_bit(k)) by {
            assert(self@.contains(k) == has_flag(self.bits, mode_bit(k)));
            assert(other@.contains(k) == has_flag(other.bits, mode_bit(k)));
        }
        assert(mode_bit(PollMode::Edge) == 1 && mode_bit(PollMode::Level) == 2);
        assert(mode_bit(PollMode::Oneshot) == 4 && mode_bit(PollMode::Urgent) == 8);
        lemma_equal(self.bits, other.bits);
    }

    /// The set with exactly the given members.
    pub closed spec fn of(members: Set<PollMode>) -> PollOpt {
        choose|s: PollOpt| s.canonical() && s@ == members
    }

    /// A canonical set is the set of its members.
    pub proof fn lemma_of_view(self)
        requires
            self.canonical(),
        ensures
            PollOpt::of(self@) == self,
    {
        let chosen = PollOpt::of(self@);
        assert(chosen.canonical() && chosen@ == self@);
        chosen.lemma_extensional(self);
    }

    fn single(mode: PollMode) -> (r: PollOpt)
        ensures
            r@ == set![mode],
    {
        let bits: usize = match mode {
            PollMode::Edge => 1,
            PollMode::Level => 2,
            PollMode::Oneshot => 4,
            PollMode::Urgent => 8,
        };
        proof {
            lemma_single(bits, bits);
            assert forall|k: PollMode| has_flag(bits, mode_bit(k)) == (k == mode) by {
                lemma_single(bits, mode_bit(k));
            }
        }
        let r = PollOpt { bits };
        assert(r@ =~= set![mode]);
        r
    }

    fn has(self, mode: PollMode) -> (r: bool)
        ensures
            r == self@.contains(mode),
    {
        let bit: usize = match mode {
            PollMode::Edge => 1,
            PollMode::Level => 2,
            PollMode::Oneshot => 4,
            PollMode::Urgent => 8,
        };
        self.bits & bit != 0
    }

    /// The empty set.
    pub fn empty() -> (r: PollOpt)
        ensures
            r@ == Set::<PollMode>::empty(),
    {
        proof {
            lemma_single(1, 1);
            assert forall|k: PollMode| !has_flag(0, mode_bit(k)) by {
                lemma_single(1, mode_bit(k));
            }
        }
        let r = PollOpt { bits: 0 };
        assert(r@ =~= Set::<PollMode>::empty());
        r
    }

    /// The set that holds `Edge` alone.
    pub fn edge() -> (r: PollOpt)
        ensures
            r@ == set![PollMode::Edge],
    {
        PollOpt::single(PollMode::Edge)
    }

    /// The set that holds `Level` alone.
    pub fn level() -> (r: PollOpt)
        ensures
            r@ == set![PollMode::Level],
    {
        PollOpt::single(PollMode::Level)
    }

    /// The set that holds `Oneshot` alone.
    pub fn oneshot() -> (r: PollOpt)
        ensures
            r@ == set![PollMode::Oneshot],
    {
        PollOpt::single(PollMode::Oneshot)
    }

    /// The set that holds `Urgent` alone.
    pub fn urgent() -> (r: PollOpt)
        ensures
            r@ == set![PollMode::Urgent],
    {
        PollOpt::single(PollMode::Urgent)
    }

    /// The set of all four modes.
    pub fn all() -> (r: PollOpt)
        ensures
            r@ == Set::<PollMode>::full(),
    {
        proof {
            lemma_single(1, 1);
            assert forall|k: PollMode| has_flag(FLAG_SPACE, mode_bit(k)) by {
                lemma_single(1, mode_bit(k));
            }
        }
        let r = PollOpt { bits: FLAG_SPACE };
        assert(r@ =~= Set::<PollMode>::full());
        r
    }

    /// Whether the set is empty.
    pub fn is_empty(self) -> (r: bool)
        ensures
            r == (self@ == Set::<PollMode>::empty()),
    {
        proof {
            use_type_invariant(&self);
            if self.bits == 0 {
                lemma_single(1, 1);
                assert forall|k: PollMode| !has_flag(0, mode_bit(k)) by {
                    lemma_single(1, mode_bit(k));
                }
                assert(self@ =~= Set::<PollMode>::empty());
            } else if self@ == Set::<PollMode>::empty() {
                assert(!self@.contains(PollMode::Edge));
                assert(!self@.contains(PollMode::Level));
                assert(!self@.contains(PollMode::Oneshot));
                assert(!self@.contains(PollMode::Urgent));
                lemma_single(1, 1);
                lemma_single(1, 2);
                lemma_single(1, 4);
                lemma_single(1, 8);
                lemma_equal(self.bits, 0);
            }
        }
        self.bits == 0
    }

    /// Whether `Edge` is a member.
    pub fn is_edge(self) -> (r: bool)
        ensures
            r == self@.contains(PollMode::Edge),
    {
        self.has(PollMode::Edge)
    }

    /// Whether `Level` is a member.
    pub fn is_level(self) -> (r: bool)
        ensures
            r == self@.contains(PollMode::Level),
    {
        self.has(PollMode::Level)
    }

    /// Whether `Oneshot` is a member.
    pub fn is_oneshot(self) -> (r: bool)
        ensures
            r == self@.contains(PollMode::Oneshot),
    {
        self.has(PollMode::Oneshot)
    }

    /// Whether `Urgent` is a member.
    pub fn is_urgent(self) -> (r: bool)
        ensures
            r == self@.contains(PollMode::Urgent),
    {
        self.has(PollMode::Urgent)
    }

    /// The members of either set.
    pub fn union(self, other: PollOpt) -> (r: PollOpt)
        ensures
            r@ == self@.union(other@),
    {
        proof {
            use_type_invariant(&self);
            use_type_invariant(&other);
            lemma_union(self.bits, other.bits, 1);
            assert forall|k: PollMode|
                has_flag(self.bits | other.bits, mode_bit(k)) == (has_flag(self.bits, mode_bit(k))
                    || has_flag(other.bits, mode_bit(k))) by {
                lemma_union(self.bits, other.bits, mode_bit(k));
            }
        }
        let r = PollOpt { bits: self.bits | other.bits };
        assert(r@ =~= self@.union(other@));
        r
    }

    /// The members of both sets.
    pub fn intersection(self, other: PollOpt) -> (r: PollOpt)
        ensures
            r@ == self@.intersect(other@),
    {
        proof {
            use_type_invariant(&self);
            lemma_intersection(self.bits, other.bits, 1);
            assert forall|k: PollMode|
                has_flag(self.bits & other.bits, mode_bit(k)) == (has_flag(self.bits, mode_bit(k))
                    && has_flag(other.bits, mode_bit(k))) by {
                lemma_intersection(self.bits, other.bits, mode_bit(k));
            }
        }
        let r = PollOpt { bits: self.bits & other.bits };
        assert(r@ =~= self@.intersect(other@));
        r
    }

    /// The members of this set that are not in the other.
    pub fn difference(self, other: PollOpt) -> (r: PollOpt)
        ensures
            r@ == self@.difference(other@),
    {
        proof {
            use_type_invariant(&self);
            lemma_difference(self.bits, other.bits, 1);
            assert forall|k: PollMode|
                has_flag(self.bits & !other.bits, mode_bit(k)) == (has_flag(self.bits, mode_bit(k))
                    && !has_flag(other.bits, mode_bit(k))) by {
                lemma_difference(self.bits, other.bits, mode_bit(k));
            }
        }
        let r = PollOpt { bits: self.bits & !other.bits };
        assert(r@ =~= self@.difference(other@));
        r
    }

    /// The modes that are not members.
    pub fn complement(self) -> (r: PollOpt)
        ensures
            r@ == self@.complement(),
    {
        proof {
            lemma_complement(self.bits, 1);
            assert forall|k: PollMode|
                has_flag(!self.bits & FLAG_SPACE, mode_bit(k)) == !has_flag(self.bits, mode_bit(k)) by {
                lemma_complement(self.bits, mode_bit(k));
            }
        }
        let r = PollOpt { bits: !self.bits & FLAG_SPACE };
        assert(r@ =~= self@.complement());
        r
    }

    /// Adds the members of `other`.
    pub fn insert(&mut self, other: PollOpt)
        ensures
            final(self)@ == old(self)@.union(other@),
    {
        *self = self.union(other);
    }

    /// Takes the members of `other` out.
    pub fn remove(&mut self, other: PollOpt)
        ensures
            final(self)@ == old(self)@.difference(other@),
    {
        *self = self.difference(other);
    }

    /// Whether every member of `other` is a member.
    pub fn contains(self, other: PollOpt) -> (r: bool)
        ensures
            r == other@.subset_of(self@),
    {
        proof {
            use_type_invariant(&other);
            lemma_subset(self.bits, other.bits);
            if other@.subset_of(self@) {
                assert(other@.contains(PollMode::Edge) ==> self@.contains(PollMode::Edge));
                assert(other@.contains(PollMode::Level) ==> self@.contains(PollMode::Level));
                assert(other@.contains(PollMode::Oneshot) ==> self@.contains(PollMode::Oneshot));
                assert(other@.contains(PollMode::Urgent) ==> self@.contains(PollMode::Urgent));
            }
        }
        self.bits & other.bits == other.bits
    }
}

impl core::ops::BitOr for PollOpt {
    type Output = PollOpt;

    /// `a | b` is the union of the two sets.
    fn bitor(self, other: PollOpt) -> (r: PollOpt)
        ensures
            r@ == self@.union(other@),
    {
        let r = self.union(other);
        proof {
            use_type_invariant(&r);
            r.lemma_of_view();
        }
        r
    }
}

impl vstd::std_specs::ops::BitOrSpecImpl for PollOpt {
    open spec fn obeys_bitor_spec() -> bool {
        true
    }

    open spec fn bitor_req(self, other: PollOpt) -> bool {
        true
    }

    open spec fn bitor_spec(self, other: PollOpt) -> PollOpt {
        PollOpt::of(self@.union(other@))
    }
}

impl core::ops::BitAnd for PollOpt {
    type Output = PollOpt;

    /// `a & b` is the intersection of the two sets.
    fn bitand(self, other: PollOpt) -> (r: PollOpt)
        ensures
            r@ == self@.intersect(other@),
    {
        let r = self.intersection(other);
        proof {
            use_type_invariant(&r);
            r.lemma_of_view();
        }
        r
    }
}

impl vstd::std_specs::ops::BitAndSpecImpl for PollOpt {
    open spec fn obeys_bitand_spec() -> bool {
        true
    }

    open spec fn bitand_req(self, other: PollOpt) -> bool {
        true
    }

    open spec fn bitand_spec(self, other: PollOpt) -> PollOpt {
        PollOpt::of(self@.intersect(other@))
    }
}

} // verus!
