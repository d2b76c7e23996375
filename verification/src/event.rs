//! The portable readiness model: what can happen to a descriptor, how a
//! registration asks to be told, and the record of one notification.

use vstd::prelude::*;
use crate::bits::{has_flag, in_space, FLAG_SPACE};
use crate::bits::{lemma_complement, lemma_difference, lemma_equal, lemma_intersection, lemma_single, lemma_subset, lemma_union};
use crate::token::Token;

verus! {

/// One thing that can be true of a descriptor.
#[derive(Clone, Copy, Debug, PartialEq, Eq, Structural)]
pub enum EventKind {
    /// Data can be read without blocking.
    Readable,
    /// Data can be written without blocking.
    Writable,
    /// The descriptor is in an error state.
    Error,
    /// The peer has hung up.
    Hup,
}

/// A set of event kinds, kept as bit flags. It serves both as the interest of
/// a registration and as the readiness that a notification reports.
#[derive(Clone, Copy, Debug, PartialEq, Eq, Structural)]
pub struct EventSet {
    bits: usize,
}

/// The flag position of an event kind.
pub closed spec fn event_bit(kind: EventKind) -> usize {
    match kind {
        EventKind::Readable => 1,
        EventKind::Writable => 2,
        EventKind::Error => 4,
        EventKind::Hup => 8,
    }
}

impl View for EventSet {
    type V = Set<EventKind>;

    /// The kinds whose flags are set.
    closed spec fn view(&self) -> Set<EventKind> {
        Set::new(|kind: EventKind| has_flag(self.bits, event_bit(kind)))
    }
}

impl EventSet {
    /// No flag outside the four kinds is ever set, so that two sets with the
    /// same members are the same value.
    #[verifier::type_invariant]
    pub closed spec fn canonical(self) -> bool {
        in_space(self.bits)
    }

    /// Two canonical sets with the same members are equal.
    pub proof fn lemma_extensional(self, other: EventSet)
        requires
            self.canonical(),
            other.canonical(),
            self@ == other@,
        ensures
            self == other,
    {
        assert forall|k: EventKind| has_flag(self.bits, event_bit(k)) == has_flag(other.bits, event_bit(k)) by {
            assert(self@.contains(k) == has_flag(self.bits, event_bit(k)));
            assert(other@.contains(k) == has_flag(other.bits, event_bit(k)));
        }
        assert(event_bit(EventKind::Readable) == 1 && event_bit(EventKind::Writable) == 2);
        assert(event_bit(EventKind::Error) == 4 && event_bit(EventKind::Hup) == 8);
        lemma_equal(self.bits, other.bits);
    }

    /// The set with exactly the given members.
    pub closed spec fn of(members: Set<EventKind>) -> EventSet {
        choose|s: EventSet| s.canonical() && s@ == members
    }

    /// A canonical set is the set of its members.
    pub proof fn lemma_of_view(self)
        requires
            self.canonical(),
        ensures
            EventSet::of(self@) == self,
    {
        let chosen = EventSet::of(self@);
        assert(chosen.canonical() && chosen@ == self@);
        chosen.lemma_extensional(self);
    }

    /// Every set of kinds is the membership of one canonical value.
    pub proof fn lemma_of_members(members: Set<EventKind>)
        ensures
            EventSet::of(members).canonical(),
            EventSet::of(members)@ == members,
    {
        let a: usize = if members.contains(EventKind::Readable) { 1 } else { 0 };
        let b: usize = if members.contains(EventKind::Writable) { 2 } else { 0 };
        let c: usize = if members.contains(EventKind::Error) { 4 } else { 0 };
        let d: usize = if members.contains(EventKind::Hup) { 8 } else { 0 };
        let bits: usize = (a + b + c + d) as usize;
        assert(in_space(bits) && has_flag(bits, 1) == (a != 0) && has_flag(bits, 2) == (b != 0) && has_flag(bits, 4)
            == (c != 0) && has_flag(bits, 8) == (d != 0)) by (bit_vector)
            requires
                a == 0 || a == 1,
                b == 0 || b == 2,
                c == 0 || c == 4,
                d == 0 || d == 8,
                bits == a + b + c + d,
        ;
        let witness = EventSet { bits };
        assert forall|k: EventKind| witness@.contains(k) == members.contains(k) by {
            assert(witness@.contains(k) == has_flag(bits, event_bit(k)));
        }
        assert(witness@ =~= members);
        assert(witness.canonical() && witness@ == members);
    }

    fn single(kind: EventKind) -> (r: EventSet)
        ensures
            r@ == set![kind],
    {
        let bits: usize = match kind {
            EventKind::Readable => 1,
            EventKind::Writable => 2,
            EventKind::Error => 4,
            EventKind::Hup => 8,
        };
        proof {
            lemma_single(bits, bits);
            assert forall|k: EventKind| has_flag(bits, event_bit(k)) == (k == kind) by {
                lemma_single(bits, event_bit(k));
            }
        }
        let r = EventSet { bits };
        assert(r@ =~= set![kind]);
        r
    }

    fn has(self, kind: EventKind) -> (r: bool)
        ensures
            r == self@.contains(kind),
    {
        let bit: usize = match kind {
            EventKind::Readable => 1,
            EventKind::Writable => 2,
            EventKind::Error => 4,
            EventKind::Hup => 8,
        };
        self.bits & bit != 0
    }

    /// The empty set.
    pub fn none() -> (r: EventSet)
        ensures
            r@ == Set::<EventKind>::empty(),
    {
        proof {
            lemma_single(1, 1);
            assert forall|k: EventKind| !has_flag(0, event_bit(k)) by {
                lemma_single(1, event_bit(k));
            }
        }
        let r = EventSet { bits: 0 };
        assert(r@ =~= Set::<EventKind>::empty());
        r
    }

    /// The set that holds `Readable` alone.
    pub fn readable() -> (r: EventSet)
        ensures
            r@ == set![EventKind::Readable],
    {
        EventSet::single(EventKind::Readable)
    }

    /// The set that holds `Writable` alone.
    pub fn writable() -> (r: EventSet)
        ensures
            r@ == set![EventKind::Writable],
    {
        EventSet::single(EventKind::Writable)
    }

    /// The set that holds `Error` alone.
    pub fn error() -> (r: EventSet)
        ensures
            r@ == set![EventKind::Error],
    {
        EventSet::single(EventKind::Error)
    }

    /// The set that holds `Hup` alone.
    pub fn hup() -> (r: EventSet)
        ensures
            r@ == set![EventKind::Hup],
    {
        EventSet::single(EventKind::Hup)
    }

    /// The set of all four kinds.
    pub fn all() -> (r: EventSet)
        ensures
            r@ == Set::<EventKind>::full(),
    {
        proof {
            lemma_single(1, 1);
            assert forall|k: EventKind| has_flag(FLAG_SPACE, event_bit(k)) by {
                lemma_single(1, event_bit(k));
            }
        }
        let r = EventSet { bits: FLAG_SPACE };
        assert(r@ =~= Set::<EventKind>::full());
        r
    }

    /// Whether the set is empty.
    pub fn is_none(self) -> (r: bool)
        ensures
            r == (self@ == Set::<EventKind>::empty()),
    {
        proof {
            use_type_invariant(&self);
            if self.bits == 0 {
                lemma_single(1, 1);
                assert forall|k: EventKind| !has_flag(0, event_bit(k)) by {
                    lemma_single(1, event_bit(k));
                }
                assert(self@ =~= Set::<EventKind>::empty());
            } else if self@ == Set::<EventKind>::empty() {
                assert(!self@.contains(EventKind::Readable));
                assert(!self@.contains(EventKind::Writable));
                assert(!self@.contains(EventKind::Error));
                assert(!self@.contains(EventKind::Hup));
                lemma_single(1, 1);
                lemma_single(1, 2);
                lemma_single(1, 4);
                lemma_single(1, 8);
                lemma_equal(self.bits, 0);
            }
        }
        self.bits == 0
    }

    /// Whether `Readable` is a member.
    pub fn is_readable(self) -> (r: bool)
        ensures
            r == self@.contains(EventKind::Readable),
    {
        self.has(EventKind::Readable)
    }

    /// Whether `Writable` is a member.
    pub fn is_writable(self) -> (r: bool)
        ensures
            r == self@.contains(EventKind::Writable),
    {
        self.has(EventKind::Writable)
    }

    /// Whether `Error` is a member.
    pub fn is_error(self) -> (r: bool)
        ensures
            r == self@.contains(EventKind::Error),
    {
        self.has(EventKind::Error)
    }

    /// Whether `Hup` is a member.
    pub fn is_hup(self) -> (r: bool)
        ensures
            r == self@.contains(EventKind::Hup),
    {
        self.has(EventKind::Hup)
    }

    /// The members of either set.
    pub fn union(self, other: EventSet) -> (r: EventSet)
        ensures
            r@ == self@.union(other@),
    {
        proof {
            use_type_invariant(&self);
            use_type_invariant(&other);
            lemma_union(self.bits, other.bits, 1);
            assert forall|k: EventKind|
                has_flag(self.bits | other.bits, event_bit(k)) == (has_flag(self.bits, event_bit(k))
                    || has_flag(other.bits, event_bit(k))) by {
                lemma_union(self.bits, other.bits, event_bit(k));
            }
        }
        let r = EventSet { bits: self.bits | other.bits };
        assert(r@ =~= self@.union(other@));
        r
    }

    /// The members of both sets.
    pub fn intersection(self, other: EventSet) -> (r: EventSet)
        ensures
            r@ == self@.intersect(other@),
    {
        proof {
            use_type_invariant(&self);
            lemma_intersection(self.bits, other.bits, 1);
            assert forall|k: EventKind|
                has_flag(self.bits & other.bits, event_bit(k)) == (has_flag(self.bits, event_bit(k))
                    && has_flag(other.bits, event_bit(k))) by {
                lemma_intersection(self.bits, other.bits, event_bit(k));
            }
        }
        let r = EventSet { bits: self.bits & other.bits };
        assert(r@ =~= self@.intersect(other@));
        r
    }

    /// The members of this set that are not in the other.
    pub fn difference(self, other: EventSet) -> (r: EventSet)
        ensures
            r@ == self@.difference(other@),
    {
        proof {
            use_type_invariant(&self);
            lemma_difference(self.bits, other.bits, 1);
            assert forall|k: EventKind|
                has_flag(self.bits & !other.bits, event_bit(k)) == (has_flag(self.bits, event_bit(k))
                    && !has_flag(other.bits, event_bit(k))) by {
                lemma_difference(self.bits, other.bits, event_bit(k));
            }
        }
        let r = EventSet { bits: self.bits & !other.bits };
        assert(r@ =~= self@.difference(other@));
        r
    }

    /// The kinds that are not members.
    pub fn complement(self) -> (r: EventSet)
        ensures
            r@ == self@.complement(),
    {
        proof {
            lemma_complement(self.bits, 1);
            assert forall|k: EventKind|
                has_flag(!self.bits & FLAG_SPACE, event_bit(k)) == !has_flag(self.bits, event_bit(k)) by {
                lemma_complement(self.bits, event_bit(k));
            }
        }
        let r = EventSet { bits: !self.bits & FLAG_SPACE };
        assert(r@ =~= self@.complement());
        r
    }

    /// Adds the members of `other`.
    pub fn insert(&mut self, other: EventSet)
        ensures
            final(self)@ == old(self)@.union(other@),
    {
        *self = self.union(other);
    }

    /// Takes the members of `other` out.
    pub fn remove(&mut self, other: EventSet)
        ensures
            final(self)@ == old(self)@.difference(other@),
    {
        *self = self.difference(other);
    }

    /// Whether every member of `other` is a member.
    pub fn contains(self, other: EventSet) -> (r: bool)
        ensures
            r == other@.subset_of(self@),
    {
        proof {
            use_type_invariant(&other);
            lemma_subset(self.bits, other.bits);
            if other@.subset_of(self@) {
                assert(other@.contains(EventKind::Readable) ==> self@.contains(EventKind::Readable));
                assert(other@.contains(EventKind::Writable) ==> self@.contains(EventKind::Writable));
                assert(other@.contains(EventKind::Error) ==> self@.contains(EventKind::Error));
                assert(other@.contains(EventKind::Hup) ==> self@.contains(EventKind::Hup));
            }
        }
        self.bits & other.bits == other.bits
    }
}

impl core::ops::BitOr for EventSet {
    type Output = EventSet;

    /// `a | b` is the union of the two sets.
    fn bitor(self, other: EventSet) -> (r: EventSet)
        ensures
            r@ == self@.union(other@),
    {
        let r = self.union(other);
        proof {
            use_type_invariant(&r);
            r.lemma_of_view();
        }
        r
    }
}

impl vstd::std_specs::ops::BitOrSpecImpl for EventSet {
    open spec fn obeys_bitor_spec() -> bool {
        true
    }

    open spec fn bitor_req(self, other: EventSet) -> bool {
        true
    }

    open spec fn bitor_spec(self, other: EventSet) -> EventSet {
        EventSet::of(self@.union(other@))
    }
}

impl core::ops::BitAnd for EventSet {
    type Output = EventSet;

    /// `a & b` is the intersection of the two sets.
    fn bitand(self, other: EventSet) -> (r: EventSet)
        ensures
            r@ == self@.intersect(other@),
    {
        let r = self.intersection(other);
        proof {
            use_type_invariant(&r);
            r.lemma_of_view();
        }
        r
    }
}

impl vstd::std_specs::ops::BitAndSpecImpl for EventSet {
    open spec fn obeys_bitand_spec() -> bool {
        true
    }

    open spec fn bitand_req(self, other: EventSet) -> bool {
        true
    }

    open spec fn bitand_spec(self, other: EventSet) -> EventSet {
        EventSet::of(self@.intersect(other@))
    }
}

/// One readiness notification: the token of the registration that fired, and
/// what was found ready.
#[derive(Clone, Copy, Debug, PartialEq, Eq, Structural)]
pub struct IoEvent {
    /// What was found ready.
    pub kind: EventSet,
    /// The token that the registration carried when it fired.
    pub token: Token,
}

impl IoEvent {
    /// The notification that `token` is ready for `kind`.
    pub fn new(kind: EventSet, token: Token) -> (r: IoEvent)
        ensures
            r == (IoEvent { kind, token }),
    {
        IoEvent { kind, token }
    }

    /// The token of the registration that fired.
    pub fn token(&self) -> (r: Token)
        ensures
            r == self.token,
    {
        self.token
    }

    /// What was found ready.
    pub fn kind(&self) -> (r: EventSet)
        ensures
            r == self.kind,
    {
        self.kind
    }

    /// Whether the descriptor can be read.
    pub fn is_readable(&self) -> (r: bool)
        ensures
            r == self.kind@.contains(EventKind::Readable),
    {
        self.kind.is_readable()
    }

    /// Whether the descriptor can be written.
    pub fn is_writable(&self) -> (r: bool)
        ensures
            r == self.kind@.contains(EventKind::Writable),
    {
        self.kind.is_writable()
    }

    /// Whether the descriptor is in an error state.
    pub fn is_error(&self) -> (r: bool)
        ensures
            r == self.kind@.contains(EventKind::Error),
    {
        self.kind.is_error()
    }

    /// Whether the peer has hung up.
    pub fn is_hup(&self) -> (r: bool)
        ensures
            r == self.kind@.contains(EventKind::Hup),
    {
        self.kind.is_hup()
    }
}

} // verus!
