//! How the portable readiness model and the flag word of the operating
//! system's event queue correspond.

use vstd::prelude::*;
use crate::event::{EventKind, EventSet};
use crate::poll_opt::{PollMode, PollOpt};

verus! {

/// Ordinary data can be read.
pub const EPOLLIN: u32 = 0x001;

/// Urgent data can be read.
pub const EPOLLPRI: u32 = 0x002;

/// Data can be written.
pub const EPOLLOUT: u32 = 0x004;

/// The descriptor is in an error state. The queue reports this whether or not
/// it was asked to.
pub const EPOLLERR: u32 = 0x008;

/// Both directions of the connection are closed. The queue reports this
/// whether or not it was asked to.
pub const EPOLLHUP: u32 = 0x010;

/// The peer has closed its sending direction.
pub const EPOLLRDHUP: u32 = 0x2000;

/// Report once, then keep the descriptor silent until it is registered anew.
pub const EPOLLONESHOT: u32 = 0x4000_0000;

/// Report changes of state, not states.
pub const EPOLLET: u32 = 0x8000_0000;

/// Whether `flag` is set in the native word `word`.
pub open spec fn native_has(word: u32, flag: u32) -> bool {
    word & flag != 0
}

/// The value that a flag adds to a word: itself where it is set, nothing
/// where it is not.
pub open spec fn flag_value(set: bool, flag: u32) -> int {
    if set {
        flag as int
    } else {
        0
    }
}

/// Whether a registration with these modes is edge-triggered. Level is what
/// the queue does unless told otherwise, and it wins where both are asked for.
pub open spec fn edge_in_force(opts: Set<PollMode>) -> bool {
    opts.contains(PollMode::Edge) && !opts.contains(PollMode::Level)
}

/// The native word for an interest and a set of modes, as the sum of its
/// flags: the flag for ordinary or for urgent input where reading is of
/// interest, the flags for output and for the peer's hang-up where those are,
/// the edge flag where edge-triggering is in force, and the one-shot flag.
/// Errors need no flag: the queue always reports them.
pub open spec fn to_native_spec(interest: Set<EventKind>, opts: Set<PollMode>) -> int {
    flag_value(interest.contains(EventKind::Readable) && !opts.contains(PollMode::Urgent), EPOLLIN)
        + flag_value(interest.contains(EventKind::Readable) && opts.contains(PollMode::Urgent), EPOLLPRI)
        + flag_value(interest.contains(EventKind::Writable), EPOLLOUT)
        + flag_value(interest.contains(EventKind::Hup), EPOLLRDHUP)
        + flag_value(opts.contains(PollMode::Oneshot), EPOLLONESHOT)
        + flag_value(edge_in_force(opts), EPOLLET)
}

/// The readiness that a native word reports: readable for ordinary or urgent
/// input, writable for output, error for the error flag, and hang-up for
/// either of the two hang-up flags. Any other bit of the word is dropped.
pub open spec fn from_native_spec(word: u32) -> Set<EventKind> {
    Set::new(
        |kind: EventKind|
            match kind {
                EventKind::Readable => native_has(word, EPOLLIN) || native_has(word, EPOLLPRI),
                EventKind::Writable => native_has(word, EPOLLOUT),
                EventKind::Error => native_has(word, EPOLLERR),
                EventKind::Hup => native_has(word, EPOLLHUP) || native_has(word, EPOLLRDHUP),
            },
    )
}

proof fn lemma_add_flag(word: u32, flag: u32)
    by (bit_vector)
    requires
        word < flag,
        flag == 0x002 || flag == 0x004 || flag == 0x2000 || flag == 0x4000_0000 || flag == 0x8000_0000,
    ensures
        word | flag == word + flag,
{
}

/// The word to register with, for an interest and a set of modes.
pub fn to_native(interest: EventSet, opts: PollOpt) -> (word: u32)
    ensures
        word == to_native_spec(interest@, opts@),
{
    let mut word: u32 = 0;
    if interest.is_readable() && !opts.is_urgent() {
        word = EPOLLIN;
    }
    if interest.is_readable() && opts.is_urgent() {
        proof {
            lemma_add_flag(word, EPOLLPRI);
        }
        word = word | EPOLLPRI;
    }
    if interest.is_writable() {
        proof {
            lemma_add_flag(word, EPOLLOUT);
        }
        word = word | EPOLLOUT;
    }
    if interest.is_hup() {
        proof {
            lemma_add_flag(word, EPOLLRDHUP);
        }
        word = word | EPOLLRDHUP;
    }
    if opts.is_oneshot() {
        proof {
            lemma_add_flag(word, EPOLLONESHOT);
        }
        word = word | EPOLLONESHOT;
    }
    if opts.is_edge() && !opts.is_level() {
        proof {
            lemma_add_flag(word, EPOLLET);
        }
        word = word | EPOLLET;
    }
    word
}

/// The readiness that the word of a native event reports.
pub fn from_native(word: u32) -> (kind: EventSet)
    ensures
        kind@ == from_native_spec(word),
        kind == EventSet::of(from_native_spec(word)),
{
    let mut kind = EventSet::none();
    if word & EPOLLIN != 0 || word & EPOLLPRI != 0 {
        kind = kind | EventSet::readable();
    }
    if word & EPOLLOUT != 0 {
        kind = kind | EventSet::writable();
    }
    if word & EPOLLERR != 0 {
        kind = kind | EventSet::error();
    }
    if word & EPOLLHUP != 0 || word & EPOLLRDHUP != 0 {
        kind = kind | EventSet::hup();
    }
    proof {
        assert(kind@ =~= from_native_spec(word));
        use_type_invariant(&kind);
        kind.lemma_of_view();
    }
    kind
}

/// How long to let the queue wait, in its own terms: the timeout in
/// milliseconds, cut to the largest value that the native call takes. Zero
/// stays zero: the queue then looks once and returns at once.
pub fn native_timeout(timeout_ms: usize) -> (r: i32)
    ensures
        r == if timeout_ms <= i32::MAX { timeout_ms as int } else { i32::MAX as int },
{
    if timeout_ms <= i32::MAX as usize {
        timeout_ms as i32
    } else {
        i32::MAX
    }
}

/// The native word says of each flag exactly what the interest and the modes
/// ask for, and sets no other bit.
pub proof fn lemma_to_native_flags(interest: Set<EventKind>, opts: Set<PollMode>)
    ensures
        0 <= to_native_spec(interest, opts) <= u32::MAX,
        native_has(to_native_spec(interest, opts) as u32, EPOLLIN) <==> interest.contains(EventKind::Readable)
            && !opts.contains(PollMode::Urgent),
        native_has(to_native_spec(interest, opts) as u32, EPOLLPRI) <==> interest.contains(EventKind::Readable)
            && opts.contains(PollMode::Urgent),
        native_has(to_native_spec(interest, opts) as u32, EPOLLOUT) <==> interest.contains(EventKind::Writable),
        native_has(to_native_spec(interest, opts) as u32, EPOLLRDHUP) <==> interest.contains(EventKind::Hup),
        native_has(to_native_spec(interest, opts) as u32, EPOLLONESHOT) <==> opts.contains(PollMode::Oneshot),
        native_has(to_native_spec(interest, opts) as u32, EPOLLET) <==> edge_in_force(opts),
        !native_has(to_native_spec(interest, opts) as u32, EPOLLERR),
        !native_has(to_native_spec(interest, opts) as u32, EPOLLHUP),
{
    let a: u32 = if interest.contains(EventKind::Readable) && !opts.contains(PollMode::Urgent) { EPOLLIN } else { 0 };
    let b: u32 = if interest.contains(EventKind::Readable) && opts.contains(PollMode::Urgent) { EPOLLPRI } else { 0 };
    let c: u32 = if interest.contains(EventKind::Writable) { EPOLLOUT } else { 0 };
    let d: u32 = if interest.contains(EventKind::Hup) { EPOLLRDHUP } else { 0 };
    let e: u32 = if opts.contains(PollMode::Oneshot) { EPOLLONESHOT } else { 0 };
    let f: u32 = if edge_in_force(opts) { EPOLLET } else { 0 };
    let word: u32 = (a + b + c + d + e + f) as u32;
    assert(word == to_native_spec(interest, opts));
    assert((word & 0x001 != 0) == (a != 0) && (word & 0x002 != 0) == (b != 0) && (word & 0x004 != 0) == (c != 0)
        && (word & 0x2000 != 0) == (d != 0) && (word & 0x4000_0000 != 0) == (e != 0) && (word & 0x8000_0000 != 0)
        == (f != 0) && word & 0x008 == 0 && word & 0x010 == 0) by (bit_vector)
        requires
            a == 0 || a == 0x001,
            b == 0 || b == 0x002,
            c == 0 || c == 0x004,
            d == 0 || d == 0x2000,
            e == 0 || e == 0x4000_0000,
            f == 0 || f == 0x8000_0000,
            word == a + b + c + d + e + f,
    ;
}

/// What a registration asks for is what the queue can report back under it:
/// a word made for an interest reads back as that interest, but for `Error`,
/// which is never asked for and always reported.
pub proof fn lemma_native_round_trip(interest: Set<EventKind>, opts: Set<PollMode>)
    ensures
        from_native_spec(to_native_spec(interest, opts) as u32) == interest.remove(EventKind::Error),
{
    lemma_to_native_flags(interest, opts);
    assert(from_native_spec(to_native_spec(interest, opts) as u32) =~= interest.remove(EventKind::Error));
}

} // verus!
