//! The selector: the table of registrations, what to ask of the operating
//! system's event queue for each change to it, and what becomes of the
//! table and of the events buffer when the queue reports.

use vstd::prelude::*;
use std::collections::HashMap;
use crate::error::{completed_spec, Cause, Error, OsError};
use crate::event::{EventSet, IoEvent};
use crate::events::Events;
use crate::native::{from_native, from_native_spec, native_timeout, to_native, to_native_spec};
use crate::poll_opt::{PollMode, PollOpt};
use crate::token::Token;

verus! {

broadcast use vstd::std_specs::hash::group_hash_axioms;

/// What the selector holds for one registered descriptor.
#[derive(Clone, Copy, Debug, PartialEq, Eq, Structural)]
pub struct Registration {
    /// The token that notifications for the descriptor carry.
    pub token: Token,
    /// What the descriptor is watched for.
    pub interest: EventSet,
    /// How notification was asked for.
    pub opts: PollOpt,
    /// Whether the registration still fires. A one-shot registration stops
    /// firing with its first notification, until it is registered anew.
    pub armed: bool,
}

/// One entry of what the event queue reported: a descriptor and the native
/// word that says what it is ready for.
#[derive(Clone, Copy, Debug, PartialEq, Eq, Structural)]
pub struct NativeEvent {
    pub descriptor: i32,
    pub word: u32,
}

/// The three changes that the event queue takes.
#[derive(Clone, Copy, Debug, PartialEq, Eq, Structural)]
pub enum ControlKind {
    Add,
    Modify,
    Delete,
}

/// What to ask of the event queue `queue`: make this change for this
/// descriptor, with this native word.
#[derive(Clone, Copy, Debug, PartialEq, Eq, Structural)]
pub struct Control {
    pub queue: i32,
    pub kind: ControlKind,
    pub descriptor: i32,
    pub word: u32,
}

/// What to ask of the event queue `queue`: wait until a descriptor is ready,
/// but no longer than `timeout` milliseconds.
#[derive(Clone, Copy, Debug, PartialEq, Eq, Structural)]
pub struct WaitRequest {
    pub queue: i32,
    pub timeout: i32,
}

/// How a wait on the event queue ended, where it did not fail.
#[derive(Clone, Copy, Debug, PartialEq, Eq, Structural)]
pub enum Wake {
    /// The buffer now holds this many notifications; none where the timeout
    /// ran out first.
    Events(usize),
    /// A signal cut the wait short. Nothing was touched; wait again.
    Interrupted,
}

/// The registration that `register` and `reregister` write.
pub open spec fn fresh(token: Token, interest: EventSet, opts: PollOpt) -> Registration {
    Registration { token, interest, opts, armed: true }
}

/// What `register` returns.
pub open spec fn register_result(table: Map<i32, Registration>, fd: i32, outcome: Result<(), OsError>) -> Result<
    (),
    Error,
> {
    if table.contains_key(fd) {
        Err(Error::InvalidRegistration)
    } else {
        completed_spec(outcome)
    }
}

/// The table that `register` leaves.
pub open spec fn register_table(
    table: Map<i32, Registration>,
    fd: i32,
    token: Token,
    interest: EventSet,
    opts: PollOpt,
    outcome: Result<(), OsError>,
) -> Map<i32, Registration> {
    if register_result(table, fd, outcome) is Ok {
        table.insert(fd, fresh(token, interest, opts))
    } else {
        table
    }
}

/// What `reregister` and `deregister` return.
pub open spec fn change_result(table: Map<i32, Registration>, fd: i32, outcome: Result<(), OsError>) -> Result<
    (),
    Error,
> {
    if !table.contains_key(fd) {
        Err(Error::InvalidRegistration)
    } else {
        completed_spec(outcome)
    }
}

/// The table that `reregister` leaves.
pub open spec fn reregister_table(
    table: Map<i32, Registration>,
    fd: i32,
    token: Token,
    interest: EventSet,
    opts: PollOpt,
    outcome: Result<(), OsError>,
) -> Map<i32, Registration> {
    if change_result(table, fd, outcome) is Ok {
        table.insert(fd, fresh(token, interest, opts))
    } else {
        table
    }
}

/// The table that `deregister` leaves.
pub open spec fn deregister_table(table: Map<i32, Registration>, fd: i32, outcome: Result<(), OsError>) -> Map<
    i32,
    Registration,
> {
    if change_result(table, fd, outcome) is Ok {
        table.remove(fd)
    } else {
        table
    }
}

/// What holds of every table that the selector ever has: only a one-shot
/// registration is ever disarmed.
pub open spec fn valid_table(table: Map<i32, Registration>) -> bool {
    forall|fd: i32| #[trigger]
        table.contains_key(fd) && !table[fd].armed ==> table[fd].opts@.contains(PollMode::Oneshot)
}

/// Whether a native event leads to a notification: its descriptor is
/// registered, and the registration still fires.
pub open spec fn fires(table: Map<i32, Registration>, event: NativeEvent) -> bool {
    table.contains_key(event.descriptor) && table[event.descriptor].armed
}

/// The notification for a native event that fires: the readiness that its
/// word reports, under the token of the registration.
pub open spec fn notice(table: Map<i32, Registration>, event: NativeEvent) -> IoEvent {
    IoEvent { kind: EventSet::of(from_native_spec(event.word)), token: table[event.descriptor].token }
}

/// The table after a native event: a one-shot registration that fired fires
/// no more; nothing else changes.
pub open spec fn settle(table: Map<i32, Registration>, event: NativeEvent) -> Map<i32, Registration> {
    if fires(table, event) && table[event.descriptor].opts@.contains(PollMode::Oneshot) {
        table.insert(
            event.descriptor,
            Registration {
                token: table[event.descriptor].token,
                interest: table[event.descriptor].interest,
                opts: table[event.descriptor].opts,
                armed: false,
            },
        )
    } else {
        table
    }
}

/// The table after a whole report, taken entry by entry in order.
pub open spec fn dispatch_table(table: Map<i32, Registration>, report: Seq<NativeEvent>) -> Map<
    i32,
    Registration,
>
    decreases report.len(),
{
    if report.len() == 0 {
        table
    } else {
        settle(dispatch_table(table, report.drop_last()), report.last())
    }
}

/// The notifications that a report gives rise to, in the order of the report:
/// one for each entry that fires in the table as the entries before it left
/// it.
pub open spec fn dispatch_events(table: Map<i32, Registration>, report: Seq<NativeEvent>) -> Seq<IoEvent>
    decreases report.len(),
{
    if report.len() == 0 {
        Seq::empty()
    } else {
        let before = dispatch_table(table, report.drop_last());
        let earlier = dispatch_events(table, report.drop_last());
        if fires(before, report.last()) {
            earlier.push(notice(before, report.last()))
        } else {
            earlier
        }
    }
}

/// The bookkeeping side of the operating system's event queue.
#[derive(Debug)]
pub struct Selector {
    queue: i32,
    table: HashMap<i32, Registration>,
}

impl View for Selector {
    type V = Map<i32, Registration>;

    /// The registrations, by descriptor.
    closed spec fn view(&self) -> Map<i32, Registration> {
        self.table@
    }
}

impl Selector {
    /// The table of a selector is valid at all times.
    #[verifier::type_invariant]
    pub open spec fn sound(self) -> bool {
        valid_table(self@)
    }

    /// The descriptor of the event queue that this selector keeps the books
    /// for.
    pub closed spec fn queue_spec(&self) -> i32 {
        self.queue
    }

    /// Reads the outcome of creating the event queue: a selector with no
    /// registration for the queue's descriptor, or the error.
    pub fn new(outcome: Result<i32, OsError>) -> (r: Result<Selector, Error>)
        ensures
            match outcome {
                Ok(queue) => r matches Ok(selector) && selector.queue_spec() == queue && selector@
                    == Map::<i32, Registration>::empty() && valid_table(selector@),
                Err(failure) => r matches Err(error) && error == Error::Syscall(failure),
            },
    {
        match outcome {
            Ok(queue) => Ok(Selector { queue, table: HashMap::new() }),
            Err(failure) => Err(Error::Syscall(failure)),
        }
    }

    /// The descriptor of the event queue.
    pub fn queue(&self) -> (r: i32)
        ensures
            r == self.queue_spec(),
    {
        self.queue
    }

    /// Whether `fd` is registered.
    pub fn is_registered(&self, fd: i32) -> (r: bool)
        ensures
            r == self@.contains_key(fd),
            valid_table(self@),
    {
        proof {
            use_type_invariant(self);
        }
        self.table.contains_key(&fd)
    }

    /// The registration of `fd`, if it has one.
    pub fn registration(&self, fd: i32) -> (r: Option<Registration>)
        ensures
            r == if self@.contains_key(fd) {
                Some(self@[fd])
            } else {
                None
            },
            valid_table(self@),
    {
        proof {
            use_type_invariant(self);
        }
        match self.table.get(&fd) {
            Some(registration) => Some(*registration),
            None => None,
        }
    }

    /// What to ask of the queue in order to register `fd`: to add it with the
    /// native word for the interest and the modes. Where `fd` is registered
    /// already there is nothing to ask, and the error says so.
    pub fn plan_register(&self, fd: i32, interest: EventSet, opts: PollOpt) -> (r: Result<Control, Error>)
        ensures
            r == if self@.contains_key(fd) {
                Err::<Control, Error>(Error::InvalidRegistration)
            } else {
                Ok::<Control, Error>(
                    Control {
                        queue: self.queue_spec(),
                        kind: ControlKind::Add,
                        descriptor: fd,
                        word: to_native_spec(interest@, opts@) as u32,
                    },
                )
            },
    {
        if self.table.contains_key(&fd) {
            Err(Error::InvalidRegistration)
        } else {
            Ok(Control { queue: self.queue, kind: ControlKind::Add, descriptor: fd, word: to_native(interest, opts) })
        }
    }

    /// What to ask of the queue in order to change the registration of `fd`:
    /// to modify it to the native word for the new interest and modes. Where
    /// `fd` is not registered there is nothing to ask, and the error says so.
    pub fn plan_reregister(&self, fd: i32, interest: EventSet, opts: PollOpt) -> (r: Result<Control, Error>)
        ensures
            r == if !self@.contains_key(fd) {
                Err::<Control, Error>(Error::InvalidRegistration)
            } else {
                Ok::<Control, Error>(
                    Control {
                        queue: self.queue_spec(),
                        kind: ControlKind::Modify,
                        descriptor: fd,
                        word: to_native_spec(interest@, opts@) as u32,
                    },
                )
            },
    {
        if !self.table.contains_key(&fd) {
            Err(Error::InvalidRegistration)
        } else {
            Ok(Control { queue: self.queue, kind: ControlKind::Modify, descriptor: fd, word: to_native(interest, opts) })
        }
    }

    /// What to ask of the queue in order to take `fd` out: to delete it.
    /// Where `fd` is not registered there is nothing to ask, and the error
    /// says so.
    pub fn plan_deregister(&self, fd: i32) -> (r: Result<Control, Error>)
        ensures
            r == if !self@.contains_key(fd) {
                Err::<Control, Error>(Error::InvalidRegistration)
            } else {
                Ok::<Control, Error>(
                    Control { queue: self.queue_spec(), kind: ControlKind::Delete, descriptor: fd, word: 0 },
                )
            },
    {
        if !self.table.contains_key(&fd) {
            Err(Error::InvalidRegistration)
        } else {
            Ok(Control { queue: self.queue, kind: ControlKind::Delete, descriptor: fd, word: 0 })
        }
    }

    /// What to ask of the queue in order to learn what is ready: to wait, for
    /// at most `timeout_ms` milliseconds, cut to the largest number that the
    /// native call takes. With zero the queue looks once and returns at once.
    pub fn plan_select(&self, timeout_ms: usize) -> (r: WaitRequest)
        ensures
            r.queue == self.queue_spec(),
            r.timeout == if timeout_ms <= i32::MAX {
                timeout_ms as int
            } else {
                i32::MAX as int
            },
    {
        WaitRequest { queue: self.queue, timeout: native_timeout(timeout_ms) }
    }

    /// Registers `fd`, given the outcome of adding it to the queue. A
    /// descriptor that is registered already is refused, whatever the queue
    /// said. Where the queue refused, its error is handed on. Only where both
    /// agree does the table change: `fd` is then registered, armed, under the
    /// given token, interest and modes.
    pub fn register(
        &mut self,
        fd: i32,
        token: Token,
        interest: EventSet,
        opts: PollOpt,
        outcome: Result<(), OsError>,
    ) -> (r: Result<(), Error>)
        ensures
            r == register_result(old(self)@, fd, outcome),
            final(self)@ == register_table(old(self)@, fd, token, interest, opts, outcome),
            final(self).queue_spec() == old(self).queue_spec(),
            valid_table(final(self)@),
    {
        proof {
            use_type_invariant(&*self);
        }
        if self.table.contains_key(&fd) {
            return Err(Error::InvalidRegistration);
        }
        match outcome {
            Ok(_) => {
                let mut table = HashMap::new();
                std::mem::swap(&mut table, &mut self.table);
                table.insert(fd, Registration { token, interest, opts, armed: true });
                self.table = table;
                Ok(())
            },
            Err(failure) => Err(Error::Syscall(failure)),
        }
    }

    /// Replaces the registration of `fd`, given the outcome of modifying it
    /// in the queue. A descriptor that is not registered is refused, whatever
    /// the queue said. Where the queue refused, its error is handed on and
    /// the old registration stays. Otherwise the new token, interest and
    /// modes take the place of the old, and the registration is armed again.
    pub fn reregister(
        &mut self,
        fd: i32,
        token: Token,
        interest: EventSet,
        opts: PollOpt,
        outcome: Result<(), OsError>,
    ) -> (r: Result<(), Error>)
        ensures
            r == change_result(old(self)@, fd, outcome),
            final(self)@ == reregister_table(old(self)@, fd, token, interest, opts, outcome),
            final(self).queue_spec() == old(self).queue_spec(),
            valid_table(final(self)@),
    {
        proof {
            use_type_invariant(&*self);
        }
        if !self.table.contains_key(&fd) {
            return Err(Error::InvalidRegistration);
        }
        match outcome {
            Ok(_) => {
                let mut table = HashMap::new();
                std::mem::swap(&mut table, &mut self.table);
                table.insert(fd, Registration { token, interest, opts, armed: true });
                self.table = table;
                Ok(())
            },
            Err(failure) => Err(Error::Syscall(failure)),
        }
    }

    /// Removes the registration of `fd`, given the outcome of deleting it
    /// from the queue. A descriptor that is not registered is refused,
    /// whatever the queue said. Where the queue refused, its error is handed
    /// on and the registration stays.
    pub fn deregister(&mut self, fd: i32, outcome: Result<(), OsError>) -> (r: Result<(), Error>)
        ensures
            r == change_result(old(self)@, fd, outcome),
            final(self)@ == deregister_table(old(self)@, fd, outcome),
            final(self).queue_spec() == old(self).queue_spec(),
            valid_table(final(self)@),
    {
        proof {
            use_type_invariant(&*self);
        }
        if !self.table.contains_key(&fd) {
            return Err(Error::InvalidRegistration);
        }
        match outcome {
            Ok(_) => {
                let mut table = HashMap::new();
                std::mem::swap(&mut table, &mut self.table);
                table.remove(&fd);
                self.table = table;
                Ok(())
            },
            Err(failure) => Err(Error::Syscall(failure)),
        }
    }

    /// Reads the outcome of one wait on the queue.
    ///
    /// A report overwrites the buffer: it then holds one notification for
    /// each entry of the report whose descriptor is registered and still
    /// fires, in the report's order, under the registration's token. One-shot
    /// registrations that fired are disarmed. An empty report, which is what
    /// a timeout gives, leaves an empty buffer and is no error.
    ///
    /// A wait that a signal interrupted touches nothing and asks to be
    /// repeated. Any other error is handed on, and touches nothing either.
    pub fn select(&mut self, evts: &mut Events, outcome: Result<Vec<NativeEvent>, OsError>) -> (r: Result<
        Wake,
        Error,
    >)
        ensures
            final(self).queue_spec() == old(self).queue_spec(),
            match outcome {
                Ok(report) => {
                    &&& final(self)@ == dispatch_table(old(self)@, report@)
                    &&& final(evts)@ == dispatch_events(old(self)@, report@)
                    &&& r == Ok::<Wake, Error>(Wake::Events(final(evts)@.len() as usize))
                },
                Err(failure) => {
                    &&& final(self)@ == old(self)@
                    &&& final(evts)@ == old(evts)@
                    &&& r == if failure.cause == Cause::Interrupted {
                        Ok::<Wake, Error>(Wake::Interrupted)
                    } else {
                        Err::<Wake, Error>(Error::Syscall(failure))
                    }
                },
            },
            outcome matches Ok(report) && report@.len() == 0 ==> final(evts)@.len() == 0 && final(self)@ == old(
                self,
            )@,
            valid_table(final(self)@),
    {
        proof {
            use_type_invariant(&*self);
        }
        match outcome {
            Ok(report) => {
                evts.clear();
                let mut table = HashMap::new();
                std::mem::swap(&mut table, &mut self.table);
                let mut i: usize = 0;
                while i < report.len()
                    invariant
                        i <= report.len(),
                        valid_table(table@),
                        table@ == dispatch_table(old(self)@, report@.take(i as int)),
                        evts@ == dispatch_events(old(self)@, report@.take(i as int)),
                    decreases report.len() - i,
                {
                    let event = report[i];
                    proof {
                        let next = report@.take(i + 1);
                        assert(next.drop_last() =~= report@.take(i as int));
                        assert(next.last() == event);
                    }
                    let found = match table.get(&event.descriptor) {
                        Some(registration) => Some(*registration),
                        None => None,
                    };
                    match found {
                        Some(registration) => {
                            if registration.armed {
                                evts.push(IoEvent::new(from_native(event.word), registration.token));
                                if registration.opts.is_oneshot() {
                                    table.insert(
                                        event.descriptor,
                                        Registration {
                                            token: registration.token,
                                            interest: registration.interest,
                                            opts: registration.opts,
                                            armed: false,
                                        },
                                    );
                                }
                            }
                        },
                        None => {},
                    }
                    i = i + 1;
                }
                proof {
                    assert(report@.take(report@.len() as int) =~= report@);
                }
                self.table = table;
                Ok(Wake::Events(evts.len()))
            },
            Err(failure) => match failure.cause {
                Cause::Interrupted => Ok(Wake::Interrupted),
                _ => Err(Error::Syscall(failure)),
            },
        }
    }
}

} // verus!
