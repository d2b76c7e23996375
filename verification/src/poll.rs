//! The one object that an application holds: a selector and the buffer that
//! its waits fill.

use vstd::prelude::*;
use crate::error::{Cause, Error, OsError};
use crate::event::{EventSet, IoEvent};
use crate::evented::Evented;
use crate::events::Events;
use crate::poll_opt::PollOpt;
use crate::selector::{change_result, deregister_table, dispatch_events, dispatch_table, register_result, register_table, reregister_table, valid_table};
use crate::selector::{NativeEvent, Registration, Selector, Wake};
use crate::token::Token;

verus! {

/// A selector together with its events buffer. It keeps nothing back and
/// batches nothing: each call goes straight through to the selector.
#[derive(Debug)]
pub struct Poll {
    selector: Selector,
    events: Events,
}

impl Poll {
    /// The registrations, by descriptor.
    pub closed spec fn registrations(&self) -> Map<i32, Registration> {
        self.selector@
    }

    /// The notifications of the last wait.
    pub closed spec fn notifications(&self) -> Seq<IoEvent> {
        self.events@
    }

    /// The descriptor of the event queue.
    pub closed spec fn queue_spec(&self) -> i32 {
        self.selector.queue_spec()
    }

    /// Reads the outcome of creating the event queue: a poll with no
    /// registration and an empty buffer, or the error.
    pub fn new(outcome: Result<i32, OsError>) -> (r: Result<Poll, Error>)
        ensures
            match outcome {
                Ok(queue) => {
                    &&& r matches Ok(poll)
                    &&& poll.queue_spec() == queue
                    &&& poll.registrations() == Map::<i32, Registration>::empty()
                    &&& valid_table(poll.registrations())
                    &&& poll.notifications() == Seq::<IoEvent>::empty()
                },
                Err(failure) => r matches Err(error) && error == Error::Syscall(failure),
            },
    {
        match Selector::new(outcome) {
            Ok(selector) => Ok(Poll { selector, events: Events::new() }),
            Err(error) => Err(error),
        }
    }

    /// The selector, to ask it what a change needs of the event queue. Its
    /// table is valid, as it is at all times.
    pub fn selector(&self) -> (r: &Selector)
        ensures
            r@ == self.registrations(),
            r.queue_spec() == self.queue_spec(),
            valid_table(self.registrations()),
    {
        proof {
            use_type_invariant(&self.selector);
        }
        &self.selector
    }

    /// Registers `io`, given the outcome of adding its descriptor to the
    /// queue. A resource that is registered already is refused, and a failed
    /// registration leaves everything as it was.
    pub fn register<E: Evented + ?Sized>(
        &mut self,
        io: &E,
        token: Token,
        interest: EventSet,
        opts: PollOpt,
        outcome: Result<(), OsError>,
    ) -> (r: Result<(), Error>)
        ensures
            r == register_result(old(self).registrations(), io.descriptor(), outcome),
            final(self).registrations() == register_table(
                old(self).registrations(),
                io.descriptor(),
                token,
                interest,
                opts,
                outcome,
            ),
            final(self).notifications() == old(self).notifications(),
            final(self).queue_spec() == old(self).queue_spec(),
            valid_table(final(self).registrations()),
    {
        io.register(&mut self.selector, token, interest, opts, outcome)
    }

    /// Replaces the registration of `io`, given the outcome of modifying its
    /// descriptor in the queue. A resource that is not registered is refused.
    pub fn reregister<E: Evented + ?Sized>(
        &mut self,
        io: &E,
        token: Token,
        interest: EventSet,
        opts: PollOpt,
        outcome: Result<(), OsError>,
    ) -> (r: Result<(), Error>)
        ensures
            r == change_result(old(self).registrations(), io.descriptor(), outcome),
            final(self).registrations() == reregister_table(
                old(self).registrations(),
                io.descriptor(),
                token,
                interest,
                opts,
                outcome,
            ),
            final(self).notifications() == old(self).notifications(),
            final(self).queue_spec() == old(self).queue_spec(),
            valid_table(final(self).registrations()),
    {
        io.reregister(&mut self.selector, token, interest, opts, outcome)
    }

    /// Removes the registration of `io`, given the outcome of deleting its
    /// descriptor from the queue. A resource that is not registered is
    /// refused.
    pub fn deregister<E: Evented + ?Sized>(&mut self, io: &E, outcome: Result<(), OsError>) -> (r: Result<
        (),
        Error,
    >)
        ensures
            r == change_result(old(self).registrations(), io.descriptor(), outcome),
            final(self).registrations() == deregister_table(old(self).registrations(), io.descriptor(), outcome),
            final(self).notifications() == old(self).notifications(),
            final(self).queue_spec() == old(self).queue_spec(),
            valid_table(final(self).registrations()),
    {
        io.deregister(&mut self.selector, outcome)
    }

    /// Reads the outcome of one wait on the queue and says how many
    /// notifications are now to be had from `event`. A timeout is a report
    /// with no entry: the count is zero and the call succeeds. A wait that a
    /// signal interrupted changes nothing and is to be repeated; any other
    /// error is handed on and changes nothing either.
    pub fn poll(&mut self, outcome: Result<Vec<NativeEvent>, OsError>) -> (r: Result<Wake, Error>)
        ensures
            final(self).queue_spec() == old(self).queue_spec(),
            valid_table(final(self).registrations()),
            match outcome {
                Ok(report) => {
                    &&& final(self).registrations() == dispatch_table(old(self).registrations(), report@)
                    &&& final(self).notifications() == dispatch_events(old(self).registrations(), report@)
                    &&& r == Ok::<Wake, Error>(Wake::Events(final(self).notifications().len() as usize))
                },
                Err(failure) => {
                    &&& final(self).registrations() == old(self).registrations()
                    &&& final(self).notifications() == old(self).notifications()
                    &&& r == if failure.cause == Cause::Interrupted {
                        Ok::<Wake, Error>(Wake::Interrupted)
                    } else {
                        Err::<Wake, Error>(Error::Syscall(failure))
                    }
                },
            },
            outcome matches Ok(report) && report@.len() == 0 ==> r == Ok::<Wake, Error>(Wake::Events(0))
                && final(self).notifications().len() == 0 && final(self).registrations() == old(
                self,
            ).registrations(),
    {
        self.selector.select(&mut self.events, outcome)
    }

    /// The notification at `idx` of the last wait. An index at or past the
    /// count that `poll` returned is not accepted.
    pub fn event(&self, idx: usize) -> (r: IoEvent)
        requires
            idx < self.notifications().len(),
        ensures
            r == self.notifications()[idx as int],
    {
        self.events.get(idx)
    }

    /// The number of notifications of the last wait.
    pub fn event_count(&self) -> (r: usize)
        ensures
            r == self.notifications().len(),
    {
        self.events.len()
    }
}

} // verus!
