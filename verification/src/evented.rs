//! The capability of a resource to take part in polling.

use vstd::prelude::*;
use crate::error::{Error, OsError};
use crate::event::EventSet;
use crate::net::{Descriptor, IoHandle};
use crate::poll_opt::PollOpt;
use crate::selector::{change_result, deregister_table, register_result, register_table, reregister_table, valid_table, Selector};
use crate::token::Token;

verus! {

/// A resource that can be registered with a selector. It owns its descriptor
/// and forwards each call to the selector under that descriptor's number;
/// there is no state of its own behind this.
pub trait Evented: IoHandle {
    /// Registers the resource, given the outcome of adding its descriptor to
    /// the queue. A resource that is registered already is refused.
    fn register(
        &self,
        selector: &mut Selector,
        token: Token,
        interest: EventSet,
        opts: PollOpt,
        outcome: Result<(), OsError>,
    ) -> (r: Result<(), Error>)
        ensures
            r == register_result(old(selector)@, self.descriptor(), outcome),
            final(selector)@ == register_table(old(selector)@, self.descriptor(), token, interest, opts, outcome),
            final(selector).queue_spec() == old(selector).queue_spec(),
            valid_table(final(selector)@),
    {
        selector.register(self.fd(), token, interest, opts, outcome)
    }

    /// Replaces the registration of the resource, given the outcome of
    /// modifying its descriptor in the queue. A resource that is not
    /// registered is refused.
    fn reregister(
        &self,
        selector: &mut Selector,
        token: Token,
        interest: EventSet,
        opts: PollOpt,
        outcome: Result<(), OsError>,
    ) -> (r: Result<(), Error>)
        ensures
            r == change_result(old(selector)@, self.descriptor(), outcome),
            final(selector)@ == reregister_table(old(selector)@, self.descriptor(), token, interest, opts, outcome),
            final(selector).queue_spec() == old(selector).queue_spec(),
            valid_table(final(selector)@),
    {
        selector.reregister(self.fd(), token, interest, opts, outcome)
    }

    /// Removes the registration of the resource, given the outcome of
    /// deleting its descriptor from the queue. A resource that is not
    /// registered is refused.
    fn deregister(&self, selector: &mut Selector, outcome: Result<(), OsError>) -> (r: Result<(), Error>)
        ensures
            r == change_result(old(selector)@, self.descriptor(), outcome),
            final(selector)@ == deregister_table(old(selector)@, self.descriptor(), outcome),
            final(selector).queue_spec() == old(selector).queue_spec(),
            valid_table(final(selector)@),
    {
        selector.deregister(self.fd(), outcome)
    }
}

impl Evented for Descriptor {

}

} // verus!
