//! A readiness-based event notification core.
//!
//! The crate holds the bookkeeping of a single-threaded reactor: the portable
//! readiness model, the table of registrations, the native flag words of the
//! operating system's event queue, and the rules by which the outcome of a
//! non-blocking socket call is read.
//!
//! It performs no system call itself. Every operation is made of up to three
//! steps, of which the caller makes the middle one:
//!
//! 1. where there is something to decide beforehand, a function of this crate
//!    says what to ask of the operating system (`Selector::plan_register`,
//!    `Selector::plan_select`, `Socket::set_linger`, `net::socket`), or that
//!    there is nothing to ask because the request is refused;
//! 2. the caller makes that one system call;
//! 3. a function of this crate takes the outcome of the call, as a `Result`
//!    whose error is an `OsError`, updates its books and says what the
//!    operation came to (`Poll::register`, `Poll::poll`, `net::connect`).
//!
//! Nothing here waits, and nothing here can fail to return: what the contracts
//! state holds of every outcome that the operating system can hand back.

mod bits;
pub mod error;
pub mod event;
pub mod evented;
pub mod events;
pub mod io;
pub mod laws;
pub mod native;
pub mod net;
pub mod poll;
pub mod poll_opt;
pub mod selector;
pub mod token;

pub use error::{Cause, Error, OsError};
pub use event::{EventKind, EventSet, IoEvent};
pub use evented::Evented;
pub use events::Events;
pub use io::NonBlock;
pub use net::{Descriptor, IoHandle, MulticastSocket, Socket, UnconnectedSocket};
pub use poll::Poll;
pub use poll_opt::{PollMode, PollOpt};
pub use selector::{Control, ControlKind, NativeEvent, Registration, Selector, WaitRequest, Wake};
pub use token::Token;
