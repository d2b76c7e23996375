use reactor::error::{Cause, Error, OsError};
use reactor::native::{EPOLLIN, EPOLLONESHOT, EPOLLOUT, EPOLLET};
use reactor::{Control, ControlKind, Descriptor, EventSet, Evented, Events, IoEvent, NativeEvent, PollOpt, Registration, Selector, Token, WaitRequest, Wake};

fn selector() -> Selector {
    Selector::new(Ok(3)).unwrap()
}

fn refused(code: i32) -> OsError {
    OsError::other(code)
}

fn ready(descriptor: i32, word: u32) -> NativeEvent {
    NativeEvent { descriptor, word }
}

#[test]
fn selector_new_reads_the_outcome() {
    let selector = Selector::new(Ok(3)).unwrap();
    assert_eq!(selector.queue(), 3);
    assert!(!selector.is_registered(3));
    assert_eq!(Selector::new(Err(refused(24))).err(), Some(Error::Syscall(refused(24))));
}

#[test]
fn register_adds_an_armed_registration() {
    let mut selector = selector();
    assert_eq!(selector.register(9, Token(1), EventSet::readable(), PollOpt::edge(), Ok(())), Ok(()));
    assert!(selector.is_registered(9));
    assert_eq!(
        selector.registration(9),
        Some(Registration { token: Token(1), interest: EventSet::readable(), opts: PollOpt::edge(), armed: true })
    );
    assert_eq!(selector.registration(10), None);
}

#[test]
fn register_twice_is_invalid() {
    let mut selector = selector();
    selector.register(9, Token(1), EventSet::readable(), PollOpt::edge(), Ok(())).unwrap();
    assert_eq!(
        selector.register(9, Token(2), EventSet::writable(), PollOpt::level(), Ok(())),
        Err(Error::InvalidRegistration)
    );
    assert_eq!(
        selector.register(9, Token(2), EventSet::writable(), PollOpt::level(), Err(refused(17))),
        Err(Error::InvalidRegistration)
    );
    assert_eq!(selector.registration(9).unwrap().token, Token(1));
}

#[test]
fn register_refused_by_the_queue_changes_nothing() {
    let mut selector = selector();
    assert_eq!(
        selector.register(9, Token(1), EventSet::readable(), PollOpt::edge(), Err(refused(9))),
        Err(Error::Syscall(refused(9)))
    );
    assert!(!selector.is_registered(9));
    assert_eq!(selector.register(9, Token(1), EventSet::readable(), PollOpt::edge(), Ok(())), Ok(()));
}

#[test]
fn reregister_replaces_token_interest_and_modes() {
    let mut selector = selector();
    selector.register(9, Token(1), EventSet::readable(), PollOpt::edge(), Ok(())).unwrap();
    assert_eq!(selector.reregister(9, Token(2), EventSet::writable(), PollOpt::level(), Ok(())), Ok(()));
    assert_eq!(
        selector.registration(9),
        Some(Registration { token: Token(2), interest: EventSet::writable(), opts: PollOpt::level(), armed: true })
    );
}

#[test]
fn reregister_refused_by_the_queue_keeps_the_old_registration() {
    let mut selector = selector();
    selector.register(9, Token(1), EventSet::readable(), PollOpt::edge(), Ok(())).unwrap();
    assert_eq!(
        selector.reregister(9, Token(2), EventSet::writable(), PollOpt::level(), Err(refused(12))),
        Err(Error::Syscall(refused(12)))
    );
    assert_eq!(selector.registration(9).unwrap().token, Token(1));
}

#[test]
fn reregister_or_deregister_of_an_unregistered_descriptor_is_invalid() {
    let mut selector = selector();
    assert_eq!(
        selector.reregister(9, Token(2), EventSet::writable(), PollOpt::level(), Ok(())),
        Err(Error::InvalidRegistration)
    );
    assert_eq!(selector.deregister(9, Ok(())), Err(Error::InvalidRegistration));
    assert_eq!(selector.deregister(9, Err(refused(2))), Err(Error::InvalidRegistration));
    assert!(!selector.is_registered(9));
}

#[test]
fn deregister_removes_the_registration() {
    let mut selector = selector();
    selector.register(9, Token(1), EventSet::readable(), PollOpt::edge(), Ok(())).unwrap();
    assert_eq!(selector.deregister(9, Err(refused(9))), Err(Error::Syscall(refused(9))));
    assert!(selector.is_registered(9));
    assert_eq!(selector.deregister(9, Ok(())), Ok(()));
    assert!(!selector.is_registered(9));
    assert_eq!(selector.deregister(9, Ok(())), Err(Error::InvalidRegistration));
    assert_eq!(
        selector.reregister(9, Token(1), EventSet::readable(), PollOpt::edge(), Ok(())),
        Err(Error::InvalidRegistration)
    );
    assert_eq!(selector.register(9, Token(5), EventSet::readable(), PollOpt::edge(), Ok(())), Ok(()));
}

#[test]
fn plans_say_what_to_ask_of_the_queue() {
    let mut selector = selector();
    assert_eq!(
        selector.plan_register(9, EventSet::readable(), PollOpt::edge() | PollOpt::oneshot()),
        Ok(Control { queue: 3, kind: ControlKind::Add, descriptor: 9, word: EPOLLIN | EPOLLET | EPOLLONESHOT })
    );
    assert_eq!(selector.plan_reregister(9, EventSet::readable(), PollOpt::edge()), Err(Error::InvalidRegistration));
    assert_eq!(selector.plan_deregister(9), Err(Error::InvalidRegistration));
    selector.register(9, Token(1), EventSet::readable(), PollOpt::edge(), Ok(())).unwrap();
    assert_eq!(selector.plan_register(9, EventSet::readable(), PollOpt::edge()), Err(Error::InvalidRegistration));
    assert_eq!(
        selector.plan_reregister(9, EventSet::writable(), PollOpt::level()),
        Ok(Control { queue: 3, kind: ControlKind::Modify, descriptor: 9, word: EPOLLOUT })
    );
    assert_eq!(
        selector.plan_deregister(9),
        Ok(Control { queue: 3, kind: ControlKind::Delete, descriptor: 9, word: 0 })
    );
}

#[test]
fn select_reports_under_the_registered_token() {
    let mut selector = selector();
    let mut events = Events::new();
    selector.register(9, Token(77), EventSet::readable(), PollOpt::level(), Ok(())).unwrap();
    let woke = selector.select(&mut events, Ok(vec![ready(9, EPOLLIN)]));
    assert_eq!(woke, Ok(Wake::Events(1)));
    assert_eq!(events.len(), 1);
    assert_eq!(events.get(0), IoEvent::new(EventSet::readable(), Token(77)));
}

#[test]
fn select_keeps_the_order_of_the_report() {
    let mut selector = selector();
    let mut events = Events::new();
    selector.register(9, Token(1), EventSet::readable(), PollOpt::level(), Ok(())).unwrap();
    selector.register(4, Token(2), EventSet::writable(), PollOpt::level(), Ok(())).unwrap();
    selector.register(6, Token(3), EventSet::all(), PollOpt::edge(), Ok(())).unwrap();
    let report = vec![ready(6, EPOLLIN | EPOLLOUT), ready(9, EPOLLIN), ready(4, EPOLLOUT)];
    assert_eq!(selector.select(&mut events, Ok(report)), Ok(Wake::Events(3)));
    assert_eq!(events.get(0), IoEvent::new(EventSet::readable() | EventSet::writable(), Token(3)));
    assert_eq!(events.get(1), IoEvent::new(EventSet::readable(), Token(1)));
    assert_eq!(events.get(2), IoEvent::new(EventSet::writable(), Token(2)));
}

#[test]
fn select_overwrites_the_buffer() {
    let mut selector = selector();
    let mut events = Events::new();
    selector.register(9, Token(1), EventSet::readable(), PollOpt::level(), Ok(())).unwrap();
    selector.select(&mut events, Ok(vec![ready(9, EPOLLIN), ready(9, EPOLLOUT)])).unwrap();
    assert_eq!(events.len(), 2);
    selector.select(&mut events, Ok(vec![ready(9, EPOLLOUT)])).unwrap();
    assert_eq!(events.len(), 1);
    assert_eq!(events.get(0), IoEvent::new(EventSet::writable(), Token(1)));
}

#[test]
fn select_after_a_timeout_leaves_an_empty_buffer() {
    let mut selector = selector();
    let mut events = Events::new();
    selector.register(9, Token(1), EventSet::readable(), PollOpt::level(), Ok(())).unwrap();
    selector.select(&mut events, Ok(vec![ready(9, EPOLLIN)])).unwrap();
    assert_eq!(selector.select(&mut events, Ok(Vec::new())), Ok(Wake::Events(0)));
    assert_eq!(events.len(), 0);
    assert!(events.is_empty());
}

#[test]
fn select_interrupted_touches_nothing() {
    let mut selector = selector();
    let mut events = Events::new();
    selector.register(9, Token(1), EventSet::readable(), PollOpt::oneshot(), Ok(())).unwrap();
    selector.select(&mut events, Ok(vec![ready(9, EPOLLIN)])).unwrap();
    assert_eq!(selector.select(&mut events, Err(OsError::new(Cause::Interrupted, 4))), Ok(Wake::Interrupted));
    assert_eq!(events.len(), 1);
    assert_eq!(events.get(0), IoEvent::new(EventSet::readable(), Token(1)));
}

#[test]
fn select_hands_on_any_other_error() {
    let mut selector = selector();
    let mut events = Events::new();
    selector.register(9, Token(1), EventSet::readable(), PollOpt::level(), Ok(())).unwrap();
    selector.select(&mut events, Ok(vec![ready(9, EPOLLIN)])).unwrap();
    assert_eq!(selector.select(&mut events, Err(refused(9))), Err(Error::Syscall(refused(9))));
    assert_eq!(events.len(), 1);
    assert!(selector.is_registered(9));
}

#[test]
fn select_drops_reports_for_unregistered_descriptors() {
    let mut selector = selector();
    let mut events = Events::new();
    selector.register(9, Token(1), EventSet::readable(), PollOpt::level(), Ok(())).unwrap();
    let report = vec![ready(5, EPOLLIN), ready(9, EPOLLIN), ready(-1, EPOLLIN)];
    assert_eq!(selector.select(&mut events, Ok(report)), Ok(Wake::Events(1)));
    assert_eq!(events.get(0).token(), Token(1));
}

#[test]
fn oneshot_fires_once_until_reregistered() {
    let mut selector = selector();
    let mut events = Events::new();
    selector.register(9, Token(1), EventSet::readable(), PollOpt::edge() | PollOpt::oneshot(), Ok(())).unwrap();
    assert_eq!(selector.select(&mut events, Ok(vec![ready(9, EPOLLIN)])), Ok(Wake::Events(1)));
    assert_eq!(selector.registration(9).unwrap().armed, false);
    assert_eq!(selector.select(&mut events, Ok(vec![ready(9, EPOLLIN)])), Ok(Wake::Events(0)));
    assert_eq!(selector.select(&mut events, Ok(vec![ready(9, EPOLLIN)])), Ok(Wake::Events(0)));
    selector.reregister(9, Token(2), EventSet::readable(), PollOpt::edge() | PollOpt::oneshot(), Ok(())).unwrap();
    assert_eq!(selector.registration(9).unwrap().armed, true);
    assert_eq!(selector.select(&mut events, Ok(vec![ready(9, EPOLLIN)])), Ok(Wake::Events(1)));
    assert_eq!(events.get(0), IoEvent::new(EventSet::readable(), Token(2)));
}

#[test]
fn oneshot_fires_once_within_one_report() {
    let mut selector = selector();
    let mut events = Events::new();
    selector.register(9, Token(1), EventSet::all(), PollOpt::oneshot(), Ok(())).unwrap();
    selector.register(4, Token(2), EventSet::all(), PollOpt::level(), Ok(())).unwrap();
    let report = vec![ready(9, EPOLLIN), ready(4, EPOLLIN), ready(9, EPOLLOUT), ready(4, EPOLLOUT)];
    assert_eq!(selector.select(&mut events, Ok(report)), Ok(Wake::Events(3)));
    assert_eq!(events.get(0), IoEvent::new(EventSet::readable(), Token(1)));
    assert_eq!(events.get(1), IoEvent::new(EventSet::readable(), Token(2)));
    assert_eq!(events.get(2), IoEvent::new(EventSet::writable(), Token(2)));
}

#[test]
fn level_registration_fires_in_every_cycle() {
    let mut selector = selector();
    let mut events = Events::new();
    selector.register(9, Token(1), EventSet::readable(), PollOpt::level(), Ok(())).unwrap();
    for _ in 0..4 {
        assert_eq!(selector.select(&mut events, Ok(vec![ready(9, EPOLLIN)])), Ok(Wake::Events(1)));
        assert_eq!(events.get(0), IoEvent::new(EventSet::readable(), Token(1)));
        assert_eq!(selector.registration(9).unwrap().armed, true);
    }
    assert_eq!(selector.select(&mut events, Ok(Vec::new())), Ok(Wake::Events(0)));
}

#[test]
fn deregistered_descriptor_is_silent() {
    let mut selector = selector();
    let mut events = Events::new();
    selector.register(9, Token(1), EventSet::readable(), PollOpt::level(), Ok(())).unwrap();
    selector.deregister(9, Ok(())).unwrap();
    assert_eq!(selector.select(&mut events, Ok(vec![ready(9, EPOLLIN)])), Ok(Wake::Events(0)));
    assert!(events.is_empty());
}

#[test]
fn evented_forwards_under_the_descriptor() {
    let mut selector = selector();
    let io = Descriptor::new(12);
    assert_eq!(io.register(&mut selector, Token(4), EventSet::writable(), PollOpt::edge(), Ok(())), Ok(()));
    assert_eq!(selector.registration(12).unwrap().token, Token(4));
    assert_eq!(
        io.register(&mut selector, Token(4), EventSet::writable(), PollOpt::edge(), Ok(())),
        Err(Error::InvalidRegistration)
    );
    assert_eq!(io.reregister(&mut selector, Token(5), EventSet::readable(), PollOpt::level(), Ok(())), Ok(()));
    assert_eq!(selector.registration(12).unwrap().token, Token(5));
    assert_eq!(io.deregister(&mut selector, Err(refused(1))), Err(Error::Syscall(refused(1))));
    assert_eq!(io.deregister(&mut selector, Ok(())), Ok(()));
    assert_eq!(io.deregister(&mut selector, Ok(())), Err(Error::InvalidRegistration));
    assert_eq!(
        io.reregister(&mut selector, Token(5), EventSet::readable(), PollOpt::level(), Ok(())),
        Err(Error::InvalidRegistration)
    );
}

#[test]
fn plan_select_cuts_the_timeout_to_the_native_width() {
    let selector = selector();
    assert_eq!(selector.plan_select(0), WaitRequest { queue: 3, timeout: 0 });
    assert_eq!(selector.plan_select(250), WaitRequest { queue: 3, timeout: 250 });
    assert_eq!(selector.plan_select(usize::MAX), WaitRequest { queue: 3, timeout: i32::MAX });
}
