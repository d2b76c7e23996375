//! What holds of the selector whatever the operating system reports.
//!
//! The laws are stated over the tables and reports that the contracts of
//! `Selector` and `Poll` speak of, so that each of them applies to any run of
//! calls to those.

use vstd::prelude::*;
use crate::error::{Error, OsError};
use crate::event::{EventKind, EventSet, IoEvent};
use crate::native::{from_native_spec, native_has, EPOLLIN, EPOLLPRI};
use crate::poll_opt::{PollMode, PollOpt};
use crate::selector::{change_result, deregister_table, dispatch_events, dispatch_table, fires, fresh, notice, register_result, register_table, reregister_table, settle, valid_table};
use crate::selector::{NativeEvent, Registration};
use crate::token::Token;

verus! {

/// What entry `i` of a report leads to: the notification that it fires in the
/// table as the entries before it left it, or nothing.
pub open spec fn delivered(table: Map<i32, Registration>, report: Seq<NativeEvent>, i: int) -> Option<IoEvent> {
    let before = dispatch_table(table, report.take(i));
    if fires(before, report[i]) {
        Some(notice(before, report[i]))
    } else {
        None
    }
}

/// Whether entry `i` of a report is about descriptor `fd`.
pub open spec fn reports(report: Seq<NativeEvent>, i: int, fd: i32) -> bool {
    0 <= i < report.len() && report[i].descriptor == fd
}

/// A report never adds or removes a registration, and never touches a token,
/// an interest or the modes. All it can do is disarm: a registration that is
/// disarmed stays so, one that is not one-shot is not touched at all, and
/// neither is one that the report does not mention.
pub proof fn lemma_report_only_disarms(table: Map<i32, Registration>, report: Seq<NativeEvent>, fd: i32)
    ensures
        dispatch_table(table, report).dom() == table.dom(),
        table.contains_key(fd) ==> {
            let before = table[fd];
            let after = dispatch_table(table, report)[fd];
            &&& after.token == before.token
            &&& after.interest == before.interest
            &&& after.opts == before.opts
            &&& after.armed ==> before.armed
            &&& !before.armed ==> after == before
            &&& !before.opts@.contains(PollMode::Oneshot) ==> after == before
            &&& (forall|i: int| !reports(report, i, fd)) ==> after == before
        },
    decreases report.len(),
{
    if report.len() > 0 {
        let head = report.drop_last();
        let mid = dispatch_table(table, head);
        lemma_report_only_disarms(table, head, fd);
        lemma_report_only_disarms(table, head, report.last().descriptor);
        assert(settle(mid, report.last()).dom() =~= mid.dom());
        if table.contains_key(fd) && (forall|i: int| !reports(report, i, fd)) {
            assert forall|i: int| !reports(head, i, fd) by {
                assert(!reports(report, i, fd));
            }
            assert(!reports(report, report.len() - 1, fd));
        }
    }
}

/// The buffer after a part of the report is a prefix of the buffer after all
/// of it: later entries only append.
pub proof fn lemma_buffer_grows(table: Map<i32, Registration>, report: Seq<NativeEvent>, i: int)
    requires
        0 <= i <= report.len(),
    ensures
        dispatch_events(table, report.take(i)).is_prefix_of(dispatch_events(table, report)),
    decreases report.len() - i,
{
    if i == report.len() {
        assert(report.take(i) =~= report);
    } else {
        lemma_buffer_grows(table, report, i + 1);
        assert(report.take(i + 1).drop_last() =~= report.take(i));
    }
}

/// Every entry that fires is in the buffer, with the notification that
/// `delivered` gives for it.
pub proof fn lemma_delivered_is_in_buffer(table: Map<i32, Registration>, report: Seq<NativeEvent>, i: int)
    requires
        0 <= i < report.len(),
        delivered(table, report, i) is Some,
    ensures
        dispatch_events(table, report).contains(delivered(table, report, i)->Some_0),
{
    let part = report.take(i + 1);
    assert(part.drop_last() =~= report.take(i));
    assert(part.last() == report[i]);
    let earlier = dispatch_events(table, report.take(i));
    assert(dispatch_events(table, part) == earlier.push(delivered(table, report, i)->Some_0));
    lemma_buffer_grows(table, report, i + 1);
    let whole = dispatch_events(table, report);
    assert(whole[earlier.len() as int] == dispatch_events(table, part)[earlier.len() as int]);
}

/// Every notification in the buffer was fired by an entry of the report: the
/// buffer holds nothing for a descriptor that the report does not mention,
/// and nothing for a descriptor that is not registered.
pub proof fn lemma_buffer_holds_only_delivered(table: Map<i32, Registration>, report: Seq<NativeEvent>, k: int)
    requires
        0 <= k < dispatch_events(table, report).len(),
    ensures
        exists|i: int|
            0 <= i < report.len() && #[trigger] delivered(table, report, i) == Some(
                dispatch_events(table, report)[k],
            ) && table.contains_key(report[i].descriptor),
    decreases report.len(),
{
    let head = report.drop_last();
    let last = report.len() - 1;
    assert(report.take(last) =~= head);
    if k < dispatch_events(table, head).len() {
        lemma_buffer_holds_only_delivered(table, head, k);
        let i = choose|i: int|
            0 <= i < head.len() && #[trigger] delivered(table, head, i) == Some(dispatch_events(table, head)[k])
                && table.contains_key(head[i].descriptor);
        assert(head.take(i) =~= report.take(i));
        assert(delivered(table, report, i) == Some(dispatch_events(table, report)[k]));
    } else {
        lemma_report_only_disarms(table, head, report[last].descriptor);
        assert(delivered(table, report, last) == Some(dispatch_events(table, report)[k]));
    }
}

/// The buffer is never longer than the report.
pub proof fn lemma_buffer_is_bounded(table: Map<i32, Registration>, report: Seq<NativeEvent>)
    ensures
        dispatch_events(table, report).len() <= report.len(),
    decreases report.len(),
{
    if report.len() > 0 {
        lemma_buffer_is_bounded(table, report.drop_last());
    }
}

/// Where every entry of a report fires, the buffer holds as many notifications
/// as the report has entries.
pub proof fn lemma_buffer_is_full_when_all_fire(table: Map<i32, Registration>, report: Seq<NativeEvent>)
    requires
        forall|i: int| 0 <= i < report.len() ==> #[trigger] delivered(table, report, i) is Some,
    ensures
        dispatch_events(table, report).len() == report.len(),
    decreases report.len(),
{
    if report.len() > 0 {
        let head = report.drop_last();
        let last = report.len() - 1;
        assert forall|i: int| 0 <= i < head.len() implies #[trigger] delivered(table, head, i) is Some by {
            assert(head.take(i) =~= report.take(i));
            assert(delivered(table, report, i) is Some);
        }
        lemma_buffer_is_full_when_all_fire(table, head);
        assert(report.take(last) =~= head);
        assert(delivered(table, report, last) is Some);
    }
}

/// A descriptor is registered under a token; the queue then reports that it
/// has input. The next buffer holds a notification with that token and with
/// `Readable` set. For a one-shot registration this is said of the first entry
/// that the report has for the descriptor: that entry uses the registration
/// up, and the entries after it bring nothing.
pub proof fn lemma_registered_input_is_reported(
    table: Map<i32, Registration>,
    fd: i32,
    token: Token,
    interest: EventSet,
    opts: PollOpt,
    report: Seq<NativeEvent>,
    i: int,
)
    requires
        !table.contains_key(fd),
        reports(report, i, fd),
        native_has(report[i].word, EPOLLIN) || native_has(report[i].word, EPOLLPRI),
        opts@.contains(PollMode::Oneshot) ==> forall|j: int| 0 <= j < i ==> !reports(report, j, fd),
    ensures
        register_result(table, fd, Ok(())) is Ok,
        ({
            let registered = register_table(table, fd, token, interest, opts, Ok(()));
            let buffer = dispatch_events(registered, report);
            exists|k: int|
                0 <= k < buffer.len() && (#[trigger] buffer[k]).token == token && buffer[k].kind@.contains(
                    EventKind::Readable,
                )
        }),
{
    let registered = register_table(table, fd, token, interest, opts, Ok(()));
    let head = report.take(i);
    if opts@.contains(PollMode::Oneshot) {
        assert forall|j: int| !reports(head, j, fd) by {
            if 0 <= j < i {
                assert(!reports(report, j, fd));
            }
        }
    }
    lemma_report_only_disarms(registered, head, fd);
    let event = delivered(registered, report, i)->Some_0;
    EventSet::lemma_of_members(from_native_spec(report[i].word));
    lemma_delivered_is_in_buffer(registered, report, i);
    let buffer = dispatch_events(registered, report);
    let k = choose|k: int| 0 <= k < buffer.len() && buffer[k] == event;
    assert(buffer[k].token == token);
}

/// A one-shot registration fires for an entry of a report. Then it is
/// disarmed, and stays silent whatever the queue reports next: no entry of a
/// later report fires for it, and the later report leaves it disarmed, so
/// that the same holds of every report after that. Only registering it anew
/// arms it again.
pub proof fn lemma_oneshot_is_silent_until_rearmed(
    table: Map<i32, Registration>,
    fd: i32,
    report: Seq<NativeEvent>,
    i: int,
    later: Seq<NativeEvent>,
    j: int,
    token: Token,
    interest: EventSet,
    opts: PollOpt,
)
    requires
        table.contains_key(fd),
        table[fd].opts@.contains(PollMode::Oneshot),
        reports(report, i, fd),
        delivered(table, report, i) is Some,
        reports(later, j, fd),
    ensures
        ({
            let disarmed = dispatch_table(table, report);
            &&& disarmed.contains_key(fd)
            &&& !disarmed[fd].armed
            &&& delivered(disarmed, later, j) is None
            &&& dispatch_table(disarmed, later).contains_key(fd)
            &&& dispatch_table(disarmed, later)[fd] == disarmed[fd]
            &&& change_result(disarmed, fd, Ok(())) is Ok
            &&& reregister_table(disarmed, fd, token, interest, opts, Ok(()))[fd] == fresh(token, interest, opts)
            &&& fires(reregister_table(disarmed, fd, token, interest, opts, Ok(())), later[j])
        }),
{
    let part = report.take(i + 1);
    assert(part.drop_last() =~= report.take(i));
    assert(part.last() == report[i]);
    lemma_report_only_disarms(table, report.take(i), fd);
    assert(!dispatch_table(table, part)[fd].armed);
    lemma_disarmed_through(table, report, i + 1, fd);
    let disarmed = dispatch_table(table, report);
    lemma_report_only_disarms(table, report, fd);
    lemma_report_only_disarms(disarmed, later.take(j), fd);
    lemma_report_only_disarms(disarmed, later, fd);
}

/// A registration that is disarmed after a part of a report is disarmed after
/// all of it.
proof fn lemma_disarmed_through(table: Map<i32, Registration>, report: Seq<NativeEvent>, i: int, fd: i32)
    requires
        0 <= i <= report.len(),
        table.contains_key(fd),
        !dispatch_table(table, report.take(i))[fd].armed,
    ensures
        !dispatch_table(table, report)[fd].armed,
    decreases report.len() - i,
{
    if i == report.len() {
        assert(report.take(i) =~= report);
    } else {
        let part = report.take(i + 1);
        assert(part.drop_last() =~= report.take(i));
        lemma_report_only_disarms(table, report.take(i), fd);
        lemma_disarmed_through(table, report, i + 1, fd);
    }
}

/// The empty table is valid, and no call and no report leads from a valid
/// table to one that is not: whatever was done to a selector since it was
/// made, only one-shot registrations are disarmed in it. The contracts of
/// `Selector` and `Poll` say the same of the table that each call leaves.
pub proof fn lemma_table_stays_valid(
    table: Map<i32, Registration>,
    fd: i32,
    token: Token,
    interest: EventSet,
    opts: PollOpt,
    outcome: Result<(), OsError>,
    report: Seq<NativeEvent>,
)
    requires
        valid_table(table),
    ensures
        valid_table(Map::<i32, Registration>::empty()),
        valid_table(register_table(table, fd, token, interest, opts, outcome)),
        valid_table(reregister_table(table, fd, token, interest, opts, outcome)),
        valid_table(deregister_table(table, fd, outcome)),
        valid_table(dispatch_table(table, report)),
{
    let after = dispatch_table(table, report);
    assert forall|other: i32| #[trigger] after.contains_key(other) && !after[other].armed implies after[other].opts@.contains(
        PollMode::Oneshot,
    ) by {
        lemma_report_only_disarms(table, report, other);
    }
}

/// A registration that is not one-shot, level-triggered or not, fires for
/// every entry that the queue reports for it, under its own token and with
/// the readiness of the entry's word; and the report leaves it as it was, so
/// that the same holds in every cycle for as long as the queue goes on
/// reporting it. A report that does not mention it brings no notification for
/// it: see `lemma_buffer_holds_only_delivered`. That the table is valid is
/// what `Poll::selector`, and every call that changes the table, ensures.
pub proof fn lemma_persistent_registration_keeps_firing(
    table: Map<i32, Registration>,
    fd: i32,
    report: Seq<NativeEvent>,
    i: int,
)
    requires
        valid_table(table),
        table.contains_key(fd),
        !table[fd].opts@.contains(PollMode::Oneshot),
        reports(report, i, fd),
    ensures
        delivered(table, report, i) == Some(
            IoEvent { kind: EventSet::of(from_native_spec(report[i].word)), token: table[fd].token },
        ),
        dispatch_events(table, report).contains(
            IoEvent { kind: EventSet::of(from_native_spec(report[i].word)), token: table[fd].token },
        ),
        dispatch_table(table, report).contains_key(fd),
        dispatch_table(table, report)[fd] == table[fd],
{
    lemma_report_only_disarms(table, report.take(i), fd);
    lemma_report_only_disarms(table, report, fd);
    lemma_delivered_is_in_buffer(table, report, i);
}

/// Once a descriptor is taken out, no report fires for it, whatever the queue
/// says of it; it stays out; and changing or removing its registration again
/// is refused as invalid, whatever the queue answered.
pub proof fn lemma_deregistered_is_silent(
    table: Map<i32, Registration>,
    fd: i32,
    report: Seq<NativeEvent>,
    i: int,
    outcome: Result<(), OsError>,
)
    requires
        table.contains_key(fd),
        reports(report, i, fd),
    ensures
        change_result(table, fd, Ok(())) is Ok,
        ({
            let removed = deregister_table(table, fd, Ok(()));
            &&& !removed.contains_key(fd)
            &&& delivered(removed, report, i) is None
            &&& !dispatch_table(removed, report).contains_key(fd)
            &&& change_result(removed, fd, outcome) == Err::<(), Error>(Error::InvalidRegistration)
            &&& change_result(dispatch_table(removed, report), fd, outcome) == Err::<(), Error>(
                Error::InvalidRegistration,
            )
        }),
{
    let removed = deregister_table(table, fd, Ok(()));
    lemma_report_only_disarms(removed, report.take(i), fd);
    lemma_report_only_disarms(removed, report, fd);
    assert(!removed.dom().contains(fd));
}

/// A failed registration, change or removal leaves the table as it was.
pub proof fn lemma_failure_changes_nothing(
    table: Map<i32, Registration>,
    fd: i32,
    token: Token,
    interest: EventSet,
    opts: PollOpt,
    outcome: Result<(), OsError>,
)
    ensures
        register_result(table, fd, outcome) is Err ==> register_table(table, fd, token, interest, opts, outcome)
            == table,
        change_result(table, fd, outcome) is Err ==> reregister_table(table, fd, token, interest, opts, outcome)
            == table && deregister_table(table, fd, outcome) == table,
        register_result(table, fd, outcome) is Ok <==> !table.contains_key(fd) && outcome is Ok,
        change_result(table, fd, outcome) is Ok <==> table.contains_key(fd) && outcome is Ok,
{
}

/// A report with no entry, which is what a timeout gives, leaves an empty
/// buffer and the table as it was.
pub proof fn lemma_timeout_leaves_empty_buffer(table: Map<i32, Registration>)
    ensures
        dispatch_events(table, Seq::<NativeEvent>::empty()).len() == 0,
        dispatch_table(table, Seq::<NativeEvent>::empty()) == table,
{
}

} // verus!
