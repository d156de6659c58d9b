//! What the two handshakes of the driver amount to, from their first action
//! to their last: which requests they send, in which order, and how these
//! are numbered.

use crate::command::{lemma_tag_counts, Command};
use crate::config::Config;
use crate::it9910hd_driver::{
    begin_start, begin_stop, next, opened, start_script, ActionView, DriverState, EventView, Phase,
};
use crate::usb_wrapper::UsbWrapper;
use crate::wire::le_bytes;
use vstd::prelude::*;

verus! {

/// A request that the driver asked to be sent.
pub struct Request {
    pub command: Command,
    pub frame: Seq<u8>,
}

/// The state of a driver that was in `state` and took `events`, one after
/// the other.
pub open spec fn run(state: DriverState, events: Seq<EventView>) -> DriverState
    decreases events.len(),
{
    if events.len() == 0 {
        state
    } else {
        next(run(state, events.drop_last()), events.last()).0
    }
}

/// The requests that a driver in `state` asked for in answer to `events`,
/// in their order.
pub open spec fn requests(state: DriverState, events: Seq<EventView>) -> Seq<Request>
    decreases events.len(),
{
    if events.len() == 0 {
        Seq::empty()
    } else {
        match next(run(state, events.drop_last()), events.last()).1 {
            ActionView::Exchange { command, frame } => requests(state, events.drop_last()).push(
                Request { command, frame },
            ),
            _ => requests(state, events.drop_last()),
        }
    }
}

/// The number of pauses that a driver in `state` asked for in answer to
/// `events`.
pub open spec fn pauses(state: DriverState, events: Seq<EventView>) -> nat
    decreases events.len(),
{
    if events.len() == 0 {
        0
    } else {
        match next(run(state, events.drop_last()), events.last()).1 {
            ActionView::Sleep => pauses(state, events.drop_last()) + 1,
            _ => pauses(state, events.drop_last()),
        }
    }
}

/// The commands of `requests`.
pub open spec fn commands(requests: Seq<Request>) -> Seq<Command> {
    Seq::new(requests.len(), |i: int| requests[i].command)
}

/// `count` polls of the PC grabber.
pub open spec fn polls(count: nat) -> Seq<Command> {
    Seq::new(count, |i: int| Command::GetPcGrabber)
}

/// Whether request `index` of `requests` is framed as the request that
/// follows `before + index` others.
pub open spec fn numbered(requests: Seq<Request>, before: int, index: int) -> bool {
    requests[index].frame == requests[index].command.frame((before + index) as u32)
}

/// How the counter and the requests go together: every request sent so far
/// was framed with the number of requests written before it, and the
/// counter is that number for the request that comes next.
spec fn numbering(written: int, state: DriverState, sent: Seq<Request>) -> bool {
    &&& forall|index: int|
        0 <= index < sent.len() ==> #[trigger] numbered(sent, written + 1, index)
    &&& state.in_flight() is Some ==> state.counter == written + sent.len()
    &&& state.pausing() || state.phase == Phase::Streaming || state.phase == Phase::Stopped
        ==> state.counter == written + sent.len() + 1
}

/// One event keeps the numbering.
proof fn lemma_numbering_step(
    written: int,
    state: DriverState,
    sent: Seq<Request>,
    event: EventView,
)
    requires
        numbering(written, state, sent),
        0 <= written,
        written + sent.len() + 1 < u32::MAX,
    ensures
        numbering(
            written,
            next(state, event).0,
            match next(state, event).1 {
                ActionView::Exchange { command, frame } => sent.push(Request { command, frame }),
                _ => sent,
            },
        ),
{
    match next(state, event).1 {
        ActionView::Exchange { command, frame } => {
            let longer = sent.push(Request { command, frame });
            assert forall|index: int| 0 <= index < longer.len() implies #[trigger] numbered(
                longer,
                written + 1,
                index,
            ) by {
                if index < sent.len() {
                    assert(numbered(sent, written + 1, index));
                }
            }
        },
        _ => {},
    }
}

/// A run keeps the numbering that it began with.
proof fn lemma_numbering_run(state: DriverState, events: Seq<EventView>)
    requires
        state.in_flight() is Some,
        state.counter + events.len() + 1 < u32::MAX,
    ensures
        numbering(state.counter as int, run(state, events), requests(state, events)),
        requests(state, events).len() <= events.len(),
    decreases events.len(),
{
    if events.len() > 0 {
        lemma_numbering_run(state, events.drop_last());
        lemma_numbering_step(
            state.counter as int,
            run(state, events.drop_last()),
            requests(state, events.drop_last()),
            events.last(),
        );
    }
}

/// Counter monotonicity: while a handshake runs, its requests are numbered
/// one after the other.
///
/// Let a request be under way, framed with the number that the counter
/// shows. Then whatever happens, every request that the driver asks for
/// from there on is framed with the number that follows that of the request
/// before it. Where the handshake comes to its end, the counter has counted
/// them all.
pub proof fn lemma_requests_numbered(state: DriverState, events: Seq<EventView>)
    requires
        state.in_flight() is Some,
        state.counter + events.len() + 1 < u32::MAX,
    ensures
        forall|index: int|
            0 <= index < requests(state, events).len() ==> #[trigger] numbered(
                requests(state, events),
                state.counter + 1,
                index,
            ),
        run(state, events).phase == Phase::Streaming || run(state, events).phase == Phase::Stopped
            ==> run(state, events).counter == state.counter + 1 + requests(state, events).len(),
        requests(state, events).len() <= events.len(),
{
    lemma_numbering_run(state, events);
}

/// Counter monotonicity, from the opening of the session on: the request
/// that the first start-up begins with carries the tag `0x99100000`, and
/// the request that follows `index` others after it carries the tag
/// `0x99100000 + index + 1`. This holds while the counter is below 2^20;
/// from there on it runs into the bits of the prefix.
pub proof fn lemma_tags_count_up(
    usb_device: UsbWrapper,
    config: Config,
    events: Seq<EventView>,
    index: int,
)
    requires
        events.len() + 1 < 0x10_0000,
        0 <= index < requests(begin_start(opened(usb_device), config).0, events).len(),
    ensures
        begin_start(opened(usb_device), config).1 matches ActionView::Exchange { frame, .. }
            && frame.subrange(12, 16) == le_bytes(0x9910_0000),
        requests(begin_start(opened(usb_device), config).0, events)[index].frame.subrange(12, 16)
            == le_bytes((0x9910_0000 + index + 1) as u32),
{
    let begun = begin_start(opened(usb_device), config).0;
    lemma_requests_numbered(begun, events);
    assert(numbered(requests(begun, events), begun.counter + 1, index));
    lemma_tag_counts(Command::SetPcGrabber { start: 1 }, 0);
    lemma_tag_counts(requests(begun, events)[index].command, (index + 1) as u32);
}

/// How far start-up has come: what was sent after the first request, given
/// the phase.
spec fn start_progress(config: Config, state: DriverState, sent: Seq<Command>, naps: nat) -> bool {
    let script = start_script(config, state.device_model);
    &&& state.config == config
    &&& match state.phase {
        Phase::Enabling => sent == Seq::<Command>::empty() && naps == 0,
        Phase::AwaitingReady => sent == polls(naps + 1),
        Phase::ReadyPause => sent == polls(naps) && naps >= 1,
        Phase::Identifying => sent == polls(naps + 1) + seq![Command::GetHwGrabber],
        Phase::Configuring { index } => {
            &&& index < script.len()
            &&& sent == polls(naps + 1) + seq![Command::GetHwGrabber] + script.take(index + 1)
        },
        Phase::Streaming => sent == polls(naps + 1) + seq![Command::GetHwGrabber] + script,
        Phase::Failed => true,
        _ => false,
    }
}

/// One event keeps start-up on its course.
proof fn lemma_start_step(
    config: Config,
    state: DriverState,
    sent: Seq<Command>,
    naps: nat,
    event: EventView,
)
    requires
        start_progress(config, state, sent, naps),
    ensures
        start_progress(
            config,
            next(state, event).0,
            match next(state, event).1 {
                ActionView::Exchange { command, .. } => sent.push(command),
                _ => sent,
            },
            match next(state, event).1 {
                ActionView::Sleep => naps + 1,
                _ => naps,
            },
        ),
{
    let after = next(state, event).0;
    let script = start_script(config, state.device_model);
    match next(state, event).1 {
        ActionView::Exchange { command, .. } => {
            match after.phase {
                Phase::AwaitingReady => {
                    if state.phase == Phase::ReadyPause {
                        assert(polls(naps).push(Command::GetPcGrabber) =~= polls(naps + 1));
                    } else {
                        assert(Seq::<Command>::empty().push(Command::GetPcGrabber) =~= polls(1));
                    }
                },
                Phase::Identifying => {
                    assert(polls(naps + 1).push(Command::GetHwGrabber) =~= polls(naps + 1)
                        + seq![Command::GetHwGrabber]);
                },
                Phase::Configuring { index } => {
                    let new_script = start_script(config, after.device_model);
                    assert((polls(naps + 1) + seq![Command::GetHwGrabber] + new_script.take(
                        index as int,
                    )).push(new_script[index as int]) =~= polls(naps + 1)
                        + seq![Command::GetHwGrabber] + new_script.take(index + 1));
                },
                _ => {},
            }
        },
        ActionView::Done => {
            match state.phase {
                Phase::Configuring { index } => {
                    assert(script.take(index + 1) =~= script);
                },
                _ => {},
            }
        },
        _ => {},
    }
}

/// The commands of the requests of a run, one event after the other.
proof fn lemma_commands_step(state: DriverState, events: Seq<EventView>)
    requires
        events.len() > 0,
    ensures
        commands(requests(state, events)) == match next(
            run(state, events.drop_last()),
            events.last(),
        ).1 {
            ActionView::Exchange { command, .. } => commands(
                requests(state, events.drop_last()),
            ).push(command),
            _ => commands(requests(state, events.drop_last())),
        },
{
}

/// Start-up stays on its course from its first action on.
proof fn lemma_start_run(state: DriverState, config: Config, events: Seq<EventView>)
    ensures
        start_progress(
            config,
            run(begin_start(state, config).0, events),
            commands(requests(begin_start(state, config).0, events)),
            pauses(begin_start(state, config).0, events),
        ),
    decreases events.len(),
{
    let begun = begin_start(state, config).0;
    if events.len() == 0 {
        assert(commands(Seq::<Request>::empty()) =~= Seq::<Command>::empty());
    } else {
        lemma_start_run(state, config, events.drop_last());
        lemma_commands_step(begun, events);
        lemma_start_step(
            config,
            run(begun, events.drop_last()),
            commands(requests(begun, events.drop_last())),
            pauses(begun, events.drop_last()),
            events.last(),
        );
    }
}

/// Start-up from its first action to its last.
///
/// Start-up begins by switching the PC grabber on. Where it then comes to
/// its end, the requests that followed were, in this order: the polls of
/// the PC grabber, one more than there were pauses; the identification of
/// the hardware; and the configuration script for the model that the
/// identification gave.
pub proof fn lemma_start_sequence(state: DriverState, config: Config, events: Seq<EventView>)
    requires
        run(begin_start(state, config).0, events).phase == Phase::Streaming,
    ensures
        begin_start(state, config).1 == (ActionView::Exchange {
            command: Command::SetPcGrabber { start: 1 },
            frame: (Command::SetPcGrabber { start: 1 }).frame(state.counter),
        }),
        commands(requests(begin_start(state, config).0, events)) == polls(
            pauses(begin_start(state, config).0, events) + 1,
        ) + seq![Command::GetHwGrabber] + start_script(
            config,
            run(begin_start(state, config).0, events).device_model,
        ),
{
    lemma_start_run(state, config, events);
}

/// How far shut-down has come: what was sent after the first request, given
/// the phase.
spec fn stop_progress(state: DriverState, sent: Seq<Command>, naps: nat) -> bool {
    let off = seq![Command::SetPcGrabber { start: 0 }];
    match state.phase {
        Phase::Halting => sent == Seq::<Command>::empty() && naps == 0,
        Phase::Disabling => sent == off && naps == 0,
        Phase::AwaitingIdle => sent == off + polls(naps + 1),
        Phase::IdlePause => sent == off + polls(naps) && naps >= 1,
        Phase::Stopped => sent == off + polls(naps + 1),
        Phase::Failed => true,
        _ => false,
    }
}

/// One event keeps shut-down on its course.
proof fn lemma_stop_step(state: DriverState, sent: Seq<Command>, naps: nat, event: EventView)
    requires
        stop_progress(state, sent, naps),
    ensures
        stop_progress(
            next(state, event).0,
            match next(state, event).1 {
                ActionView::Exchange { command, .. } => sent.push(command),
                _ => sent,
            },
            match next(state, event).1 {
                ActionView::Sleep => naps + 1,
                _ => naps,
            },
        ),
{
    let after = next(state, event).0;
    let off = seq![Command::SetPcGrabber { start: 0 }];
    match next(state, event).1 {
        ActionView::Exchange { command, .. } => {
            match after.phase {
                Phase::AwaitingIdle => {
                    if state.phase == Phase::IdlePause {
                        assert((off + polls(naps)).push(Command::GetPcGrabber) =~= off + polls(
                            naps + 1,
                        ));
                    } else {
                        assert(off.push(Command::GetPcGrabber) =~= off + polls(1));
                    }
                },
                _ => {},
            }
        },
        _ => {},
    }
}

/// Shut-down stays on its course from its first action on.
proof fn lemma_stop_run(state: DriverState, events: Seq<EventView>)
    ensures
        stop_progress(
            run(begin_stop(state).0, events),
            commands(requests(begin_stop(state).0, events)),
            pauses(begin_stop(state).0, events),
        ),
    decreases events.len(),
{
    let begun = begin_stop(state).0;
    if events.len() == 0 {
        assert(commands(Seq::<Request>::empty()) =~= Seq::<Command>::empty());
    } else {
        lemma_stop_run(state, events.drop_last());
        lemma_commands_step(begun, events);
        lemma_stop_step(
            run(begun, events.drop_last()),
            commands(requests(begun, events.drop_last())),
            pauses(begun, events.drop_last()),
            events.last(),
        );
    }
}

/// Shut-down from its first action to its last.
///
/// Shut-down begins by sending the device to its idle state. Where it then
/// comes to its end, the requests that followed were, in this order: the
/// one that switches the PC grabber off, and the polls of the PC grabber,
/// one more than there were pauses.
pub proof fn lemma_stop_sequence(state: DriverState, events: Seq<EventView>)
    requires
        run(begin_stop(state).0, events).phase == Phase::Stopped,
    ensures
        begin_stop(state).1 == (ActionView::Exchange {
            command: Command::SetState { state: 0 },
            frame: (Command::SetState { state: 0 }).frame(state.counter),
        }),
        commands(requests(begin_stop(state).0, events)) == seq![
            Command::SetPcGrabber { start: 0 },
        ] + polls(pauses(begin_stop(state).0, events) + 1),
{
    lemma_stop_run(state, events);
}

/// Shut-down is over when the driver says so: where the last of `events`
/// was answered with `Done`, the driver has stopped.
pub proof fn lemma_stop_done(state: DriverState, events: Seq<EventView>)
    requires
        events.len() > 0,
        next(run(begin_stop(state).0, events.drop_last()), events.last()).1 == ActionView::Done,
    ensures
        run(begin_stop(state).0, events).phase == Phase::Stopped,
{
    lemma_stop_run(state, events.drop_last());
}

/// Start-up is over when the driver says so: where the last of `events`
/// was answered with `Done`, the device streams.
pub proof fn lemma_start_done(state: DriverState, config: Config, events: Seq<EventView>)
    requires
        events.len() > 0,
        next(run(begin_start(state, config).0, events.drop_last()), events.last()).1
            == ActionView::Done,
    ensures
        run(begin_start(state, config).0, events).phase == Phase::Streaming,
{
    lemma_start_run(state, config, events.drop_last());
}

} // verus!
