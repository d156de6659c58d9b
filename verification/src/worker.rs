//! The streaming worker: it starts the device, moves the stream from the
//! data endpoint to the packet queue, and shuts the device down when it is
//! told to or when nobody listens any more.
//!
//! Like the driver it contains, the worker does nothing itself: it gives a
//! [`Task`] and takes a [`Report`]. The transition is [`work`].

use crate::command::{Command, DriverError};
use crate::config::Config;
use crate::handshake::{
    commands, lemma_start_done, lemma_start_sequence, lemma_stop_done, lemma_stop_sequence,
    pauses, polls, requests, run, Request,
};
use crate::it9910hd_driver::{
    begin_start, begin_stop, next, opened, start_script, Action, ActionView, DriverState, Event,
    EventView, IT9910Driver,
};
use crate::usb_wrapper::UsbWrapper;
use vstd::prelude::*;

verus! {

/// Bytes that one read of the data endpoint asks for. A read that brings
/// fewer is a pause in the stream.
pub const CHUNK_SIZE: usize = 16384;

/// Packets that the queue between the worker and the filesystem holds
/// before the worker has to wait.
pub const QUEUE_CAPACITY: usize = 64;

/// Milliseconds that a read of the data endpoint may take.
pub const DATA_TIMEOUT_MS: u64 = 10000;

/// Why the worker ended without having shut the device down cleanly.
#[derive(Clone, Copy, Debug, PartialEq, Eq, Structural)]
pub enum WorkerError {
    /// Start-up was given up.
    Start(DriverError),
    /// The data endpoint could not be read. Shut-down was attempted.
    Read,
    /// Shut-down was given up.
    Stop(DriverError),
    /// The host reported what answers nothing that it was asked for.
    Unexpected,
}

/// What the worker is busy with.
#[derive(Clone, Copy, Debug, PartialEq, Eq, Structural)]
pub enum WorkerPhase {
    /// Nothing yet.
    Idle,
    /// The start-up handshake.
    Starting,
    /// A read of the data endpoint.
    Reading,
    /// Handing a packet to the queue. `short` if the packet has fewer than
    /// [`CHUNK_SIZE`] bytes.
    Publishing { short: bool },
    /// A look at the termination channel.
    Checking,
    /// The shut-down handshake. `after_failure` if it follows a read that
    /// failed.
    Stopping { after_failure: bool },
    /// Nothing any more.
    Ended,
}

/// What the host is to do next.
#[derive(Debug, PartialEq, Eq)]
pub enum Task {
    /// Write `frame`, which carries `command`, to the command endpoint;
    /// then read the response, of up to 512 bytes.
    Exchange { command: Command, frame: Vec<u8> },
    /// Let the poll interval pass.
    Sleep,
    /// Read up to [`CHUNK_SIZE`] bytes from the data endpoint.
    ReadChunk,
    /// Send this packet on the queue, waiting while the queue is full.
    Publish(Vec<u8>),
    /// Look, without waiting, whether termination was asked for.
    CheckTermination,
    /// Signal that the worker has ended, and end.
    Finish,
    /// End with this error, without a signal.
    Abort(WorkerError),
}

/// How what the host was asked to do went.
#[derive(Debug, PartialEq, Eq)]
pub enum Report {
    /// How an `Exchange` or a `Sleep` went.
    Driver(Event),
    /// The data endpoint gave these bytes.
    Chunk(Vec<u8>),
    /// The data endpoint could not be read.
    ChunkFailed,
    /// The packet is in the queue.
    Published,
    /// The packet was not taken: nobody reads the queue any more.
    QueueClosed,
    /// Whether termination was asked for.
    Termination(bool),
}

/// A [`Task`] as the contracts see it.
pub enum TaskView {
    Exchange { command: Command, frame: Seq<u8> },
    Sleep,
    ReadChunk,
    Publish(Seq<u8>),
    CheckTermination,
    Finish,
    Abort(WorkerError),
}

/// A [`Report`] as the contracts see it.
pub enum ReportView {
    Driver(EventView),
    Chunk(Seq<u8>),
    ChunkFailed,
    Published,
    QueueClosed,
    Termination(bool),
}

impl View for Task {
    type V = TaskView;

    open spec fn view(&self) -> TaskView {
        match *self {
            Task::Exchange { command, frame } => TaskView::Exchange { command, frame: frame@ },
            Task::Sleep => TaskView::Sleep,
            Task::ReadChunk => TaskView::ReadChunk,
            Task::Publish(packet) => TaskView::Publish(packet@),
            Task::CheckTermination => TaskView::CheckTermination,
            Task::Finish => TaskView::Finish,
            Task::Abort(error) => TaskView::Abort(error),
        }
    }
}

impl View for Report {
    type V = ReportView;

    open spec fn view(&self) -> ReportView {
        match *self {
            Report::Driver(event) => ReportView::Driver(event@),
            Report::Chunk(bytes) => ReportView::Chunk(bytes@),
            Report::ChunkFailed => ReportView::ChunkFailed,
            Report::Published => ReportView::Published,
            Report::QueueClosed => ReportView::QueueClosed,
            Report::Termination(asked) => ReportView::Termination(asked),
        }
    }
}

/// The worker as the contracts see it.
pub struct WorkerState {
    pub driver: DriverState,
    pub phase: WorkerPhase,
    pub config: Config,
}

/// The producer of the stream: a driver, and what it is being used for.
pub struct Worker {
    driver: IT9910Driver,
    phase: WorkerPhase,
    config: Config,
}

impl WorkerState {
    /// The worker after its driver has moved to `moved.0` and asked for
    /// `moved.1`, in the course of the handshake that the worker is busy
    /// with.
    ///
    /// What the driver asks to be sent or waited for is passed on. When
    /// start-up is complete, the first read of the data endpoint follows.
    /// When shut-down is complete, the worker ends: with the signal, unless
    /// shut-down followed a read that failed. When a handshake is given
    /// up, the worker ends with the error of the handshake; after a read
    /// that failed, with that of the read.
    pub open spec fn follow(self, moved: (DriverState, ActionView)) -> (WorkerState, TaskView) {
        let state = WorkerState { driver: moved.0, ..self };
        let ended = WorkerState { phase: WorkerPhase::Ended, ..state };
        match moved.1 {
            ActionView::Exchange { command, frame } => (
                state,
                TaskView::Exchange { command, frame },
            ),
            ActionView::Sleep => (state, TaskView::Sleep),
            ActionView::Done => match self.phase {
                WorkerPhase::Starting => state.read_on(),
                WorkerPhase::Stopping { after_failure } => if after_failure {
                    (ended, TaskView::Abort(WorkerError::Read))
                } else {
                    (ended, TaskView::Finish)
                },
                _ => state.confused(),
            },
            ActionView::Failed(error) => match self.phase {
                WorkerPhase::Starting => (ended, TaskView::Abort(WorkerError::Start(error))),
                WorkerPhase::Stopping { after_failure } => if after_failure {
                    (ended, TaskView::Abort(WorkerError::Read))
                } else {
                    (ended, TaskView::Abort(WorkerError::Stop(error)))
                },
                _ => state.confused(),
            },
        }
    }

    /// The worker at the beginning of shut-down.
    pub open spec fn shut_down(self, after_failure: bool) -> (WorkerState, TaskView) {
        (WorkerState { phase: WorkerPhase::Stopping { after_failure }, ..self }).follow(
            begin_stop(self.driver),
        )
    }

    /// The worker at the beginning of a read of the data endpoint.
    pub open spec fn read_on(self) -> (WorkerState, TaskView) {
        (WorkerState { phase: WorkerPhase::Reading, ..self }, TaskView::ReadChunk)
    }

    /// The worker given up on a report that answers nothing.
    pub open spec fn confused(self) -> (WorkerState, TaskView) {
        (
            WorkerState { phase: WorkerPhase::Ended, ..self },
            TaskView::Abort(WorkerError::Unexpected),
        )
    }
}

/// The worker at the beginning of its run: start-up is under way.
pub open spec fn begin_work(state: WorkerState) -> (WorkerState, TaskView) {
    (WorkerState { phase: WorkerPhase::Starting, ..state }).follow(
        begin_start(state.driver, state.config),
    )
}

/// The transition of the worker: the state after `report`, and what is to
/// be done next.
///
/// Once the device streams, every chunk read is handed to the queue as it
/// came. After a chunk of fewer than [`CHUNK_SIZE`] bytes the termination
/// channel is looked at; after a full one the next read follows at once.
/// Shut-down begins when termination was asked for, when the queue is
/// closed, and when a read failed. The worker ends on a report that answers
/// nothing that it asked for.
pub open spec fn work(state: WorkerState, report: ReportView) -> (WorkerState, TaskView) {
    match (state.phase, report) {
        (WorkerPhase::Starting, ReportView::Driver(event)) => state.follow(
            next(state.driver, event),
        ),
        (WorkerPhase::Stopping { .. }, ReportView::Driver(event)) => state.follow(
            next(state.driver, event),
        ),
        (WorkerPhase::Reading, ReportView::Chunk(bytes)) => (
            WorkerState {
                phase: WorkerPhase::Publishing { short: bytes.len() < CHUNK_SIZE },
                ..state
            },
            TaskView::Publish(bytes),
        ),
        (WorkerPhase::Reading, ReportView::ChunkFailed) => state.shut_down(true),
        (WorkerPhase::Publishing { short }, ReportView::Published) => if short {
            (WorkerState { phase: WorkerPhase::Checking, ..state }, TaskView::CheckTermination)
        } else {
            state.read_on()
        },
        (WorkerPhase::Publishing { .. }, ReportView::QueueClosed) => state.shut_down(false),
        (WorkerPhase::Checking, ReportView::Termination(asked)) => if asked {
            state.shut_down(false)
        } else {
            state.read_on()
        },
        _ => state.confused(),
    }
}

impl View for Worker {
    type V = WorkerState;

    closed spec fn view(&self) -> WorkerState {
        WorkerState { driver: self.driver@, phase: self.phase, config: self.config }
    }
}

impl Worker {
    /// A worker on the session `usb_device`, which is to run the device
    /// with these settings.
    pub fn new(usb_device: UsbWrapper, config: Config) -> (worker: Self)
        ensures
            worker@ == (WorkerState {
                driver: opened(usb_device),
                phase: WorkerPhase::Idle,
                config,
            }),
    {
        Worker { driver: IT9910Driver::open(usb_device), phase: WorkerPhase::Idle, config }
    }

    /// Begins the run, whatever went on before: start-up is under way.
    pub fn begin(&mut self) -> (task: Task)
        ensures
            (final(self)@, task@) == begin_work(old(self)@),
    {
        self.phase = WorkerPhase::Starting;
        let action = self.driver.start(
            self.config.width,
            self.config.height,
            self.config.fps,
            self.config.bitrate,
            self.config.audio_src,
            self.config.video_src,
            self.config.brightness,
            self.config.contrast,
            self.config.hue,
            self.config.saturation,
        );
        self.follow(action)
    }

    /// Takes in how the last task went, and says what is to be done next.
    pub fn step(&mut self, report: Report) -> (task: Task)
        ensures
            (final(self)@, task@) == work(old(self)@, report@),
    {
        match self.phase {
            WorkerPhase::Starting | WorkerPhase::Stopping { .. } => match report {
                Report::Driver(event) => {
                    let action = self.driver.step(event);
                    self.follow(action)
                },
                _ => self.confused(),
            },
            WorkerPhase::Reading => match report {
                Report::Chunk(bytes) => {
                    self.phase = WorkerPhase::Publishing { short: bytes.len() < CHUNK_SIZE };
                    Task::Publish(bytes)
                },
                Report::ChunkFailed => self.shut_down(true),
                _ => self.confused(),
            },
            WorkerPhase::Publishing { short } => match report {
                Report::Published => if short {
                    self.phase = WorkerPhase::Checking;
                    Task::CheckTermination
                } else {
                    self.read_on()
                },
                Report::QueueClosed => self.shut_down(false),
                _ => self.confused(),
            },
            WorkerPhase::Checking => match report {
                Report::Termination(asked) => if asked {
                    self.shut_down(false)
                } else {
                    self.read_on()
                },
                _ => self.confused(),
            },
            _ => self.confused(),
        }
    }

    /// What the worker is busy with.
    pub fn phase(&self) -> (phase: WorkerPhase)
        ensures
            phase == self@.phase,
    {
        self.phase
    }

    /// Requests written in this session.
    pub fn counter(&self) -> (counter: u32)
        ensures
            counter == self@.driver.counter,
    {
        self.driver.counter()
    }

    /// The session that the worker's driver owns.
    pub fn usb_device(&self) -> (usb_device: UsbWrapper)
        ensures
            usb_device == self@.driver.usb_device,
    {
        self.driver.usb_device()
    }

    fn read_on(&mut self) -> (task: Task)
        ensures
            (final(self)@, task@) == old(self)@.read_on(),
    {
        self.phase = WorkerPhase::Reading;
        Task::ReadChunk
    }

    fn confused(&mut self) -> (task: Task)
        ensures
            (final(self)@, task@) == old(self)@.confused(),
    {
        self.phase = WorkerPhase::Ended;
        Task::Abort(WorkerError::Unexpected)
    }

    fn shut_down(&mut self, after_failure: bool) -> (task: Task)
        ensures
            (final(self)@, task@) == old(self)@.shut_down(after_failure),
    {
        self.phase = WorkerPhase::Stopping { after_failure };
        let action = self.driver.stop();
        self.follow(action)
    }

    /// Passes on what the driver asked for, or goes on from the end of the
    /// handshake.
    fn follow(&mut self, action: Action) -> (task: Task)
        ensures
            (final(self)@, task@) == old(self)@.follow((old(self)@.driver, action@)),
    {
        match action {
            Action::Exchange { command, frame } => Task::Exchange { command, frame },
            Action::Sleep => Task::Sleep,
            Action::Done => match self.phase {
                WorkerPhase::Starting => self.read_on(),
                WorkerPhase::Stopping { after_failure } => {
                    self.phase = WorkerPhase::Ended;
                    if after_failure {
                        Task::Abort(WorkerError::Read)
                    } else {
                        Task::Finish
                    }
                },
                _ => self.confused(),
            },
            Action::Failed(error) => match self.phase {
                WorkerPhase::Starting => {
                    self.phase = WorkerPhase::Ended;
                    Task::Abort(WorkerError::Start(error))
                },
                WorkerPhase::Stopping { after_failure } => {
                    self.phase = WorkerPhase::Ended;
                    if after_failure {
                        Task::Abort(WorkerError::Read)
                    } else {
                        Task::Abort(WorkerError::Stop(error))
                    }
                },
                _ => self.confused(),
            },
        }
    }
}

/// The state of a worker that was in `state` and took `reports`, one after
/// the other.
pub open spec fn toil(state: WorkerState, reports: Seq<ReportView>) -> WorkerState
    decreases reports.len(),
{
    if reports.len() == 0 {
        state
    } else {
        work(toil(state, reports.drop_last()), reports.last()).0
    }
}

/// The requests that a worker in `state` asked for in answer to `reports`,
/// in their order.
pub open spec fn exchanges(state: WorkerState, reports: Seq<ReportView>) -> Seq<Request>
    decreases reports.len(),
{
    if reports.len() == 0 {
        Seq::empty()
    } else {
        match work(toil(state, reports.drop_last()), reports.last()).1 {
            TaskView::Exchange { command, frame } => exchanges(state, reports.drop_last()).push(
                Request { command, frame },
            ),
            _ => exchanges(state, reports.drop_last()),
        }
    }
}

/// The number of pauses that a worker in `state` asked for in answer to
/// `reports`.
pub open spec fn rests(state: WorkerState, reports: Seq<ReportView>) -> nat
    decreases reports.len(),
{
    if reports.len() == 0 {
        0
    } else {
        match work(toil(state, reports.drop_last()), reports.last()).1 {
            TaskView::Sleep => rests(state, reports.drop_last()) + 1,
            _ => rests(state, reports.drop_last()),
        }
    }
}

/// The events that `reports` hand on to the driver.
spec fn handed_on(reports: Seq<ReportView>) -> Seq<EventView> {
    Seq::new(
        reports.len(),
        |i: int|
            match reports[i] {
                ReportView::Driver(event) => event,
                _ => EventView::Slept,
            },
    )
}

/// While start-up is under way, the worker does what its driver does.
proof fn lemma_starting_run(state: WorkerState, reports: Seq<ReportView>)
    requires
        toil(begin_work(state).0, reports).phase == WorkerPhase::Starting,
    ensures
        toil(begin_work(state).0, reports).driver == run(
            begin_start(state.driver, state.config).0,
            handed_on(reports),
        ),
        exchanges(begin_work(state).0, reports) == requests(
            begin_start(state.driver, state.config).0,
            handed_on(reports),
        ),
        rests(begin_work(state).0, reports) == pauses(
            begin_start(state.driver, state.config).0,
            handed_on(reports),
        ),
    decreases reports.len(),
{
    if reports.len() > 0 {
        lemma_starting_run(state, reports.drop_last());
        assert(handed_on(reports).drop_last() =~= handed_on(reports.drop_last()));
    }
}

/// Start-up before the stream: what lies between the beginning of the
/// worker's run and its first read of the data endpoint.
///
/// The worker begins by switching the PC grabber on. Where it then comes
/// to read the data endpoint for the first time, the requests that
/// followed were, in this order: the polls of the PC grabber, one more than
/// there were pauses; the identification of the hardware; and the
/// configuration script for the worker's settings and the model that the
/// identification gave, which ends with the switch to the streaming state.
pub proof fn lemma_start_up_sequence(state: WorkerState, reports: Seq<ReportView>)
    requires
        reports.len() > 0,
        toil(begin_work(state).0, reports.drop_last()).phase == WorkerPhase::Starting,
        work(toil(begin_work(state).0, reports.drop_last()), reports.last()).1
            == TaskView::ReadChunk,
    ensures
        begin_work(state).1 == (TaskView::Exchange {
            command: Command::SetPcGrabber { start: 1 },
            frame: (Command::SetPcGrabber { start: 1 }).frame(state.driver.counter),
        }),
        commands(exchanges(begin_work(state).0, reports)) == polls(
            rests(begin_work(state).0, reports) + 1,
        ) + seq![Command::GetHwGrabber] + start_script(
            state.config,
            toil(begin_work(state).0, reports).driver.device_model,
        ),
        start_script(state.config, toil(begin_work(state).0, reports).driver.device_model).last()
            == (Command::SetState { state: 2 }),
{
    lemma_starting_run(state, reports.drop_last());
    let events = handed_on(reports);
    assert(events.drop_last() =~= handed_on(reports.drop_last()));
    lemma_start_done(state.driver, state.config, events);
    lemma_start_sequence(state.driver, state.config, events);
}

/// Once shut-down has begun, the worker is busy with it until it ends.
proof fn lemma_stopping_phases(state: WorkerState, after_failure: bool, reports: Seq<ReportView>)
    ensures
        toil(state.shut_down(after_failure).0, reports).phase == (WorkerPhase::Stopping {
            after_failure,
        }) || toil(state.shut_down(after_failure).0, reports).phase == WorkerPhase::Ended,
    decreases reports.len(),
{
    if reports.len() > 0 {
        lemma_stopping_phases(state, after_failure, reports.drop_last());
    }
}

/// While shut-down is under way, the worker does what its driver does.
proof fn lemma_stopping_run(state: WorkerState, after_failure: bool, reports: Seq<ReportView>)
    requires
        toil(state.shut_down(after_failure).0, reports).phase == (WorkerPhase::Stopping {
            after_failure,
        }),
    ensures
        toil(state.shut_down(after_failure).0, reports).driver == run(
            begin_stop(state.driver).0,
            handed_on(reports),
        ),
        exchanges(state.shut_down(after_failure).0, reports) == requests(
            begin_stop(state.driver).0,
            handed_on(reports),
        ),
        rests(state.shut_down(after_failure).0, reports) == pauses(
            begin_stop(state.driver).0,
            handed_on(reports),
        ),
    decreases reports.len(),
{
    if reports.len() > 0 {
        lemma_stopping_phases(state, after_failure, reports.drop_last());
        lemma_stopping_run(state, after_failure, reports.drop_last());
        assert(handed_on(reports).drop_last() =~= handed_on(reports.drop_last()));
    }
}

/// Release-triggered stop: what lies between the moment at which the
/// worker turns to shut-down and the signal that it has ended.
///
/// When termination is asked for, the worker turns to shut-down, and so it
/// does when the queue is closed. It begins by sending the device to its
/// idle state. Where it then comes to give the signal, the requests that
/// followed were, in this order: the one that switches the PC grabber off,
/// and the polls of the PC grabber, one more than there were pauses. No
/// signal follows a shut-down that a failed read began.
pub proof fn lemma_shut_down_sequence(
    state: WorkerState,
    after_failure: bool,
    reports: Seq<ReportView>,
)
    requires
        reports.len() > 0,
        work(toil(state.shut_down(after_failure).0, reports.drop_last()), reports.last()).1
            == TaskView::Finish,
    ensures
        !after_failure,
        work(
            WorkerState { phase: WorkerPhase::Checking, ..state },
            ReportView::Termination(true),
        ) == state.shut_down(false),
        work(
            WorkerState { phase: WorkerPhase::Publishing { short: true }, ..state },
            ReportView::QueueClosed,
        ) == state.shut_down(false),
        state.shut_down(after_failure).1 == (TaskView::Exchange {
            command: Command::SetState { state: 0 },
            frame: (Command::SetState { state: 0 }).frame(state.driver.counter),
        }),
        commands(exchanges(state.shut_down(after_failure).0, reports)) == seq![
            Command::SetPcGrabber { start: 0 },
        ] + polls(rests(state.shut_down(after_failure).0, reports) + 1),
{
    lemma_stopping_phases(state, after_failure, reports.drop_last());
    lemma_stopping_run(state, after_failure, reports.drop_last());
    let events = handed_on(reports);
    assert(events.drop_last() =~= handed_on(reports.drop_last()));
    lemma_stop_done(state.driver, events);
    lemma_stop_sequence(state.driver, events);
}

} // verus!
