//! The device controller: the start-up and shut-down handshakes, step by
//! step.
//!
//! The driver does no transfer itself. It says what is to be done next (an
//! [`Action`]) and is told how that went (an [`Event`]); the transition is
//! [`next`], and everything else in this file is stated over it.

use crate::command::{
    check_response, correlation_tag, grabber_state, hardware_model, lemma_header_layout, model_of,
    rejection, signed_field, Command, DriverError, STATE_IDLE, STATE_STREAMING,
};
use crate::config::Config;
use crate::usb_wrapper::UsbWrapper;
use crate::wire::le_bytes;
use vstd::prelude::*;

verus! {

/// Milliseconds between two polls of the PC grabber.
pub const POLL_INTERVAL_MS: u64 = 500;

/// Capture slots that start-up fills.
pub const SLOT_COUNT: u32 = 35;

/// Where a handshake stands.
#[derive(Clone, Copy, Debug, PartialEq, Eq, Structural)]
pub enum Phase {
    /// Nothing was asked of the device yet.
    Idle,
    /// Start-up: the PC grabber is being switched on.
    Enabling,
    /// Start-up: the PC grabber is being asked whether it runs.
    AwaitingReady,
    /// Start-up: the PC grabber did not run yet; the next poll waits.
    ReadyPause,
    /// Start-up: the hardware is being identified.
    Identifying,
    /// Start-up: command `index` of the configuration script is under way.
    Configuring { index: usize },
    /// Start-up is complete: the stream flows.
    Streaming,
    /// Shut-down: the device is being sent to its idle state.
    Halting,
    /// Shut-down: the PC grabber is being switched off.
    Disabling,
    /// Shut-down: the PC grabber is being asked whether it has stopped.
    AwaitingIdle,
    /// Shut-down: the PC grabber still ran; the next poll waits.
    IdlePause,
    /// Shut-down is complete.
    Stopped,
    /// A handshake was given up.
    Failed,
}

/// What the host is to do next.
#[derive(Debug, PartialEq, Eq)]
pub enum Action {
    /// Write `frame`, which carries `command`, to the command endpoint;
    /// then read the response, of up to 512 bytes.
    Exchange { command: Command, frame: Vec<u8> },
    /// Let the poll interval pass.
    Sleep,
    /// Nothing: the handshake is complete.
    Done,
    /// Nothing: the handshake was given up for this reason.
    Failed(DriverError),
}

/// How what the host was asked to do went.
#[derive(Debug, PartialEq, Eq)]
pub enum Event {
    /// The frame was written, and these bytes were read in response.
    Response(Vec<u8>),
    /// The frame could not be written.
    WriteFailed,
    /// The frame was written, but no response could be read.
    ReadFailed,
    /// The poll interval has passed.
    Slept,
}

/// An [`Action`] as the contracts see it.
pub enum ActionView {
    Exchange { command: Command, frame: Seq<u8> },
    Sleep,
    Done,
    Failed(DriverError),
}

/// An [`Event`] as the contracts see it.
pub enum EventView {
    Response(Seq<u8>),
    WriteFailed,
    ReadFailed,
    Slept,
}

impl View for Action {
    type V = ActionView;

    open spec fn view(&self) -> ActionView {
        match *self {
            Action::Exchange { command, frame } => ActionView::Exchange { command, frame: frame@ },
            Action::Sleep => ActionView::Sleep,
            Action::Done => ActionView::Done,
            Action::Failed(error) => ActionView::Failed(error),
        }
    }
}

impl View for Event {
    type V = EventView;

    open spec fn view(&self) -> EventView {
        match *self {
            Event::Response(received) => EventView::Response(received@),
            Event::WriteFailed => EventView::WriteFailed,
            Event::ReadFailed => EventView::ReadFailed,
            Event::Slept => EventView::Slept,
        }
    }
}

/// The driver as the contracts see it.
pub struct DriverState {
    /// The session that the driver owns.
    pub usb_device: UsbWrapper,
    /// Requests written in this session.
    pub counter: u32,
    pub phase: Phase,
    /// The settings of the last start-up.
    pub config: Config,
    /// The device model that the last identification gave.
    pub device_model: i32,
}

/// The controller of one grabber, for the time of one USB session.
pub struct IT9910Driver {
    usb_device: UsbWrapper,
    counter: u32,
    phase: Phase,
    config: Config,
    device_model: i32,
}

/// The command that selects the inputs, where the device can switch them.
pub open spec fn source_selection(config: Config, device_model: i32) -> Seq<Command> {
    if device_model == 2 {
        seq![
            Command::SetSource { audio_source: config.audio_src, video_source: config.video_src },
        ]
    } else {
        Seq::empty()
    }
}

/// The command that fills capture slot `slot`.
pub open spec fn slot_command(config: Config, device_model: i32, slot: int) -> Command {
    Command::SetPcGrabber2 {
        device_model,
        counter: slot as u32,
        width: config.width,
        height: config.height,
        kbitrate: config.bitrate,
        framerate: config.fps,
    }
}

/// The commands that fill the capture slots, in slot order.
pub open spec fn slot_table(config: Config, device_model: i32) -> Seq<Command> {
    Seq::new(SLOT_COUNT as nat, |slot: int| slot_command(config, device_model, slot))
}

/// The commands that set the picture controls.
pub open spec fn picture_controls(config: Config) -> Seq<Command> {
    seq![
        Command::SetBrightness { brightness: config.brightness },
        Command::SetContrast { contrast: config.contrast },
        Command::SetHue { hue: config.hue },
        Command::SetSaturation { saturation: config.saturation },
    ]
}

/// What start-up sends once the hardware is identified: the input
/// selection where the device has one, the slot table, the picture
/// controls, and last the switch to the streaming state.
pub open spec fn start_script(config: Config, device_model: i32) -> Seq<Command> {
    source_selection(config, device_model) + slot_table(config, device_model) + picture_controls(
        config,
    ) + seq![Command::SetState { state: 2 }]
}

/// The counter after one more request was written.
pub open spec fn advanced(counter: u32) -> u32 {
    if counter == u32::MAX {
        0
    } else {
        (counter + 1) as u32
    }
}

impl DriverState {
    /// The command whose response is awaited, if one is.
    pub open spec fn in_flight(self) -> Option<Command> {
        match self.phase {
            Phase::Enabling => Some(Command::SetPcGrabber { start: 1 }),
            Phase::AwaitingReady => Some(Command::GetPcGrabber),
            Phase::Identifying => Some(Command::GetHwGrabber),
            Phase::Configuring { index } => if index < start_script(
                self.config,
                self.device_model,
            ).len() {
                Some(start_script(self.config, self.device_model)[index as int])
            } else {
                None
            },
            Phase::Halting => Some(Command::SetState { state: 0 }),
            Phase::Disabling => Some(Command::SetPcGrabber { start: 0 }),
            Phase::AwaitingIdle => Some(Command::GetPcGrabber),
            _ => None,
        }
    }

    /// Whether the end of the poll interval is awaited.
    pub open spec fn pausing(self) -> bool {
        self.phase == Phase::ReadyPause || self.phase == Phase::IdlePause
    }

    /// The state in which `command` is under way in `phase`, and the action
    /// that asks for it.
    pub open spec fn issue(self, phase: Phase, command: Command) -> (DriverState, ActionView) {
        (
            DriverState { phase, ..self },
            ActionView::Exchange { command, frame: command.frame(self.counter) },
        )
    }

    /// The state in which the handshake is given up, and the action that
    /// says why.
    pub open spec fn give_up(self, error: DriverError) -> (DriverState, ActionView) {
        (DriverState { phase: Phase::Failed, ..self }, ActionView::Failed(error))
    }

    /// What follows a response that was accepted.
    pub open spec fn proceed(self, received: Seq<u8>) -> (DriverState, ActionView) {
        match self.phase {
            Phase::Enabling => self.issue(Phase::AwaitingReady, Command::GetPcGrabber),
            Phase::AwaitingReady => if signed_field(received, 24) > 0 {
                self.issue(Phase::Identifying, Command::GetHwGrabber)
            } else {
                (DriverState { phase: Phase::ReadyPause, ..self }, ActionView::Sleep)
            },
            Phase::Identifying => {
                let device_model = model_of(received[31]);
                (DriverState { device_model, ..self }).issue(
                    Phase::Configuring { index: 0 },
                    start_script(self.config, device_model)[0],
                )
            },
            Phase::Configuring { index } => if index + 1 < start_script(
                self.config,
                self.device_model,
            ).len() {
                self.issue(
                    Phase::Configuring { index: (index + 1) as usize },
                    start_script(self.config, self.device_model)[index + 1],
                )
            } else {
                (DriverState { phase: Phase::Streaming, ..self }, ActionView::Done)
            },
            Phase::Halting => self.issue(Phase::Disabling, Command::SetPcGrabber { start: 0 }),
            Phase::Disabling => self.issue(Phase::AwaitingIdle, Command::GetPcGrabber),
            Phase::AwaitingIdle => if signed_field(received, 24) == 0 {
                (DriverState { phase: Phase::Stopped, ..self }, ActionView::Done)
            } else {
                (DriverState { phase: Phase::IdlePause, ..self }, ActionView::Sleep)
            },
            _ => self.give_up(DriverError::Unexpected),
        }
    }
}

/// The state in which start-up with `config` is under way, and its first
/// action: the PC grabber is switched on.
pub open spec fn begin_start(state: DriverState, config: Config) -> (DriverState, ActionView) {
    (DriverState { config, ..state }).issue(Phase::Enabling, Command::SetPcGrabber { start: 1 })
}

/// The state in which shut-down is under way, and its first action: the
/// device is sent to its idle state.
pub open spec fn begin_stop(state: DriverState) -> (DriverState, ActionView) {
    state.issue(Phase::Halting, Command::SetState { state: 0 })
}

/// The transition of the driver: the state after `event`, and what is to be
/// done next.
///
/// The counter advances when a request was written, whether or not a
/// response could be read. A handshake is given up on the first transfer
/// that fails, on the first response that is rejected, and on an event that
/// answers nothing that was asked for.
pub open spec fn next(state: DriverState, event: EventView) -> (DriverState, ActionView) {
    match event {
        EventView::Slept => match state.phase {
            Phase::ReadyPause => state.issue(Phase::AwaitingReady, Command::GetPcGrabber),
            Phase::IdlePause => state.issue(Phase::AwaitingIdle, Command::GetPcGrabber),
            _ => state.give_up(DriverError::Unexpected),
        },
        EventView::WriteFailed => match state.in_flight() {
            Some(_) => state.give_up(DriverError::WriteFailed),
            None => state.give_up(DriverError::Unexpected),
        },
        EventView::ReadFailed => match state.in_flight() {
            Some(_) => (DriverState { counter: advanced(state.counter), ..state }).give_up(
                DriverError::ReadFailed,
            ),
            None => state.give_up(DriverError::Unexpected),
        },
        EventView::Response(received) => match state.in_flight() {
            Some(command) => {
                let written = DriverState { counter: advanced(state.counter), ..state };
                match rejection(received, command.response_len()) {
                    Some(error) => written.give_up(error),
                    None => written.proceed(received),
                }
            },
            None => state.give_up(DriverError::Unexpected),
        },
    }
}

/// The driver on a fresh session: nothing written, nothing asked.
pub open spec fn opened(usb_device: UsbWrapper) -> DriverState {
    DriverState {
        usb_device,
        counter: 0,
        phase: Phase::Idle,
        config: Config {
            width: 0,
            height: 0,
            fps: 0,
            bitrate: 0,
            audio_src: 0,
            video_src: 0,
            brightness: 0,
            contrast: 0,
            hue: 0,
            saturation: 0,
        },
        device_model: 0,
    }
}

impl View for IT9910Driver {
    type V = DriverState;

    closed spec fn view(&self) -> DriverState {
        DriverState {
            usb_device: self.usb_device,
            counter: self.counter,
            phase: self.phase,
            config: self.config,
            device_model: self.device_model,
        }
    }
}

/// Command `index` of the configuration script, if the script is that long.
pub fn script_command(config: &Config, device_model: i32, index: usize) -> (command: Option<
    Command,
>)
    ensures
        command == if index < start_script(*config, device_model).len() {
            Some(start_script(*config, device_model)[index as int])
        } else {
            None
        },
{
    let selection: usize = if device_model == 2 {
        1
    } else {
        0
    };
    let slots: usize = SLOT_COUNT as usize;
    if index < selection {
        Some(Command::SetSource { audio_source: config.audio_src, video_source: config.video_src })
    } else if index < selection + slots {
        Some(
            Command::SetPcGrabber2 {
                device_model,
                counter: (index - selection) as u32,
                width: config.width,
                height: config.height,
                kbitrate: config.bitrate,
                framerate: config.fps,
            },
        )
    } else if index == selection + slots {
        Some(Command::SetBrightness { brightness: config.brightness })
    } else if index == selection + slots + 1 {
        Some(Command::SetContrast { contrast: config.contrast })
    } else if index == selection + slots + 2 {
        Some(Command::SetHue { hue: config.hue })
    } else if index == selection + slots + 3 {
        Some(Command::SetSaturation { saturation: config.saturation })
    } else if index == selection + slots + 4 {
        Some(Command::SetState { state: STATE_STREAMING })
    } else {
        None
    }
}

impl IT9910Driver {
    /// A driver for the session `usb_device`, on which nothing was written
    /// yet.
    pub fn open(usb_device: UsbWrapper) -> (driver: Self)
        ensures
            driver@ == opened(usb_device),
    {
        IT9910Driver {
            usb_device,
            counter: 0,
            phase: Phase::Idle,
            config: Config {
                width: 0,
                height: 0,
                fps: 0,
                bitrate: 0,
                audio_src: 0,
                video_src: 0,
                brightness: 0,
                contrast: 0,
                hue: 0,
                saturation: 0,
            },
            device_model: 0,
        }
    }

    /// Begins start-up with these settings, whatever went on before.
    pub fn start(
        &mut self,
        width: u32,
        height: u32,
        fps: u32,
        bitrate: u32,
        audio_src: u32,
        video_src: u32,
        brightness: i32,
        contrast: i32,
        hue: i32,
        saturation: i32,
    ) -> (action: Action)
        ensures
            (final(self)@, action@) == begin_start(
                old(self)@,
                Config {
                    width,
                    height,
                    fps,
                    bitrate,
                    audio_src,
                    video_src,
                    brightness,
                    contrast,
                    hue,
                    saturation,
                },
            ),
    {
        self.config = Config {
            width,
            height,
            fps,
            bitrate,
            audio_src,
            video_src,
            brightness,
            contrast,
            hue,
            saturation,
        };
        self.issue(Phase::Enabling, Command::SetPcGrabber { start: 1 })
    }

    /// Begins shut-down, whatever went on before.
    pub fn stop(&mut self) -> (action: Action)
        ensures
            (final(self)@, action@) == begin_stop(old(self)@),
    {
        self.issue(Phase::Halting, Command::SetState { state: STATE_IDLE })
    }

    /// Takes in how the last action went, and says what is to be done next.
    pub fn step(&mut self, event: Event) -> (action: Action)
        ensures
            (final(self)@, action@) == next(old(self)@, event@),
    {
        match event {
            Event::Slept => match self.phase {
                Phase::ReadyPause => self.issue(Phase::AwaitingReady, Command::GetPcGrabber),
                Phase::IdlePause => self.issue(Phase::AwaitingIdle, Command::GetPcGrabber),
                _ => self.give_up(DriverError::Unexpected),
            },
            Event::WriteFailed => match self.in_flight() {
                Some(_) => self.give_up(DriverError::WriteFailed),
                None => self.give_up(DriverError::Unexpected),
            },
            Event::ReadFailed => match self.in_flight() {
                Some(_) => {
                    self.count_request();
                    self.give_up(DriverError::ReadFailed)
                },
                None => self.give_up(DriverError::Unexpected),
            },
            Event::Response(received) => match self.in_flight() {
                Some(_) => {
                    self.count_request();
                    self.accept(received.as_slice())
                },
                None => self.give_up(DriverError::Unexpected),
            },
        }
    }

    /// The session that the driver owns.
    pub fn usb_device(&self) -> (usb_device: UsbWrapper)
        ensures
            usb_device == self@.usb_device,
    {
        self.usb_device
    }

    /// Requests written in this session.
    pub fn counter(&self) -> (counter: u32)
        ensures
            counter == self@.counter,
    {
        self.counter
    }

    /// Where the handshake stands.
    pub fn phase(&self) -> (phase: Phase)
        ensures
            phase == self@.phase,
    {
        self.phase
    }

    /// The device model that the last identification gave.
    pub fn device_model(&self) -> (device_model: i32)
        ensures
            device_model == self@.device_model,
    {
        self.device_model
    }

    fn in_flight(&self) -> (command: Option<Command>)
        ensures
            command == self@.in_flight(),
    {
        match self.phase {
            Phase::Enabling => Some(Command::SetPcGrabber { start: 1 }),
            Phase::AwaitingReady => Some(Command::GetPcGrabber),
            Phase::Identifying => Some(Command::GetHwGrabber),
            Phase::Configuring { index } => script_command(&self.config, self.device_model, index),
            Phase::Halting => Some(Command::SetState { state: STATE_IDLE }),
            Phase::Disabling => Some(Command::SetPcGrabber { start: 0 }),
            Phase::AwaitingIdle => Some(Command::GetPcGrabber),
            _ => None,
        }
    }

    fn count_request(&mut self)
        ensures
            final(self)@ == (DriverState { counter: advanced(old(self)@.counter), ..old(self)@ }),
    {
        self.counter = if self.counter == u32::MAX {
            0
        } else {
            self.counter + 1
        };
    }

    fn issue(&mut self, phase: Phase, command: Command) -> (action: Action)
        ensures
            (final(self)@, action@) == old(self)@.issue(phase, command),
    {
        self.phase = phase;
        Action::Exchange { command, frame: command.encode(self.counter) }
    }

    fn give_up(&mut self, error: DriverError) -> (action: Action)
        ensures
            (final(self)@, action@) == old(self)@.give_up(error),
    {
        self.phase = Phase::Failed;
        Action::Failed(error)
    }

    fn pause(&mut self, phase: Phase) -> (action: Action)
        ensures
            final(self)@ == (DriverState { phase, ..old(self)@ }),
            action@ == ActionView::Sleep,
    {
        self.phase = phase;
        Action::Sleep
    }

    fn complete(&mut self, phase: Phase) -> (action: Action)
        ensures
            final(self)@ == (DriverState { phase, ..old(self)@ }),
            action@ == ActionView::Done,
    {
        self.phase = phase;
        Action::Done
    }

    /// Checks the response to the command under way and goes on from it.
    fn accept(&mut self, received: &[u8]) -> (action: Action)
        requires
            old(self)@.in_flight() is Some,
        ensures
            (final(self)@, action@) == match rejection(
                received@,
                old(self)@.in_flight()->0.response_len(),
            ) {
                Some(error) => old(self)@.give_up(error),
                None => old(self)@.proceed(received@),
            },
    {
        match self.phase {
            Phase::AwaitingReady => match grabber_state(received) {
                Err(error) => self.give_up(error),
                Ok(state) => if state > 0 {
                    self.issue(Phase::Identifying, Command::GetHwGrabber)
                } else {
                    self.pause(Phase::ReadyPause)
                },
            },
            Phase::AwaitingIdle => match grabber_state(received) {
                Err(error) => self.give_up(error),
                Ok(state) => if state == 0 {
                    self.complete(Phase::Stopped)
                } else {
                    self.pause(Phase::IdlePause)
                },
            },
            Phase::Identifying => match hardware_model(received) {
                Err(error) => self.give_up(error),
                Ok(device_model) => {
                    self.device_model = device_model;
                    match script_command(&self.config, device_model, 0) {
                        Some(command) => self.issue(Phase::Configuring { index: 0 }, command),
                        None => self.give_up(DriverError::Unexpected),
                    }
                },
            },
            Phase::Configuring { index } => match check_response(received, 16) {
                Err(error) => self.give_up(error),
                Ok(()) => {
                    let following = if index < usize::MAX {
                        script_command(&self.config, self.device_model, index + 1)
                    } else {
                        None
                    };
                    match following {
                        Some(command) => self.issue(
                            Phase::Configuring { index: index + 1 },
                            command,
                        ),
                        None => self.complete(Phase::Streaming),
                    }
                },
            },
            Phase::Enabling => match check_response(received, 16) {
                Err(error) => self.give_up(error),
                Ok(()) => self.issue(Phase::AwaitingReady, Command::GetPcGrabber),
            },
            Phase::Halting => match check_response(received, 16) {
                Err(error) => self.give_up(error),
                Ok(()) => self.issue(Phase::Disabling, Command::SetPcGrabber { start: 0 }),
            },
            Phase::Disabling => match check_response(received, 16) {
                Err(error) => self.give_up(error),
                Ok(()) => self.issue(Phase::AwaitingIdle, Command::GetPcGrabber),
            },
            _ => self.give_up(DriverError::Unexpected),
        }
    }
}

/// Source selection guard: the configuration script selects the inputs if
/// and only if the device model is 2, and then before anything else.
pub proof fn lemma_source_selection(config: Config, device_model: i32)
    ensures
        device_model == 2 ==> start_script(config, device_model)[0] == (Command::SetSource {
            audio_source: config.audio_src,
            video_source: config.video_src,
        }),
        forall|index: int|
            0 <= index < start_script(config, device_model).len() && (#[trigger] start_script(
                config,
                device_model,
            )[index]) is SetSource ==> device_model == 2 && index == 0,
{
}

/// Slot table completeness: the configuration script fills the 35 capture
/// slots, slot 0 to slot 34 in that order, right after the input selection
/// where there is one, and nothing else in it fills a slot.
pub proof fn lemma_slot_table(config: Config, device_model: i32)
    ensures
        start_script(config, device_model).len() == source_selection(config, device_model).len()
            + 40,
        source_selection(config, device_model).len() == if device_model == 2 {
            1nat
        } else {
            0nat
        },
        forall|slot: int|
            0 <= slot < 35 ==> #[trigger] start_script(config, device_model)[source_selection(
                config,
                device_model,
            ).len() + slot] == slot_command(config, device_model, slot),
        forall|index: int|
            0 <= index < start_script(config, device_model).len() && (#[trigger] start_script(
                config,
                device_model,
            )[index]) is SetPcGrabber2 ==> source_selection(config, device_model).len() <= index
                < source_selection(config, device_model).len() + 35,
{
}

/// The configuration script ends with the switch to the streaming state,
/// which the picture controls precede.
pub proof fn lemma_script_end(config: Config, device_model: i32)
    ensures
        start_script(config, device_model).last() == (Command::SetState { state: 2 }),
        start_script(config, device_model).skip(
            source_selection(config, device_model).len() as int + 35,
        ) == picture_controls(config) + seq![Command::SetState { state: 2 }],
{
}

/// Counter monotonicity, step by step: the counter goes up by one with
/// every request that was written, and by nothing else; a request carries,
/// in its tag, the number of requests written before it.
pub proof fn lemma_counter_step(state: DriverState, event: EventView)
    ensures
        next(state, event).0.counter == if state.in_flight() is Some && (event is Response
            || event is ReadFailed) {
            advanced(state.counter)
        } else {
            state.counter
        },
        next(state, event).1 matches ActionView::Exchange { command, frame } ==> {
            &&& frame == command.frame(next(state, event).0.counter)
            &&& frame.subrange(12, 16) == le_bytes(correlation_tag(next(state, event).0.counter))
        },
{
    match next(state, event).1 {
        ActionView::Exchange { command, frame } => {
            lemma_header_layout(command, next(state, event).0.counter);
        },
        _ => {},
    }
}

} // verus!
