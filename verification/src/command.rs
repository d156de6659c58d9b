//! The commands of the grabber, the frames that carry them and what their
//! responses say.
//!
//! A frame is a header of four little-endian words (total length, command
//! id, subcommand id, correlation tag) and a payload. A response has the
//! same header, with a signed result code in place of the tag.

use crate::wire::{
    le_bytes, le_value, le_words, lemma_le_words_at, lemma_le_words_len, push_le_u32,
    read_le_i32, signed_value, twos_complement, word_of, zeros,
};
use vstd::prelude::*;

verus! {

/// Bytes of a frame header.
pub const HEADER_LEN: usize = 16;

/// Upper bits of every correlation tag.
pub const TAG_PREFIX: u32 = 0x9910_0000;

/// Subcommand id of a query.
pub const SUBCOMMAND_GET: u32 = 1;

/// Subcommand id of a setting.
pub const SUBCOMMAND_SET: u32 = 2;

/// Command id: query the time, for debugging.
pub const DEBUG_QUERY_TIME: u32 = 0x9910_F001;

/// Command id: identify the hardware.
pub const HW_GRABBER: u32 = 0x9910_F002;

/// Command id: set the device state.
pub const STATE: u32 = 0x9910_0002;

/// Command id: query or select the inputs.
pub const SOURCE: u32 = 0x9910_0003;

/// Command id: set the brightness.
pub const BRIGHTNESS: u32 = 0x9910_0101;

/// Command id: set the contrast.
pub const CONTRAST: u32 = 0x9910_0102;

/// Command id: set the hue.
pub const HUE: u32 = 0x9910_0103;

/// Command id: set the saturation.
pub const SATURATION: u32 = 0x9910_0104;

/// Command id: switch or query the PC grabber, or fill a capture slot.
pub const PC_GRABBER: u32 = 0x9910_E001;

/// First payload word of the commands that switch or query the PC grabber.
pub const PC_GRABBER_KEY: u32 = 0x3838_4001;

/// First payload word of the commands that fill a capture slot.
pub const PC_GRABBER_SLOT_KEY: u32 = 0x3838_2008;

/// The most bytes that are read of a response.
pub const RESPONSE_CAPACITY: usize = 512;

/// Milliseconds that each transfer of a command may take.
pub const COMMAND_TIMEOUT_MS: u64 = 5000;

/// Device state in which the encoder is idle.
pub const STATE_IDLE: u32 = 0;

/// Device state in which the encoder runs and the stream flows.
pub const STATE_STREAMING: u32 = 2;

/// A request to the device.
#[derive(Clone, Copy, Debug, PartialEq, Eq, Structural)]
pub enum Command {
    /// Asks for the time.
    DebugQueryTime { time: i32 },
    /// Asks which inputs are selected.
    GetSource,
    /// Selects the audio input and the video input.
    SetSource { audio_source: u32, video_source: u32 },
    SetBrightness { brightness: i32 },
    SetContrast { contrast: i32 },
    SetHue { hue: i32 },
    SetSaturation { saturation: i32 },
    /// Switches the PC grabber on (1) or off (0).
    SetPcGrabber { start: i32 },
    /// Fills capture slot `counter`.
    SetPcGrabber2 {
        device_model: i32,
        counter: u32,
        width: u32,
        height: u32,
        kbitrate: u32,
        framerate: u32,
    },
    /// Asks whether the PC grabber runs.
    GetPcGrabber,
    /// Asks the hardware what it is.
    GetHwGrabber,
    /// Sends the device to a state: 0 is idle, 2 is streaming.
    SetState { state: u32 },
}

/// Why a command was given up.
#[derive(Clone, Copy, Debug, PartialEq, Eq, Structural)]
pub enum DriverError {
    /// The request could not be written.
    WriteFailed,
    /// The response could not be read.
    ReadFailed,
    /// The device answered with this negative result code.
    Device(i32),
    /// The response ends before the bytes that had to be read of it.
    Truncated,
    /// The host reported what answers nothing that it was asked for.
    Unexpected,
}

/// The tag that a request carries when `counter` requests were written
/// before it.
pub open spec fn correlation_tag(counter: u32) -> u32 {
    TAG_PREFIX | counter
}

/// The sixteen bytes in front of a payload.
pub open spec fn header(length: u32, command_id: u32, subcommand_id: u32, counter: u32) -> Seq<u8> {
    le_bytes(length) + le_bytes(command_id) + le_bytes(subcommand_id) + le_bytes(
        correlation_tag(counter),
    )
}

/// The result code of a response: the signed word at bytes 12 to 16.
pub open spec fn result_code(received: Seq<u8>) -> int {
    signed_field(received, 12)
}

/// The signed word of a response at bytes `at` to `at + 4`.
pub open spec fn signed_field(received: Seq<u8>, at: int) -> int {
    signed_value(le_value(received.subrange(at, at + 4)))
}

/// What a response is rejected with, if it is, when `needed` bytes are to
/// be read of it: a response is rejected if it has no complete header, if
/// its result code is negative, or if it ends before those bytes.
pub open spec fn rejection(received: Seq<u8>, needed: nat) -> Option<DriverError> {
    if received.len() < HEADER_LEN {
        Some(DriverError::Truncated)
    } else if result_code(received) < 0 {
        Some(DriverError::Device(result_code(received) as i32))
    } else if received.len() < needed {
        Some(DriverError::Truncated)
    } else {
        None
    }
}

/// The device model that byte 31 of the hardware identification stands
/// for. Model 2 can switch inputs; a device that answers 0 has several
/// inputs too, and one that is not known is taken to have them.
pub open spec fn model_of(byte: u8) -> i32 {
    if byte == 0x17 {
        0
    } else if byte == 0x27 {
        1
    } else if byte == 0x37 {
        2
    } else if byte == 0x00 {
        2
    } else {
        2
    }
}

impl Command {
    /// The command id in the header.
    pub open spec fn command_id(self) -> u32 {
        match self {
            Command::DebugQueryTime { .. } => DEBUG_QUERY_TIME,
            Command::GetSource => SOURCE,
            Command::SetSource { .. } => SOURCE,
            Command::SetBrightness { .. } => BRIGHTNESS,
            Command::SetContrast { .. } => CONTRAST,
            Command::SetHue { .. } => HUE,
            Command::SetSaturation { .. } => SATURATION,
            Command::SetPcGrabber { .. } => PC_GRABBER,
            Command::SetPcGrabber2 { .. } => PC_GRABBER,
            Command::GetPcGrabber => PC_GRABBER,
            Command::GetHwGrabber => HW_GRABBER,
            Command::SetState { .. } => STATE,
        }
    }

    /// The subcommand id in the header: a query or a setting.
    pub open spec fn subcommand_id(self) -> u32 {
        match self {
            Command::DebugQueryTime { .. } => SUBCOMMAND_GET,
            Command::GetSource => SUBCOMMAND_GET,
            Command::GetPcGrabber => SUBCOMMAND_GET,
            Command::GetHwGrabber => SUBCOMMAND_GET,
            _ => SUBCOMMAND_SET,
        }
    }

    /// The words of the payload.
    pub open spec fn words(self) -> Seq<u32> {
        match self {
            Command::DebugQueryTime { time } => seq![twos_complement(time)],
            Command::GetSource => seq![0u32, 0u32],
            Command::SetSource { audio_source, video_source } => seq![audio_source, video_source],
            Command::SetBrightness { brightness } => seq![0u32, twos_complement(brightness)],
            Command::SetContrast { contrast } => seq![0u32, twos_complement(contrast)],
            Command::SetHue { hue } => seq![0u32, twos_complement(hue)],
            Command::SetSaturation { saturation } => seq![0u32, twos_complement(saturation)],
            Command::SetPcGrabber { start } => seq![PC_GRABBER_KEY, 0u32, twos_complement(start)],
            Command::SetPcGrabber2 {
                device_model,
                counter,
                width,
                height,
                kbitrate,
                framerate,
            } => seq![
                PC_GRABBER_SLOT_KEY,
                0u32,
                if device_model == 2 { 4u32 } else { 5u32 },
                counter,
                15u32,
                width,
                height,
                kbitrate,
                0u32,
                0u32,
                framerate,
                0u32,
                0u32,
                0u32,
                0u32,
            ],
            Command::GetPcGrabber => seq![PC_GRABBER_KEY, 0u32, 0u32],
            Command::GetHwGrabber => Seq::new(35, |i: int| if i == 0 { 8u32 } else { 0u32 }),
            Command::SetState { state } => seq![state],
        }
    }

    /// The zero bytes that follow the words of the payload.
    pub open spec fn padding(self) -> nat {
        match self {
            Command::GetHwGrabber => 2,
            _ => 0,
        }
    }

    /// The payload: what follows the header.
    pub open spec fn payload(self) -> Seq<u8> {
        le_words(self.words()) + zeros(self.padding())
    }

    /// The request as it is written to the device, when `counter` requests
    /// were written before it.
    pub open spec fn frame(self, counter: u32) -> Seq<u8> {
        header(
            (16 + self.payload().len()) as u32,
            self.command_id(),
            self.subcommand_id(),
            counter,
        ) + self.payload()
    }

    /// The bytes that a response to this command must have for what is read
    /// of it.
    pub open spec fn response_len(self) -> nat {
        match self {
            Command::DebugQueryTime { .. } => 20,
            Command::GetSource => 24,
            Command::GetPcGrabber => 28,
            Command::GetHwGrabber => 32,
            _ => 16,
        }
    }

    fn id(&self) -> (id: u32)
        ensures
            id == self.command_id(),
    {
        match self {
            Command::DebugQueryTime { .. } => DEBUG_QUERY_TIME,
            Command::GetSource => SOURCE,
            Command::SetSource { .. } => SOURCE,
            Command::SetBrightness { .. } => BRIGHTNESS,
            Command::SetContrast { .. } => CONTRAST,
            Command::SetHue { .. } => HUE,
            Command::SetSaturation { .. } => SATURATION,
            Command::SetPcGrabber { .. } => PC_GRABBER,
            Command::SetPcGrabber2 { .. } => PC_GRABBER,
            Command::GetPcGrabber => PC_GRABBER,
            Command::GetHwGrabber => HW_GRABBER,
            Command::SetState { .. } => STATE,
        }
    }

    fn subcommand(&self) -> (id: u32)
        ensures
            id == self.subcommand_id(),
    {
        match self {
            Command::DebugQueryTime { .. } => SUBCOMMAND_GET,
            Command::GetSource => SUBCOMMAND_GET,
            Command::GetPcGrabber => SUBCOMMAND_GET,
            Command::GetHwGrabber => SUBCOMMAND_GET,
            _ => SUBCOMMAND_SET,
        }
    }

    fn payload_words(&self) -> (words: Vec<u32>)
        ensures
            words@ == self.words(),
    {
        match *self {
            Command::DebugQueryTime { time } => vec![word_of(time)],
            Command::GetSource => vec![0u32, 0u32],
            Command::SetSource { audio_source, video_source } => vec![audio_source, video_source],
            Command::SetBrightness { brightness } => vec![0u32, word_of(brightness)],
            Command::SetContrast { contrast } => vec![0u32, word_of(contrast)],
            Command::SetHue { hue } => vec![0u32, word_of(hue)],
            Command::SetSaturation { saturation } => vec![0u32, word_of(saturation)],
            Command::SetPcGrabber { start } => vec![PC_GRABBER_KEY, 0u32, word_of(start)],
            Command::SetPcGrabber2 {
                device_model,
                counter,
                width,
                height,
                kbitrate,
                framerate,
            } => {
                let mode: u32 = if device_model == 2 {
                    4
                } else {
                    5
                };
                vec![
                    PC_GRABBER_SLOT_KEY,
                    0u32,
                    mode,
                    counter,
                    15u32,
                    width,
                    height,
                    kbitrate,
                    0u32,
                    0u32,
                    framerate,
                    0u32,
                    0u32,
                    0u32,
                    0u32,
                ]
            },
            Command::GetPcGrabber => vec![PC_GRABBER_KEY, 0u32, 0u32],
            Command::GetHwGrabber => {
                let mut words: Vec<u32> = Vec::new();
                words.push(8);
                while words.len() < 35
                    invariant
                        1 <= words.len() <= 35,
                        words@ == Seq::new(
                            words.len() as nat,
                            |i: int| if i == 0 { 8u32 } else { 0u32 },
                        ),
                    decreases 35 - words.len(),
                {
                    words.push(0);
                }
                words
            },
            Command::SetState { state } => vec![state],
        }
    }

    fn padding_len(&self) -> (count: usize)
        ensures
            count == self.padding(),
    {
        match self {
            Command::GetHwGrabber => 2,
            _ => 0,
        }
    }

    /// Frames the request, as the `counter`-th of the session counted from
    /// zero.
    pub fn encode(&self, counter: u32) -> (frame: Vec<u8>)
        ensures
            frame@ == self.frame(counter),
    {
        let words = self.payload_words();
        let padding = self.padding_len();
        proof {
            lemma_le_words_len(self.words());
        }
        let length = HEADER_LEN + 4 * words.len() + padding;
        let mut frame: Vec<u8> = Vec::new();
        push_le_u32(&mut frame, length as u32);
        push_le_u32(&mut frame, self.id());
        push_le_u32(&mut frame, self.subcommand());
        push_le_u32(&mut frame, TAG_PREFIX | counter);
        let ghost head = frame@;
        let mut index: usize = 0;
        while index < words.len()
            invariant
                index <= words.len(),
                frame@ == head + le_words(words@.take(index as int)),
            decreases words.len() - index,
        {
            assert(words@.take(index + 1).drop_last() == words@.take(index as int));
            push_le_u32(&mut frame, words[index]);
            index += 1;
        }
        assert(words@.take(index as int) == words@);
        let ghost body = frame@;
        let mut pad: usize = 0;
        while pad < padding
            invariant
                pad <= padding,
                frame@ == body + zeros(pad as nat),
            decreases padding - pad,
        {
            frame.push(0);
            pad += 1;
        }
        frame
    }
}

/// The device model that byte 31 of the hardware identification stands for.
pub fn device_model(byte: u8) -> (model: i32)
    ensures
        model == model_of(byte),
{
    match byte {
        0x17 => 0,
        0x27 => 1,
        0x37 => 2,
        // A device that answers 0 has several inputs too.
        0x00 => 2,
        // A device that is not known is taken to switch inputs.
        _ => 2,
    }
}

/// Checks the result code of a response, and that the response has the
/// `needed` bytes that are to be read of it.
pub fn check_response(received: &[u8], needed: usize) -> (checked: Result<(), DriverError>)
    ensures
        checked == match rejection(received@, needed as nat) {
            Some(error) => Err::<(), DriverError>(error),
            None => Ok(()),
        },
{
    if received.len() < HEADER_LEN {
        return Err(DriverError::Truncated);
    }
    let code = read_le_i32(&received[12..16]);
    if code < 0 {
        return Err(DriverError::Device(code));
    }
    if received.len() < needed {
        return Err(DriverError::Truncated);
    }
    Ok(())
}

/// What a response to `GetPcGrabber` says: whether the PC grabber runs
/// (above zero) or has stopped (zero).
pub fn grabber_state(received: &[u8]) -> (state: Result<i32, DriverError>)
    ensures
        state == match rejection(received@, 28) {
            Some(error) => Err::<i32, DriverError>(error),
            None => Ok(signed_field(received@, 24) as i32),
        },
{
    match check_response(received, 28) {
        Err(error) => Err(error),
        Ok(()) => Ok(read_le_i32(&received[24..28])),
    }
}

/// What a response to `GetHwGrabber` says: the device model.
pub fn hardware_model(received: &[u8]) -> (model: Result<i32, DriverError>)
    ensures
        model == match rejection(received@, 32) {
            Some(error) => Err::<i32, DriverError>(error),
            None => Ok(model_of(received@[31])),
        },
{
    match check_response(received, 32) {
        Err(error) => Err(error),
        Ok(()) => Ok(device_model(received[31])),
    }
}

/// What a response to `DebugQueryTime` says: the time.
pub fn queried_time(received: &[u8]) -> (time: Result<i32, DriverError>)
    ensures
        time == match rejection(received@, 20) {
            Some(error) => Err::<i32, DriverError>(error),
            None => Ok(signed_field(received@, 16) as i32),
        },
{
    match check_response(received, 20) {
        Err(error) => Err(error),
        Ok(()) => Ok(read_le_i32(&received[16..20])),
    }
}

/// What a response to `GetSource` says: the audio input and the video
/// input.
pub fn selected_source(received: &[u8]) -> (source: Result<(i32, i32), DriverError>)
    ensures
        source == match rejection(received@, 24) {
            Some(error) => Err::<(i32, i32), DriverError>(error),
            None => Ok((signed_field(received@, 16) as i32, signed_field(received@, 20) as i32)),
        },
{
    match check_response(received, 24) {
        Err(error) => Err(error),
        Ok(()) => Ok((read_le_i32(&received[16..20]), read_le_i32(&received[20..24]))),
    }
}

/// Frame header layout: a frame starts with its own length, the command id,
/// the subcommand id and the correlation tag, four bytes each, and the
/// payload follows at byte 16.
pub proof fn lemma_header_layout(command: Command, counter: u32)
    ensures
        command.frame(counter).len() == 16 + 4 * command.words().len() + command.padding(),
        command.frame(counter).len() <= 158,
        command.frame(counter).subrange(0, 4) == le_bytes(command.frame(counter).len() as u32),
        command.frame(counter).subrange(4, 8) == le_bytes(command.command_id()),
        command.frame(counter).subrange(8, 12) == le_bytes(command.subcommand_id()),
        command.frame(counter).subrange(12, 16) == le_bytes(correlation_tag(counter)),
        command.frame(counter).skip(16) == command.payload(),
{
    lemma_le_words_len(command.words());
}

/// Payload layout: word `index` of the payload stands at byte
/// `16 + 4 * index` of the frame.
pub proof fn lemma_payload_layout(command: Command, counter: u32, index: int)
    requires
        0 <= index < command.words().len(),
    ensures
        command.frame(counter).subrange(16 + 4 * index, 20 + 4 * index) == le_bytes(
            command.words()[index],
        ),
{
    lemma_le_words_at(command.words(), index);
}

/// Counter monotonicity, as far as the tag has room: a request that is
/// framed as the one that follows `counter` others carries the tag
/// `0x99100000 + counter`, as long as `counter` is below 2^20. From there
/// on the counter runs into the bits of the prefix.
pub proof fn lemma_tag_counts(command: Command, counter: u32)
    requires
        counter < 0x10_0000,
    ensures
        correlation_tag(counter) == 0x9910_0000 + counter,
        command.frame(counter).subrange(12, 16) == le_bytes((0x9910_0000 + counter) as u32),
{
    assert((0x9910_0000u32 | counter) == 0x9910_0000u32 + counter) by (bit_vector)
        requires
            counter < 0x10_0000u32,
    ;
    lemma_header_layout(command, counter);
}

} // verus!
