use it9910hd::command::{
    check_response, device_model, grabber_state, hardware_model, queried_time, selected_source,
    Command, DriverError,
};

fn word(frame: &[u8], at: usize) -> u32 {
    u32::from_le_bytes([frame[at], frame[at + 1], frame[at + 2], frame[at + 3]])
}

fn response(len: usize, code: i32) -> Vec<u8> {
    let mut received = vec![0u8; len];
    if len >= 16 {
        received[12..16].copy_from_slice(&code.to_le_bytes());
    }
    received
}

#[test]
fn set_state_frame_is_exact() {
    let frame = Command::SetState { state: 2 }.encode(0);
    assert_eq!(
        frame,
        vec![
            0x14, 0x00, 0x00, 0x00, 0x02, 0x00, 0x10, 0x99, 0x02, 0x00, 0x00, 0x00, 0x00, 0x00,
            0x10, 0x99, 0x02, 0x00, 0x00, 0x00,
        ]
    );
}

#[test]
fn set_pc_grabber_frame_is_exact() {
    let frame = Command::SetPcGrabber { start: 1 }.encode(5);
    assert_eq!(
        frame,
        vec![
            0x1C, 0x00, 0x00, 0x00, 0x01, 0xE0, 0x10, 0x99, 0x02, 0x00, 0x00, 0x00, 0x05, 0x00,
            0x10, 0x99, 0x01, 0x40, 0x38, 0x38, 0x00, 0x00, 0x00, 0x00, 0x01, 0x00, 0x00, 0x00,
        ]
    );
}

#[test]
fn header_holds_length_command_subcommand_and_tag() {
    let commands = [
        (Command::DebugQueryTime { time: 1 }, 0x9910_F001u32, 1u32, 20usize),
        (Command::GetSource, 0x9910_0003, 1, 24),
        (Command::SetSource { audio_source: 2, video_source: 4 }, 0x9910_0003, 2, 24),
        (Command::SetBrightness { brightness: -100 }, 0x9910_0101, 2, 24),
        (Command::SetContrast { contrast: 100 }, 0x9910_0102, 2, 24),
        (Command::SetHue { hue: 360 }, 0x9910_0103, 2, 24),
        (Command::SetSaturation { saturation: 1000 }, 0x9910_0104, 2, 24),
        (Command::SetPcGrabber { start: 0 }, 0x9910_E001, 2, 28),
        (
            Command::SetPcGrabber2 {
                device_model: 2,
                counter: 0,
                width: 1920,
                height: 1080,
                kbitrate: 20000,
                framerate: 25,
            },
            0x9910_E001,
            2,
            76,
        ),
        (Command::GetPcGrabber, 0x9910_E001, 1, 28),
        (Command::GetHwGrabber, 0x9910_F002, 1, 158),
        (Command::SetState { state: 0 }, 0x9910_0002, 2, 20),
    ];
    for (counter, (command, id, subcommand, len)) in commands.iter().enumerate() {
        let frame = command.encode(counter as u32);
        assert_eq!(frame.len(), *len);
        assert_eq!(word(&frame, 0) as usize, frame.len());
        assert_eq!(word(&frame, 4), *id);
        assert_eq!(word(&frame, 8), *subcommand);
        assert_eq!(word(&frame, 12), 0x9910_0000 + counter as u32);
    }
}

#[test]
fn tag_is_prefix_or_counter() {
    let frame = Command::GetPcGrabber.encode(0x000F_FFFF);
    assert_eq!(word(&frame, 12), 0x991F_FFFF);
    // From 2^20 on the counter runs into the prefix.
    let frame = Command::GetPcGrabber.encode(0x0010_0000);
    assert_eq!(word(&frame, 12), 0x9910_0000);
    let frame = Command::GetPcGrabber.encode(u32::MAX);
    assert_eq!(word(&frame, 12), u32::MAX);
}

#[test]
fn slot_frame_has_its_fields_at_their_offsets() {
    let frame = Command::SetPcGrabber2 {
        device_model: 2,
        counter: 7,
        width: 1920,
        height: 1080,
        kbitrate: 20000,
        framerate: 25,
    }
    .encode(3);
    assert_eq!(frame.len(), 16 + 4 * 15);
    assert_eq!(word(&frame, 16), 0x3838_2008);
    assert_eq!(word(&frame, 20), 0);
    assert_eq!(word(&frame, 24), 4);
    assert_eq!(word(&frame, 28), 7);
    assert_eq!(word(&frame, 32), 15);
    assert_eq!(word(&frame, 36), 1920);
    assert_eq!(word(&frame, 40), 1080);
    assert_eq!(word(&frame, 44), 20000);
    assert_eq!(word(&frame, 48), 0);
    assert_eq!(word(&frame, 52), 0);
    assert_eq!(word(&frame, 56), 25);
    assert!(frame[60..].iter().all(|byte| *byte == 0));
}

#[test]
fn slot_frame_of_a_legacy_device_has_mode_five() {
    for device_model in [0, 1, 3, -1] {
        let frame = Command::SetPcGrabber2 {
            device_model,
            counter: 0,
            width: 1280,
            height: 720,
            kbitrate: 2000,
            framerate: 30,
        }
        .encode(0);
        assert_eq!(word(&frame, 24), 5);
    }
}

#[test]
fn picture_control_frames_hold_zero_and_the_signed_value() {
    let frame = Command::SetBrightness { brightness: -100 }.encode(0);
    assert_eq!(word(&frame, 16), 0);
    assert_eq!(&frame[20..24], &(-100i32).to_le_bytes());
    let frame = Command::SetSaturation { saturation: 1000 }.encode(0);
    assert_eq!(word(&frame, 16), 0);
    assert_eq!(word(&frame, 20), 1000);
}

#[test]
fn query_frames_are_zero_but_for_their_key() {
    let frame = Command::GetPcGrabber.encode(1);
    assert_eq!(word(&frame, 16), 0x3838_4001);
    assert!(frame[20..].iter().all(|byte| *byte == 0));
    let frame = Command::GetHwGrabber.encode(1);
    assert_eq!(frame.len(), 16 + 35 * 4 + 2);
    assert_eq!(word(&frame, 16), 8);
    assert!(frame[20..].iter().all(|byte| *byte == 0));
    let frame = Command::GetSource.encode(1);
    assert!(frame[16..].iter().all(|byte| *byte == 0));
    let frame = Command::DebugQueryTime { time: -2 }.encode(1);
    assert_eq!(&frame[16..20], &(-2i32).to_le_bytes());
    let frame = Command::SetSource { audio_source: 2, video_source: 4 }.encode(1);
    assert_eq!(word(&frame, 16), 2);
    assert_eq!(word(&frame, 20), 4);
}

#[test]
fn device_model_follows_byte_31() {
    assert_eq!(device_model(0x17), 0);
    assert_eq!(device_model(0x27), 1);
    assert_eq!(device_model(0x37), 2);
    assert_eq!(device_model(0x00), 2);
    for byte in 0..=255u8 {
        if byte != 0x17 && byte != 0x27 {
            assert_eq!(device_model(byte), 2);
        }
    }
}

#[test]
fn check_response_accepts_a_result_code_of_zero_or_more() {
    assert_eq!(check_response(&response(16, 0), 16), Ok(()));
    assert_eq!(check_response(&response(512, i32::MAX), 16), Ok(()));
    assert_eq!(check_response(&response(28, 0), 28), Ok(()));
}

#[test]
fn check_response_reports_a_negative_result_code() {
    assert_eq!(check_response(&response(16, -1), 16), Err(DriverError::Device(-1)));
    assert_eq!(check_response(&response(20, i32::MIN), 16), Err(DriverError::Device(i32::MIN)));
    // The result code is looked at before the length that the caller needs.
    assert_eq!(check_response(&response(16, -7), 32), Err(DriverError::Device(-7)));
}

#[test]
fn check_response_reports_a_response_that_ends_early() {
    assert_eq!(check_response(&[], 16), Err(DriverError::Truncated));
    assert_eq!(check_response(&response(15, 0), 16), Err(DriverError::Truncated));
    assert_eq!(check_response(&response(27, 0), 28), Err(DriverError::Truncated));
}

#[test]
fn grabber_state_reads_bytes_24_to_28() {
    let mut received = response(28, 0);
    received[24..28].copy_from_slice(&1i32.to_le_bytes());
    assert_eq!(grabber_state(&received), Ok(1));
    received[24..28].copy_from_slice(&(-3i32).to_le_bytes());
    assert_eq!(grabber_state(&received), Ok(-3));
    assert_eq!(grabber_state(&response(28, 0)), Ok(0));
    assert_eq!(grabber_state(&response(27, 0)), Err(DriverError::Truncated));
    assert_eq!(grabber_state(&response(28, -2)), Err(DriverError::Device(-2)));
}

#[test]
fn hardware_model_reads_byte_31() {
    let mut received = response(158, 0);
    received[31] = 0x17;
    assert_eq!(hardware_model(&received), Ok(0));
    received[31] = 0x27;
    assert_eq!(hardware_model(&received), Ok(1));
    received[31] = 0x37;
    assert_eq!(hardware_model(&received), Ok(2));
    received[31] = 0x00;
    assert_eq!(hardware_model(&received), Ok(2));
    received[31] = 0x99;
    assert_eq!(hardware_model(&received), Ok(2));
    assert_eq!(hardware_model(&response(31, 0)), Err(DriverError::Truncated));
    assert_eq!(hardware_model(&response(32, -1)), Err(DriverError::Device(-1)));
}

#[test]
fn queried_time_and_selected_source_read_their_fields() {
    let mut received = response(24, 0);
    received[16..20].copy_from_slice(&(-9i32).to_le_bytes());
    received[20..24].copy_from_slice(&4i32.to_le_bytes());
    assert_eq!(queried_time(&received), Ok(-9));
    assert_eq!(selected_source(&received), Ok((-9, 4)));
    assert_eq!(queried_time(&response(19, 0)), Err(DriverError::Truncated));
    assert_eq!(selected_source(&response(23, 0)), Err(DriverError::Truncated));
    assert_eq!(selected_source(&response(24, -5)), Err(DriverError::Device(-5)));
}
