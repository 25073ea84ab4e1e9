use procon::dispatch::{input_report_frame, magic_packet_frames, uart, Action, Dispatcher, SessionState};
use procon::error::ProtocolError;
use procon::report::Input;

fn recv(bytes: &[u8]) -> [u8; 128] {
    let mut buf = [0u8; 128];
    buf[..bytes.len()].copy_from_slice(bytes);
    buf
}

const NEUTRAL_REPORT: [u8; 11] =
    [0x81, 0x00, 0x00, 0x00, 0xff, 0xf7, 0x7f, 0xff, 0xf7, 0x7f, 0x00];

#[test]
fn handshake_info_command_draws_the_fixed_payload() {
    let mut d = Dispatcher::new();
    let input = Input::new();
    let out = d.dispatch(&recv(&[0x80, 0x01]), &input, 0);
    let reply = out.reply.unwrap();
    assert_eq!(reply.len(), 64);
    assert_eq!(&reply[..10], &[0x81, 0x01, 0x00, 0x03, 0x00, 0x00, 0x5e, 0x00, 0x53, 0x5e]);
    assert!(reply[10..].iter().all(|&b| b == 0));
    assert_eq!(d.state, SessionState::Handshaking);
    assert_eq!(out.action, Action::NoAction);
    assert!(out.recognized);
}

#[test]
fn baud_and_hid_commands_draw_empty_acks() {
    let mut d = Dispatcher::new();
    let input = Input::new();
    for sub in [0x02u8, 0x03] {
        let out = d.dispatch(&recv(&[0x80, sub]), &input, 0);
        let reply = out.reply.unwrap();
        assert_eq!(reply[0], 0x81);
        assert_eq!(reply[1], sub);
        assert!(reply[2..].iter().all(|&b| b == 0));
        assert_eq!(d.state, SessionState::Handshaking);
    }
}

#[test]
fn start_command_enters_streaming_with_no_reply() {
    let mut d = Dispatcher::new();
    let input = Input::new();
    let out = d.dispatch(&recv(&[0x80, 0x04]), &input, 0);
    assert!(out.reply.is_none());
    assert_eq!(out.action, Action::StartStreaming);
    assert_eq!(d.state, SessionState::Streaming);
    assert!(out.recognized);
}

#[test]
fn end_command_raises_stop_and_returns_to_idle() {
    let mut d = Dispatcher::new();
    let input = Input::new();
    d.dispatch(&recv(&[0x80, 0x04]), &input, 0);
    let out = d.dispatch(&recv(&[0x80, 0x05]), &input, 0);
    assert!(out.reply.is_none());
    assert_eq!(out.action, Action::RaiseStop);
    assert_eq!(d.state, SessionState::Idle);
}

#[test]
fn unknown_command_and_report_ids_draw_no_reply() {
    let mut d = Dispatcher::new();
    let input = Input::new();
    let out = d.dispatch(&recv(&[0x80, 0x77]), &input, 0);
    assert!(out.reply.is_none());
    assert!(!out.recognized);
    assert_eq!(d.state, SessionState::Idle);

    let out = d.dispatch(&recv(&[0x10, 0x01]), &input, 0);
    assert!(out.reply.is_none());
    assert!(!out.recognized);

    let mut unknown_sub = [0u8; 128];
    unknown_sub[0] = 0x01;
    unknown_sub[10] = 0x77;
    let out = d.dispatch(&unknown_sub, &input, 0);
    assert!(out.reply.is_none());
    assert!(!out.recognized);
}

#[test]
fn device_info_subcommand_carries_report_and_ack() {
    let mut d = Dispatcher::new();
    let input = Input::new();
    let mut req = [0u8; 128];
    req[0] = 0x01;
    req[10] = 0x01;
    let out = d.dispatch(&req, &input, 5);
    let reply = out.reply.unwrap();
    assert_eq!(reply.len(), 64);
    assert_eq!(reply[0], 0x21);
    assert_eq!(reply[1], 5);
    assert_eq!(&reply[2..13], &NEUTRAL_REPORT);
    // ack byte = 0x80 | sub, then the sub id and its data
    assert_eq!(&reply[13..17], &[0x81, 0x01, 0x03, 0x01]);
    assert!(reply[17..].iter().all(|&b| b == 0));
}

#[test]
fn capability_subcommand_carries_the_fixed_12_bytes() {
    let mut d = Dispatcher::new();
    let input = Input::new();
    let mut req = [0u8; 128];
    req[0] = 0x01;
    req[10] = 0x02;
    let out = d.dispatch(&req, &input, 9);
    let reply = out.reply.unwrap();
    assert_eq!(&reply[13..15], &[0x82, 0x02]);
    assert_eq!(
        &reply[15..27],
        &[0x03, 0x48, 0x03, 0x02, 0x5e, 0x53, 0x00, 0x5e, 0x00, 0x00, 0x03, 0x01]
    );
}

#[test]
fn mode_set_subcommands_draw_empty_acks() {
    let input = Input::new();
    for sub in [0x03u8, 0x04, 0x08, 0x30, 0x38, 0x40, 0x41, 0x48] {
        let mut d = Dispatcher::new();
        let mut req = [0u8; 128];
        req[0] = 0x01;
        req[10] = sub;
        let out = d.dispatch(&req, &input, 1);
        let reply = out.reply.unwrap();
        // empty data: the ack byte is 0x00
        assert_eq!(&reply[13..15], &[0x00, sub]);
        assert!(reply[15..].iter().all(|&b| b == 0));
    }
}

#[test]
fn nfc_ir_subcommand_draws_the_stub_payload() {
    let mut d = Dispatcher::new();
    let input = Input::new();
    let mut req = [0u8; 128];
    req[0] = 0x01;
    req[10] = 0x21;
    let out = d.dispatch(&req, &input, 2);
    let reply = out.reply.unwrap();
    assert_eq!(&reply[13..15], &[0xa1, 0x21]);
    assert_eq!(&reply[15..23], &[0x01, 0x00, 0xff, 0x00, 0x03, 0x00, 0x05, 0x01]);
}

#[test]
fn spi_read_subcommand_echoes_request_and_serves_data() {
    let mut d = Dispatcher::new();
    let input = Input::new();
    let mut req = [0u8; 128];
    req[0] = 0x01;
    req[10] = 0x10;
    req[11] = 0; // offset
    req[12] = 0x60; // selector
    req[15] = 16; // length
    let out = d.dispatch(&req, &input, 3);
    let reply = out.reply.unwrap();
    assert_eq!(&reply[13..15], &[0x90, 0x10]);
    assert_eq!(&reply[15..20], &[0x00, 0x00, 0x00, 0x60, 16]);
    assert_eq!(&reply[20..36], &[0xff; 16]);
    assert!(out.recognized);
}

#[test]
fn spi_read_of_absent_selector_draws_a_negative_ack() {
    let mut d = Dispatcher::new();
    let input = Input::new();
    let mut req = [0u8; 128];
    req[0] = 0x01;
    req[10] = 0x10;
    req[12] = 0x99;
    req[15] = 16;
    let out = d.dispatch(&req, &input, 3);
    let reply = out.reply.unwrap();
    assert_eq!(&reply[13..15], &[0x00, 0x10]);
    assert!(reply[15..].iter().all(|&b| b == 0));
}

#[test]
fn spi_read_with_bad_range_draws_a_negative_ack() {
    let mut d = Dispatcher::new();
    let input = Input::new();
    let mut req = [0u8; 128];
    req[0] = 0x01;
    req[10] = 0x10;
    req[11] = 60;
    req[12] = 0x80;
    req[15] = 10; // 60 + 10 > 64
    let out = d.dispatch(&req, &input, 3);
    let reply = out.reply.unwrap();
    assert_eq!(&reply[13..15], &[0x00, 0x10]);
}

#[test]
fn uart_rejects_oversized_subcommand_data() {
    let input = Input::new();
    let data = [0u8; 50];
    assert!(matches!(
        uart(&input, 0, true, 0x01, &data),
        Err(ProtocolError::PayloadTooLarge)
    ));
    assert!(uart(&input, 0, true, 0x01, &data[..49]).is_ok());
}

#[test]
fn input_report_frame_wraps_the_live_report() {
    let mut input = Input::new();
    input.a = true;
    let frame = input_report_frame(&input, 42);
    assert_eq!(frame.len(), 64);
    assert_eq!(frame[0], 0x30);
    assert_eq!(frame[1], 42);
    assert_eq!(frame[2], 0x81);
    assert_eq!(frame[3], 0x08);
    assert!(frame[13..].iter().all(|&b| b == 0));
}

#[test]
fn magic_packet_frames_match_the_session_opener() {
    let (first, second) = magic_packet_frames();
    assert_eq!(first.len(), 64);
    assert_eq!(&first[..2], &[0x81, 0x03]);
    assert!(first[2..].iter().all(|&b| b == 0));
    assert_eq!(second.len(), 64);
    assert_eq!(&second[..4], &[0x81, 0x01, 0x00, 0x03]);
    assert!(second[4..].iter().all(|&b| b == 0));
}
