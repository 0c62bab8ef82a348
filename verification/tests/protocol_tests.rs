use v5sim::options::{encode_cold_header, parse_cold_header};
use v5sim::protocol::{
    base64_decode, base64_encode, Command, CommandPredicate, CompetitionMode, Event, Protocol,
    ProtocolError, SerialData, TextMetrics, V5FontFamily, V5FontSize, V5Text,
};
use v5sim::sdk::{SdkError, SdkState};

fn options() -> v5sim::options::ProgramOptions {
    parse_cold_header(&encode_cold_header(0, 2, 0)).unwrap()
}

fn text(s: &str) -> V5Text {
    V5Text {
        data: s.to_string(),
        font_family: V5FontFamily::UserMono,
        font_size: V5FontSize::Normal,
    }
}

fn metrics_cmd(s: &str, w: usize) -> Command {
    Command::SetTextMetrics { text: text(s), metrics: TextMetrics { width: w, height: 10 } }
}

#[test]
fn wait_for_command_replays_earlier_commands_in_order() {
    let mut protocol = Protocol::open();
    let pred = CommandPredicate::SetTextMetricsFor(text("abc"));
    // c1, c2 do not match; c3 does; c4 is never read
    let c1 = Command::StartExecution;
    let c2 = metrics_cmd("other", 1);
    let c3 = metrics_cmd("abc", 42);
    assert_eq!(protocol.wait_step(c1.clone(), &pred), None);
    assert_eq!(protocol.wait_step(c2.clone(), &pred), None);
    assert_eq!(protocol.wait_step(c3.clone(), &pred), Some(c3));
    // the set-aside commands come back first, in arrival order
    assert_eq!(protocol.next_queued(), Some(c1));
    assert_eq!(protocol.next_queued(), Some(c2));
    assert_eq!(protocol.next_queued(), None);
}

#[test]
fn handshake_completes_on_compatible_version() {
    let mut protocol = Protocol::open();
    let reply = protocol
        .handshake_step(Command::Handshake { version: 1, extensions: vec![] })
        .expect("handshake should succeed");
    assert_eq!(reply, Event::Handshake { version: 1, extensions: vec![] });
    assert!(protocol.handshake_finished);
    // a second handshake is now refused
    let again = protocol.accept_incoming(Command::Handshake { version: 1, extensions: vec![] });
    assert_eq!(again, Err(ProtocolError::HandshakeAfterComplete));
    // other commands pass through
    let ok = protocol.accept_incoming(Command::StartExecution);
    assert_eq!(ok, Ok(Command::StartExecution));
}

#[test]
fn handshake_rejects_old_versions_and_other_commands() {
    let mut protocol = Protocol::open();
    let r = protocol.handshake_step(Command::Handshake { version: 0, extensions: vec![] });
    assert_eq!(r, Err(ProtocolError::IncompatibleVersion { expected: 1, got: 0 }));
    assert!(!protocol.handshake_finished);
    let r = protocol.handshake_step(Command::StartExecution);
    assert_eq!(
        r,
        Err(ProtocolError::InvalidCommandDuringHandshake { command: Command::StartExecution })
    );
}

#[test]
fn implied_handshake_skips_the_exchange() {
    let mut protocol = Protocol::open();
    protocol.handshake_implied();
    assert!(protocol.handshake_finished);
}

#[test]
fn start_execution_twice_is_an_error() {
    let mut state = SdkState::new(options());
    assert!(!state.executing());
    assert_eq!(state.execute_command(Command::StartExecution), Ok(()));
    assert!(state.executing());
    assert_eq!(state.execute_command(Command::StartExecution), Err(SdkError::StartedTwice));
    assert!(state.executing());
}

#[test]
fn competition_mode_updates_the_status_word() {
    let mut state = SdkState::new(options());
    // initial: enabled driver mode, not connected
    assert_eq!(state.competition_status(), 0);
    state
        .execute_command(Command::CompetitionMode(CompetitionMode {
            enabled: false,
            connected: true,
            mode: v5sim::protocol::CompMode::Auto,
            is_competition: true,
        }))
        .unwrap();
    assert_eq!(state.competition_status(), 1 + 2 + 4 + 8);
}

#[test]
fn inbound_serial_data_reaches_the_input_buffer() {
    let mut state = SdkState::new(options());
    let data = SerialData { channel: 1, data: base64_encode(b"xy") };
    state.execute_command(Command::Serial(data)).unwrap();
    assert_eq!(state.vex_serial_read_char(1), b'y' as i32);
    assert_eq!(state.vex_serial_read_char(1), b'x' as i32);
    // a payload that does not decode is refused
    let bad = SerialData { channel: 1, data: "!!!".to_string() };
    assert_eq!(state.execute_command(Command::Serial(bad)), Err(SdkError::SerialDecodeFailed));
    // an undefined channel is refused
    let wrong = SerialData { channel: 2, data: base64_encode(b"z") };
    assert_eq!(state.execute_command(Command::Serial(wrong)), Err(SdkError::SerialBufferFailed));
}

#[test]
fn set_text_metrics_command_fills_the_cache() {
    let mut state = SdkState::new(options());
    state.execute_command(metrics_cmd("abc", 33)).unwrap();
    let mut mem = vec![0u8; 16];
    mem[0..3].copy_from_slice(b"abc");
    let m = state
        .vex_display_text_metrics(&mem, 0, V5FontFamily::UserMono, V5FontSize::Normal)
        .unwrap();
    assert_eq!(m, Some(TextMetrics { width: 33, height: 10 }));
    assert!(state.take_events().is_empty());
}

#[test]
fn base64_round_trips_through_the_engine() {
    assert_eq!(base64_encode(b""), "");
    assert_eq!(base64_encode(b"hello"), "aGVsbG8=");
    assert_eq!(base64_decode("aGVsbG8="), Some(b"hello".to_vec()));
    assert_eq!(base64_decode("@@"), None);
}

#[test]
fn ready_event_opens_setup() {
    let mut state = SdkState::new(options());
    state.begin_setup();
    assert_eq!(state.take_events(), vec![Event::Ready]);
}
