use v5sim::options::{encode_cold_header, parse_cold_header};
use v5sim::protocol::Event;
use v5sim::sdk::SdkState;
use v5sim::serial::{Serial, SerialError, STDOUT_CAPACITY};

fn options() -> v5sim::options::ProgramOptions {
    parse_cold_header(&encode_cold_header(0, 2, 0)).unwrap()
}

#[test]
fn write_returns_min_of_length_and_free_room() {
    let mut serial = Serial::new();
    assert_eq!(serial.write(1, b"hello"), Ok(5));
    assert_eq!(serial.num_free_bytes(1), Ok(STDOUT_CAPACITY - 5));
    let big = vec![0x41u8; STDOUT_CAPACITY];
    // only the remaining room is written
    assert_eq!(serial.write(1, &big), Ok(STDOUT_CAPACITY - 5));
    assert_eq!(serial.num_free_bytes(1), Ok(0));
    assert_eq!(serial.write(1, b"x"), Ok(0));
}

#[test]
fn write_rejects_undefined_channels() {
    let mut serial = Serial::new();
    assert_eq!(serial.write(0, b"x"), Err(SerialError::InvalidChannel));
    assert_eq!(serial.write(2, b"x"), Err(SerialError::InvalidChannel));
    assert_eq!(serial.num_free_bytes(7), Err(SerialError::InvalidChannel));
    assert_eq!(serial.peek_byte(3), Err(SerialError::InvalidChannel));
}

#[test]
fn write_all_fails_when_it_does_not_fit() {
    let mut serial = Serial::new();
    assert_eq!(serial.write_all(1, b"abc"), Ok(()));
    let big = vec![0x42u8; STDOUT_CAPACITY];
    assert_eq!(serial.write_all(1, &big), Err(SerialError::BufferOverflow));
}

#[test]
fn input_reads_are_last_in_first_out() {
    let mut serial = Serial::new();
    assert_eq!(serial.read_byte(1), Err(SerialError::NoData));
    serial.buffer_input(1, b"abc").unwrap();
    assert_eq!(serial.peek_byte(1), Ok(b'c'));
    assert_eq!(serial.read_byte(1), Ok(b'c'));
    assert_eq!(serial.read_byte(1), Ok(b'b'));
    assert_eq!(serial.read_byte(1), Ok(b'a'));
    assert_eq!(serial.read_byte(1), Err(SerialError::NoData));
}

#[test]
fn write_buffer_then_task_flush_emits_one_serial_event() {
    let mut state = SdkState::new(options());
    let mut mem = vec![0u8; 64];
    mem[10..15].copy_from_slice(b"hello");
    let written = state.vex_serial_write_buffer(&mem, 1, 10, 5);
    assert_eq!(written, 5);
    assert_eq!(state.vex_serial_write_free(1), (STDOUT_CAPACITY - 5) as i32);
    state.flush_serial();
    let events = state.take_events();
    assert_eq!(events.len(), 1);
    match &events[0] {
        Event::Serial(sd) => {
            assert_eq!(sd.channel, 1);
            // "hello" in the standard base64 alphabet
            assert_eq!(sd.data, "aGVsbG8=");
        }
        other => panic!("unexpected event {other:?}"),
    }
    // the buffer cursor is back at zero
    assert_eq!(state.vex_serial_write_free(1), STDOUT_CAPACITY as i32);
    state.flush_serial();
    assert!(state.take_events().is_empty());
}

#[test]
fn serial_sentinels_match_the_guest_abi() {
    let mut state = SdkState::new(options());
    assert_eq!(state.vex_serial_write_char(2, b'x' as u32), -1);
    assert_eq!(state.vex_serial_write_char(1, b'x' as u32), 1);
    assert_eq!(state.vex_serial_read_char(1), -1);
    assert_eq!(state.vex_serial_peek_char(1), -1);
    assert_eq!(state.vex_serial_write_free(9), 0);
    let mem = vec![0u8; 8];
    // a buffer reaching outside memory is refused
    assert_eq!(state.vex_serial_write_buffer(&mem, 1, 6, 4), -1);
}
