use v5sim::controller::{InputError, Inputs};
use v5sim::options::{encode_cold_header, parse_cold_header};
use v5sim::protocol::{Command, ControllerState, ControllerUpdate};
use v5sim::sdk::SdkState;

fn options() -> v5sim::options::ProgramOptions {
    parse_cold_header(&encode_cold_header(0, 2, 0)).unwrap()
}

fn raw_state() -> ControllerState {
    ControllerState {
        axis1: 50,
        axis2: -3,
        axis3: 7,
        axis4: 9,
        button_l1: false,
        button_l2: false,
        button_r1: false,
        button_r2: false,
        button_up: false,
        button_down: false,
        button_left: false,
        button_right: false,
        button_x: false,
        button_b: false,
        button_y: false,
        button_a: true,
        button_sel: false,
        battery_level: 77,
        button_all: false,
        flags: 3,
        battery_capacity: 99,
    }
}

#[test]
fn controller_update_installs_state_and_reads_by_v5_index() {
    let mut state = SdkState::new(options());
    state
        .execute_command(Command::ControllerUpdate(Some(ControllerUpdate::Raw(raw_state())), None))
        .unwrap();
    // analog left x is axis 1
    assert_eq!(state.inputs.controller_get(0, 0), Ok(50));
    // button A
    assert_eq!(state.inputs.controller_get(0, 17), Ok(1));
    // the partner slot stays disconnected
    assert_eq!(state.inputs.connection_status(1), Ok(0));
}

#[test]
fn axis_aliases_follow_the_abi() {
    let mut inputs = Inputs::new();
    inputs.set_controller(0, Some(ControllerUpdate::Raw(raw_state()))).unwrap();
    assert_eq!(inputs.controller_get(0, 0), Ok(50)); // analog left x  = axis1
    assert_eq!(inputs.controller_get(0, 1), Ok(-3)); // analog left y  = axis2
    assert_eq!(inputs.controller_get(0, 2), Ok(9)); // analog right x = axis4
    assert_eq!(inputs.controller_get(0, 3), Ok(7)); // analog right y = axis3
    assert_eq!(inputs.controller_get(0, 19), Ok(77)); // battery level
    assert_eq!(inputs.controller_get(0, 21), Ok(3)); // flags
    assert_eq!(inputs.controller_get(0, 22), Ok(99)); // battery capacity
}

#[test]
fn invalid_ids_and_indices_are_errors() {
    let mut inputs = Inputs::new();
    assert_eq!(inputs.controller_get(2, 0), Err(InputError::InvalidControllerId));
    assert_eq!(inputs.connected(5), Err(InputError::InvalidControllerId));
    assert_eq!(inputs.set_controller(2, None), Err(InputError::InvalidControllerId));
    inputs.set_controller(0, Some(ControllerUpdate::Raw(raw_state()))).unwrap();
    // analog spare indices are undefined
    assert_eq!(inputs.controller_get(0, 4), Err(InputError::InvalidControllerIndex));
    assert_eq!(inputs.controller_get(0, 23), Err(InputError::InvalidControllerIndex));
}

#[test]
fn absent_slots_read_zero() {
    let inputs = Inputs::new();
    assert_eq!(inputs.controller_get(0, 17), Ok(0));
    assert_eq!(inputs.connected(0), Ok(false));
}

#[test]
fn uuid_binding_starts_zeroed_and_takes_poll_results() {
    let mut inputs = Inputs::new();
    inputs
        .set_controller(0, Some(ControllerUpdate::UUID("030000004c050000".to_string())))
        .unwrap();
    assert_eq!(inputs.connected(0), Ok(true));
    assert_eq!(inputs.controller_get(0, 0), Ok(0));
    assert_eq!(inputs.poll_request(0), Some("030000004c050000".to_string()));
    // the input source answers with a fresh state
    inputs.apply_poll_result(0, Some(raw_state()));
    assert_eq!(inputs.controller_get(0, 0), Ok(50));
    // no answer keeps the last known state
    inputs.apply_poll_result(0, None);
    assert_eq!(inputs.controller_get(0, 0), Ok(50));
    // a raw slot never asks for polling
    inputs.set_controller(1, Some(ControllerUpdate::Raw(raw_state()))).unwrap();
    assert_eq!(inputs.poll_request(1), None);
}

#[test]
fn uuid_with_a_nul_byte_is_refused() {
    let mut inputs = Inputs::new();
    let bad = "0300\u{0}04c0".to_string();
    let r = inputs.set_controller(0, Some(ControllerUpdate::UUID(bad)));
    assert_eq!(r, Err(InputError::InvalidUuid));
    assert_eq!(inputs.connected(0), Ok(false));
    // the same refusal surfaces through command routing, and a valid
    // primary installed before the bad partner stays installed
    let opts =
        v5sim::options::parse_cold_header(&v5sim::options::encode_cold_header(0, 2, 0)).unwrap();
    let mut state = v5sim::sdk::SdkState::new(opts);
    let cmd = v5sim::protocol::Command::ControllerUpdate(
        Some(ControllerUpdate::Raw(raw_state())),
        Some(ControllerUpdate::UUID("ab\u{0}cd".to_string())),
    );
    assert_eq!(
        state.execute_command(cmd),
        Err(v5sim::sdk::SdkError::InvalidControllerUuid)
    );
    assert_eq!(state.inputs.controller_get(0, 0), Ok(50));
    assert_eq!(state.inputs.connection_status(1), Ok(0));
}

#[test]
fn clearing_a_slot_disconnects_it() {
    let mut inputs = Inputs::new();
    inputs.set_controller(0, Some(ControllerUpdate::Raw(raw_state()))).unwrap();
    inputs.set_controller(0, None).unwrap();
    assert_eq!(inputs.connected(0), Ok(false));
}
