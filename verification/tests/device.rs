use mutebtn::executor::{
    exec_dispatch, outcome_from_read, read_interrupt_result, write_value_result, ExecAction,
    ExecInput, InputDecoder, ReadOutcome, RetryDecision, RetryState, IO_RETRIES,
};
use mutebtn::muteme::{Color, DeviceEvent, ExecMessage, IntMessage, DEVICE_PID, DEVICE_VID};
use mutebtn::poller::{poller_stops, PollerInput};

#[test]
fn color_byte_values_match_the_protocol() {
    assert_eq!(Color::Red.get_byte_value(), 0x01);
    assert_eq!(Color::Green.get_byte_value(), 0x02);
    assert_eq!(Color::Yellow.get_byte_value(), 0x03);
    assert_eq!(Color::Blue.get_byte_value(), 0x04);
    assert_eq!(Color::Purple.get_byte_value(), 0x05);
    assert_eq!(Color::Cyan.get_byte_value(), 0x06);
    assert_eq!(Color::White.get_byte_value(), 0x07);
    assert_eq!(Color::NoColor.get_byte_value(), 0x00);
}

#[test]
fn device_identifiers() {
    assert_eq!(DEVICE_VID, 0x20a0);
    assert_eq!(DEVICE_PID, 0x42da);
}

#[test]
fn decode_touch_and_release() {
    let mut dec = InputDecoder::new();
    assert_eq!(dec.decode(1), Some(DeviceEvent::Touch));
    assert_eq!(dec.decode(2), Some(DeviceEvent::Release));
    assert_eq!(dec.decode(1), Some(DeviceEvent::Touch));
}

#[test]
fn decode_repeats_are_debounced() {
    let mut dec = InputDecoder::new();
    assert_eq!(dec.decode(1), Some(DeviceEvent::Touch));
    assert_eq!(dec.decode(1), None);
    assert_eq!(dec.decode(1), None);
    assert_eq!(dec.decode(2), Some(DeviceEvent::Release));
    assert_eq!(dec.decode(2), None);
}

#[test]
fn decode_ignores_zero_and_noise() {
    let mut dec = InputDecoder::new();
    assert_eq!(dec.decode(0), None);
    assert_eq!(dec.decode(5), None);
    assert_eq!(dec.decode(0xff), None);
    // Noise does not disturb the remembered state either.
    assert_eq!(dec.decode(1), Some(DeviceEvent::Touch));
    assert_eq!(dec.decode(0), None);
    assert_eq!(dec.decode(1), None);
}

#[test]
fn all_zero_read_produces_no_event() {
    let buf = [0u8; 8];
    // A zero byte count is the idle answer, not data.
    assert_eq!(outcome_from_read(&buf, Some(0)), ReadOutcome::NoData);
    // Even a "filled" all-zero buffer decodes to no event.
    match outcome_from_read(&buf, Some(8)) {
        ReadOutcome::Data(raw) => {
            let mut dec = InputDecoder::new();
            assert_eq!(dec.decode(raw), None);
        }
        other => panic!("unexpected outcome {:?}", other),
    }
    assert_eq!(outcome_from_read(&buf, None), ReadOutcome::Failure);
}

#[test]
fn read_outcome_carries_the_state_byte() {
    let buf = [0u8, 0, 0, 2, 0, 0, 0, 0];
    assert_eq!(outcome_from_read(&buf, Some(8)), ReadOutcome::Data(2));
}

#[test]
fn read_succeeds_after_three_failures() {
    let outcomes = vec![
        ReadOutcome::Failure,
        ReadOutcome::Failure,
        ReadOutcome::Failure,
        ReadOutcome::Data(1),
    ];
    assert_eq!(read_interrupt_result(&outcomes), Some(1));
}

#[test]
fn read_gives_up_without_a_success() {
    let outcomes = vec![ReadOutcome::Failure, ReadOutcome::Failure, ReadOutcome::Failure];
    assert_eq!(read_interrupt_result(&outcomes), None);
    let exhausted = vec![ReadOutcome::Failure; 5];
    assert_eq!(read_interrupt_result(&exhausted), None);
}

#[test]
fn read_stops_on_idle_answer() {
    let outcomes = vec![ReadOutcome::NoData, ReadOutcome::Data(1)];
    assert_eq!(read_interrupt_result(&outcomes), None);
    let after_failure = vec![ReadOutcome::Failure, ReadOutcome::NoData, ReadOutcome::Data(1)];
    assert_eq!(read_interrupt_result(&after_failure), None);
    assert_eq!(read_interrupt_result(&vec![ReadOutcome::Data(2)]), Some(2));
    assert_eq!(read_interrupt_result(&Vec::new()), None);
}

#[test]
fn write_succeeds_after_three_failures() {
    assert!(write_value_result(&vec![false, false, false, true]));
}

#[test]
fn write_is_dropped_without_a_success() {
    assert!(!write_value_result(&vec![false, false, false, false, true]));
    assert!(!write_value_result(&vec![false, false, false]));
    assert!(write_value_result(&vec![true]));
    assert!(!write_value_result(&Vec::new()));
}

#[test]
fn retry_budget_allows_three_backoffs() {
    let mut retry = RetryState::new();
    assert_eq!(retry.tries_left, 1 + IO_RETRIES);
    assert_eq!(retry.after_failure(), RetryDecision::Backoff);
    assert_eq!(retry.after_failure(), RetryDecision::Backoff);
    assert_eq!(retry.after_failure(), RetryDecision::Backoff);
    assert_eq!(retry.after_failure(), RetryDecision::GiveUp);
}

#[test]
fn executor_dispatch() {
    assert_eq!(
        exec_dispatch(&ExecInput::Message(ExecMessage::SetReport(0x41))),
        ExecAction::Write(0x41)
    );
    assert_eq!(exec_dispatch(&ExecInput::Message(ExecMessage::ReadInterrupt)), ExecAction::Poll);
    assert_eq!(exec_dispatch(&ExecInput::Message(ExecMessage::Terminate)), ExecAction::Stop);
    assert_eq!(exec_dispatch(&ExecInput::Disconnected), ExecAction::Stop);
}

#[test]
fn poller_stops_only_on_terminate_or_disconnect() {
    assert!(poller_stops(&PollerInput::Message(IntMessage::Terminate)));
    assert!(poller_stops(&PollerInput::Disconnected));
    assert!(!poller_stops(&PollerInput::Timeout));
}
