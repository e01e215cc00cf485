use second::capture::{
    callback_should_skip, runner_should_stop, store_first_error, SessionMachine, BITS_PER_SAMPLE,
    CHANNELS, SAMPLE_RATE,
};
use second::errors::CaptureError;

/// Verify the WAV spec constants are correct for speech recognition.
#[test]
fn test_wav_spec_constants() {
    assert_eq!(SAMPLE_RATE, 16_000);
    assert_eq!(CHANNELS, 1);
    assert_eq!(BITS_PER_SAMPLE, 16);
}

#[test]
fn fresh_machine_is_not_recording() {
    let machine = SessionMachine::new();
    assert!(!machine.is_recording());
}

#[test]
fn stop_before_start_fails_with_not_recording() {
    let mut machine = SessionMachine::new();
    let result = machine.stop_session();
    let err = result.err().expect("stop on a fresh machine must fail");
    assert!(matches!(err, CaptureError::NotRecording));
    assert_eq!(err.message(), "No recording in progress");
    assert!(!machine.is_recording());
}

#[test]
fn start_transitions_to_recording() {
    let mut machine = SessionMachine::new();
    machine
        .start_session("out/recording_1.wav".to_string())
        .expect("first start must succeed");
    assert!(machine.is_recording());
}

#[test]
fn second_start_fails_and_leaves_session_untouched() {
    let mut machine = SessionMachine::new();
    machine
        .start_session("out/recording_1.wav".to_string())
        .expect("first start must succeed");
    let second = machine.start_session("out/recording_2.wav".to_string());
    let err = second.err().expect("second start must fail");
    assert!(matches!(err, CaptureError::AlreadyRecording));
    assert_eq!(err.message(), "A recording is already in progress");
    // The first session is untouched: stop still hands back its path.
    assert!(machine.is_recording());
    let path = machine.stop_session().expect("stop must succeed");
    assert_eq!(path, "out/recording_1.wav");
}

#[test]
fn stop_returns_the_path_start_was_given() {
    let mut machine = SessionMachine::new();
    machine
        .start_session("recordings/recording_42.wav".to_string())
        .expect("start must succeed");
    let path = machine.stop_session().expect("stop must succeed");
    assert_eq!(path, "recordings/recording_42.wav");
    assert!(!machine.is_recording());
}

#[test]
fn machine_is_reusable_after_stop() {
    let mut machine = SessionMachine::new();
    machine.start_session("a.wav".to_string()).expect("start");
    machine.stop_session().expect("stop");
    machine.start_session("b.wav".to_string()).expect("restart");
    let path = machine.stop_session().expect("stop again");
    assert_eq!(path, "b.wav");
}

#[test]
fn error_cell_keeps_the_first_error() {
    let mut cell: Option<String> = None;
    store_first_error(&mut cell, "WAV write error: disk full".to_string());
    store_first_error(&mut cell, "Audio stream error: device lost".to_string());
    assert_eq!(cell.as_deref(), Some("WAV write error: disk full"));
}

#[test]
fn runner_stops_on_set_or_unreadable_flag() {
    assert!(runner_should_stop(Some(true)));
    assert!(runner_should_stop(None)); // poisoned flag: fail-safe
    assert!(!runner_should_stop(Some(false)));
}

#[test]
fn callback_skips_only_on_a_flag_known_to_be_set() {
    assert!(callback_should_skip(Some(true)));
    assert!(!callback_should_skip(None)); // busy lock: keep capturing
    assert!(!callback_should_skip(Some(false)));
}
