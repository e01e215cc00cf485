use second::devices::{select_device, AudioDevice};
use second::errors::CaptureError;

fn enumeration() -> Vec<AudioDevice> {
    vec![
        AudioDevice { name: "Built-in Microphone".to_string() },
        AudioDevice { name: "USB Headset".to_string() },
        AudioDevice { name: "USB Headset".to_string() },
    ]
}

#[test]
fn exact_name_match_is_found() {
    let devices = enumeration();
    let got = select_device(&devices, &"USB Headset".to_string());
    assert_eq!(got.ok(), Some(1)); // first of the two equally named devices
}

#[test]
fn first_device_can_be_selected() {
    let devices = enumeration();
    let got = select_device(&devices, &"Built-in Microphone".to_string());
    assert_eq!(got.ok(), Some(0));
}

#[test]
fn missing_device_is_reported_by_name() {
    let devices = enumeration();
    let got = select_device(&devices, &"__nonexistent_device_12345__".to_string());
    let err = got.err().expect("expected Err variant");
    assert!(matches!(err, CaptureError::DeviceNotFound(Some(_))));
    let message = err.message();
    assert!(
        message.contains("not found"),
        "expected 'not found' in error, got: {message}"
    );
    assert_eq!(message, "Input device '__nonexistent_device_12345__' not found");
}

#[test]
fn empty_enumeration_never_matches() {
    let devices: Vec<AudioDevice> = Vec::new();
    let got = select_device(&devices, &"anything".to_string());
    assert!(matches!(got, Err(CaptureError::DeviceNotFound(Some(_)))));
}
