use second::errors::CaptureError;

#[test]
fn state_machine_violation_messages() {
    assert_eq!(
        CaptureError::AlreadyRecording.message(),
        "A recording is already in progress"
    );
    assert_eq!(CaptureError::NotRecording.message(), "No recording in progress");
}

#[test]
fn device_not_found_messages() {
    assert_eq!(
        CaptureError::DeviceNotFound(Some("Mic 2".to_string())).message(),
        "Input device 'Mic 2' not found"
    );
    assert_eq!(
        CaptureError::DeviceNotFound(None).message(),
        "No default input device available"
    );
}

#[test]
fn failure_messages_carry_their_detail() {
    assert_eq!(
        CaptureError::DirectoryError("permission denied".to_string()).message(),
        "Failed to create recordings directory: permission denied"
    );
    assert_eq!(
        CaptureError::StreamBuildFailed("unsupported format".to_string()).message(),
        "Failed to build input stream: unsupported format"
    );
    assert_eq!(
        CaptureError::WriteFailed("disk full".to_string()).message(),
        "WAV write error: disk full"
    );
    assert_eq!(
        CaptureError::CaptureFailed("thread panicked".to_string()).message(),
        "Capture thread error: thread panicked"
    );
}

#[test]
fn path_encoding_message() {
    assert_eq!(
        CaptureError::PathEncodingError.message(),
        "Recording path is not valid UTF-8"
    );
}
