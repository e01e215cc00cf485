//! The error taxonomy of the capture engine, with the exact user-facing
//! message of each error.

use vstd::prelude::*;
use vstd::string::StringExecFns;

verus! {

/// Everything that can go wrong around a capture session.
///
/// State-machine violations (`AlreadyRecording`, `NotRecording`) are raised
/// synchronously by the session manager; the remaining variants carry the
/// detail text of a failure met while preparing or running a session.
#[derive(Debug)]
pub enum CaptureError {
    /// A session is already running; no second one may start.
    AlreadyRecording,
    /// No session is running; there is nothing to stop.
    NotRecording,
    /// `Some(name)`: no input device bears that name.
    /// `None`: the system has no default input device.
    DeviceNotFound(Option<String>),
    /// The recordings directory could not be created.
    DirectoryError(String),
    /// The input stream could not be built or started.
    StreamBuildFailed(String),
    /// A sample could not be written to the container file.
    WriteFailed(String),
    /// The capture thread failed or panicked; the detail says how.
    CaptureFailed(String),
    /// The output path cannot be represented as UTF-8.
    PathEncodingError,
}

impl CaptureError {
    /// The user-facing description of this error.
    pub open spec fn message_spec(self) -> Seq<char> {
        match self {
            CaptureError::AlreadyRecording => "A recording is already in progress"@,
            CaptureError::NotRecording => "No recording in progress"@,
            CaptureError::DeviceNotFound(Some(name)) => "Input device '"@ + name@ + "' not found"@,
            CaptureError::DeviceNotFound(None) => "No default input device available"@,
            CaptureError::DirectoryError(detail) => "Failed to create recordings directory: "@
                + detail@,
            CaptureError::StreamBuildFailed(detail) => "Failed to build input stream: "@ + detail@,
            CaptureError::WriteFailed(detail) => "WAV write error: "@ + detail@,
            CaptureError::CaptureFailed(detail) => "Capture thread error: "@ + detail@,
            CaptureError::PathEncodingError => "Recording path is not valid UTF-8"@,
        }
    }

    /// Render the error as its user-facing message.
    pub fn message(&self) -> (r: String)
        ensures
            r@ == self.message_spec(),
    {
        match self {
            CaptureError::AlreadyRecording => "A recording is already in progress".to_owned(),
            CaptureError::NotRecording => "No recording in progress".to_owned(),
            CaptureError::DeviceNotFound(Some(name)) => {
                let mut s = "Input device '".to_owned();
                s.append(name.as_str());
                s.append("' not found");
                s
            },
            CaptureError::DeviceNotFound(None) => "No default input device available".to_owned(),
            CaptureError::DirectoryError(detail) => {
                let mut s = "Failed to create recordings directory: ".to_owned();
                s.append(detail.as_str());
                s
            },
            CaptureError::StreamBuildFailed(detail) => {
                let mut s = "Failed to build input stream: ".to_owned();
                s.append(detail.as_str());
                s
            },
            CaptureError::WriteFailed(detail) => {
                let mut s = "WAV write error: ".to_owned();
                s.append(detail.as_str());
                s
            },
            CaptureError::CaptureFailed(detail) => {
                let mut s = "Capture thread error: ".to_owned();
                s.append(detail.as_str());
                s
            },
            CaptureError::PathEncodingError => "Recording path is not valid UTF-8".to_owned(),
        }
    }
}

} // verus!
