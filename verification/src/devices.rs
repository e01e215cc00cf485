//! Choosing an input device.
//!
//! Enumerating the devices of the host audio service is left to the
//! unverified shell; it hands the readable device names over as plain
//! values, and the selection rule — first device whose name matches the
//! request exactly — is decided here.

use vstd::prelude::*;

use crate::errors::CaptureError;

verus! {

/// Information about one available audio input device.
#[derive(Debug)]
pub struct AudioDevice {
    pub name: String,
}

/// Pick the requested device out of an enumeration.
///
/// Returns the index of the first device whose name is exactly `name`, and
/// `DeviceNotFound` naming the request when no device matches.
pub fn select_device(devices: &Vec<AudioDevice>, name: &String) -> (r: Result<usize, CaptureError>)
    ensures
        r matches Ok(i) ==> 0 <= i < devices@.len() && devices@[i as int].name@ == name@
            && (forall|j: int| 0 <= j < i ==> devices@[j].name@ != name@),
        r is Err ==> (forall|j: int| 0 <= j < devices@.len() ==> devices@[j].name@ != name@),
        r matches Err(e) ==> e matches CaptureError::DeviceNotFound(n) && n matches Some(s)
            && s@ == name@,
{
    let mut i: usize = 0;
    while i < devices.len()
        invariant
            0 <= i <= devices@.len(),
            forall|j: int| 0 <= j < i ==> devices@[j].name@ != name@,
        decreases devices@.len() - i,
    {
        let d = &devices[i];
        if d.name == *name {
            return Ok(i);
        }
        i = i + 1;
    }
    Err(CaptureError::DeviceNotFound(Some(name.clone())))
}

} // verus!
