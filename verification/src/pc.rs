//! The reference backend: a hardware-free stand-in that captures by reading a
//! fixed sample file from the working directory and saves by writing bytes
//! verbatim to the destination path.
//!
//! The blocking filesystem calls themselves live in the host shell; this
//! module fixes every decision the backend makes around them: which file
//! stands in for the hardware, which MIME tag the payload carries, and how a
//! raw filesystem outcome becomes a capability-level result.

use vstd::prelude::*;

verus! {

use vstd::string::StringExecFns;
use crate::service::{CameraError, ImageData};

/// The desktop (PC) camera backend. It holds no state of its own: its capture
/// source is a fixed file, and its save target is whatever destination the
/// caller supplies.
pub struct PcCameraService;

impl PcCameraService {
    /// The fixed file read in place of a hardware capture.
    pub fn source_path(&self) -> (p: String)
        ensures
            p@ == "sample.jpg"@,
    {
        String::from_str("sample.jpg")
    }

    /// The MIME tag this backend puts on every captured payload. The tag is
    /// fixed by the backend, not derived from the file's contents, and it
    /// matches the JPEG sample the backend reads.
    pub fn capture_mime(&self) -> (m: String)
        ensures
            m@ == "image/jpeg"@,
    {
        String::from_str("image/jpeg")
    }

    /// Turns the outcome of reading the source file into a capture result:
    /// bytes read become the payload, tagged with this backend's MIME tag;
    /// a read failure surfaces as an acquisition error carrying the cause.
    pub fn finish_capture(&self, outcome: Result<Vec<u8>, String>) -> (r: Result<
        ImageData,
        CameraError,
    >)
        ensures
            match outcome {
                Ok(bytes) => r matches Ok(img) && img.bytes@ == bytes@ && img.mime_type@
                    == "image/jpeg"@,
                Err(cause) => r == Result::<ImageData, CameraError>::Err(
                    CameraError::AcquisitionFailed(cause),
                ),
            },
    {
        match outcome {
            Ok(bytes) => Ok(ImageData { bytes, mime_type: self.capture_mime() }),
            Err(cause) => Err(CameraError::AcquisitionFailed(cause)),
        }
    }

    /// Turns the outcome of writing to the destination into a save result: a
    /// write failure surfaces as a persistence error carrying the cause.
    pub fn finish_save(&self, outcome: Result<(), String>) -> (r: Result<(), CameraError>)
        ensures
            match outcome {
                Ok(_) => r is Ok,
                Err(cause) => r == Result::<(), CameraError>::Err(
                    CameraError::PersistenceFailed(cause),
                ),
            },
    {
        match outcome {
            Ok(_) => Ok(()),
            Err(cause) => Err(CameraError::PersistenceFailed(cause)),
        }
    }
}

} // verus!
