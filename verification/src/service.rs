//! The capability interface: what any photo source must offer, and the value
//! and error types that cross it.

use vstd::prelude::*;

verus! {

use vstd::string::StringExecFns;

/// A captured photo's payload: the raw bytes and a MIME tag naming their
/// format. The tag is only ever used to pick a file extension on save; a tag
/// the naming table does not know falls back to a generic binary extension.
pub struct ImageData {
    pub bytes: Vec<u8>,
    pub mime_type: String,
}

/// The closed error taxonomy of the capability layer: a backend either could
/// not produce image bytes, or could not persist them. Each variant carries
/// the underlying cause as plain text; flattening to a single string happens
/// only at the presentation boundary, through [`CameraError::message`].
pub enum CameraError {
    /// The backend could not produce image bytes (missing source, device
    /// unavailable).
    AcquisitionFailed(String),
    /// The bytes could not be written to the destination (permission, path,
    /// or space problem).
    PersistenceFailed(String),
}

impl CameraError {
    /// The human-readable rendering of an error: a label naming the failed
    /// operation, followed by the underlying cause.
    pub open spec fn spec_message(self) -> Seq<char> {
        match self {
            CameraError::AcquisitionFailed(cause) => "acquisition failed: "@ + cause@,
            CameraError::PersistenceFailed(cause) => "persistence failed: "@ + cause@,
        }
    }

    /// Flattens the error to a single human-readable string. The result is
    /// never empty, even when the underlying cause is.
    pub fn message(&self) -> (m: String)
        ensures
            m@ == self.spec_message(),
            m@.len() > 0,
    {
        proof {
            reveal_strlit("acquisition failed: ");
            reveal_strlit("persistence failed: ");
        }
        match self {
            CameraError::AcquisitionFailed(cause) => {
                let mut m = String::from_str("acquisition failed: ");
                m.append(cause.as_str());
                m
            },
            CameraError::PersistenceFailed(cause) => {
                let mut m = String::from_str("persistence failed: ");
                m.append(cause.as_str());
                m
            },
        }
    }
}

/// The capability a photo source must satisfy. Exactly one implementation is
/// active per process, chosen at startup and owned by the host shell; callers
/// depend only on this trait, never on a concrete backend.
pub trait CameraService {
    /// Obtains a photo from the backend. Any acquisition failure is surfaced
    /// as a [`CameraError::AcquisitionFailed`]; no partial payload is ever
    /// returned.
    fn capture(&self) -> Result<ImageData, CameraError>;

    /// Persists `image` verbatim to the destination identifier, overwriting
    /// anything already there. The destination's parent directories must
    /// already exist; this operation does not create them. Any write failure
    /// is surfaced as a [`CameraError::PersistenceFailed`].
    fn save(&self, image: &[u8], destination: String) -> Result<(), CameraError>;
}

} // verus!
