//! A deterministic in-memory backend: it serves a configured payload without
//! touching any hardware or filesystem. It doubles as the library's own
//! witness that [`CameraService`] is a true abstraction boundary: the command
//! layer runs against it unchanged.

use vstd::prelude::*;

verus! {

use vstd::slice::slice_to_vec;
use crate::service::{CameraError, CameraService, ImageData};

/// A backend that always captures the same payload: the configured bytes
/// under the configured MIME tag.
pub struct FixedCameraService {
    pub bytes: Vec<u8>,
    pub mime_type: String,
}

/// What a capture from a fixed backend returns: always a payload, holding
/// exactly the configured bytes and MIME tag.
pub open spec fn fixed_capture(svc: FixedCameraService, r: Result<ImageData, CameraError>) -> bool {
    r matches Ok(img) && img.bytes@ == svc.bytes@ && img.mime_type@ == svc.mime_type@
}

impl CameraService for FixedCameraService {
    fn capture(&self) -> (r: Result<ImageData, CameraError>)
        ensures
            fixed_capture(*self, r),
    {
        Ok(
            ImageData {
                bytes: slice_to_vec(self.bytes.as_slice()),
                mime_type: self.mime_type.clone(),
            },
        )
    }

    fn save(&self, _image: &[u8], _destination: String) -> (r: Result<(), CameraError>)
        ensures
            r is Ok,
    {
        Ok(())
    }
}

/// Capture determinism: repeated captures from one unchanged fixed backend
/// return identical payloads — the same bytes under the same MIME tag.
pub proof fn lemma_fixed_capture_deterministic(
    svc: FixedCameraService,
    r1: Result<ImageData, CameraError>,
    r2: Result<ImageData, CameraError>,
)
    requires
        fixed_capture(svc, r1),
        fixed_capture(svc, r2),
    ensures
        r1 matches Ok(i1) && r2 matches Ok(i2) && i1.bytes@ == i2.bytes@ && i1.mime_type@
            == i2.mime_type@,
{
}

} // verus!
