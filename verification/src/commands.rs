//! The command layer a host shell dispatches onto its backend. Every command
//! works through the [`CameraService`] capability alone, so any backend —
//! the filesystem reference implementation or an in-memory double — slots in
//! without a change here.

use vstd::prelude::*;

verus! {

use vstd::string::StringExecFns;
use crate::naming::{photo_destination, spec_photo_destination};
use crate::service::{CameraError, CameraService, ImageData};

/// Greeting command kept for shell wiring checks; unrelated to the camera
/// capability.
pub open spec fn spec_greeting(name: Seq<char>) -> Seq<char> {
    "Hello, "@ + name + "! You've been greeted from Rust!"@
}

/// Builds the greeting for `name`.
pub fn greet(name: &str) -> (g: String)
    ensures
        g@ == spec_greeting(name@),
{
    let mut g = String::from_str("Hello, ");
    g.append(name);
    g.append("! You've been greeted from Rust!");
    g
}

/// Turns a capture outcome into the shape the shell hands its UI: the payload
/// split into bytes and MIME tag on success, the flattened error message on
/// failure.
pub fn capture_response(outcome: Result<ImageData, CameraError>) -> (r: Result<
    (Vec<u8>, String),
    String,
>)
    ensures
        match outcome {
            Ok(img) => r matches Ok(p) && p.0@ == img.bytes@ && p.1@ == img.mime_type@,
            Err(e) => r matches Err(m) && m@ == e.spec_message() && m@.len() > 0,
        },
{
    match outcome {
        Ok(img) => Ok((img.bytes, img.mime_type)),
        Err(e) => Err(e.message()),
    }
}

/// Obtains a photo from the backend and hands its bytes and MIME tag to the
/// caller; any failure is surfaced as a non-empty message.
pub fn take_photo<S: CameraService>(camera: &S) -> (r: Result<(Vec<u8>, String), String>)
    ensures
        r matches Err(m) ==> m@.len() > 0,
{
    let outcome = camera.capture();
    capture_response(outcome)
}

/// Turns a save outcome into the shape the shell hands its UI: the path the
/// photo was saved under on success, the flattened error message on failure.
pub fn save_response(outcome: Result<(), CameraError>, path: String) -> (r: Result<String, String>)
    ensures
        match outcome {
            Ok(_) => r matches Ok(p) && p@ == path@,
            Err(e) => r matches Err(m) && m@ == e.spec_message() && m@.len() > 0,
        },
{
    match outcome {
        Ok(_) => Ok(path),
        Err(e) => Err(e.message()),
    }
}

/// Persists a captured payload through the backend, under the timestamped
/// destination `<dir>/photo_<secs>.<ext>`; the extension follows the MIME
/// tag. On success the caller gets back exactly that destination path; any
/// failure is surfaced as a non-empty message. The caller must have created
/// `dir` beforehand: saving does not create directories.
pub fn save_photo<S: CameraService>(
    camera: &S,
    bytes: &[u8],
    mime_type: &str,
    dir: &str,
    secs: u64,
) -> (r: Result<String, String>)
    ensures
        r matches Ok(p) ==> p@ == spec_photo_destination(dir@, secs, mime_type@),
        r matches Err(m) ==> m@.len() > 0,
{
    let path = photo_destination(dir, secs, mime_type);
    let outcome = camera.save(bytes, path.clone());
    save_response(outcome, path)
}

} // verus!
