use camera_service::commands::{capture_response, greet, save_photo, save_response, take_photo};
use camera_service::fixed::FixedCameraService;
use camera_service::get_camera_service;
use camera_service::service::{CameraError, CameraService, ImageData};

#[test]
fn greet_formats_name() {
    assert_eq!(greet("World"), "Hello, World! You've been greeted from Rust!");
}

#[test]
fn error_message_acquisition() {
    let e = CameraError::AcquisitionFailed(String::from("no such file"));
    assert_eq!(e.message(), "acquisition failed: no such file");
}

#[test]
fn error_message_persistence() {
    let e = CameraError::PersistenceFailed(String::from("permission denied"));
    assert_eq!(e.message(), "persistence failed: permission denied");
}

#[test]
fn error_message_nonempty_even_without_cause() {
    let e = CameraError::AcquisitionFailed(String::new());
    assert!(!e.message().is_empty());
    let e = CameraError::PersistenceFailed(String::new());
    assert!(!e.message().is_empty());
}

#[test]
fn fixed_capture_returns_configured_payload() {
    let double = FixedCameraService {
        bytes: vec![1, 2, 3],
        mime_type: String::from("image/png"),
    };
    let img = double.capture().ok().unwrap();
    assert_eq!(img.bytes, vec![1, 2, 3]);
    assert_eq!(img.mime_type, "image/png");
}

#[test]
fn fixed_capture_is_deterministic() {
    let double = FixedCameraService {
        bytes: vec![9, 8, 7, 6],
        mime_type: String::from("image/jpeg"),
    };
    let first = double.capture().ok().unwrap();
    let second = double.capture().ok().unwrap();
    assert_eq!(first.bytes, second.bytes);
    assert_eq!(first.mime_type, second.mime_type);
}

#[test]
fn command_layer_runs_against_a_double() {
    let double = FixedCameraService {
        bytes: vec![42],
        mime_type: String::from("image/jpeg"),
    };
    let (bytes, mime) = take_photo(&double).unwrap();
    assert_eq!(bytes, vec![42]);
    assert_eq!(mime, "image/jpeg");
}

#[test]
fn save_photo_returns_timestamped_destination() {
    let double = FixedCameraService {
        bytes: Vec::new(),
        mime_type: String::from("image/jpeg"),
    };
    let path = save_photo(&double, &[1, 2], "image/png", "/tmp/shots", 1234).unwrap();
    assert_eq!(path, "/tmp/shots/photo_1234.png");
}

#[test]
fn save_photo_accepts_empty_payload() {
    let double = FixedCameraService {
        bytes: Vec::new(),
        mime_type: String::from("image/jpeg"),
    };
    let path = save_photo(&double, &[], "", "/tmp/shots", 0).unwrap();
    assert_eq!(path, "/tmp/shots/photo_0.bin");
}

#[test]
fn capture_response_splits_payload() {
    let outcome = Ok(ImageData {
        bytes: vec![5, 5],
        mime_type: String::from("image/png"),
    });
    let (bytes, mime) = capture_response(outcome).unwrap();
    assert_eq!(bytes, vec![5, 5]);
    assert_eq!(mime, "image/png");
}

#[test]
fn capture_response_flattens_error() {
    let outcome = Err(CameraError::AcquisitionFailed(String::from("device busy")));
    let msg = capture_response(outcome).err().unwrap();
    assert_eq!(msg, "acquisition failed: device busy");
    assert!(!msg.is_empty());
}

#[test]
fn save_response_hands_back_path() {
    let r = save_response(Ok(()), String::from("/tmp/p/photo_1.jpg"));
    assert_eq!(r.unwrap(), "/tmp/p/photo_1.jpg");
}

#[test]
fn save_response_flattens_error() {
    let outcome = Err(CameraError::PersistenceFailed(String::from("disk full")));
    let msg = save_response(outcome, String::from("/tmp/p/photo_1.jpg")).err().unwrap();
    assert_eq!(msg, "persistence failed: disk full");
    assert!(!msg.is_empty());
}

#[test]
fn production_backend_is_handed_out() {
    let svc = get_camera_service();
    assert_eq!(svc.source_path(), "sample.jpg");
    assert_eq!(svc.capture_mime(), "image/jpeg");
}
