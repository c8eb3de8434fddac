use camera_service::pc::PcCameraService;
use camera_service::service::CameraError;

#[test]
fn finish_capture_wraps_bytes_with_jpeg_tag() {
    let svc = PcCameraService;
    let img = svc.finish_capture(Ok(vec![0xff, 0xd8])).ok().unwrap();
    assert_eq!(img.bytes, vec![0xff, 0xd8]);
    assert_eq!(img.mime_type, "image/jpeg");
}

#[test]
fn finish_capture_surfaces_read_failure() {
    let svc = PcCameraService;
    let r = svc.finish_capture(Err(String::from("No such file or directory")));
    match r {
        Ok(_) => panic!("a failed read must not produce a payload"),
        Err(e) => {
            assert_eq!(e.message(), "acquisition failed: No such file or directory");
            assert!(!e.message().is_empty());
        }
    }
}

#[test]
fn finish_save_passes_success_through() {
    let svc = PcCameraService;
    assert!(svc.finish_save(Ok(())).is_ok());
}

#[test]
fn finish_save_surfaces_write_failure() {
    let svc = PcCameraService;
    let r = svc.finish_save(Err(String::from("Permission denied")));
    match r {
        Ok(_) => panic!("a failed write must not report success"),
        Err(e) => {
            assert_eq!(e.message(), "persistence failed: Permission denied");
            assert!(!e.message().is_empty());
        }
    }
}
