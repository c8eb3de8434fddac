//! A camera-capture capability library.
//!
//! The library separates *how a photo is obtained* from *how its bytes are
//! consumed*: the [`service::CameraService`] trait is the capability seam,
//! [`pc::PcCameraService`] is the reference backend built around a fixed
//! sample file, and [`commands::take_photo`] / [`commands::save_photo`] are
//! the command layer a host shell dispatches onto whichever backend it owns.
//! The [`naming`] module fixes the on-disk naming convention for saved
//! photos: `photo_<unix-seconds>.<ext>`, with the extension chosen from the
//! payload's MIME tag.

use vstd::prelude::*;

pub mod commands;
pub mod fixed;
pub mod naming;
pub mod pc;
pub mod service;

verus! {

use crate::pc::PcCameraService;

/// Hands out the backend that the host shell should own for the life of the
/// process: the reference implementation built around a fixed sample file.
pub fn get_camera_service() -> (svc: PcCameraService)
    ensures
        svc == PcCameraService,
{
    PcCameraService
}

} // verus!
