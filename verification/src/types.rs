//! Value types returned by the catalogs and the capture orchestrator.
//!
//! All of them are short-lived snapshots: each call allocates fresh values
//! wholly owned by the caller, and nothing here is shared or cached.

use vstd::prelude::*;

verus! {

/// Snapshot of one window at enumeration time.
#[derive(Debug)]
pub struct WindowInfo {
    pub id: u32,
    pub app_name: String,
    pub title: String,
    pub x: i32,
    pub y: i32,
    pub width: u32,
    pub height: u32,
    pub is_minimized: bool,
}

impl Clone for WindowInfo {
    fn clone(&self) -> (res: Self)
        ensures
            res == *self,
    {
        WindowInfo {
            id: self.id,
            app_name: self.app_name.clone(),
            title: self.title.clone(),
            x: self.x,
            y: self.y,
            width: self.width,
            height: self.height,
            is_minimized: self.is_minimized,
        }
    }
}

/// Snapshot of one display, with the positional primary flag already set.
#[derive(Debug)]
pub struct MonitorInfo {
    pub id: u32,
    pub name: String,
    pub x: i32,
    pub y: i32,
    pub width: u32,
    pub height: u32,
    pub is_primary: bool,
}

impl Clone for MonitorInfo {
    fn clone(&self) -> (res: Self)
        ensures
            res == *self,
    {
        MonitorInfo {
            id: self.id,
            name: self.name.clone(),
            x: self.x,
            y: self.y,
            width: self.width,
            height: self.height,
            is_primary: self.is_primary,
        }
    }
}

/// Display metadata as the backend reports it, before the primary-monitor
/// convention is applied.
#[derive(Debug)]
pub struct RawMonitor {
    pub id: u32,
    pub name: String,
    pub x: i32,
    pub y: i32,
    pub width: u32,
    pub height: u32,
}

impl Clone for RawMonitor {
    fn clone(&self) -> (res: Self)
        ensures
            res == *self,
    {
        RawMonitor {
            id: self.id,
            name: self.name.clone(),
            x: self.x,
            y: self.y,
            width: self.width,
            height: self.height,
        }
    }
}

/// A raw RGBA pixel frame handed back by the backend: four bytes per
/// pixel in row-major order.
pub struct RgbaBuffer {
    pub pixels: Vec<u8>,
    pub width: u32,
    pub height: u32,
}

impl RgbaBuffer {
    /// The pixel buffer holds exactly the data for the stated dimensions.
    pub open spec fn wf(&self) -> bool {
        self.pixels@.len() == 4 * (self.width as int) * (self.height as int)
    }
}

/// One captured window: its metadata snapshot plus the encoded image,
/// both fixed at construction time.
pub struct CapturedWindow {
    pub info: WindowInfo,
    pub image_data: Vec<u8>,
}

impl CapturedWindow {
    pub(crate) fn new(info: WindowInfo, image_data: Vec<u8>) -> (r: CapturedWindow)
        ensures
            r.info == info,
            r.image_data == image_data,
    {
        CapturedWindow { info, image_data }
    }

    /// The encoded image, verbatim: no re-encoding on repeated access.
    pub fn get_image_bytes(&self) -> (r: &Vec<u8>)
        ensures
            r@ == self.image_data@,
    {
        &self.image_data
    }

    pub fn image_width(&self) -> (r: u32)
        ensures
            r == self.info.width,
    {
        self.info.width
    }

    pub fn image_height(&self) -> (r: u32)
        ensures
            r == self.info.height,
    {
        self.info.height
    }
}

/// One captured display: its metadata snapshot plus the encoded image.
pub struct CapturedScreen {
    pub monitor: MonitorInfo,
    pub image_data: Vec<u8>,
}

impl CapturedScreen {
    pub(crate) fn new(monitor: MonitorInfo, image_data: Vec<u8>) -> (r: CapturedScreen)
        ensures
            r.monitor == monitor,
            r.image_data == image_data,
    {
        CapturedScreen { monitor, image_data }
    }

    /// The encoded image, verbatim: no re-encoding on repeated access.
    pub fn get_image_bytes(&self) -> (r: &Vec<u8>)
        ensures
            r@ == self.image_data@,
    {
        &self.image_data
    }
}

/// Why an operation failed. Enumeration and single-target capture fail
/// hard; batch capture absorbs per-item failures instead.
#[derive(Debug)]
pub enum CaptureError {
    /// The backend's window or monitor listing call failed.
    Enumeration(String),
    /// Pixel acquisition on a resolved target failed.
    Capture(String),
    /// Encoding a pixel frame failed.
    Encode(String),
    /// The monitor list was empty, or no monitor had the requested id.
    NoMonitor,
}

} // verus!
