//! The OS capture backend boundary.
//!
//! All enumeration and pixel acquisition goes through the `xcap` crate.
//! Which windows and monitors exist, their metadata, and whether a capture
//! succeeds all depend on the OS state at the moment of the call, so the
//! contracts here promise only what holds of every outcome; the logic that
//! consumes these results is verified for every value they could take.

use vstd::prelude::*;

use crate::types::{RawMonitor, RgbaBuffer, WindowInfo};

verus! {

#[verifier::external_type_specification]
#[verifier::external_body]
pub struct ExWindow(xcap::Window);

#[verifier::external_type_specification]
#[verifier::external_body]
pub struct ExMonitor(xcap::Monitor);

/// One enumerated window: the backend handle needed for pixel capture,
/// beside its metadata read out into plain values.
pub struct BackendWindow {
    pub handle: xcap::Window,
    pub info: WindowInfo,
}

/// One enumerated monitor: the backend handle beside its metadata.
pub struct BackendMonitor {
    pub handle: xcap::Monitor,
    pub info: RawMonitor,
}

/// Relies on `xcap::Window::all` and the `Window` accessors (`id`,
/// `app_name`, `title`, `x`, `y`, `width`, `height`, `is_minimized`): the
/// current window list, each entry with its metadata. The list depends on
/// the OS state, so nothing is promised of it.
#[verifier::external_body]
pub fn fetch_windows() -> (r: Result<Vec<BackendWindow>, String>) {
    match xcap::Window::all() {
        Ok(ws) => Ok(ws.into_iter().map(|w| BackendWindow {
            info: WindowInfo {
                id: w.id(), app_name: w.app_name().to_string(), title: w.title().to_string(),
                x: w.x(), y: w.y(), width: w.width(), height: w.height(),
                is_minimized: w.is_minimized(),
            },
            handle: w,
        }).collect()),
        Err(e) => Err(e.to_string()),
    }
}

/// Relies on `xcap::Monitor::all` and the `Monitor` accessors (`id`,
/// `name`, `x`, `y`, `width`, `height`): the current monitor list, in
/// backend order. The list depends on the OS state, so nothing is
/// promised of it.
#[verifier::external_body]
pub fn fetch_monitors() -> (r: Result<Vec<BackendMonitor>, String>) {
    match xcap::Monitor::all() {
        Ok(ms) => Ok(ms.into_iter().map(|m| BackendMonitor {
            info: RawMonitor {
                id: m.id(), name: m.name().to_string(),
                x: m.x(), y: m.y(), width: m.width(), height: m.height(),
            },
            handle: m,
        }).collect()),
        Err(e) => Err(e.to_string()),
    }
}

/// Relies on `xcap::Window::capture_image`: a still RGBA frame of the
/// window. Every construction of the returned image in `xcap` hands
/// `ImageBuffer::from_raw` a buffer of exactly `width * height * 4`
/// bytes (macOS trims row padding first); `from_raw` itself would accept
/// an oversized buffer, so the exact-size clause rests on those
/// construction sites. The pixel contents depend on what is on screen,
/// so nothing more is promised.
#[verifier::external_body]
pub fn capture_window_pixels(w: &xcap::Window) -> (r: Result<RgbaBuffer, String>)
    ensures
        r matches Ok(b) ==> b.wf(),
{
    match w.capture_image() {
        Ok(img) => {
            let (width, height) = (img.width(), img.height());
            Ok(RgbaBuffer { pixels: img.into_raw(), width, height })
        },
        Err(e) => Err(e.to_string()),
    }
}

/// Relies on `xcap::Monitor::capture_image`: a still RGBA frame of the
/// whole monitor, sized exactly as its dimensions state — resting on the
/// same exact construction sites in `xcap` as the window capture.
#[verifier::external_body]
pub fn capture_monitor_pixels(m: &xcap::Monitor) -> (r: Result<RgbaBuffer, String>)
    ensures
        r matches Ok(b) ==> b.wf(),
{
    match m.capture_image() {
        Ok(img) => {
            let (width, height) = (img.width(), img.height());
            Ok(RgbaBuffer { pixels: img.into_raw(), width, height })
        },
        Err(e) => Err(e.to_string()),
    }
}

} // verus!
