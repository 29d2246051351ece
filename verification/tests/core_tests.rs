//! Tests of the platform registry, the filter pipeline, the monitor
//! normalization rule, and the capture orchestration's edge cases.

use screencap::backend::{BackendMonitor, BackendWindow};
use screencap::capture::{
    capture_filtered, capture_screen, capture_screen_in, capture_window, capture_window_in,
    get_monitors, get_windows,
};
use screencap::catalog::{build_monitor_list, build_window_list, should_skip_window};
use screencap::registry::{platform_from_os, Platform, Registry};
use screencap::types::{CaptureError, RawMonitor, WindowInfo};

fn win(id: u32, app: &str, title: &str, w: u32, h: u32, minimized: bool) -> WindowInfo {
    WindowInfo {
        id,
        app_name: app.to_string(),
        title: title.to_string(),
        x: 0,
        y: 0,
        width: w,
        height: h,
        is_minimized: minimized,
    }
}

fn mon(id: u32, name: &str, w: u32, h: u32) -> RawMonitor {
    RawMonitor {
        id,
        name: name.to_string(),
        x: 0,
        y: 0,
        width: w,
        height: h,
    }
}

#[test]
fn platform_names() {
    assert_eq!(Platform::Macos.name(), "macos");
    assert_eq!(Platform::Windows.name(), "windows");
    assert_eq!(Platform::Linux.name(), "linux");
    assert_eq!(Platform::Unknown.name(), "unknown");
}

#[test]
fn platform_from_os_names() {
    assert_eq!(platform_from_os("macos"), Platform::Macos);
    assert_eq!(platform_from_os("windows"), Platform::Windows);
    assert_eq!(platform_from_os("linux"), Platform::Linux);
    assert_eq!(platform_from_os("freebsd"), Platform::Unknown);
    assert_eq!(platform_from_os(""), Platform::Unknown);
}

#[test]
fn registry_platform_lists() {
    let mac = Registry::for_platform(Platform::Macos);
    assert_eq!(mac.apps.len(), 8);
    assert_eq!(mac.titles.len(), 7);
    assert!(mac.apps.iter().any(|s| s == "Dock"));
    assert!(mac.titles.iter().any(|s| s == "Desktop"));
    assert!(mac.titles.iter().any(|s| s.is_empty()));

    let windows = Registry::for_platform(Platform::Windows);
    assert_eq!(windows.apps.len(), 5);
    assert_eq!(windows.titles.len(), 7);

    let linux = Registry::for_platform(Platform::Linux);
    assert_eq!(linux.apps.len(), 9);
    assert_eq!(linux.titles.len(), 8);

    let unknown = Registry::for_platform(Platform::Unknown);
    assert!(unknown.apps.is_empty());
    assert!(unknown.titles.is_empty());
}

#[test]
fn blocklist_app_name_substring_case_insensitive() {
    let reg = Registry::for_platform(Platform::Macos);
    // "Dock" is blocklisted; it occurs inside "Dock Helper".
    assert!(should_skip_window("Dock Helper", "some window", &reg));
    assert!(should_skip_window("dock helper", "some window", &reg));
    assert!(should_skip_window("MY DOCK", "some window", &reg));
    assert!(!should_skip_window("Finder", "Documents", &reg));
}

#[test]
fn blocklist_title_exact_match_only() {
    let reg = Registry::for_platform(Platform::Macos);
    // "Desktop" is blocklisted as an exact title.
    assert!(should_skip_window("Safari", "Desktop", &reg));
    assert!(should_skip_window("Safari", "DESKTOP", &reg));
    // Titles are matched exactly, never as substrings.
    assert!(!should_skip_window("Safari", "My Desktop App", &reg));
}

#[test]
fn empty_title_is_always_system() {
    // Even with empty blocklists, an empty title marks a system window.
    let reg = Registry::for_platform(Platform::Unknown);
    assert!(should_skip_window("AnyApp", "", &reg));
    assert!(!should_skip_window("AnyApp", "t", &reg));
}

#[test]
fn filter_pipeline_drops_and_keeps() {
    let reg = Registry::for_platform(Platform::Macos);
    let raw = vec![
        win(1, "Zero", "w", 0, 100, false),
        win(2, "Zero", "w", 100, 0, false),
        win(3, "Sleepy", "w", 100, 100, true),
        win(4, "Dock", "w", 100, 100, false),
        win(5, "Safari", "Desktop", 100, 100, false),
        win(6, "Safari", "Apple", 100, 100, false),
        win(7, "Terminal", "shell", 80, 24, false),
    ];
    let out = build_window_list(&raw, false, true, &reg);
    let ids: Vec<u32> = out.iter().map(|w| w.id).collect();
    assert_eq!(ids, vec![6, 7]);
    for w in out.iter() {
        assert!(w.width > 0 && w.height > 0);
        assert!(!should_skip_window(&w.app_name, &w.title, &reg));
    }

    // Minimized windows come back when asked for.
    let out = build_window_list(&raw, true, true, &reg);
    let ids: Vec<u32> = out.iter().map(|w| w.id).collect();
    assert_eq!(ids, vec![3, 6, 7]);

    // Without the system filter, chrome windows stay, but zero-area
    // windows are still dropped unconditionally.
    let out = build_window_list(&raw, false, false, &reg);
    let ids: Vec<u32> = out.iter().map(|w| w.id).collect();
    assert_eq!(ids, vec![4, 5, 6, 7]);
}

#[test]
fn filter_keeps_empty_title_when_system_filter_off() {
    let reg = Registry::for_platform(Platform::Macos);
    let raw = vec![win(9, "App", "", 10, 10, false)];
    assert_eq!(build_window_list(&raw, false, true, &reg).len(), 0);
    assert_eq!(build_window_list(&raw, false, false, &reg).len(), 1);
}

#[test]
fn monitors_positional_primary() {
    let raw = vec![mon(11, "A", 1920, 1080), mon(22, "B", 1280, 720), mon(33, "C", 800, 600)];
    let out = build_monitor_list(&raw);
    assert_eq!(out.len(), 3);
    assert!(out[0].is_primary);
    assert!(!out[1].is_primary);
    assert!(!out[2].is_primary);
    assert_eq!(out[0].id, 11);
    assert_eq!(out[1].id, 22);
    assert_eq!(out[2].id, 33);
    assert_eq!(out[0].name, "A");
    assert_eq!(out[2].width, 800);

    let none: Vec<RawMonitor> = Vec::new();
    assert!(build_monitor_list(&none).is_empty());
}

#[test]
fn capture_window_unmatched_id_is_empty_not_error() {
    let ws: Vec<BackendWindow> = Vec::new();
    let r = capture_window_in(&ws, 424242);
    assert!(matches!(r, Ok(None)));
}

#[test]
fn capture_screen_without_monitor_is_error() {
    let ms: Vec<BackendMonitor> = Vec::new();
    assert!(matches!(capture_screen_in(&ms, None), Err(CaptureError::NoMonitor)));
    assert!(matches!(capture_screen_in(&ms, Some(3)), Err(CaptureError::NoMonitor)));
}

#[test]
fn capture_filtered_on_empty_enumeration() {
    let reg = Registry::for_platform(Platform::Linux);
    let ws: Vec<BackendWindow> = Vec::new();
    let out = capture_filtered(&ws, false, true, &reg);
    assert!(out.is_empty());
}

#[test]
fn live_get_monitors_primary_convention() {
    // The backend may or may not be reachable here; both outcomes obey
    // the contract.
    match get_monitors() {
        Ok(ms) => {
            for (i, m) in ms.iter().enumerate() {
                assert_eq!(m.is_primary, i == 0);
            }
        }
        Err(e) => assert!(matches!(e, CaptureError::Enumeration(_))),
    }
}

#[test]
fn live_get_windows_filtered() {
    let reg = Registry::for_platform(Platform::Linux);
    match get_windows(false, true, &reg) {
        Ok(ws) => {
            for w in ws.iter() {
                assert!(w.width > 0 && w.height > 0);
                assert!(!w.is_minimized);
                assert!(!w.title.is_empty());
                assert!(!should_skip_window(&w.app_name, &w.title, &reg));
            }
        }
        Err(e) => assert!(matches!(e, CaptureError::Enumeration(_))),
    }
}

#[test]
fn live_capture_window_never_panics_on_unknown_id() {
    match capture_window(u32::MAX) {
        Ok(None) => {}
        Ok(Some(_)) => panic!("an id this large should match no window"),
        Err(e) => assert!(matches!(
            e,
            CaptureError::Enumeration(_) | CaptureError::Capture(_) | CaptureError::Encode(_)
        )),
    }
}

#[test]
fn live_capture_screen_error_taxonomy() {
    match capture_screen(None) {
        Ok(s) => assert!(s.is_some()),
        Err(e) => assert!(matches!(
            e,
            CaptureError::Enumeration(_)
                | CaptureError::NoMonitor
                | CaptureError::Capture(_)
                | CaptureError::Encode(_)
        )),
    }
}
