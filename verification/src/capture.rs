//! Capture orchestration: enumeration, target resolution, pixel capture
//! and encoding, with deliberate partial-failure semantics.
//!
//! Single-target operations fail hard on capture or encode errors; the
//! batch operation absorbs per-item failures and omits the failing
//! window. A window id that matches nothing is a normal empty result,
//! while an unresolvable monitor is an error — the asymmetry is kept as
//! designed.
//!
//! Every operation re-enumerates the backend fresh; nothing is cached
//! between calls.

use vstd::prelude::*;

use crate::backend::{
    capture_monitor_pixels, capture_window_pixels, fetch_monitors, fetch_windows, BackendMonitor,
    BackendWindow,
};
use crate::catalog::{
    build_monitor_list, build_window_list, should_skip_window, spec_keeps_window,
    spec_kept_windows, spec_monitor_with_flag,
};
use crate::codec::{encode, spec_is_encoding};
use crate::registry::Registry;
use crate::types::{
    CaptureError, CapturedScreen, CapturedWindow, MonitorInfo, RawMonitor, WindowInfo,
};

verus! {

/// The metadata of each enumerated window, in enumeration order.
pub open spec fn spec_infos(ws: Seq<BackendWindow>) -> Seq<WindowInfo> {
    ws.map_values(|b: BackendWindow| b.info)
}

/// Some enumerated window carries the id.
pub open spec fn spec_has_window(ws: Seq<BackendWindow>, id: u32) -> bool {
    exists|i: int| 0 <= i < ws.len() && (#[trigger] ws[i]).info.id == id
}

/// Index `i` holds the first enumerated window with the id.
pub open spec fn spec_first_match(ws: Seq<BackendWindow>, id: u32, i: int) -> bool {
    &&& 0 <= i < ws.len()
    &&& ws[i].info.id == id
    &&& forall|j: int| 0 <= j < i ==> (#[trigger] ws[j]).info.id != id
}

/// A monitor request can be satisfied: the requested id occurs, or no id
/// was given and at least one monitor exists.
pub open spec fn spec_monitor_resolves(ms: Seq<BackendMonitor>, sel: Option<u32>) -> bool {
    match sel {
        Some(id) => exists|i: int| 0 <= i < ms.len() && (#[trigger] ms[i]).info.id == id,
        None => ms.len() > 0,
    }
}

/// Index `i` is the monitor the request resolves to: the first one with
/// the requested id, or index 0 (the positional primary) by default.
pub open spec fn spec_resolved_index(ms: Seq<BackendMonitor>, sel: Option<u32>, i: int) -> bool {
    match sel {
        Some(id) => 0 <= i < ms.len() && ms[i].info.id == id && (forall|j: int|
            0 <= j < i ==> (#[trigger] ms[j]).info.id != id),
        None => i == 0 && ms.len() > 0,
    }
}

/// `idx` picks, in strictly increasing order, the positions in `kept`
/// that the entries of `out` correspond to: the captured metadata is a
/// subsequence of the surviving windows, in enumeration order.
pub open spec fn spec_ordered_selection(
    idx: Seq<int>,
    out: Seq<CapturedWindow>,
    kept: Seq<WindowInfo>,
) -> bool {
    &&& idx.len() == out.len()
    &&& forall|j: int| 0 <= j < idx.len() ==> 0 <= #[trigger] idx[j] < kept.len()
    &&& forall|j: int| 0 < j < idx.len() ==> idx[j - 1] < #[trigger] idx[j]
    &&& forall|j: int| 0 <= j < idx.len() ==> kept[#[trigger] idx[j]] == out[j].info
}

/// Lists the visible windows: a fresh enumeration run through the filter
/// pipeline. Every returned entry survives the filter, so none is
/// minimized (unless asked for), none is system chrome (when filtering),
/// and all have positive width and height.
pub fn get_windows(include_minimized: bool, filter_system: bool, reg: &Registry) -> (r: Result<
    Vec<WindowInfo>,
    CaptureError,
>)
    ensures
        r matches Ok(out) ==> forall|i: int|
            0 <= i < out@.len() ==> spec_keeps_window(
                #[trigger] out@[i],
                include_minimized,
                filter_system,
                reg.apps_view(),
                reg.titles_view(),
            ),
        r matches Err(e) ==> e is Enumeration,
{
    match fetch_windows() {
        Err(s) => Err(CaptureError::Enumeration(s)),
        Ok(ws) => {
            let mut raw: Vec<WindowInfo> = Vec::new();
            let mut i: usize = 0;
            while i < ws.len()
                invariant
                    i <= ws.len(),
                    raw@ == spec_infos(ws@).subrange(0, i as int),
                decreases ws@.len() - i,
            {
                raw.push(ws[i].info.clone());
                proof {
                    assert(raw@ =~= spec_infos(ws@).subrange(0, i as int + 1));
                }
                i += 1;
            }
            let out = build_window_list(&raw, include_minimized, filter_system, reg);
            proof {
                let pred = |w: WindowInfo|
                    spec_keeps_window(
                        w,
                        include_minimized,
                        filter_system,
                        reg.apps_view(),
                        reg.titles_view(),
                    );
                assert forall|i: int| 0 <= i < out@.len() implies spec_keeps_window(
                    #[trigger] out@[i],
                    include_minimized,
                    filter_system,
                    reg.apps_view(),
                    reg.titles_view(),
                ) by {
                    raw@.lemma_filter_pred(pred, i);
                }
            }
            Ok(out)
        },
    }
}

/// Lists the monitors: a fresh enumeration mapped 1:1 in backend order,
/// with exactly the entry at index 0 (if any) marked primary.
pub fn get_monitors() -> (r: Result<Vec<MonitorInfo>, CaptureError>)
    ensures
        r matches Ok(out) ==> forall|i: int|
            0 <= i < out@.len() ==> (#[trigger] out@[i]).is_primary == (i == 0),
        r matches Err(e) ==> e is Enumeration,
{
    match fetch_monitors() {
        Err(s) => Err(CaptureError::Enumeration(s)),
        Ok(ms) => {
            let mut raw: Vec<RawMonitor> = Vec::new();
            let mut i: usize = 0;
            while i < ms.len()
                invariant
                    i <= ms.len(),
                    raw@.len() == i,
                    forall|k: int| 0 <= k < i ==> raw@[k] == (#[trigger] ms@[k]).info,
                decreases ms@.len() - i,
            {
                raw.push(ms[i].info.clone());
                i += 1;
            }
            Ok(build_monitor_list(&raw))
        },
    }
}

/// Captures the first window in `ws` whose id is `window_id`. No match is
/// a normal empty result, never an error; a capture or encode failure on
/// the matched window is surfaced.
pub fn capture_window_in(ws: &Vec<BackendWindow>, window_id: u32) -> (r: Result<
    Option<CapturedWindow>,
    CaptureError,
>)
    ensures
        !spec_has_window(ws@, window_id) ==> (r matches Ok(o) && o is None),
        r matches Ok(None) ==> !spec_has_window(ws@, window_id),
        r matches Ok(Some(cw)) ==> exists|i: int|
            #[trigger] spec_first_match(ws@, window_id, i) && cw.info == ws@[i].info,
        r matches Ok(Some(cw)) ==> spec_is_encoding(cw.image_data@),
        r matches Err(e) ==> (e is Capture || e is Encode) && spec_has_window(ws@, window_id),
{
    let mut i: usize = 0;
    while i < ws.len()
        invariant
            i <= ws.len(),
            forall|j: int| 0 <= j < i ==> (#[trigger] ws@[j]).info.id != window_id,
        decreases ws@.len() - i,
    {
        if ws[i].info.id == window_id {
            proof {
                assert(spec_first_match(ws@, window_id, i as int));
            }
            match capture_window_pixels(&ws[i].handle) {
                Err(s) => {
                    return Err(CaptureError::Capture(s));
                },
                Ok(frame) => match encode(&frame) {
                    Err(e) => {
                        return Err(e);
                    },
                    Ok(bytes) => {
                        proof {
                            assert(spec_is_encoding(bytes@));
                        }
                        return Ok(Some(CapturedWindow::new(ws[i].info.clone(), bytes)));
                    },
                },
            }
        }
        i += 1;
    }
    Ok(None)
}

/// Captures a specific window by id on a fresh enumeration: on success
/// the returned snapshot is the requested window's, with its image as
/// one PNG encoding.
pub fn capture_window(window_id: u32) -> (r: Result<Option<CapturedWindow>, CaptureError>)
    ensures
        r matches Ok(Some(cw)) ==> cw.info.id == window_id,
        r matches Ok(Some(cw)) ==> spec_is_encoding(cw.image_data@),
        r matches Err(e) ==> e is Enumeration || e is Capture || e is Encode,
{
    match fetch_windows() {
        Err(s) => Err(CaptureError::Enumeration(s)),
        Ok(ws) => capture_window_in(&ws, window_id),
    }
}

/// Best-effort batch capture over an enumeration: runs the same filter
/// pipeline as the window catalog, then captures and encodes each
/// survivor, silently omitting any window whose capture or encode fails.
/// The result never exceeds the number of surviving windows, and every
/// returned entry is one of them.
pub fn capture_filtered(
    ws: &Vec<BackendWindow>,
    include_minimized: bool,
    filter_system: bool,
    reg: &Registry,
) -> (out: Vec<CapturedWindow>)
    ensures
        out@.len() <= spec_kept_windows(
            spec_infos(ws@),
            include_minimized,
            filter_system,
            reg.apps_view(),
            reg.titles_view(),
        ).len(),
        forall|j: int|
            0 <= j < out@.len() ==> spec_kept_windows(
                spec_infos(ws@),
                include_minimized,
                filter_system,
                reg.apps_view(),
                reg.titles_view(),
            ).contains((#[trigger] out@[j]).info),
        forall|j: int|
            0 <= j < out@.len() ==> spec_keeps_window(
                (#[trigger] out@[j]).info,
                include_minimized,
                filter_system,
                reg.apps_view(),
                reg.titles_view(),
            ),
        forall|j: int|
            0 <= j < out@.len() ==> spec_is_encoding((#[trigger] out@[j]).image_data@),
        exists|idx: Seq<int>|
            #[trigger] spec_ordered_selection(
                idx,
                out@,
                spec_kept_windows(
                    spec_infos(ws@),
                    include_minimized,
                    filter_system,
                    reg.apps_view(),
                    reg.titles_view(),
                ),
            ),
{
    let ghost pred = |w: WindowInfo|
        spec_keeps_window(w, include_minimized, filter_system, reg.apps_view(), reg.titles_view());
    let ghost mut picks: Seq<int> = Seq::empty();
    let mut out: Vec<CapturedWindow> = Vec::new();
    let mut i: usize = 0;
    while i < ws.len()
        invariant
            i <= ws.len(),
            pred == (|w: WindowInfo|
                spec_keeps_window(
                    w,
                    include_minimized,
                    filter_system,
                    reg.apps_view(),
                    reg.titles_view(),
                )),
            out@.len() <= spec_infos(ws@).subrange(0, i as int).filter(pred).len(),
            forall|j: int|
                0 <= j < out@.len() ==> spec_infos(ws@).subrange(0, i as int).filter(
                    pred,
                ).contains((#[trigger] out@[j]).info),
            forall|j: int| 0 <= j < out@.len() ==> pred((#[trigger] out@[j]).info),
            forall|j: int|
                0 <= j < out@.len() ==> spec_is_encoding((#[trigger] out@[j]).image_data@),
            spec_ordered_selection(picks, out@, spec_infos(ws@).subrange(0, i as int).filter(pred)),
        decreases ws@.len() - i,
    {
        let keep = (include_minimized || !ws[i].info.is_minimized) && (!filter_system
            || !should_skip_window(ws[i].info.app_name.as_str(), ws[i].info.title.as_str(), reg))
            && ws[i].info.width > 0 && ws[i].info.height > 0;
        proof {
            reveal(Seq::filter);
            let prefix = spec_infos(ws@).subrange(0, i as int);
            let next = spec_infos(ws@).subrange(0, i as int + 1);
            assert(next.drop_last() =~= prefix);
            assert(next.last() == spec_infos(ws@)[i as int]);
            assert(spec_infos(ws@)[i as int] == ws@[i as int].info);
            assert(keep == pred(ws@[i as int].info));
            assert forall|z: WindowInfo| prefix.filter(pred).contains(z) implies next.filter(
                pred,
            ).contains(z) by {
                let k = choose|k: int|
                    0 <= k < prefix.filter(pred).len() && prefix.filter(pred)[k] == z;
                assert(next.filter(pred)[k] == z);
            }
            assert forall|j: int| 0 <= j < picks.len() implies 0 <= #[trigger] picks[j]
                < next.filter(pred).len() && next.filter(pred)[picks[j]] == prefix.filter(
                pred,
            )[picks[j]] by {}
            assert(spec_ordered_selection(picks, out@, next.filter(pred)));
        }
        if keep {
            if let Ok(frame) = capture_window_pixels(&ws[i].handle) {
                if let Ok(bytes) = encode(&frame) {
                    proof {
                        assert(spec_is_encoding(bytes@));
                    }
                    out.push(CapturedWindow::new(ws[i].info.clone(), bytes));
                    proof {
                        let next = spec_infos(ws@).subrange(0, i as int + 1);
                        assert(next.filter(pred)[next.filter(pred).len() - 1] == ws@[i as int].info);
                        picks = picks.push(next.filter(pred).len() - 1);
                        assert(spec_ordered_selection(picks, out@, next.filter(pred)));
                    }
                }
            }
        }
        i += 1;
    }
    proof {
        assert(spec_infos(ws@).subrange(0, ws@.len() as int) =~= spec_infos(ws@));
        assert(spec_ordered_selection(
            picks,
            out@,
            spec_kept_windows(
                spec_infos(ws@),
                include_minimized,
                filter_system,
                reg.apps_view(),
                reg.titles_view(),
            ),
        ));
    }
    out
}

/// Captures all visible windows on a fresh enumeration. Only the
/// enumeration itself can fail; per-item capture or encode failures are
/// absorbed by omitting the failing window.
pub fn capture_all_windows(include_minimized: bool, filter_system: bool, reg: &Registry) -> (r:
    Result<Vec<CapturedWindow>, CaptureError>)
    ensures
        r matches Ok(out) ==> forall|j: int|
            0 <= j < out@.len() ==> spec_keeps_window(
                (#[trigger] out@[j]).info,
                include_minimized,
                filter_system,
                reg.apps_view(),
                reg.titles_view(),
            ),
        r matches Ok(out) ==> forall|j: int|
            0 <= j < out@.len() ==> spec_is_encoding((#[trigger] out@[j]).image_data@),
        r matches Err(e) ==> e is Enumeration,
{
    match fetch_windows() {
        Err(s) => Err(CaptureError::Enumeration(s)),
        Ok(ws) => Ok(capture_filtered(&ws, include_minimized, filter_system, reg)),
    }
}

/// Finds the monitor a request resolves to: the first with the requested
/// id, or the positional primary (index 0) when no id was given.
fn resolve_monitor_index(ms: &Vec<BackendMonitor>, monitor_id: Option<u32>) -> (r: Option<usize>)
    ensures
        r matches Some(i) ==> spec_resolved_index(ms@, monitor_id, i as int),
        r is None <==> !spec_monitor_resolves(ms@, monitor_id),
{
    match monitor_id {
        Some(id) => {
            let mut i: usize = 0;
            while i < ms.len()
                invariant
                    i <= ms.len(),
                    monitor_id == Some(id),
                    forall|j: int| 0 <= j < i ==> (#[trigger] ms@[j]).info.id != id,
                decreases ms@.len() - i,
            {
                if ms[i].info.id == id {
                    proof {
                        assert(spec_resolved_index(ms@, monitor_id, i as int));
                    }
                    return Some(i);
                }
                i += 1;
            }
            None
        },
        None => {
            if ms.len() > 0 {
                Some(0)
            } else {
                None
            }
        },
    }
}

/// Captures one monitor out of `ms`: the requested one, or the positional
/// primary by default. An empty list or an unmatched id is an error —
/// deliberately unlike the window case.
pub fn capture_screen_in(ms: &Vec<BackendMonitor>, monitor_id: Option<u32>) -> (r: Result<
    Option<CapturedScreen>,
    CaptureError,
>)
    ensures
        !spec_monitor_resolves(ms@, monitor_id) ==> r matches Err(CaptureError::NoMonitor),
        r matches Err(CaptureError::NoMonitor) ==> !spec_monitor_resolves(ms@, monitor_id),
        r matches Ok(o) ==> o is Some,
        r matches Ok(Some(cs)) ==> exists|i: int|
            #[trigger] spec_resolved_index(ms@, monitor_id, i) && cs.monitor
                == spec_monitor_with_flag(ms@[i].info, i),
        r matches Ok(Some(cs)) ==> spec_is_encoding(cs.image_data@),
        r matches Err(e) ==> e is NoMonitor || e is Capture || e is Encode,
{
    match resolve_monitor_index(ms, monitor_id) {
        None => Err(CaptureError::NoMonitor),
        Some(i) => match capture_monitor_pixels(&ms[i].handle) {
            Err(s) => Err(CaptureError::Capture(s)),
            Ok(frame) => match encode(&frame) {
                Err(e) => Err(e),
                Ok(bytes) => {
                    proof {
                        assert(spec_is_encoding(bytes@));
                    }
                    let m = MonitorInfo {
                        id: ms[i].info.id,
                        name: ms[i].info.name.clone(),
                        x: ms[i].info.x,
                        y: ms[i].info.y,
                        width: ms[i].info.width,
                        height: ms[i].info.height,
                        is_primary: i == 0,
                    };
                    Ok(Some(CapturedScreen::new(m, bytes)))
                },
            },
        },
    }
}

/// Captures a monitor (the requested one, or the positional primary) on a
/// fresh enumeration. No available monitor is an error, never an empty
/// success; on success the snapshot is the requested monitor's — the
/// positional primary when none was requested — with its image as one
/// PNG encoding.
pub fn capture_screen(monitor_id: Option<u32>) -> (r: Result<Option<CapturedScreen>, CaptureError>)
    ensures
        r matches Ok(o) ==> o is Some,
        r matches Ok(Some(cs)) ==> (monitor_id matches Some(id) ==> cs.monitor.id == id),
        r matches Ok(Some(cs)) ==> (monitor_id is None ==> cs.monitor.is_primary),
        r matches Ok(Some(cs)) ==> spec_is_encoding(cs.image_data@),
        r matches Err(e) ==> e is Enumeration || e is NoMonitor || e is Capture || e is Encode,
{
    match fetch_monitors() {
        Err(s) => Err(CaptureError::Enumeration(s)),
        Ok(ms) => capture_screen_in(&ms, monitor_id),
    }
}

/// Captures the screen, then all visible windows, as two independent
/// sequential queries; the two results need not describe the same
/// instant. The screen capture's error propagates; window capture
/// failures are absorbed per the batch policy.
pub fn capture_screen_with_windows(
    monitor_id: Option<u32>,
    include_minimized: bool,
    filter_system: bool,
    reg: &Registry,
) -> (r: Result<(Option<CapturedScreen>, Vec<CapturedWindow>), CaptureError>)
    ensures
        r matches Ok(t) ==> t.0 is Some,
        r matches Ok(t) ==> (monitor_id matches Some(id) ==> (t.0 matches Some(cs)
            && cs.monitor.id == id)),
        r matches Ok(t) ==> (t.0 matches Some(cs) ==> spec_is_encoding(cs.image_data@)),
        r matches Ok(t) ==> forall|j: int|
            0 <= j < t.1@.len() ==> spec_keeps_window(
                (#[trigger] t.1@[j]).info,
                include_minimized,
                filter_system,
                reg.apps_view(),
                reg.titles_view(),
            ),
        r matches Ok(t) ==> forall|j: int|
            0 <= j < t.1@.len() ==> spec_is_encoding((#[trigger] t.1@[j]).image_data@),
        r matches Err(e) ==> e is Enumeration || e is NoMonitor || e is Capture || e is Encode,
{
    let screen = match capture_screen(monitor_id) {
        Err(e) => {
            return Err(e);
        },
        Ok(s) => s,
    };
    let windows = match capture_all_windows(include_minimized, filter_system, reg) {
        Err(e) => {
            return Err(e);
        },
        Ok(w) => w,
    };
    Ok((screen, windows))
}

} // verus!
