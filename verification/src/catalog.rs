//! The window filter pipeline and the monitor normalization rule.
//!
//! Windows are excluded when minimized (unless asked for), when the
//! blocklists mark them as system chrome (when asked for), and always when
//! they have zero area. Monitors are passed through 1:1, with the primary
//! flag assigned to enumeration index 0 by positional convention.

use vstd::prelude::*;

use crate::registry::Registry;
use crate::textmatch::{contains_seq, contains_substr, fold_case, lower_of};
use crate::types::{MonitorInfo, RawMonitor, WindowInfo};

verus! {

/// A window counts as system chrome when a blocklisted app name occurs,
/// case-insensitively, as a substring of its app name; when its title,
/// case-folded, equals a blocklisted title; or when its title is empty.
pub open spec fn spec_is_system_window(
    app: Seq<char>,
    title: Seq<char>,
    apps: Seq<Seq<char>>,
    titles: Seq<Seq<char>>,
) -> bool {
    ||| exists|i: int|
        0 <= i < apps.len() && contains_seq(lower_of(app), lower_of(#[trigger] apps[i]))
    ||| exists|i: int| 0 <= i < titles.len() && lower_of(title) == lower_of(#[trigger] titles[i])
    ||| title.len() == 0
}

/// The filter's decision to drop one window: true when the window is to be
/// skipped as system chrome.
pub fn should_skip_window(app_name: &str, title: &str, reg: &Registry) -> (r: bool)
    ensures
        r == spec_is_system_window(app_name@, title@, reg.apps_view(), reg.titles_view()),
{
    if title.is_empty() {
        return true;
    }
    let app_l = fold_case(app_name);
    let mut i: usize = 0;
    while i < reg.apps.len()
        invariant
            i <= reg.apps.len(),
            app_l@ == lower_of(app_name@),
            forall|k: int|
                0 <= k < i ==> !contains_seq(
                    lower_of(app_name@),
                    lower_of(#[trigger] reg.apps_view()[k]),
                ),
        decreases reg.apps@.len() - i,
    {
        let e_l = fold_case(reg.apps[i].as_str());
        if contains_substr(app_l.as_str(), e_l.as_str()) {
            proof {
                assert(contains_seq(lower_of(app_name@), lower_of(reg.apps_view()[i as int])));
            }
            return true;
        }
        i += 1;
    }
    let title_l = fold_case(title);
    let mut j: usize = 0;
    while j < reg.titles.len()
        invariant
            j <= reg.titles.len(),
            title_l@ == lower_of(title@),
            forall|k: int|
                0 <= k < j ==> lower_of(title@) != lower_of(#[trigger] reg.titles_view()[k]),
        decreases reg.titles@.len() - j,
    {
        let e_l = fold_case(reg.titles[j].as_str());
        if title_l == e_l {
            proof {
                assert(lower_of(title@) == lower_of(reg.titles_view()[j as int]));
            }
            return true;
        }
        j += 1;
    }
    false
}

/// One window survives the filter pipeline: it is not minimized (or
/// minimized ones were asked for), it is not system chrome (or the system
/// filter is off), and it has a positive area.
pub open spec fn spec_keeps_window(
    w: WindowInfo,
    include_minimized: bool,
    filter_system: bool,
    apps: Seq<Seq<char>>,
    titles: Seq<Seq<char>>,
) -> bool {
    &&& include_minimized || !w.is_minimized
    &&& !filter_system || !spec_is_system_window(w.app_name@, w.title@, apps, titles)
    &&& w.width > 0
    &&& w.height > 0
}

/// The windows that survive the filter pipeline, in enumeration order.
pub open spec fn spec_kept_windows(
    raw: Seq<WindowInfo>,
    include_minimized: bool,
    filter_system: bool,
    apps: Seq<Seq<char>>,
    titles: Seq<Seq<char>>,
) -> Seq<WindowInfo> {
    raw.filter(
        |w: WindowInfo| spec_keeps_window(w, include_minimized, filter_system, apps, titles),
    )
}

/// Every window that survives the filter pipeline has positive width and
/// height; when the system filter is on it is not system chrome — its
/// case-folded title equals no blocklisted title, no blocklisted app name
/// occurs in its app name, and its title is non-empty — and when
/// minimized windows were not asked for, it is not minimized.
pub proof fn lemma_kept_window_properties(
    raw: Seq<WindowInfo>,
    include_minimized: bool,
    filter_system: bool,
    apps: Seq<Seq<char>>,
    titles: Seq<Seq<char>>,
    i: int,
)
    requires
        0 <= i < spec_kept_windows(raw, include_minimized, filter_system, apps, titles).len(),
    ensures
        spec_kept_windows(raw, include_minimized, filter_system, apps, titles)[i].width > 0,
        spec_kept_windows(raw, include_minimized, filter_system, apps, titles)[i].height > 0,
        filter_system ==> !spec_is_system_window(
            spec_kept_windows(raw, include_minimized, filter_system, apps, titles)[i].app_name@,
            spec_kept_windows(raw, include_minimized, filter_system, apps, titles)[i].title@,
            apps,
            titles,
        ),
        filter_system ==> spec_kept_windows(
            raw,
            include_minimized,
            filter_system,
            apps,
            titles,
        )[i].title@.len() > 0,
        !include_minimized ==> !spec_kept_windows(
            raw,
            include_minimized,
            filter_system,
            apps,
            titles,
        )[i].is_minimized,
{
    let pred = |w: WindowInfo|
        spec_keeps_window(w, include_minimized, filter_system, apps, titles);
    raw.lemma_filter_pred(pred, i);
}

/// Applies the filter pipeline to a raw enumeration: surviving windows are
/// kept 1:1, in order, with no re-sort and no deduplication.
pub fn build_window_list(
    raw: &Vec<WindowInfo>,
    include_minimized: bool,
    filter_system: bool,
    reg: &Registry,
) -> (out: Vec<WindowInfo>)
    ensures
        out@ == spec_kept_windows(
            raw@,
            include_minimized,
            filter_system,
            reg.apps_view(),
            reg.titles_view(),
        ),
{
    let ghost pred = |w: WindowInfo|
        spec_keeps_window(w, include_minimized, filter_system, reg.apps_view(), reg.titles_view());
    let mut out: Vec<WindowInfo> = Vec::new();
    let mut i: usize = 0;
    while i < raw.len()
        invariant
            i <= raw.len(),
            pred == (|w: WindowInfo|
                spec_keeps_window(
                    w,
                    include_minimized,
                    filter_system,
                    reg.apps_view(),
                    reg.titles_view(),
                )),
            out@ == raw@.subrange(0, i as int).filter(pred),
        decreases raw@.len() - i,
    {
        let keep = (include_minimized || !raw[i].is_minimized) && (!filter_system
            || !should_skip_window(raw[i].app_name.as_str(), raw[i].title.as_str(), reg))
            && raw[i].width > 0 && raw[i].height > 0;
        proof {
            reveal(Seq::filter);
            let prefix = raw@.subrange(0, i as int);
            let next = raw@.subrange(0, i as int + 1);
            assert(next.drop_last() =~= prefix);
            assert(next.last() == raw@[i as int]);
            assert(keep == pred(raw@[i as int]));
        }
        if keep {
            out.push(raw[i].clone());
        }
        i += 1;
    }
    proof {
        assert(raw@.subrange(0, raw@.len() as int) =~= raw@);
    }
    out
}

/// The metadata entry for one backend monitor at enumeration index `i`:
/// the backend fields verbatim, and the primary flag exactly when `i` is 0.
pub open spec fn spec_monitor_with_flag(m: RawMonitor, i: int) -> MonitorInfo {
    MonitorInfo {
        id: m.id,
        name: m.name,
        x: m.x,
        y: m.y,
        width: m.width,
        height: m.height,
        is_primary: i == 0,
    }
}

/// Maps a raw monitor enumeration 1:1 in backend order; exactly the entry
/// at index 0 (if any) is marked primary.
pub fn build_monitor_list(raw: &Vec<RawMonitor>) -> (out: Vec<MonitorInfo>)
    ensures
        out@.len() == raw@.len(),
        forall|i: int| 0 <= i < raw@.len() ==> out@[i] == spec_monitor_with_flag(raw@[i], i),
{
    let mut out: Vec<MonitorInfo> = Vec::new();
    let mut i: usize = 0;
    while i < raw.len()
        invariant
            i <= raw.len(),
            out@.len() == i,
            forall|k: int| 0 <= k < i ==> out@[k] == spec_monitor_with_flag(raw@[k], k),
        decreases raw@.len() - i,
    {
        let m = MonitorInfo {
            id: raw[i].id,
            name: raw[i].name.clone(),
            x: raw[i].x,
            y: raw[i].y,
            width: raw[i].width,
            height: raw[i].height,
            is_primary: i == 0,
        };
        out.push(m);
        i += 1;
    }
    out
}

} // verus!
