//! Platform identification and the platform-selected blocklists that mark
//! OS-owned "chrome" windows (taskbars, docks, menu bars).
//!
//! The registry is plain data chosen once at startup from a platform
//! identifier and passed by reference into the catalogs; nothing here is
//! global or lazily initialized.

use vstd::prelude::*;

verus! {

/// The operating system the process runs on.
#[derive(Clone, Copy, Debug, PartialEq, Eq, Structural)]
pub enum Platform {
    Macos,
    Windows,
    Linux,
    Unknown,
}

impl Platform {
    /// The conventional lowercase name of the platform.
    pub open spec fn spec_name(&self) -> Seq<char> {
        match *self {
            Platform::Macos => "macos"@,
            Platform::Windows => "windows"@,
            Platform::Linux => "linux"@,
            Platform::Unknown => "unknown"@,
        }
    }

    /// The platform's name: one of `"macos"`, `"windows"`, `"linux"`,
    /// `"unknown"`.
    pub fn name(&self) -> (r: String)
        ensures
            r@ == self.spec_name(),
    {
        match *self {
            Platform::Macos => "macos".to_owned(),
            Platform::Windows => "windows".to_owned(),
            Platform::Linux => "linux".to_owned(),
            Platform::Unknown => "unknown".to_owned(),
        }
    }
}

/// The platform a given OS name denotes; any name outside the three
/// supported ones maps to `Unknown`.
pub open spec fn spec_platform_of(os: Seq<char>) -> Platform {
    if os == "macos"@ {
        Platform::Macos
    } else if os == "windows"@ {
        Platform::Windows
    } else if os == "linux"@ {
        Platform::Linux
    } else {
        Platform::Unknown
    }
}

/// Maps an OS name (as `std::env::consts::OS` spells it) to a platform.
pub fn platform_from_os(os: &str) -> (p: Platform)
    ensures
        p == spec_platform_of(os@),
{
    let o = os.to_owned();
    if o == "macos".to_owned() {
        Platform::Macos
    } else if o == "windows".to_owned() {
        Platform::Windows
    } else if o == "linux".to_owned() {
        Platform::Linux
    } else {
        Platform::Unknown
    }
}

/// The application names whose windows count as system chrome on `p`,
/// matched case-insensitively as substrings of a window's app name.
pub open spec fn spec_app_blocklist(p: Platform) -> Seq<Seq<char>> {
    match p {
        Platform::Macos => seq![
            "Window Server"@,
            "SystemUIServer"@,
            "ControlCenter"@,
            "Dock"@,
            "NotificationCenter"@,
            "loginwindow"@,
            "WindowManager"@,
            "Spotlight"@,
        ],
        Platform::Windows => seq![
            "Windows Shell Experience Host"@,
            "Microsoft Text Input Application"@,
            "Windows Explorer"@,
            "Program Manager"@,
            "TaskBar"@,
        ],
        Platform::Linux => seq![
            "Gnome-shell"@,
            "gnome-shell"@,
            "Plasma"@,
            "plasma"@,
            "Polybar"@,
            "i3bar"@,
            "Plank"@,
            "Dock"@,
            "Panel"@,
        ],
        Platform::Unknown => Seq::empty(),
    }
}

/// The window titles that count as system chrome on `p`, matched
/// case-insensitively and exactly.
pub open spec fn spec_title_blocklist(p: Platform) -> Seq<Seq<char>> {
    match p {
        Platform::Macos => seq![
            "Menu Bar"@,
            "Notification Center"@,
            "Control Center"@,
            "Spotlight"@,
            "Mission Control"@,
            "Desktop"@,
            ""@,
        ],
        Platform::Windows => seq![
            "Program Manager"@,
            "Task View"@,
            "Start"@,
            "System Tray"@,
            "Task Bar"@,
            "Desktop"@,
            ""@,
        ],
        Platform::Linux => seq![
            "Desktop"@,
            "Panel"@,
            "Top Bar"@,
            "Status Bar"@,
            "Dock"@,
            "Activities"@,
            "System Tray"@,
            ""@,
        ],
        Platform::Unknown => Seq::empty(),
    }
}

/// The two blocklists the window filter consults: application-name
/// substrings and exact window titles, both matched case-insensitively.
pub struct Registry {
    pub apps: Vec<String>,
    pub titles: Vec<String>,
}

impl Registry {
    /// The app-name blocklist as character sequences.
    pub open spec fn apps_view(&self) -> Seq<Seq<char>> {
        self.apps@.map_values(|s: String| s@)
    }

    /// The title blocklist as character sequences.
    pub open spec fn titles_view(&self) -> Seq<Seq<char>> {
        self.titles@.map_values(|s: String| s@)
    }

    /// The registry holds exactly the blocklists of platform `p`.
    pub open spec fn matches_platform(&self, p: Platform) -> bool {
        &&& self.apps_view() == spec_app_blocklist(p)
        &&& self.titles_view() == spec_title_blocklist(p)
    }

    /// The blocklists for platform `p`; an unknown platform gets empty
    /// lists, so only the unconditional exclusions apply there.
    pub fn for_platform(p: Platform) -> (r: Registry)
        ensures
            r.matches_platform(p),
    {
        let mut apps: Vec<String> = Vec::new();
        let mut titles: Vec<String> = Vec::new();
        match p {
            Platform::Macos => {
                apps.push("Window Server".to_owned());
                apps.push("SystemUIServer".to_owned());
                apps.push("ControlCenter".to_owned());
                apps.push("Dock".to_owned());
                apps.push("NotificationCenter".to_owned());
                apps.push("loginwindow".to_owned());
                apps.push("WindowManager".to_owned());
                apps.push("Spotlight".to_owned());
                titles.push("Menu Bar".to_owned());
                titles.push("Notification Center".to_owned());
                titles.push("Control Center".to_owned());
                titles.push("Spotlight".to_owned());
                titles.push("Mission Control".to_owned());
                titles.push("Desktop".to_owned());
                titles.push("".to_owned());
            },
            Platform::Windows => {
                apps.push("Windows Shell Experience Host".to_owned());
                apps.push("Microsoft Text Input Application".to_owned());
                apps.push("Windows Explorer".to_owned());
                apps.push("Program Manager".to_owned());
                apps.push("TaskBar".to_owned());
                titles.push("Program Manager".to_owned());
                titles.push("Task View".to_owned());
                titles.push("Start".to_owned());
                titles.push("System Tray".to_owned());
                titles.push("Task Bar".to_owned());
                titles.push("Desktop".to_owned());
                titles.push("".to_owned());
            },
            Platform::Linux => {
                apps.push("Gnome-shell".to_owned());
                apps.push("gnome-shell".to_owned());
                apps.push("Plasma".to_owned());
                apps.push("plasma".to_owned());
                apps.push("Polybar".to_owned());
                apps.push("i3bar".to_owned());
                apps.push("Plank".to_owned());
                apps.push("Dock".to_owned());
                apps.push("Panel".to_owned());
                titles.push("Desktop".to_owned());
                titles.push("Panel".to_owned());
                titles.push("Top Bar".to_owned());
                titles.push("Status Bar".to_owned());
                titles.push("Dock".to_owned());
                titles.push("Activities".to_owned());
                titles.push("System Tray".to_owned());
                titles.push("".to_owned());
            },
            Platform::Unknown => {},
        }
        let r = Registry { apps, titles };
        proof {
            assert(r.apps_view() =~= spec_app_blocklist(p));
            assert(r.titles_view() =~= spec_title_blocklist(p));
        }
        r
    }
}

} // verus!
