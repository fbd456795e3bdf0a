//! What each desktop platform offers, and how its permission states are reported.
//!
//! Each platform has one adapter module with the same three operations: `profile`,
//! `permission_snapshot` and `open_permission_settings`. The functions here pick the
//! adapter for a `Platform` chosen once at startup.
use vstd::prelude::*;

pub mod fallback;
pub mod macos;
pub mod windows;

verus! {

/// The state of one OS permission.
#[derive(Clone, Copy, Debug, PartialEq, Eq, Structural)]
pub enum PermissionStatus {
    Granted,
    Denied,
    Restricted,
    NotDetermined,
    Unsupported,
}

/// One permission as the settings screen lists it.
#[derive(Clone, Debug)]
pub struct PermissionEntry {
    pub id: String,
    pub label: String,
    pub status: PermissionStatus,
    pub can_open_settings: bool,
}

pub struct PermissionEntryView {
    pub id: Seq<char>,
    pub label: Seq<char>,
    pub status: PermissionStatus,
    pub can_open_settings: bool,
}

impl View for PermissionEntry {
    type V = PermissionEntryView;

    open spec fn view(&self) -> PermissionEntryView {
        PermissionEntryView {
            id: self.id@,
            label: self.label@,
            status: self.status,
            can_open_settings: self.can_open_settings,
        }
    }
}

pub open spec fn entry_view(
    id: Seq<char>,
    label: Seq<char>,
    status: PermissionStatus,
    can_open_settings: bool,
) -> PermissionEntryView {
    PermissionEntryView { id, label, status, can_open_settings }
}

pub fn entry(id: &str, label: &str, status: PermissionStatus, can_open_settings: bool) -> (r:
    PermissionEntry)
    ensures
        r@ == entry_view(id@, label@, status, can_open_settings),
{
    PermissionEntry {
        id: String::from_str(id),
        label: String::from_str(label),
        status,
        can_open_settings,
    }
}

/// Every permission a platform reports, with a note on how they were read.
#[derive(Clone, Debug)]
pub struct PermissionSnapshot {
    pub items: Vec<PermissionEntry>,
    pub note: String,
}

pub struct PermissionSnapshotView {
    pub items: Seq<PermissionEntryView>,
    pub note: Seq<char>,
}

impl View for PermissionSnapshot {
    type V = PermissionSnapshotView;

    open spec fn view(&self) -> PermissionSnapshotView {
        PermissionSnapshotView {
            items: self.items@.map_values(|e: PermissionEntry| e@),
            note: self.note@,
        }
    }
}

/// What the desktop shell can do on a platform, and its hotkey defaults.
#[derive(Clone, Debug)]
pub struct PlatformProfile {
    pub os: String,
    pub supports_tray: bool,
    pub supports_overlay: bool,
    pub supports_global_hotkeys: bool,
    pub supports_deep_links: bool,
    pub supports_notifications: bool,
    pub default_record_hotkey: String,
    pub default_overlay_hotkey: String,
    pub hotkey_options: Vec<String>,
}

pub struct PlatformProfileView {
    pub os: Seq<char>,
    pub supports_tray: bool,
    pub supports_overlay: bool,
    pub supports_global_hotkeys: bool,
    pub supports_deep_links: bool,
    pub supports_notifications: bool,
    pub default_record_hotkey: Seq<char>,
    pub default_overlay_hotkey: Seq<char>,
    pub hotkey_options: Seq<Seq<char>>,
}

impl View for PlatformProfile {
    type V = PlatformProfileView;

    open spec fn view(&self) -> PlatformProfileView {
        PlatformProfileView {
            os: self.os@,
            supports_tray: self.supports_tray,
            supports_overlay: self.supports_overlay,
            supports_global_hotkeys: self.supports_global_hotkeys,
            supports_deep_links: self.supports_deep_links,
            supports_notifications: self.supports_notifications,
            default_record_hotkey: self.default_record_hotkey@,
            default_overlay_hotkey: self.default_overlay_hotkey@,
            hotkey_options: self.hotkey_options@.map_values(|s: String| s@),
        }
    }
}

/// The platform the shell runs on.
#[derive(Clone, Copy, Debug, PartialEq, Eq, Structural)]
pub enum Platform {
    MacOs,
    Windows,
    Other,
}

/// What was read from the OS to build a permission snapshot, per platform.
pub enum PermissionReadings {
    MacOs {
        probe: Option<macos::ProbeStatuses>,
        accessibility_trusted: bool,
        screen_capture_allowed: bool,
    },
    Windows {
        microphone: PermissionStatus,
        speech: PermissionStatus,
        notifications: PermissionStatus,
    },
    Other,
}

/// The profile of `platform`; `os_name` names the OS where no adapter exists.
pub fn profile(platform: Platform, os_name: &str) -> (r: PlatformProfile)
    ensures
        platform == Platform::MacOs ==> r@ == macos::profile_view(),
        platform == Platform::Windows ==> r@ == windows::profile_view(),
        platform == Platform::Other ==> r@ == fallback::profile_view(os_name@),
{
    match platform {
        Platform::MacOs => macos::profile(),
        Platform::Windows => windows::profile(),
        Platform::Other => fallback::profile(os_name),
    }
}

/// The permission snapshot that the platform's adapter builds from its readings.
pub fn permission_snapshot(readings: PermissionReadings) -> (r: PermissionSnapshot)
    ensures
        readings matches PermissionReadings::MacOs {
            probe,
            accessibility_trusted,
            screen_capture_allowed,
        } ==> r@ == macos::snapshot_view(probe, accessibility_trusted, screen_capture_allowed),
        readings matches PermissionReadings::Windows { microphone, speech, notifications }
            ==> r@ == windows::snapshot_view(microphone, speech, notifications),
        readings is Other ==> r@ == fallback::snapshot_view(),
{
    match readings {
        PermissionReadings::MacOs { probe, accessibility_trusted, screen_capture_allowed } => {
            macos::permission_snapshot(probe, accessibility_trusted, screen_capture_allowed)
        },
        PermissionReadings::Windows { microphone, speech, notifications } => {
            windows::permission_snapshot(microphone, speech, notifications)
        },
        PermissionReadings::Other => fallback::permission_snapshot(),
    }
}

/// The settings page to launch for a permission id on `platform`, or why there is none.
pub fn open_permission_settings(platform: Platform, permission_id: &str) -> (r: Result<
    String,
    String,
>)
    ensures
        platform == Platform::MacOs ==> macos::settings_result(permission_id@, r),
        platform == Platform::Windows ==> windows::settings_result(permission_id@, r),
        platform == Platform::Other ==> r is Err && r->Err_0@ == fallback::no_adapter_note(),
{
    match platform {
        Platform::MacOs => macos::open_permission_settings(permission_id),
        Platform::Windows => windows::open_permission_settings(permission_id),
        Platform::Other => fallback::open_permission_settings(permission_id),
    }
}

/// The error for a permission id that the platform does not know.
pub open spec fn unknown_permission(permission_id: Seq<char>) -> Seq<char> {
    "Unknown permission id: "@ + permission_id
}

pub fn unknown_permission_error(permission_id: &str) -> (r: String)
    ensures
        r@ == unknown_permission(permission_id@),
{
    let mut s = String::from_str("Unknown permission id: ");
    s.append(permission_id);
    s
}

} // verus!
