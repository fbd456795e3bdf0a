//! The Windows adapter. Permission states come from the registry's consent store,
//! read through PowerShell by the caller.
use vstd::prelude::*;

use super::{
    entry, entry_view, unknown_permission, unknown_permission_error, PermissionSnapshot,
    PermissionSnapshotView, PermissionStatus, PlatformProfile, PlatformProfileView,
};
use crate::text::{ascii_lower, str_eq, to_ascii_lowercase, trim, trimmed};

verus! {

/// The status that an ASCII-lowercased consent-store value names. Values that Windows
/// sets before per-app consent is resolved, and unknown ones, count as not determined.
pub open spec fn consent_status_for(t: Seq<char>) -> PermissionStatus {
    if t == "allow"@ || t == "allowforcurrentdevice"@ {
        PermissionStatus::Granted
    } else if t == "deny"@ {
        PermissionStatus::Denied
    } else {
        PermissionStatus::NotDetermined
    }
}

/// Maps a consent-store value, ignoring surrounding whitespace and ASCII case.
pub fn map_consent_store_status(raw: &str) -> (r: PermissionStatus)
    ensures
        r == consent_status_for(ascii_lower(trimmed(raw@))),
{
    let folded = to_ascii_lowercase(trim(raw));
    let t = folded.as_str();
    if str_eq(t, "allow") || str_eq(t, "allowforcurrentdevice") {
        PermissionStatus::Granted
    } else if str_eq(t, "deny") {
        PermissionStatus::Denied
    } else {
        PermissionStatus::NotDetermined
    }
}

/// Reads the toast switch: `1` is on, `0` is off, anything else is unknown.
pub fn parse_toast_enabled(raw: &str) -> (r: Option<bool>)
    ensures
        r == (if trimmed(raw@) == "1"@ {
            Some(true)
        } else if trimmed(raw@) == "0"@ {
            Some(false)
        } else {
            None
        }),
{
    let t = trim(raw);
    if str_eq(t, "1") {
        Some(true)
    } else if str_eq(t, "0") {
        Some(false)
    } else {
        None
    }
}

/// What a PowerShell run yields: its trimmed output, if it succeeded and printed
/// something.
pub fn powershell_output(success: bool, stdout: &str) -> (r: Option<String>)
    ensures
        r is Some <==> success && trimmed(stdout@).len() > 0,
        r is Some ==> r->Some_0@ == trimmed(stdout@),
{
    if !success {
        return None;
    }
    let t = trim(stdout);
    if t.unicode_len() == 0 {
        None
    } else {
        Some(String::from_str(t))
    }
}

pub open spec fn consent_script_head() -> Seq<char> {
    "$path='HKCU:\\Software\\Microsoft\\Windows\\CurrentVersion\\CapabilityAccessManager\\ConsentStore\\"@
}

pub open spec fn consent_script_tail() -> Seq<char> {
    "'; if (Test-Path $path) { (Get-ItemProperty -Path $path -Name Value -ErrorAction SilentlyContinue).Value }"@
}

/// The PowerShell script that prints the consent-store value of a capability.
pub fn consent_store_script(capability: &str) -> (r: String)
    ensures
        r@ == consent_script_head() + capability@ + consent_script_tail(),
{
    let mut s = String::from_str(
        "$path='HKCU:\\Software\\Microsoft\\Windows\\CurrentVersion\\CapabilityAccessManager\\ConsentStore\\",
    );
    s.append(capability);
    s.append(
        "'; if (Test-Path $path) { (Get-ItemProperty -Path $path -Name Value -ErrorAction SilentlyContinue).Value }",
    );
    s
}

/// The PowerShell script that prints the toast switch.
pub const NOTIFICATIONS_SCRIPT: &'static str = "$path='HKCU:\\Software\\Microsoft\\Windows\\CurrentVersion\\PushNotifications'; if (Test-Path $path) {{ (Get-ItemProperty -Path $path -Name ToastEnabled -ErrorAction SilentlyContinue).ToastEnabled }}";

pub open spec fn consent_or_undetermined(raw: Option<String>) -> PermissionStatus {
    match raw {
        Some(v) => consent_status_for(ascii_lower(trimmed(v@))),
        None => PermissionStatus::NotDetermined,
    }
}

/// The microphone state from its consent-store value, if one was read.
pub fn microphone_status(raw: Option<String>) -> (r: PermissionStatus)
    ensures
        r == consent_or_undetermined(raw),
{
    match raw {
        Some(v) => map_consent_store_status(v.as_str()),
        None => PermissionStatus::NotDetermined,
    }
}

/// The speech state: Windows releases name the key differently, so the value under the
/// first name is used if there is one, else the value under the second.
pub fn speech_status(primary: Option<String>, secondary: Option<String>) -> (r: PermissionStatus)
    ensures
        r == (if primary is Some {
            consent_or_undetermined(primary)
        } else {
            consent_or_undetermined(secondary)
        }),
{
    match primary {
        Some(v) => map_consent_store_status(v.as_str()),
        None => microphone_status(secondary),
    }
}

/// The notification state from the toast switch, if it was read.
pub fn notifications_status(raw: Option<String>) -> (r: PermissionStatus)
    ensures
        r == match raw {
            Some(v) => if trimmed(v@) == "1"@ {
                PermissionStatus::Granted
            } else if trimmed(v@) == "0"@ {
                PermissionStatus::Denied
            } else {
                PermissionStatus::NotDetermined
            },
            None => PermissionStatus::NotDetermined,
        },
{
    let parsed = match &raw {
        Some(v) => parse_toast_enabled(v.as_str()),
        None => None,
    };
    match parsed {
        Some(true) => PermissionStatus::Granted,
        Some(false) => PermissionStatus::Denied,
        None => PermissionStatus::NotDetermined,
    }
}

/// The PowerShell command that opens a settings URI.
pub fn start_process_command(uri: &str) -> (r: String)
    ensures
        r@ == "Start-Process '"@ + uri@ + "'"@,
{
    let mut s = String::from_str("Start-Process '");
    s.append(uri);
    s.append("'");
    s
}

pub open spec fn profile_view() -> PlatformProfileView {
    PlatformProfileView {
        os: "windows"@,
        supports_tray: true,
        supports_overlay: true,
        supports_global_hotkeys: true,
        supports_deep_links: false,
        supports_notifications: true,
        default_record_hotkey: "caps_lock"@,
        default_overlay_hotkey: "double_shift"@,
        hotkey_options: seq![
            "caps_lock"@,
            "double_shift"@,
            "double_control"@,
            "double_alt"@,
            "double_windows"@,
        ],
    }
}

pub fn profile() -> (r: PlatformProfile)
    ensures
        r@ == profile_view(),
{
    let options = vec![
        String::from_str("caps_lock"),
        String::from_str("double_shift"),
        String::from_str("double_control"),
        String::from_str("double_alt"),
        String::from_str("double_windows"),
    ];
    let r = PlatformProfile {
        os: String::from_str("windows"),
        supports_tray: true,
        supports_overlay: true,
        supports_global_hotkeys: true,
        supports_deep_links: false,
        supports_notifications: true,
        default_record_hotkey: String::from_str("caps_lock"),
        default_overlay_hotkey: String::from_str("double_shift"),
        hotkey_options: options,
    };
    assert(r@.hotkey_options =~= profile_view().hotkey_options);
    r
}

pub open spec fn windows_note() -> Seq<char> {
    "Windows adapter active. Privacy probes use registry-backed consent state for Microphone, Speech Recognition, and Notifications."@
}

pub open spec fn snapshot_view(
    microphone: PermissionStatus,
    speech: PermissionStatus,
    notifications: PermissionStatus,
) -> PermissionSnapshotView {
    PermissionSnapshotView {
        items: seq![
            entry_view("microphone"@, "Microphone"@, microphone, true),
            entry_view("speech"@, "Speech Recognition"@, speech, true),
            entry_view("notifications"@, "Notifications"@, notifications, true),
        ],
        note: windows_note(),
    }
}

/// The three permissions the consent store covers.
pub fn permission_snapshot(
    microphone: PermissionStatus,
    speech: PermissionStatus,
    notifications: PermissionStatus,
) -> (r: PermissionSnapshot)
    ensures
        r@ == snapshot_view(microphone, speech, notifications),
{
    let items = vec![
        entry("microphone", "Microphone", microphone, true),
        entry("speech", "Speech Recognition", speech, true),
        entry("notifications", "Notifications", notifications, true),
    ];
    let r = PermissionSnapshot {
        items,
        note: String::from_str(
            "Windows adapter active. Privacy probes use registry-backed consent state for Microphone, Speech Recognition, and Notifications.",
        ),
    };
    assert(r@.items =~= snapshot_view(microphone, speech, notifications).items);
    r
}

/// The Settings URI of a permission id, if it has one.
pub open spec fn settings_target(id: Seq<char>) -> Option<Seq<char>> {
    if id == "microphone"@ {
        Some("ms-settings:privacy-microphone"@)
    } else if id == "speech"@ {
        Some("ms-settings:privacy-speech"@)
    } else if id == "notifications"@ {
        Some("ms-settings:notifications"@)
    } else {
        None
    }
}

pub open spec fn settings_result(id: Seq<char>, r: Result<String, String>) -> bool {
    match settings_target(id) {
        Some(t) => r is Ok && r->Ok_0@ == t,
        None => r is Err && r->Err_0@ == unknown_permission(id),
    }
}

/// The Settings URI to open for a permission id; the caller opens it.
pub fn open_permission_settings(permission_id: &str) -> (r: Result<String, String>)
    ensures
        settings_result(permission_id@, r),
{
    let target = if str_eq(permission_id, "microphone") {
        "ms-settings:privacy-microphone"
    } else if str_eq(permission_id, "speech") {
        "ms-settings:privacy-speech"
    } else if str_eq(permission_id, "notifications") {
        "ms-settings:notifications"
    } else {
        return Err(unknown_permission_error(permission_id));
    };
    Ok(String::from_str(target))
}

} // verus!
