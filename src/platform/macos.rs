//! The macOS adapter. Microphone, speech and notification states come from a probe
//! helper whose answer is cached for a few seconds; accessibility and screen capture
//! are read directly.
use vstd::prelude::*;

use super::{
    entry, entry_view, unknown_permission, unknown_permission_error, PermissionSnapshot,
    PermissionSnapshotView, PermissionStatus, PlatformProfile, PlatformProfileView,
};
use crate::text::{str_eq, trim, trimmed};

verus! {

/// Maps a yes/no permission answer.
pub fn granted_or_denied(granted: bool) -> (r: PermissionStatus)
    ensures
        r == (if granted {
            PermissionStatus::Granted
        } else {
            PermissionStatus::Denied
        }),
{
    if granted {
        PermissionStatus::Granted
    } else {
        PermissionStatus::Denied
    }
}

/// What `str::to_lowercase` returns: full Unicode lowercase mapping.
pub uninterp spec fn lowercase_of(s: Seq<char>) -> Seq<char>;

/// Relies on `str::to_lowercase`: the result depends on the characters alone.
#[verifier::external_body]
fn to_lowercase(s: &str) -> (r: String)
    ensures
        r@ == lowercase_of(s@),
{
    s.to_lowercase()
}

/// The status that a lowercased probe answer names; unknown answers count as not
/// determined.
pub open spec fn probe_status_for(t: Seq<char>) -> PermissionStatus {
    if t == "authorized"@ || t == "granted"@ || t == "provisional"@ || t == "ephemeral"@ {
        PermissionStatus::Granted
    } else if t == "denied"@ {
        PermissionStatus::Denied
    } else if t == "restricted"@ {
        PermissionStatus::Restricted
    } else if t == "unsupported"@ {
        PermissionStatus::Unsupported
    } else {
        PermissionStatus::NotDetermined
    }
}

/// Maps a probe answer that is already trimmed and lowercased.
pub fn probe_status_of_folded(folded: &str) -> (r: PermissionStatus)
    ensures
        r == probe_status_for(folded@),
{
    if str_eq(folded, "authorized") || str_eq(folded, "granted") || str_eq(folded, "provisional")
        || str_eq(folded, "ephemeral") {
        PermissionStatus::Granted
    } else if str_eq(folded, "denied") {
        PermissionStatus::Denied
    } else if str_eq(folded, "restricted") {
        PermissionStatus::Restricted
    } else if str_eq(folded, "unsupported") {
        PermissionStatus::Unsupported
    } else {
        PermissionStatus::NotDetermined
    }
}

/// Maps the probe helper's answer for one permission, ignoring surrounding whitespace
/// and case.
pub fn map_probe_status(raw: &str) -> (r: PermissionStatus)
    ensures
        r == probe_status_for(lowercase_of(trimmed(raw@))),
{
    let folded = to_lowercase(trim(raw));
    probe_status_of_folded(folded.as_str())
}

/// The three states that the probe helper reports.
#[derive(Clone, Copy, Debug, PartialEq, Eq, Structural)]
pub struct ProbeStatuses {
    pub microphone: PermissionStatus,
    pub speech: PermissionStatus,
    pub notifications: PermissionStatus,
}

/// Maps the three fields of the probe helper's answer.
pub fn probe_statuses(microphone: &str, speech: &str, notifications: &str) -> (r: ProbeStatuses)
    ensures
        r.microphone == probe_status_for(lowercase_of(trimmed(microphone@))),
        r.speech == probe_status_for(lowercase_of(trimmed(speech@))),
        r.notifications == probe_status_for(lowercase_of(trimmed(notifications@))),
{
    ProbeStatuses {
        microphone: map_probe_status(microphone),
        speech: map_probe_status(speech),
        notifications: map_probe_status(notifications),
    }
}

/// How long a probe answer is reused, in milliseconds.
pub const PROBE_TTL_MS: u64 = 3000;

/// A probe answer and when it was taken, in milliseconds on a monotonic clock.
#[derive(Clone, Copy, Debug, PartialEq, Eq, Structural)]
pub struct ProbeCacheEntry {
    pub at_ms: u64,
    pub statuses: ProbeStatuses,
}

/// The cached answer, if it is at most `PROBE_TTL_MS` old at `now_ms`.
pub open spec fn fresh_probe(cache: Option<ProbeCacheEntry>, now_ms: u64) -> Option<
    ProbeStatuses,
> {
    match cache {
        Some(e) => if now_ms >= e.at_ms && now_ms - e.at_ms <= PROBE_TTL_MS {
            Some(e.statuses)
        } else {
            None
        },
        None => None,
    }
}

/// First step of reading the probe states: a fresh cached answer, if there is one.
/// Otherwise the caller runs the probe and hands the outcome to `record_probe`.
pub fn read_probe_statuses(cache: &Option<ProbeCacheEntry>, now_ms: u64) -> (r: Option<
    ProbeStatuses,
>)
    ensures
        r == fresh_probe(*cache, now_ms),
{
    match cache {
        Some(e) => {
            if now_ms >= e.at_ms && now_ms - e.at_ms <= PROBE_TTL_MS {
                Some(e.statuses)
            } else {
                None
            }
        },
        None => None,
    }
}

/// Second step: a successful probe replaces the cache and is returned; after a failed
/// one the cached answer is returned however old it is.
pub fn record_probe(
    cache: &mut Option<ProbeCacheEntry>,
    probe: Option<ProbeStatuses>,
    now_ms: u64,
) -> (r: Option<ProbeStatuses>)
    ensures
        probe is Some ==> r == probe && *final(cache) == Some(
            ProbeCacheEntry { at_ms: now_ms, statuses: probe->Some_0 },
        ),
        probe is None ==> *final(cache) == *old(cache) && r == match *old(cache) {
            Some(e) => Some(e.statuses),
            None => None,
        },
{
    match probe {
        Some(statuses) => {
            *cache = Some(ProbeCacheEntry { at_ms: now_ms, statuses });
            Some(statuses)
        },
        None => match cache {
            Some(e) => Some(e.statuses),
            None => None,
        },
    }
}

/// The detail of a failed probe run: its error output, or its standard output when the
/// error output is blank. Both are trimmed.
pub fn probe_failure_message(stderr: &str, stdout: &str) -> (r: String)
    ensures
        r@ == "Permission probe helper failed: "@ + (if trimmed(stderr@).len() > 0 {
            trimmed(stderr@)
        } else {
            trimmed(stdout@)
        }),
{
    let err = trim(stderr);
    let mut msg = String::from_str("Permission probe helper failed: ");
    if err.unicode_len() > 0 {
        msg.append(err);
    } else {
        msg.append(trim(stdout));
    }
    msg
}

pub open spec fn profile_view() -> PlatformProfileView {
    PlatformProfileView {
        os: "macos"@,
        supports_tray: true,
        supports_overlay: true,
        supports_global_hotkeys: true,
        supports_deep_links: true,
        supports_notifications: true,
        default_record_hotkey: "caps_lock"@,
        default_overlay_hotkey: "double_shift"@,
        hotkey_options: seq![
            "caps_lock"@,
            "double_shift"@,
            "double_control"@,
            "double_option"@,
            "double_command"@,
        ],
    }
}

pub fn profile() -> (r: PlatformProfile)
    ensures
        r@ == profile_view(),
{
    let options = vec![
        String::from_str("caps_lock"),
        String::from_str("double_shift"),
        String::from_str("double_control"),
        String::from_str("double_option"),
        String::from_str("double_command"),
    ];
    let r = PlatformProfile {
        os: String::from_str("macos"),
        supports_tray: true,
        supports_overlay: true,
        supports_global_hotkeys: true,
        supports_deep_links: true,
        supports_notifications: true,
        default_record_hotkey: String::from_str("caps_lock"),
        default_overlay_hotkey: String::from_str("double_shift"),
        hotkey_options: options,
    };
    assert(r@.hotkey_options =~= profile_view().hotkey_options);
    r
}

pub open spec fn live_probe_note() -> Seq<char> {
    "macOS adapter active. Live native probes are enabled for Microphone, Speech Recognition, Accessibility, Screen Recording, and Notifications."@
}

pub open spec fn no_probe_note() -> Seq<char> {
    "macOS adapter active. Accessibility and Screen Recording are live probes. Microphone, Speech Recognition, and Notifications probe helper is unavailable."@
}

/// The probe answer, or all three not determined when there is none.
pub open spec fn probed_or_undetermined(probe: Option<ProbeStatuses>) -> ProbeStatuses {
    match probe {
        Some(p) => p,
        None => ProbeStatuses {
            microphone: PermissionStatus::NotDetermined,
            speech: PermissionStatus::NotDetermined,
            notifications: PermissionStatus::NotDetermined,
        },
    }
}

pub open spec fn snapshot_view(
    probe: Option<ProbeStatuses>,
    accessibility_trusted: bool,
    screen_capture_allowed: bool,
) -> PermissionSnapshotView {
    let p = probed_or_undetermined(probe);
    let mic = p.microphone;
    let speech = p.speech;
    let notif = p.notifications;
    PermissionSnapshotView {
        items: seq![
            entry_view("microphone"@, "Microphone"@, mic, true),
            entry_view("speech"@, "Speech Recognition"@, speech, true),
            entry_view(
                "accessibility"@,
                "Accessibility"@,
                if accessibility_trusted {
                    PermissionStatus::Granted
                } else {
                    PermissionStatus::Denied
                },
                true,
            ),
            entry_view(
                "screen_recording"@,
                "Screen Recording"@,
                if screen_capture_allowed {
                    PermissionStatus::Granted
                } else {
                    PermissionStatus::Denied
                },
                true,
            ),
            entry_view("automation"@, "Automation"@, PermissionStatus::NotDetermined, true),
            entry_view("notifications"@, "Notifications"@, notif, true),
        ],
        note: if probe is Some {
            live_probe_note()
        } else {
            no_probe_note()
        },
    }
}

/// The six permissions the settings screen lists. Those the probe covers are not
/// determined when no probe answer is at hand; automation is never probed.
pub fn permission_snapshot(
    probe: Option<ProbeStatuses>,
    accessibility_trusted: bool,
    screen_capture_allowed: bool,
) -> (r: PermissionSnapshot)
    ensures
        r@ == snapshot_view(probe, accessibility_trusted, screen_capture_allowed),
{
    let (mic, speech, notif) = match probe {
        Some(p) => (p.microphone, p.speech, p.notifications),
        None => (
            PermissionStatus::NotDetermined,
            PermissionStatus::NotDetermined,
            PermissionStatus::NotDetermined,
        ),
    };
    let note = if probe.is_some() {
        String::from_str(
            "macOS adapter active. Live native probes are enabled for Microphone, Speech Recognition, Accessibility, Screen Recording, and Notifications.",
        )
    } else {
        String::from_str(
            "macOS adapter active. Accessibility and Screen Recording are live probes. Microphone, Speech Recognition, and Notifications probe helper is unavailable.",
        )
    };
    let items = vec![
        entry("microphone", "Microphone", mic, true),
        entry("speech", "Speech Recognition", speech, true),
        entry("accessibility", "Accessibility", granted_or_denied(accessibility_trusted), true),
        entry(
            "screen_recording",
            "Screen Recording",
            granted_or_denied(screen_capture_allowed),
            true,
        ),
        entry("automation", "Automation", PermissionStatus::NotDetermined, true),
        entry("notifications", "Notifications", notif, true),
    ];
    let r = PermissionSnapshot { items, note };
    assert(r@.items =~= snapshot_view(probe, accessibility_trusted, screen_capture_allowed).items);
    r
}

/// The System Settings page of a permission id, if it has one.
pub open spec fn settings_target(id: Seq<char>) -> Option<Seq<char>> {
    if id == "microphone"@ {
        Some("x-apple.systempreferences:com.apple.preference.security?Privacy_Microphone"@)
    } else if id == "speech"@ {
        Some("x-apple.systempreferences:com.apple.preference.security?Privacy_SpeechRecognition"@)
    } else if id == "accessibility"@ {
        Some("x-apple.systempreferences:com.apple.preference.security?Privacy_Accessibility"@)
    } else if id == "screen_recording"@ {
        Some("x-apple.systempreferences:com.apple.preference.security?Privacy_ScreenCapture"@)
    } else if id == "automation"@ {
        Some("x-apple.systempreferences:com.apple.preference.security?Privacy_Automation"@)
    } else if id == "notifications"@ {
        Some("x-apple.systempreferences:com.apple.Notifications-Settings.extension"@)
    } else {
        None
    }
}

/// `r` is the settings page for `id`, or the unknown-id error when it has none.
pub open spec fn settings_result(id: Seq<char>, r: Result<String, String>) -> bool {
    match settings_target(id) {
        Some(t) => r is Ok && r->Ok_0@ == t,
        None => r is Err && r->Err_0@ == unknown_permission(id),
    }
}

/// The System Settings page to open for a permission id; the caller opens it.
pub fn open_permission_settings(permission_id: &str) -> (r: Result<String, String>)
    ensures
        settings_result(permission_id@, r),
{
    let target = if str_eq(permission_id, "microphone") {
        "x-apple.systempreferences:com.apple.preference.security?Privacy_Microphone"
    } else if str_eq(permission_id, "speech") {
        "x-apple.systempreferences:com.apple.preference.security?Privacy_SpeechRecognition"
    } else if str_eq(permission_id, "accessibility") {
        "x-apple.systempreferences:com.apple.preference.security?Privacy_Accessibility"
    } else if str_eq(permission_id, "screen_recording") {
        "x-apple.systempreferences:com.apple.preference.security?Privacy_ScreenCapture"
    } else if str_eq(permission_id, "automation") {
        "x-apple.systempreferences:com.apple.preference.security?Privacy_Automation"
    } else if str_eq(permission_id, "notifications") {
        "x-apple.systempreferences:com.apple.Notifications-Settings.extension"
    } else {
        return Err(unknown_permission_error(permission_id));
    };
    Ok(String::from_str(target))
}

/// The error for a settings page that could not be opened, given the exit status.
pub fn settings_launch_failed(status: &str) -> (r: String)
    ensures
        r@ == "System Settings open command failed with status: "@ + status@,
{
    let mut s = String::from_str("System Settings open command failed with status: ");
    s.append(status);
    s
}

} // verus!
