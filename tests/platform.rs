use wingman::platform::macos::{
    granted_or_denied, map_probe_status, probe_failure_message, probe_statuses,
    read_probe_statuses, record_probe, ProbeCacheEntry, ProbeStatuses,
};
use wingman::platform::windows::{
    consent_store_script, map_consent_store_status, microphone_status, notifications_status,
    parse_toast_enabled, powershell_output, speech_status,
};
use wingman::platform::{
    open_permission_settings, permission_snapshot, profile, PermissionReadings, PermissionStatus,
    Platform,
};

#[test]
fn maps_bool_to_permission_status() {
    assert!(matches!(granted_or_denied(true), PermissionStatus::Granted));
    assert!(matches!(granted_or_denied(false), PermissionStatus::Denied));
}

#[test]
fn maps_probe_status_strings() {
    assert!(matches!(
        map_probe_status("authorized"),
        PermissionStatus::Granted
    ));
    assert!(matches!(
        map_probe_status("provisional"),
        PermissionStatus::Granted
    ));
    assert!(matches!(
        map_probe_status("denied"),
        PermissionStatus::Denied
    ));
    assert!(matches!(
        map_probe_status("restricted"),
        PermissionStatus::Restricted
    ));
    assert!(matches!(
        map_probe_status("notDetermined"),
        PermissionStatus::NotDetermined
    ));
}

#[test]
fn maps_probe_status_ignoring_case_and_space() {
    assert_eq!(map_probe_status("  AUTHORIZED\n"), PermissionStatus::Granted);
    assert_eq!(map_probe_status("Unsupported"), PermissionStatus::Unsupported);
    assert_eq!(map_probe_status("DENIED"), PermissionStatus::Denied);
    assert_eq!(map_probe_status("bogus"), PermissionStatus::NotDetermined);
}

#[test]
fn maps_windows_consent_status_values() {
    assert!(matches!(
        map_consent_store_status("Allow"),
        PermissionStatus::Granted
    ));
    assert!(matches!(
        map_consent_store_status("Deny"),
        PermissionStatus::Denied
    ));
    assert!(matches!(
        map_consent_store_status("Prompt"),
        PermissionStatus::NotDetermined
    ));
}

#[test]
fn parses_toast_toggle_values() {
    assert_eq!(parse_toast_enabled("1"), Some(true));
    assert_eq!(parse_toast_enabled("0"), Some(false));
    assert_eq!(parse_toast_enabled("unknown"), None);
}

#[test]
fn windows_statuses_from_readings() {
    assert_eq!(
        microphone_status(Some(" AllowForCurrentDevice ".to_string())),
        PermissionStatus::Granted
    );
    assert_eq!(microphone_status(None), PermissionStatus::NotDetermined);
    assert_eq!(
        speech_status(None, Some("Deny".to_string())),
        PermissionStatus::Denied
    );
    assert_eq!(
        speech_status(Some("Allow".to_string()), Some("Deny".to_string())),
        PermissionStatus::Granted
    );
    assert_eq!(notifications_status(Some("0\r\n".to_string())), PermissionStatus::Denied);
    assert_eq!(notifications_status(None), PermissionStatus::NotDetermined);
    assert_eq!(powershell_output(true, "  Allow \n"), Some("Allow".to_string()));
    assert_eq!(powershell_output(true, "   "), None);
    assert_eq!(powershell_output(false, "Allow"), None);
    assert!(consent_store_script("microphone").contains("ConsentStore\\microphone'"));
}

#[test]
fn probe_cache_is_reused_while_fresh() {
    let statuses = ProbeStatuses {
        microphone: PermissionStatus::Granted,
        speech: PermissionStatus::Denied,
        notifications: PermissionStatus::NotDetermined,
    };
    let mut cache: Option<ProbeCacheEntry> = None;
    assert_eq!(read_probe_statuses(&cache, 10), None);
    assert_eq!(record_probe(&mut cache, Some(statuses), 1000), Some(statuses));
    assert_eq!(read_probe_statuses(&cache, 4000), Some(statuses));
    assert_eq!(read_probe_statuses(&cache, 4001), None);
    assert_eq!(record_probe(&mut cache, None, 9000), Some(statuses));
    let mut empty: Option<ProbeCacheEntry> = None;
    assert_eq!(record_probe(&mut empty, None, 9000), None);
}

#[test]
fn probe_answer_fields_are_mapped() {
    let s = probe_statuses("authorized", "notDetermined", "ephemeral");
    assert_eq!(s.microphone, PermissionStatus::Granted);
    assert_eq!(s.speech, PermissionStatus::NotDetermined);
    assert_eq!(s.notifications, PermissionStatus::Granted);
    assert_eq!(
        probe_failure_message("  ", " out "),
        "Permission probe helper failed: out"
    );
    assert_eq!(
        probe_failure_message(" err ", "out"),
        "Permission probe helper failed: err"
    );
}

#[test]
fn profiles_per_platform() {
    let mac = profile(Platform::MacOs, "ignored");
    assert_eq!(mac.os, "macos");
    assert!(mac.supports_deep_links);
    assert_eq!(mac.hotkey_options.len(), 5);
    let win = profile(Platform::Windows, "ignored");
    assert_eq!(win.os, "windows");
    assert!(!win.supports_deep_links);
    assert_eq!(win.hotkey_options[4], "double_windows");
    let other = profile(Platform::Other, "linux");
    assert_eq!(other.os, "linux");
    assert!(!other.supports_tray);
    assert_eq!(other.hotkey_options, vec!["caps_lock".to_string(), "double_shift".to_string()]);
}

#[test]
fn snapshots_per_platform() {
    let mac = permission_snapshot(PermissionReadings::MacOs {
        probe: None,
        accessibility_trusted: true,
        screen_capture_allowed: false,
    });
    assert_eq!(mac.items.len(), 6);
    assert_eq!(mac.items[0].status, PermissionStatus::NotDetermined);
    assert_eq!(mac.items[2].status, PermissionStatus::Granted);
    assert_eq!(mac.items[3].status, PermissionStatus::Denied);
    assert_eq!(mac.items[3].id, "screen_recording");
    assert!(mac.note.contains("probe helper is unavailable"));
    let win = permission_snapshot(PermissionReadings::Windows {
        microphone: PermissionStatus::Granted,
        speech: PermissionStatus::Denied,
        notifications: PermissionStatus::NotDetermined,
    });
    assert_eq!(win.items.len(), 3);
    assert_eq!(win.items[1].label, "Speech Recognition");
    let other = permission_snapshot(PermissionReadings::Other);
    assert_eq!(other.items.len(), 1);
    assert_eq!(other.items[0].status, PermissionStatus::Unsupported);
    assert!(!other.items[0].can_open_settings);
}

#[test]
fn settings_targets_per_platform() {
    assert_eq!(
        open_permission_settings(Platform::Windows, "speech"),
        Ok("ms-settings:privacy-speech".to_string())
    );
    assert_eq!(
        open_permission_settings(Platform::MacOs, "notifications"),
        Ok("x-apple.systempreferences:com.apple.Notifications-Settings.extension".to_string())
    );
    assert_eq!(
        open_permission_settings(Platform::MacOs, "camera"),
        Err("Unknown permission id: camera".to_string())
    );
    assert_eq!(
        open_permission_settings(Platform::Other, "microphone"),
        Err("No native adapter exists for this OS.".to_string())
    );
}
