//! The adapter for an OS without native support: nothing is offered.
use vstd::prelude::*;

use super::{
    entry, entry_view, PermissionSnapshot, PermissionSnapshotView, PermissionStatus,
    PlatformProfile, PlatformProfileView,
};

verus! {

pub open spec fn no_adapter_note() -> Seq<char> {
    "No native adapter exists for this OS."@
}

pub open spec fn profile_view(os: Seq<char>) -> PlatformProfileView {
    PlatformProfileView {
        os,
        supports_tray: false,
        supports_overlay: false,
        supports_global_hotkeys: false,
        supports_deep_links: false,
        supports_notifications: false,
        default_record_hotkey: "caps_lock"@,
        default_overlay_hotkey: "double_shift"@,
        hotkey_options: seq!["caps_lock"@, "double_shift"@],
    }
}

/// A profile with every capability off, for the OS named `os`.
pub fn profile(os: &str) -> (r: PlatformProfile)
    ensures
        r@ == profile_view(os@),
{
    let options = vec![String::from_str("caps_lock"), String::from_str("double_shift")];
    let r = PlatformProfile {
        os: String::from_str(os),
        supports_tray: false,
        supports_overlay: false,
        supports_global_hotkeys: false,
        supports_deep_links: false,
        supports_notifications: false,
        default_record_hotkey: String::from_str("caps_lock"),
        default_overlay_hotkey: String::from_str("double_shift"),
        hotkey_options: options,
    };
    assert(r@.hotkey_options =~= profile_view(os@).hotkey_options);
    r
}

pub open spec fn snapshot_view() -> PermissionSnapshotView {
    PermissionSnapshotView {
        items: seq![
            entry_view("microphone"@, "Microphone"@, PermissionStatus::Unsupported, false),
        ],
        note: no_adapter_note(),
    }
}

/// The microphone, reported as unsupported.
pub fn permission_snapshot() -> (r: PermissionSnapshot)
    ensures
        r@ == snapshot_view(),
{
    let items = vec![entry("microphone", "Microphone", PermissionStatus::Unsupported, false)];
    let r = PermissionSnapshot {
        items,
        note: String::from_str("No native adapter exists for this OS."),
    };
    assert(r@.items =~= snapshot_view().items);
    r
}

/// There is no settings page to open.
pub fn open_permission_settings(permission_id: &str) -> (r: Result<String, String>)
    ensures
        r is Err && r->Err_0@ == no_adapter_note(),
{
    Err(String::from_str("No native adapter exists for this OS."))
}

} // verus!
