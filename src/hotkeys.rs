//! Hotkey settings and dispatch of fired hotkeys.
use vstd::prelude::*;

use crate::state::{AppState, AppStateView};
use crate::text::{trim, trimmed};

verus! {

/// What a fired hotkey asks for.
#[derive(Clone, Copy, Debug, PartialEq, Eq, Structural)]
pub enum HotkeyAction {
    /// Toggle recording as a hotkey does.
    ToggleRecording,
    ToggleOverlay,
}

/// Resolves a hotkey event: only a press counts, and the record binding wins when a
/// shortcut matches both. The caller runs the action, then tells observers that the
/// state changed.
pub fn on_shortcut(pressed: bool, matches_record: bool, matches_overlay: bool) -> (r: Option<
    HotkeyAction,
>)
    ensures
        r == (if !pressed {
            None
        } else if matches_record {
            Some(HotkeyAction::ToggleRecording)
        } else if matches_overlay {
            Some(HotkeyAction::ToggleOverlay)
        } else {
            None
        }),
{
    if !pressed {
        None
    } else if matches_record {
        Some(HotkeyAction::ToggleRecording)
    } else if matches_overlay {
        Some(HotkeyAction::ToggleOverlay)
    } else {
        None
    }
}

pub open spec fn empty_hotkeys_error() -> Seq<char> {
    "Hotkeys cannot be empty."@
}

/// First step of applying hotkey settings: both bindings trimmed, or an error when
/// either is blank. The caller then parses and registers both before anything changes.
pub fn trimmed_hotkeys(record_hotkey: &str, overlay_hotkey: &str) -> (r: Result<
    (String, String),
    String,
>)
    ensures
        r is Err <==> trimmed(record_hotkey@).len() == 0 || trimmed(overlay_hotkey@).len() == 0,
        r is Err ==> r->Err_0@ == empty_hotkeys_error(),
        r is Ok ==> r->Ok_0.0@ == trimmed(record_hotkey@) && r->Ok_0.1@ == trimmed(
            overlay_hotkey@,
        ),
{
    let record = trim(record_hotkey);
    let overlay = trim(overlay_hotkey);
    if record.unicode_len() == 0 || overlay.unicode_len() == 0 {
        return Err(String::from_str("Hotkeys cannot be empty."));
    }
    Ok((String::from_str(record), String::from_str(overlay)))
}

/// The error for a binding that does not parse.
pub fn invalid_hotkey_error(label: &str, value: &str, detail: &str) -> (r: String)
    ensures
        r@ == "Invalid "@ + label@ + " hotkey `"@ + value@ + "`: "@ + detail@,
{
    let mut s = String::from_str("Invalid ");
    s.append(label);
    s.append(" hotkey `");
    s.append(value);
    s.append("`: ");
    s.append(detail);
    s
}

/// Last step: stores both bindings and the quick-send flag once they are registered;
/// returns the new record.
pub fn apply_hotkey_settings(
    state: &mut AppState,
    record_hotkey: String,
    overlay_hotkey: String,
    quick_send_on_record_hotkey: bool,
) -> (r: AppState)
    ensures
        final(state)@ == (AppStateView {
            record_hotkey: record_hotkey@,
            overlay_hotkey: overlay_hotkey@,
            quick_send_on_record_hotkey,
            ..old(state)@
        }),
        r@ == final(state)@,
{
    state.record_hotkey = record_hotkey;
    state.overlay_hotkey = overlay_hotkey;
    state.quick_send_on_record_hotkey = quick_send_on_record_hotkey;
    state.clone()
}

} // verus!
