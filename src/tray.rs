//! The tray menu's decisions: which entry does what, and where the gateway UI opens.
use vstd::prelude::*;

use crate::state::GatewaySettings;
use crate::text::{is_blank, is_blank_str, str_eq};

verus! {

pub const SHOW_WINDOW_MENU_ID: &'static str = "show_window";

pub const OPEN_SETTINGS_MENU_ID: &'static str = "open_settings";

/// Entries that bring up the main window.
pub open spec fn opens_main_window(action_id: Seq<char>) -> bool {
    action_id == "show_window"@ || action_id == "open_settings"@
}

pub fn should_open_main_window(action_id: &str) -> (r: bool)
    ensures
        r == opens_main_window(action_id@),
{
    str_eq(action_id, "show_window") || str_eq(action_id, "open_settings")
}

/// What a tray menu entry asks for.
#[derive(Clone, Copy, Debug, PartialEq, Eq, Structural)]
pub enum MenuAction {
    ToggleRecording,
    ToggleOverlay,
    OpenGatewayUi,
    OpenMainWindow,
    Quit,
    Ignore,
}

pub open spec fn menu_action_for(id: Seq<char>) -> MenuAction {
    if id == "toggle_recording"@ {
        MenuAction::ToggleRecording
    } else if id == "toggle_overlay"@ {
        MenuAction::ToggleOverlay
    } else if id == "open_gateway_ui"@ {
        MenuAction::OpenGatewayUi
    } else if opens_main_window(id) {
        MenuAction::OpenMainWindow
    } else if id == "quit"@ {
        MenuAction::Quit
    } else {
        MenuAction::Ignore
    }
}

/// Resolves a tray menu entry's id.
pub fn menu_action(id: &str) -> (r: MenuAction)
    ensures
        r == menu_action_for(id@),
{
    if str_eq(id, "toggle_recording") {
        MenuAction::ToggleRecording
    } else if str_eq(id, "toggle_overlay") {
        MenuAction::ToggleOverlay
    } else if str_eq(id, "open_gateway_ui") {
        MenuAction::OpenGatewayUi
    } else if should_open_main_window(id) {
        MenuAction::OpenMainWindow
    } else if str_eq(id, "quit") {
        MenuAction::Quit
    } else {
        MenuAction::Ignore
    }
}

pub open spec fn default_gateway_ui() -> Seq<char> {
    "http://127.0.0.1:18790"@
}

/// The gateway UI address: the configured one, or the local default when it is blank.
pub fn gateway_ui_target(gateway: &GatewaySettings) -> (r: String)
    ensures
        r@ == (if is_blank(gateway@.ui_url) {
            default_gateway_ui()
        } else {
            gateway@.ui_url
        }),
{
    if is_blank_str(gateway.ui_url.as_str()) {
        String::from_str("http://127.0.0.1:18790")
    } else {
        gateway.ui_url.clone()
    }
}

#[verifier::external_type_specification]
#[verifier::external_body]
pub struct ExJsonError(serde_json::Error);

/// What `serde_json::to_string` makes of a string: a quoted, escaped JSON string.
pub uninterp spec fn json_string_of(s: Seq<char>) -> Seq<char>;

/// Relies on `serde_json::to_string`: on success, the JSON encoding of the string,
/// which depends on its characters alone.
#[verifier::external_body]
fn json_string(s: &str) -> (r: Result<String, serde_json::Error>)
    ensures
        r is Ok ==> r->Ok_0@ == json_string_of(s@),
{
    serde_json::to_string(s)
}

pub open spec fn window_open_call(target_json: Seq<char>) -> Seq<char> {
    "window.open("@ + target_json + ", '_blank')"@
}

/// The script that opens a JSON-encoded address in a new browser tab.
pub fn window_open_script(target_json: &str) -> (r: String)
    ensures
        r@ == window_open_call(target_json@),
{
    let mut s = String::from_str("window.open(");
    s.append(target_json);
    s.append(", '_blank')");
    s
}

/// The script that opens `target` in a new browser tab, if it can be encoded.
pub fn open_url_script(target: &str) -> (r: Option<String>)
    ensures
        r is Some ==> r->Some_0@ == window_open_call(json_string_of(target@)),
{
    match json_string(target) {
        Ok(encoded) => Some(window_open_script(encoded.as_str())),
        Err(_) => None,
    }
}

} // verus!
