use wingman::overlay::OVERLAY_ROUTE;
use wingman::state::GatewaySettings;
use wingman::tray::{
    gateway_ui_target, menu_action, open_url_script, should_open_main_window, MenuAction,
    OPEN_SETTINGS_MENU_ID, SHOW_WINDOW_MENU_ID,
};

#[test]
fn recognizes_window_open_actions() {
    assert!(should_open_main_window(SHOW_WINDOW_MENU_ID));
    assert!(should_open_main_window(OPEN_SETTINGS_MENU_ID));
    assert!(!should_open_main_window("quit"));
}

#[test]
fn overlay_route_targets_overlay_page() {
    assert_eq!(OVERLAY_ROUTE, "overlay.html");
}

#[test]
fn menu_entries_resolve() {
    assert_eq!(menu_action("toggle_recording"), MenuAction::ToggleRecording);
    assert_eq!(menu_action("open_settings"), MenuAction::OpenMainWindow);
    assert_eq!(menu_action("quit"), MenuAction::Quit);
    assert_eq!(menu_action("other"), MenuAction::Ignore);
}

#[test]
fn gateway_ui_defaults_when_blank() {
    let mut gateway = GatewaySettings::default();
    assert_eq!(gateway.url, "ws://127.0.0.1:18789/ws");
    gateway.ui_url = "  ".to_string();
    assert_eq!(gateway_ui_target(&gateway), "http://127.0.0.1:18790");
    gateway.ui_url = "https://gw.example".to_string();
    assert_eq!(gateway_ui_target(&gateway), "https://gw.example");
}

#[test]
fn open_url_script_quotes_the_address() {
    assert_eq!(
        open_url_script("http://127.0.0.1:18790").as_deref(),
        Some("window.open(\"http://127.0.0.1:18790\", '_blank')")
    );
    assert_eq!(
        open_url_script("a\"b").as_deref(),
        Some("window.open(\"a\\\"b\", '_blank')")
    );
}
