//! The shared application record: what the UI shows and what the controls hold.
use vstd::prelude::*;

verus! {

/// Connection settings for the remote gateway; the core holds them without reading them.
pub struct GatewaySettings {
    pub url: String,
    pub ui_url: String,
    pub token: String,
    pub password: String,
    pub agent_id: String,
    pub session_key: String,
}

/// The gateway settings as character sequences.
pub struct GatewayView {
    pub url: Seq<char>,
    pub ui_url: Seq<char>,
    pub token: Seq<char>,
    pub password: Seq<char>,
    pub agent_id: Seq<char>,
    pub session_key: Seq<char>,
}

impl View for GatewaySettings {
    type V = GatewayView;

    open spec fn view(&self) -> GatewayView {
        GatewayView {
            url: self.url@,
            ui_url: self.ui_url@,
            token: self.token@,
            password: self.password@,
            agent_id: self.agent_id@,
            session_key: self.session_key@,
        }
    }
}

pub open spec fn default_gateway_url() -> Seq<char> {
    "ws://127.0.0.1:18789/ws"@
}

impl Default for GatewaySettings {
    fn default() -> (r: Self)
        ensures
            r@ == (GatewayView {
                url: default_gateway_url(),
                ui_url: Seq::empty(),
                token: Seq::empty(),
                password: Seq::empty(),
                agent_id: Seq::empty(),
                session_key: Seq::empty(),
            }),
    {
        GatewaySettings {
            url: String::from_str("ws://127.0.0.1:18789/ws"),
            ui_url: String::new(),
            token: String::new(),
            password: String::new(),
            agent_id: String::new(),
            session_key: String::new(),
        }
    }
}

impl Clone for GatewaySettings {
    fn clone(&self) -> (r: Self)
        ensures
            r@ == self@,
    {
        GatewaySettings {
            url: self.url.clone(),
            ui_url: self.ui_url.clone(),
            token: self.token.clone(),
            password: self.password.clone(),
            agent_id: self.agent_id.clone(),
            session_key: self.session_key.clone(),
        }
    }
}

/// The process-wide application record.
///
/// `recording_started_by_hotkey` is meant to hold only while `recording` does; the
/// operations of the toggle orchestrator keep that (see `AppStateView::provenance_ok`).
pub struct AppState {
    pub connected: bool,
    pub recording: bool,
    pub overlay_visible: bool,
    pub transcript: String,
    pub speech_status: String,
    pub record_hotkey: String,
    pub overlay_hotkey: String,
    pub quick_send_on_record_hotkey: bool,
    pub quick_send_nonce: u64,
    pub recording_started_by_hotkey: bool,
    pub gateway: GatewaySettings,
}

/// The application record with its text as character sequences.
pub struct AppStateView {
    pub connected: bool,
    pub recording: bool,
    pub overlay_visible: bool,
    pub transcript: Seq<char>,
    pub speech_status: Seq<char>,
    pub record_hotkey: Seq<char>,
    pub overlay_hotkey: Seq<char>,
    pub quick_send_on_record_hotkey: bool,
    pub quick_send_nonce: u64,
    pub recording_started_by_hotkey: bool,
    pub gateway: GatewayView,
}

impl AppStateView {
    /// The provenance flag is set only while a recording runs.
    pub open spec fn provenance_ok(self) -> bool {
        self.recording_started_by_hotkey ==> self.recording
    }
}

impl View for AppState {
    type V = AppStateView;

    open spec fn view(&self) -> AppStateView {
        AppStateView {
            connected: self.connected,
            recording: self.recording,
            overlay_visible: self.overlay_visible,
            transcript: self.transcript@,
            speech_status: self.speech_status@,
            record_hotkey: self.record_hotkey@,
            overlay_hotkey: self.overlay_hotkey@,
            quick_send_on_record_hotkey: self.quick_send_on_record_hotkey,
            quick_send_nonce: self.quick_send_nonce,
            recording_started_by_hotkey: self.recording_started_by_hotkey,
            gateway: self.gateway@,
        }
    }
}

pub open spec fn idle_status() -> Seq<char> {
    "Native speech idle."@
}

pub open spec fn default_record_hotkey() -> Seq<char> {
    "CommandOrControl+Shift+R"@
}

pub open spec fn default_overlay_hotkey() -> Seq<char> {
    "CommandOrControl+Shift+O"@
}

impl Default for AppState {
    fn default() -> (r: Self)
        ensures
            !r.connected,
            !r.recording,
            !r.overlay_visible,
            r.transcript@ == Seq::<char>::empty(),
            r.speech_status@ == idle_status(),
            r.record_hotkey@ == default_record_hotkey(),
            r.overlay_hotkey@ == default_overlay_hotkey(),
            r.quick_send_on_record_hotkey,
            r.quick_send_nonce == 0,
            !r.recording_started_by_hotkey,
            r.gateway@.url == default_gateway_url(),
            r.gateway@.ui_url == Seq::<char>::empty(),
            r.gateway@.token == Seq::<char>::empty(),
            r.gateway@.password == Seq::<char>::empty(),
            r.gateway@.agent_id == Seq::<char>::empty(),
            r.gateway@.session_key == Seq::<char>::empty(),
    {
        AppState {
            connected: false,
            recording: false,
            overlay_visible: false,
            transcript: String::new(),
            speech_status: String::from_str("Native speech idle."),
            record_hotkey: String::from_str("CommandOrControl+Shift+R"),
            overlay_hotkey: String::from_str("CommandOrControl+Shift+O"),
            quick_send_on_record_hotkey: true,
            quick_send_nonce: 0,
            recording_started_by_hotkey: false,
            gateway: GatewaySettings::default(),
        }
    }
}

impl Clone for AppState {
    fn clone(&self) -> (r: Self)
        ensures
            r@ == self@,
    {
        AppState {
            connected: self.connected,
            recording: self.recording,
            overlay_visible: self.overlay_visible,
            transcript: self.transcript.clone(),
            speech_status: self.speech_status.clone(),
            record_hotkey: self.record_hotkey.clone(),
            overlay_hotkey: self.overlay_hotkey.clone(),
            quick_send_on_record_hotkey: self.quick_send_on_record_hotkey,
            quick_send_nonce: self.quick_send_nonce,
            recording_started_by_hotkey: self.recording_started_by_hotkey,
            gateway: self.gateway.clone(),
        }
    }
}

} // verus!
