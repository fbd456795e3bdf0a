use std::sync::{Arc, Mutex};

use wingman::app_logic::{
    capture_start_failed, clear_quick_send_nonce, finish_hotkey_stop, hide_overlay,
    overlay_visible_after_stop, queue_quick_send, toggle_overlay, toggle_recording,
    toggle_recording_with_source, RecordingSource,
};
use wingman::speech::{start_capture, stop_capture};
use wingman::state::AppState;

fn full_toggle(state: &mut AppState, source: RecordingSource) {
    let plan = toggle_recording_with_source(state, source);
    if plan.start_recording {
        start_capture(true, state).expect("start");
    } else {
        stop_capture(state);
        if plan.stopped_with_hotkey_source {
            finish_hotkey_stop(state);
        }
    }
}

#[test]
fn keeps_overlay_visible_when_stopping_from_ui() {
    assert!(overlay_visible_after_stop(RecordingSource::Ui));
}

#[test]
fn hides_overlay_when_stopping_from_hotkey() {
    assert!(!overlay_visible_after_stop(RecordingSource::Hotkey));
}

#[test]
fn queue_quick_send_increments_nonce_when_transcript_exists() {
    let shared = Arc::new(Mutex::new(AppState::default()));
    {
        let mut guard = shared.lock().expect("state lock");
        guard.transcript = "hello".to_string();
    }
    let next = queue_quick_send(&mut shared.lock().expect("state lock"));
    assert_eq!(next.quick_send_nonce, 1, "queue quick send");
}

#[test]
fn queue_quick_send_skips_empty_transcript() {
    let shared = Arc::new(Mutex::new(AppState::default()));
    let next = queue_quick_send(&mut shared.lock().expect("state lock"));
    assert_eq!(next.quick_send_nonce, 0, "queue quick send");
}

#[test]
fn queue_quick_send_skips_whitespace_and_counts_hi() {
    let mut state = AppState::default();
    state.transcript = "   ".to_string();
    assert_eq!(queue_quick_send(&mut state).quick_send_nonce, 0);
    state.transcript = "hi".to_string();
    assert_eq!(queue_quick_send(&mut state).quick_send_nonce, 1);
    assert_eq!(state.quick_send_nonce, 1);
}

#[test]
fn queue_quick_send_saturates() {
    let mut state = AppState::default();
    state.transcript = "x".to_string();
    state.quick_send_nonce = u64::MAX;
    assert_eq!(queue_quick_send(&mut state).quick_send_nonce, u64::MAX);
}

#[test]
fn clear_quick_send_resets_nonce() {
    let mut state = AppState::default();
    state.quick_send_nonce = 5;
    assert_eq!(clear_quick_send_nonce(&mut state).quick_send_nonce, 0);
}

#[test]
fn hotkey_toggle_twice_hides_everything() {
    let mut state = AppState::default();
    full_toggle(&mut state, RecordingSource::Hotkey);
    assert!(state.recording && state.overlay_visible && state.recording_started_by_hotkey);
    full_toggle(&mut state, RecordingSource::Hotkey);
    assert!(!state.recording);
    assert!(!state.overlay_visible);
    assert!(!state.recording_started_by_hotkey);
}

#[test]
fn ui_toggle_twice_keeps_overlay() {
    let mut state = AppState::default();
    full_toggle(&mut state, RecordingSource::Ui);
    assert!(!state.recording_started_by_hotkey);
    full_toggle(&mut state, RecordingSource::Ui);
    assert!(!state.recording);
    assert!(state.overlay_visible);
    assert_eq!(state.speech_status, "Native speech idle.");
}

#[test]
fn hotkey_stop_with_transcript_queues_quick_send() {
    let mut state = AppState::default();
    full_toggle(&mut state, RecordingSource::Hotkey);
    state.transcript = "hello".to_string();
    full_toggle(&mut state, RecordingSource::Hotkey);
    assert_eq!(state.quick_send_nonce, 1);
}

#[test]
fn hotkey_stop_with_blank_transcript_does_not_queue() {
    let mut state = AppState::default();
    full_toggle(&mut state, RecordingSource::Hotkey);
    state.transcript = "  ".to_string();
    full_toggle(&mut state, RecordingSource::Hotkey);
    assert_eq!(state.quick_send_nonce, 0);
}

#[test]
fn hotkey_stop_without_quick_send_flag_does_not_queue() {
    let mut state = AppState::default();
    state.quick_send_on_record_hotkey = false;
    full_toggle(&mut state, RecordingSource::Hotkey);
    state.transcript = "hello".to_string();
    full_toggle(&mut state, RecordingSource::Hotkey);
    assert_eq!(state.quick_send_nonce, 0);
    assert!(!state.recording_started_by_hotkey);
}

#[test]
fn starting_clears_transcript() {
    let mut state = AppState::default();
    state.transcript = "old".to_string();
    let plan = toggle_recording(&mut state);
    assert!(plan.start_recording);
    assert_eq!(state.transcript, "");
}

#[test]
fn failed_start_rolls_back() {
    let mut state = AppState::default();
    let plan = toggle_recording_with_source(&mut state, RecordingSource::Hotkey);
    assert!(plan.start_recording);
    let err = start_capture(false, &mut state).unwrap_err();
    capture_start_failed(&mut state, &err);
    assert!(!state.recording);
    assert!(!state.overlay_visible);
    assert!(!state.recording_started_by_hotkey);
    assert_eq!(
        state.speech_status,
        "Speech start failed: Native speech capture is only implemented for macOS."
    );
}

#[test]
fn hiding_overlay_stops_recording() {
    let mut state = AppState::default();
    full_toggle(&mut state, RecordingSource::Hotkey);
    assert!(toggle_overlay(&mut state));
    assert!(!state.recording && !state.overlay_visible && !state.recording_started_by_hotkey);
    assert!(!toggle_overlay(&mut state));
    assert!(state.overlay_visible);
    hide_overlay(&mut state);
    assert!(!state.overlay_visible && !state.recording);
}
