//! The toggle orchestrator: how recording and overlay toggles change the record,
//! depending on whether the user acted in the UI or through a global hotkey.
//!
//! A recording toggle runs in steps so that no lock is held while capture starts or
//! stops: `toggle_recording_with_source` flips the record and says what to do; the
//! caller then starts capture (and on failure calls `capture_start_failed`) or stops it
//! (then `stop_capture` and, for a hotkey-started recording, `finish_hotkey_stop`).
use vstd::prelude::*;

use crate::speech::{capture_stopped, starting_status};
use crate::state::{AppState, AppStateView};
use crate::text::{is_blank, is_blank_str};

verus! {

/// What triggered a recording toggle.
#[derive(Clone, Copy, Debug, PartialEq, Eq, Structural)]
pub enum RecordingSource {
    Ui,
    Hotkey,
}

/// What the caller has to do after the record was flipped.
#[derive(Clone, Copy, Debug, PartialEq, Eq, Structural)]
pub struct RecordingToggle {
    /// Recording is now on: start capture.
    pub start_recording: bool,
    /// Recording is now off and had been started by a hotkey: after stopping capture,
    /// call `finish_hotkey_stop`.
    pub stopped_with_hotkey_source: bool,
}

/// Stopping from the UI keeps the overlay; stopping from a hotkey hides it.
pub open spec fn overlay_after_stop(source: RecordingSource) -> bool {
    source == RecordingSource::Ui
}

pub fn overlay_visible_after_stop(source: RecordingSource) -> (r: bool)
    ensures
        r == overlay_after_stop(source),
{
    source == RecordingSource::Ui
}

/// The record right after a recording toggle from `source`.
pub open spec fn recording_toggled(s: AppStateView, source: RecordingSource) -> AppStateView {
    if !s.recording {
        AppStateView {
            recording: true,
            overlay_visible: true,
            transcript: Seq::empty(),
            recording_started_by_hotkey: source == RecordingSource::Hotkey,
            ..s
        }
    } else {
        AppStateView { recording: false, overlay_visible: overlay_after_stop(source), ..s }
    }
}

/// What a recording toggle of `s` asks the caller to do.
pub open spec fn toggle_plan(s: AppStateView) -> RecordingToggle {
    RecordingToggle {
        start_recording: !s.recording,
        stopped_with_hotkey_source: s.recording && s.recording_started_by_hotkey,
    }
}

/// Flips `recording`. Starting shows the overlay, clears the transcript and records
/// whether a hotkey started it; stopping sets the overlay as `overlay_after_stop` says.
pub fn toggle_recording_with_source(state: &mut AppState, source: RecordingSource) -> (r:
    RecordingToggle)
    ensures
        final(state)@ == recording_toggled(old(state)@, source),
        r == toggle_plan(old(state)@),
{
    state.recording = !state.recording;
    if state.recording {
        state.overlay_visible = true;
        state.transcript = String::new();
        state.recording_started_by_hotkey = source == RecordingSource::Hotkey;
    } else {
        state.overlay_visible = overlay_visible_after_stop(source);
    }
    RecordingToggle {
        start_recording: state.recording,
        stopped_with_hotkey_source: !state.recording && state.recording_started_by_hotkey,
    }
}

/// A recording toggle from the UI.
pub fn toggle_recording(state: &mut AppState) -> (r: RecordingToggle)
    ensures
        final(state)@ == recording_toggled(old(state)@, RecordingSource::Ui),
        r == toggle_plan(old(state)@),
{
    toggle_recording_with_source(state, RecordingSource::Ui)
}

pub open spec fn start_failed_prefix() -> Seq<char> {
    "Speech start failed: "@
}

/// The record after capture failed to start with `error`.
pub open spec fn start_rolled_back(s: AppStateView, error: Seq<char>) -> AppStateView {
    AppStateView {
        recording: false,
        overlay_visible: false,
        recording_started_by_hotkey: false,
        speech_status: start_failed_prefix() + error,
        ..s
    }
}

/// Rolls the record back after capture failed to start.
pub fn capture_start_failed(state: &mut AppState, error: &str)
    ensures
        final(state)@ == start_rolled_back(old(state)@, error@),
{
    state.recording = false;
    state.overlay_visible = false;
    let mut status = String::from_str("Speech start failed: ");
    status.append(error);
    state.speech_status = status;
    state.recording_started_by_hotkey = false;
}

/// `n + 1`, held at `u64::MAX`.
pub open spec fn bumped(n: u64) -> u64 {
    if n == u64::MAX {
        n
    } else {
        (n + 1) as u64
    }
}

fn bump(n: u64) -> (r: u64)
    ensures
        r == bumped(n),
{
    if n == u64::MAX {
        n
    } else {
        n + 1
    }
}

/// Whether stopping a hotkey-started recording of `s` asks for a quick send.
pub open spec fn wants_quick_send(s: AppStateView) -> bool {
    s.quick_send_on_record_hotkey && !is_blank(s.transcript)
}

/// The record after a hotkey-started recording was stopped.
pub open spec fn hotkey_stop_finished(s: AppStateView) -> AppStateView {
    AppStateView {
        recording_started_by_hotkey: false,
        quick_send_nonce: if wants_quick_send(s) {
            bumped(s.quick_send_nonce)
        } else {
            s.quick_send_nonce
        },
        ..s
    }
}

/// Clears the provenance flag once a hotkey-started recording has stopped and, if
/// quick send is enabled and the transcript is not blank, bumps the quick-send nonce.
pub fn finish_hotkey_stop(state: &mut AppState)
    ensures
        final(state)@ == hotkey_stop_finished(old(state)@),
{
    let should_queue = state.quick_send_on_record_hotkey && !is_blank_str(
        state.transcript.as_str(),
    );
    state.recording_started_by_hotkey = false;
    if should_queue {
        state.quick_send_nonce = bump(state.quick_send_nonce);
    }
}

/// The record after the overlay was toggled.
pub open spec fn overlay_toggled(s: AppStateView) -> AppStateView {
    if s.overlay_visible {
        AppStateView {
            overlay_visible: false,
            recording: false,
            recording_started_by_hotkey: false,
            ..s
        }
    } else {
        AppStateView { overlay_visible: true, ..s }
    }
}

/// Flips the overlay. Hiding it also stops recording; the result says whether it was
/// hidden, in which case the caller stops capture.
pub fn toggle_overlay(state: &mut AppState) -> (hide_and_stop: bool)
    ensures
        final(state)@ == overlay_toggled(old(state)@),
        hide_and_stop == old(state).overlay_visible,
{
    state.overlay_visible = !state.overlay_visible;
    if !state.overlay_visible {
        state.recording = false;
        state.recording_started_by_hotkey = false;
    }
    !state.overlay_visible
}

/// The record after the overlay was hidden.
pub open spec fn overlay_hidden(s: AppStateView) -> AppStateView {
    AppStateView {
        overlay_visible: false,
        recording: false,
        recording_started_by_hotkey: false,
        ..s
    }
}

/// Hides the overlay and stops recording; the caller then stops capture.
pub fn hide_overlay(state: &mut AppState)
    ensures
        final(state)@ == overlay_hidden(old(state)@),
{
    state.overlay_visible = false;
    state.recording = false;
    state.recording_started_by_hotkey = false;
}

/// The record after `queue_quick_send`.
pub open spec fn quick_send_queued(s: AppStateView) -> AppStateView {
    if is_blank(s.transcript) {
        s
    } else {
        AppStateView { quick_send_nonce: bumped(s.quick_send_nonce), ..s }
    }
}

/// Bumps the quick-send nonce if the transcript is not blank; returns the new record.
pub fn queue_quick_send(state: &mut AppState) -> (r: AppState)
    ensures
        final(state)@ == quick_send_queued(old(state)@),
        r@ == final(state)@,
{
    if !is_blank_str(state.transcript.as_str()) {
        state.quick_send_nonce = bump(state.quick_send_nonce);
    }
    state.clone()
}

/// Resets the quick-send nonce to zero; returns the new record.
pub fn clear_quick_send_nonce(state: &mut AppState) -> (r: AppState)
    ensures
        final(state)@ == (AppStateView { quick_send_nonce: 0, ..old(state)@ }),
        r@ == final(state)@,
{
    state.quick_send_nonce = 0;
    state.clone()
}

/// A copy of the record.
pub fn snapshot(state: &AppState) -> (r: AppState)
    ensures
        r@ == state@,
{
    state.clone()
}

/// The record after a whole recording toggle from `source`: the flip, then either a
/// capture start that succeeded (the status says it is starting) or a capture stop,
/// followed for a hotkey-started recording by `finish_hotkey_stop`.
pub open spec fn toggle_completed(s: AppStateView, source: RecordingSource) -> AppStateView {
    let t = recording_toggled(s, source);
    if toggle_plan(s).start_recording {
        AppStateView { speech_status: starting_status(), ..t }
    } else if toggle_plan(s).stopped_with_hotkey_source {
        hotkey_stop_finished(capture_stopped(t))
    } else {
        capture_stopped(t)
    }
}

/// The same recording, overlay and provenance flags.
pub open spec fn same_controls(a: AppStateView, b: AppStateView) -> bool {
    &&& a.recording == b.recording
    &&& a.overlay_visible == b.overlay_visible
    &&& a.recording_started_by_hotkey == b.recording_started_by_hotkey
}

/// Two hotkey toggles in a row, starting from a stopped recording whose capture then
/// started, end with recording stopped, the overlay hidden and the provenance flag
/// clear. Between the two, the helper may have changed the transcript and status.
pub proof fn lemma_hotkey_toggle_twice(s: AppStateView, mid: AppStateView)
    requires
        !s.recording,
        same_controls(mid, toggle_completed(s, RecordingSource::Hotkey)),
    ensures
        !toggle_completed(mid, RecordingSource::Hotkey).recording,
        !toggle_completed(mid, RecordingSource::Hotkey).overlay_visible,
        !toggle_completed(mid, RecordingSource::Hotkey).recording_started_by_hotkey,
{
}

/// Two UI toggles in a row, starting from a stopped recording whose capture then
/// started, end with recording stopped and the overlay still shown.
pub proof fn lemma_ui_toggle_twice(s: AppStateView, mid: AppStateView)
    requires
        !s.recording,
        same_controls(mid, toggle_completed(s, RecordingSource::Ui)),
    ensures
        !toggle_completed(mid, RecordingSource::Ui).recording,
        toggle_completed(mid, RecordingSource::Ui).overlay_visible,
        !toggle_completed(mid, RecordingSource::Ui).recording_started_by_hotkey,
{
}

/// Stopping a hotkey-started recording with a hotkey, with quick send enabled, bumps the
/// nonce by exactly one when the transcript is not blank and leaves it alone when it is.
pub proof fn lemma_hotkey_stop_quick_send(s: AppStateView)
    requires
        s.recording,
        s.recording_started_by_hotkey,
        s.quick_send_on_record_hotkey,
        s.quick_send_nonce < u64::MAX,
    ensures
        !is_blank(s.transcript) ==> toggle_completed(s, RecordingSource::Hotkey).quick_send_nonce
            == s.quick_send_nonce + 1,
        is_blank(s.transcript) ==> toggle_completed(s, RecordingSource::Hotkey).quick_send_nonce
            == s.quick_send_nonce,
{
}

/// Queueing a quick send bumps the nonce by exactly one when the transcript is not blank,
/// and otherwise changes nothing.
pub proof fn lemma_queue_quick_send(s: AppStateView)
    requires
        s.quick_send_nonce < u64::MAX,
    ensures
        is_blank(s.transcript) ==> quick_send_queued(s) == s,
        !is_blank(s.transcript) ==> quick_send_queued(s) == (AppStateView {
            quick_send_nonce: (s.quick_send_nonce + 1) as u64,
            ..s
        }),
{
}

/// A capture start that fails after the toggle never leaves the record recording, and
/// hides the overlay and clears the provenance flag.
pub proof fn lemma_failed_start_stops_recording(
    s: AppStateView,
    source: RecordingSource,
    error: Seq<char>,
)
    ensures
        !start_rolled_back(recording_toggled(s, source), error).recording,
        !start_rolled_back(recording_toggled(s, source), error).overlay_visible,
        !start_rolled_back(recording_toggled(s, source), error).recording_started_by_hotkey,
{
}

/// Every toggle keeps the provenance flag set only while recording.
pub proof fn lemma_toggles_keep_provenance(s: AppStateView, source: RecordingSource, e: Seq<char>)
    requires
        s.provenance_ok(),
    ensures
        toggle_completed(s, source).provenance_ok(),
        start_rolled_back(recording_toggled(s, source), e).provenance_ok(),
        overlay_toggled(s).provenance_ok(),
        overlay_hidden(s).provenance_ok(),
        !toggle_completed(s, source).recording ==> !toggle_completed(
            s,
            source,
        ).recording_started_by_hotkey,
{
}

} // verus!
