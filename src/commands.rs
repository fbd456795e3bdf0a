//! Record updates behind the UI's plain commands.
use vstd::prelude::*;

use crate::state::{AppState, AppStateView, GatewayView};
use crate::text::{trim, trimmed};

verus! {

/// A copy of the record.
pub fn get_state(state: &AppState) -> (r: AppState)
    ensures
        r@ == state@,
{
    state.clone()
}

/// Stores the gateway address, trimmed; returns the new record.
pub fn set_gateway_url(state: &mut AppState, url: &str) -> (r: AppState)
    ensures
        final(state)@ == (AppStateView {
            gateway: GatewayView { url: trimmed(url@), ..old(state)@.gateway },
            ..old(state)@
        }),
        r@ == final(state)@,
{
    state.gateway.url = String::from_str(trim(url));
    state.clone()
}

/// Replaces the transcript; returns the new record.
pub fn set_transcript(state: &mut AppState, transcript: String) -> (r: AppState)
    ensures
        final(state)@ == (AppStateView { transcript: transcript@, ..old(state)@ }),
        r@ == final(state)@,
{
    state.transcript = transcript;
    state.clone()
}

/// Empties the transcript; returns the new record.
pub fn clear_transcript(state: &mut AppState) -> (r: AppState)
    ensures
        final(state)@ == (AppStateView { transcript: Seq::empty(), ..old(state)@ }),
        r@ == final(state)@,
{
    state.transcript = String::new();
    state.clone()
}

pub open spec fn default_notification_title() -> Seq<char> {
    "Wingman Desktop"@
}

/// Title and body of a notification: the title trimmed, or the app's name when it is
/// missing or blank; the body trimmed, and refused when blank.
pub fn send_notification(title: Option<String>, body: &str) -> (r: Result<
    (String, String),
    String,
>)
    ensures
        r is Err <==> trimmed(body@).len() == 0,
        r is Err ==> r->Err_0@ == "Notification body cannot be empty."@,
        r is Ok ==> r->Ok_0.1@ == trimmed(body@) && r->Ok_0.0@ == match title {
            Some(t) => if trimmed(t@).len() > 0 {
                trimmed(t@)
            } else {
                default_notification_title()
            },
            None => default_notification_title(),
        },
{
    let resolved_title = match &title {
        Some(t) => {
            let tt = trim(t.as_str());
            if tt.unicode_len() > 0 {
                String::from_str(tt)
            } else {
                String::from_str("Wingman Desktop")
            }
        },
        None => String::from_str("Wingman Desktop"),
    };
    let resolved_body = trim(body);
    if resolved_body.unicode_len() == 0 {
        return Err(String::from_str("Notification body cannot be empty."));
    }
    Ok((resolved_title, String::from_str(resolved_body)))
}

} // verus!
