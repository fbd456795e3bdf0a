//! Core of a desktop voice companion: the shared application record, the capture
//! helper's line protocol and session lifecycle, the recording/overlay toggles, and the
//! per-platform permission adapters.
use vstd::prelude::*;

pub mod app_logic;
pub mod commands;
pub mod hotkeys;
pub mod overlay;
pub mod platform;
pub mod speech;
pub mod state;
pub mod text;
pub mod tray;

verus! {

/// Greeting returned by the embedded language-model module.
pub fn greet() -> (r: String)
    ensures
        r@ == "Hello, llm-wasm!"@,
{
    String::from_str("Hello, llm-wasm!")
}

} // verus!
