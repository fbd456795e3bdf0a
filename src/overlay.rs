//! Where the overlay window comes from.
use vstd::prelude::*;

verus! {

/// The overlay window's label.
pub const OVERLAY_LABEL: &'static str = "overlay";

/// The page the overlay window shows.
pub const OVERLAY_ROUTE: &'static str = "overlay.html";

} // verus!
