//! A modal spinner overlay for egui: a full-screen dimming layer that swallows
//! pointer input and shows a spinner while some operation is pending.
//!
//! The library keeps the widget's configuration and its open/closed state, and
//! decides, frame by frame, what overlay has to be drawn. Drawing it with an
//! `egui::Context` is left to the embedding application.

use vstd::prelude::*;

mod clock;
pub mod egui_types;
pub mod laws;
pub mod spinner;
pub mod state;

pub use spinner::{ModalSpinner, Overlay};
pub use state::{SpinnerState, Timestamp};

verus! {

/// Compiles only for a `T` that can be sent to and shared between threads.
pub fn test_prop<T: Send + Sync>() {
}

} // verus!
