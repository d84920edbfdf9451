//! The modal spinner: its configuration, its state, and the overlay it asks
//! to be drawn on each frame.

use crate::clock::clock_now;
use crate::egui_types::{id_from_str, id_of_str, rgba_premultiplied};
use crate::state::{elapsed_nanos, SpinnerState, Timestamp};
use vstd::prelude::*;

verus! {

/// Glyph overrides of the spinner; an absent value falls back to egui's
/// defaults when the spinner is drawn.
#[derive(Debug, Clone, PartialEq)]
struct Spinner {
    /// Bit pattern (`f32::to_bits`) of the glyph's size in points.
    size_bits: Option<u32>,
    color: Option<egui::Color32>,
}

impl Spinner {
    /// No overrides: egui's default glyph.
    fn default() -> (s: Spinner)
        ensures
            s.size_bits is None,
            s.color is None,
    {
        Spinner { size_bits: None, color: None }
    }
}

/// What a spinner holds, seen from a contract.
pub struct SpinnerView {
    pub state: SpinnerState,
    pub id: egui::Id,
    pub fill_color: egui::Color32,
    pub spinner_size_bits: Option<u32>,
    pub spinner_color: Option<egui::Color32>,
    pub show_elapsed_time: bool,
}

impl SpinnerView {
    /// A new spinner: closed, on the layer named `_modal_spinner`, with a
    /// translucent black fill, egui's default glyph and no elapsed time.
    pub open spec fn initial() -> SpinnerView {
        SpinnerView {
            state: SpinnerState::Closed,
            id: id_of_str("_modal_spinner"@),
            fill_color: rgba_premultiplied(0, 0, 0, 120),
            spinner_size_bits: None,
            spinner_color: None,
            show_elapsed_time: false,
        }
    }

    pub open spec fn with_id(self, id: egui::Id) -> SpinnerView {
        SpinnerView { id, ..self }
    }

    pub open spec fn with_fill_color(self, color: egui::Color32) -> SpinnerView {
        SpinnerView { fill_color: color, ..self }
    }

    pub open spec fn with_spinner_size(self, size_bits: u32) -> SpinnerView {
        SpinnerView { spinner_size_bits: Some(size_bits), ..self }
    }

    pub open spec fn with_spinner_color(self, color: egui::Color32) -> SpinnerView {
        SpinnerView { spinner_color: Some(color), ..self }
    }

    pub open spec fn with_elapsed_time(self, show: bool) -> SpinnerView {
        SpinnerView { show_elapsed_time: show, ..self }
    }

    /// The same configuration, opened at `now`.
    pub open spec fn opened(self, now: Timestamp) -> SpinnerView {
        SpinnerView { state: SpinnerState::Open(now), ..self }
    }

    /// The same configuration, closed.
    pub open spec fn closed(self) -> SpinnerView {
        SpinnerView { state: SpinnerState::Closed, ..self }
    }
}

/// What has to be drawn on one frame while the spinner is open: a layer keyed
/// by `id` that covers the whole screen, senses clicks, is filled with
/// `fill_color` and is raised above every other layer, with the spinner glyph
/// centred in it.
#[derive(Debug, Clone, PartialEq)]
pub struct Overlay {
    pub id: egui::Id,
    pub fill_color: egui::Color32,
    /// Bit pattern (`f32::to_bits`) of the glyph's size in points; egui's
    /// interactive height when absent.
    pub spinner_size_bits: Option<u32>,
    /// The glyph's color; egui's text color when absent.
    pub spinner_color: Option<egui::Color32>,
    /// Nanoseconds since the spinner was opened, when they are to be shown.
    pub elapsed_nanos: Option<u128>,
}

/// The overlay that a spinner configured as `v` asks for at time `now`: none
/// while it is closed.
pub open spec fn overlay_at(v: SpinnerView, now: Timestamp) -> Option<Overlay> {
    match v.state {
        SpinnerState::Closed => None,
        SpinnerState::Open(start) => Some(
            Overlay {
                id: v.id,
                fill_color: v.fill_color,
                spinner_size_bits: v.spinner_size_bits,
                spinner_color: v.spinner_color,
                elapsed_nanos: if v.show_elapsed_time {
                    Some(elapsed_nanos(start, now) as u128)
                } else {
                    None
                },
            },
        ),
    }
}

/// Represents a spinner instance.
#[derive(Debug, Clone, PartialEq)]
pub struct ModalSpinner {
    state: SpinnerState,
    id: egui::Id,
    fill_color: egui::Color32,
    spinner: Spinner,
    show_elapsed_time: bool,
}

impl View for ModalSpinner {
    type V = SpinnerView;

    closed spec fn view(&self) -> SpinnerView {
        SpinnerView {
            state: self.state,
            id: self.id,
            fill_color: self.fill_color,
            spinner_size_bits: self.spinner.size_bits,
            spinner_color: self.spinner.color,
            show_elapsed_time: self.show_elapsed_time,
        }
    }
}

impl ModalSpinner {
    /// Creates a closed spinner with a translucent black fill, egui's default
    /// glyph and no elapsed time.
    pub fn new() -> (s: ModalSpinner)
        ensures
            s@ == SpinnerView::initial(),
    {
        ModalSpinner {
            state: SpinnerState::Closed,
            id: id_from_str("_modal_spinner"),
            fill_color: egui::Color32::from_rgba_premultiplied(0, 0, 0, 120),
            spinner: Spinner::default(),
            show_elapsed_time: false,
        }
    }
}

/// Configuration setters, each changing one setting and keeping the rest.
impl ModalSpinner {
    /// Sets the ID of the spinner's layer. It must be unique among the layers
    /// drawn at the same time.
    pub fn id(self, id: egui::Id) -> (s: ModalSpinner)
        ensures
            s@ == self@.with_id(id),
    {
        ModalSpinner { id, ..self }
    }

    /// Sets the fill color of the modal background.
    pub fn fill_color(self, color: egui::Color32) -> (s: ModalSpinner)
        ensures
            s@ == self@.with_fill_color(color),
    {
        ModalSpinner { fill_color: color, ..self }
    }

    /// Sets the size of the spinner, given as the bit pattern
    /// (`f32::to_bits`) of a size in points.
    pub fn spinner_size(self, size_bits: u32) -> (s: ModalSpinner)
        ensures
            s@ == self@.with_spinner_size(size_bits),
    {
        let spinner = Spinner { size_bits: Some(size_bits), ..self.spinner };
        ModalSpinner { spinner, ..self }
    }

    /// Sets the color of the spinner.
    pub fn spinner_color(self, color: egui::Color32) -> (s: ModalSpinner)
        ensures
            s@ == self@.with_spinner_color(color),
    {
        let spinner = Spinner { color: Some(color), ..self.spinner };
        ModalSpinner { spinner, ..self }
    }

    /// Whether the elapsed time is to be shown below the spinner.
    pub fn show_elapsed_time(self, show_elapsed_time: bool) -> (s: ModalSpinner)
        ensures
            s@ == self@.with_elapsed_time(show_elapsed_time),
    {
        ModalSpinner { show_elapsed_time, ..self }
    }
}

/// State and per-frame methods.
impl ModalSpinner {
    /// Gets the current state of the spinner.
    pub fn state(&self) -> (st: &SpinnerState)
        ensures
            *st == self@.state,
    {
        &self.state
    }

    /// Opens the spinner as of time `now`; an open spinner starts counting
    /// again from `now`.
    pub fn open_at(&mut self, now: Timestamp)
        ensures
            final(self)@ == old(self)@.opened(now),
    {
        self.state = SpinnerState::Open(now);
    }

    /// Opens the spinner as of the current wall-clock time.
    pub fn open(&mut self)
        ensures
            final(self)@.state is Open,
            final(self)@ == old(self)@.opened(final(self)@.state->0),
    {
        let now = clock_now();
        self.open_at(now);
    }

    /// Closes the spinner, whatever its state.
    pub fn close(&mut self)
        ensures
            final(self)@ == old(self)@.closed(),
    {
        self.state = SpinnerState::Closed;
    }

    /// The overlay to draw on a frame rendered at time `now`: none while the
    /// spinner is closed.
    pub fn frame_at(&self, now: Timestamp) -> (o: Option<Overlay>)
        ensures
            o == overlay_at(self@, now),
            self@.state is Closed ==> o is None,
    {
        match self.state {
            SpinnerState::Closed => None,
            SpinnerState::Open(start) => {
                let elapsed = if self.show_elapsed_time {
                    Some(start.elapsed_until(now))
                } else {
                    None
                };
                Some(
                    Overlay {
                        id: self.id,
                        fill_color: self.fill_color,
                        spinner_size_bits: self.spinner.size_bits,
                        spinner_color: self.spinner.color,
                        elapsed_nanos: elapsed,
                    },
                )
            },
        }
    }

    /// The overlay to draw on the frame being rendered now: none while the
    /// spinner is closed. To be called on every frame.
    pub fn update(&self) -> (o: Option<Overlay>)
        ensures
            exists|now: Timestamp| o == overlay_at(self@, now),
            self@.state is Closed ==> o is None,
    {
        let now = clock_now();
        self.frame_at(now)
    }
}

} // verus!
