//! Properties that hold across several calls.

use crate::spinner::{overlay_at, SpinnerView};
use crate::state::{SpinnerState, Timestamp};
use vstd::prelude::*;

verus! {

/// One call that changes a spinner's state: `open_at(t)` or `close()`.
pub enum StateCall {
    Open(Timestamp),
    Close,
}

/// The view after `calls` were made on a spinner whose view was `v`, in order.
pub open spec fn after_calls(v: SpinnerView, calls: Seq<StateCall>) -> SpinnerView
    decreases calls.len(),
{
    if calls.len() == 0 {
        v
    } else {
        let before = after_calls(v, calls.drop_last());
        match calls.last() {
            StateCall::Open(t) => before.opened(t),
            StateCall::Close => before.closed(),
        }
    }
}

/// After any sequence of `open_at` and `close` calls, the state is the one the
/// last call set (`Open` with that call's time, or `Closed`), or the initial
/// state when there was none; the configuration is untouched.
pub proof fn lemma_state_follows_last_call(v: SpinnerView, calls: Seq<StateCall>)
    ensures
        after_calls(v, calls) == (SpinnerView { state: after_calls(v, calls).state, ..v }),
        calls.len() == 0 ==> after_calls(v, calls).state == v.state,
        calls.len() > 0 ==> after_calls(v, calls).state == match calls.last() {
            StateCall::Open(t) => SpinnerState::Open(t),
            StateCall::Close => SpinnerState::Closed,
        },
    decreases calls.len(),
{
    if calls.len() > 0 {
        lemma_state_follows_last_call(v, calls.drop_last());
    }
}

/// A closed spinner asks for no overlay, whatever the time.
pub proof fn lemma_closed_draws_nothing(v: SpinnerView, now: Timestamp)
    requires
        v.state is Closed,
    ensures
        overlay_at(v, now) is None,
{
}

/// Opening a spinner and then updating it yields one overlay, on the
/// spinner's layer, filled with its fill color and carrying its glyph
/// settings.
pub proof fn lemma_open_then_update(v: SpinnerView, opened_at: Timestamp, now: Timestamp)
    ensures
        overlay_at(v.opened(opened_at), now) is Some,
        overlay_at(v.opened(opened_at), now)->0.id == v.id,
        overlay_at(v.opened(opened_at), now)->0.fill_color == v.fill_color,
        overlay_at(v.opened(opened_at), now)->0.spinner_size_bits == v.spinner_size_bits,
        overlay_at(v.opened(opened_at), now)->0.spinner_color == v.spinner_color,
{
}

/// With the elapsed time shown, a spinner opened at `t0` shows `t1 - t0` on a
/// frame rendered at `t1 >= t0`, and a later frame never shows less.
pub proof fn lemma_elapsed_time_shown(v: SpinnerView, t0: Timestamp, t1: Timestamp, t2: Timestamp)
    requires
        v.show_elapsed_time,
        t0.nanos_since_epoch <= t1.nanos_since_epoch,
        t1.nanos_since_epoch <= t2.nanos_since_epoch,
    ensures
        overlay_at(v.opened(t0), t1)->0.elapsed_nanos == Some(
            (t1.nanos_since_epoch - t0.nanos_since_epoch) as u128,
        ),
        overlay_at(v.opened(t0), t1)->0.elapsed_nanos->0 <= overlay_at(
            v.opened(t0),
            t2,
        )->0.elapsed_nanos->0,
{
}

/// The setters touch distinct settings, so the order in which two different
/// ones are applied does not change the resulting configuration.
pub proof fn lemma_setters_commute(
    v: SpinnerView,
    id: egui::Id,
    fill: egui::Color32,
    size_bits: u32,
    glyph: egui::Color32,
    show: bool,
)
    ensures
        v.with_spinner_size(size_bits).with_fill_color(fill) == v.with_fill_color(
            fill,
        ).with_spinner_size(size_bits),
        v.with_id(id).with_fill_color(fill) == v.with_fill_color(fill).with_id(id),
        v.with_id(id).with_spinner_size(size_bits) == v.with_spinner_size(size_bits).with_id(id),
        v.with_id(id).with_spinner_color(glyph) == v.with_spinner_color(glyph).with_id(id),
        v.with_id(id).with_elapsed_time(show) == v.with_elapsed_time(show).with_id(id),
        v.with_fill_color(fill).with_spinner_color(glyph) == v.with_spinner_color(
            glyph,
        ).with_fill_color(fill),
        v.with_fill_color(fill).with_elapsed_time(show) == v.with_elapsed_time(
            show,
        ).with_fill_color(fill),
        v.with_spinner_size(size_bits).with_spinner_color(glyph) == v.with_spinner_color(
            glyph,
        ).with_spinner_size(size_bits),
        v.with_spinner_size(size_bits).with_elapsed_time(show) == v.with_elapsed_time(
            show,
        ).with_spinner_size(size_bits),
        v.with_spinner_color(glyph).with_elapsed_time(show) == v.with_elapsed_time(
            show,
        ).with_spinner_color(glyph),
{
}

} // verus!
