use egui::{Color32, Id};
use egui_modal_spinner::{test_prop, ModalSpinner, SpinnerState, Timestamp};

#[test]
fn test() {
    test_prop::<ModalSpinner>();
}

#[test]
fn new_spinner_is_closed() {
    let s = ModalSpinner::new();
    assert_eq!(*s.state(), SpinnerState::Closed);
}

#[test]
fn closed_spinner_draws_nothing() {
    let s = ModalSpinner::new().show_elapsed_time(true);
    assert!(s.update().is_none());
    assert!(s.frame_at(Timestamp::from_nanos(5)).is_none());
}

#[test]
fn default_overlay_settings() {
    let mut s = ModalSpinner::new();
    s.open_at(Timestamp::from_nanos(100));
    let o = s.frame_at(Timestamp::from_nanos(250)).unwrap();
    assert_eq!(o.id, Id::new("_modal_spinner"));
    assert_eq!(o.fill_color, Color32::from_rgba_premultiplied(0, 0, 0, 120));
    assert_eq!(o.spinner_size_bits, None);
    assert_eq!(o.spinner_color, None);
    assert_eq!(o.elapsed_nanos, None);
}

#[test]
fn open_then_update_gives_configured_overlay() {
    let fill = Color32::from_rgba_premultiplied(10, 20, 30, 40);
    let mut s = ModalSpinner::new()
        .id(Id::new("busy"))
        .fill_color(fill)
        .spinner_size(24.5f32.to_bits())
        .spinner_color(Color32::RED);
    s.open();
    let o = s.update().unwrap();
    assert_eq!(o.id, Id::new("busy"));
    assert_eq!(o.fill_color, fill);
    assert_eq!(o.spinner_size_bits, Some(24.5f32.to_bits()));
    assert_eq!(o.spinner_color, Some(Color32::RED));
}

#[test]
fn state_follows_last_call() {
    let mut s = ModalSpinner::new();
    s.open_at(Timestamp::from_nanos(7));
    assert_eq!(*s.state(), SpinnerState::Open(Timestamp::from_nanos(7)));
    s.open_at(Timestamp::from_nanos(9));
    assert_eq!(*s.state(), SpinnerState::Open(Timestamp::from_nanos(9)));
    s.close();
    assert_eq!(*s.state(), SpinnerState::Closed);
    s.close();
    assert_eq!(*s.state(), SpinnerState::Closed);
    s.open_at(Timestamp::from_nanos(3));
    assert_eq!(*s.state(), SpinnerState::Open(Timestamp::from_nanos(3)));
}

#[test]
fn open_reads_the_clock() {
    let mut s = ModalSpinner::new();
    s.open();
    match *s.state() {
        SpinnerState::Open(t) => assert!(t.nanos_since_epoch > 1_000_000_000_000_000_000),
        SpinnerState::Closed => panic!("spinner should be open"),
    }
    s.close();
    assert_eq!(*s.state(), SpinnerState::Closed);
    assert!(s.update().is_none());
}

#[test]
fn elapsed_time_is_shown_from_opening() {
    let mut s = ModalSpinner::new().show_elapsed_time(true);
    s.open_at(Timestamp::from_nanos(1_000));
    let first = s.frame_at(Timestamp::from_nanos(3_500)).unwrap();
    assert_eq!(first.elapsed_nanos, Some(2_500));
    let later = s.frame_at(Timestamp::from_nanos(9_000)).unwrap();
    assert_eq!(later.elapsed_nanos, Some(8_000));
    let same = s.frame_at(Timestamp::from_nanos(1_000)).unwrap();
    assert_eq!(same.elapsed_nanos, Some(0));
}

#[test]
fn elapsed_time_is_zero_when_clock_goes_back() {
    let mut s = ModalSpinner::new().show_elapsed_time(true);
    s.open_at(Timestamp::from_nanos(1_000));
    let o = s.frame_at(Timestamp::from_nanos(400)).unwrap();
    assert_eq!(o.elapsed_nanos, Some(0));
}

#[test]
fn reopening_restarts_elapsed_time() {
    let mut s = ModalSpinner::new().show_elapsed_time(true);
    s.open_at(Timestamp::from_nanos(1_000));
    s.open_at(Timestamp::from_nanos(5_000));
    let o = s.frame_at(Timestamp::from_nanos(6_000)).unwrap();
    assert_eq!(o.elapsed_nanos, Some(1_000));
}

#[test]
fn elapsed_time_hidden_by_default() {
    let mut s = ModalSpinner::new();
    s.open_at(Timestamp::from_nanos(1_000));
    assert_eq!(s.frame_at(Timestamp::from_nanos(2_000)).unwrap().elapsed_nanos, None);
}

#[test]
fn setter_order_does_not_matter() {
    let c = Color32::from_rgba_premultiplied(1, 2, 3, 4);
    let a = ModalSpinner::new().spinner_size(10.0f32.to_bits()).fill_color(c);
    let b = ModalSpinner::new().fill_color(c).spinner_size(10.0f32.to_bits());
    assert_eq!(a, b);
    let a = ModalSpinner::new().show_elapsed_time(true).spinner_color(Color32::BLUE).id(Id::new("x"));
    let b = ModalSpinner::new().id(Id::new("x")).spinner_color(Color32::BLUE).show_elapsed_time(true);
    assert_eq!(a, b);
}

#[test]
fn later_setter_wins() {
    let a = ModalSpinner::new().fill_color(Color32::RED).fill_color(Color32::GREEN);
    assert_eq!(a, ModalSpinner::new().fill_color(Color32::GREEN));
    assert_ne!(a, ModalSpinner::new());
}

#[test]
fn new_spinners_are_equal() {
    assert_eq!(ModalSpinner::new(), ModalSpinner::new());
    let mut s = ModalSpinner::new();
    s.open_at(Timestamp::from_nanos(1));
    assert_eq!(s.frame_at(Timestamp::from_nanos(2)).unwrap().id, Id::from("_modal_spinner"));
}
