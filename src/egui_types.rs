//! The egui types that the spinner carries through without looking inside.

use vstd::prelude::*;

verus! {

/// egui's layer identifier, kept as an opaque value.
#[verifier::external_type_specification]
#[verifier::external_body]
pub struct ExId(egui::Id);

/// egui's premultiplied sRGBA color, kept as an opaque value.
#[verifier::external_type_specification]
#[verifier::external_body]
pub struct ExColor32(egui::Color32);

/// Relies on `egui::Id`'s derived `Clone`; `Id` is `Copy`, so a clone is the
/// same identifier.
pub assume_specification[ <egui::Id as Clone>::clone ](id: &egui::Id) -> (r: egui::Id)
    ensures
        r == *id,
;

/// Relies on `egui::Color32`'s derived `Clone`; `Color32` is `Copy`, so a
/// clone is the same color.
pub assume_specification[ <egui::Color32 as Clone>::clone ](c: &egui::Color32) -> (r: egui::Color32)
    ensures
        r == *c,
;

/// The color that `egui::Color32::from_rgba_premultiplied` builds from its four
/// components.
pub uninterp spec fn rgba_premultiplied(r: u8, g: u8, b: u8, a: u8) -> egui::Color32;

/// Relies on `egui::Color32::from_rgba_premultiplied`, a `const fn` that stores
/// the four components as they are given.
pub assume_specification[ egui::Color32::from_rgba_premultiplied ](
    r: u8,
    g: u8,
    b: u8,
    a: u8,
) -> (c: egui::Color32)
    ensures
        c == rgba_premultiplied(r, g, b, a),
;

/// The layer identifier that `egui::Id`'s `From<&'static str>` makes of a
/// string.
pub uninterp spec fn id_of_str(s: Seq<char>) -> egui::Id;

/// Relies on `egui::Id`'s `From<&'static str>`, which hashes the string with
/// an `ahash` state of fixed seeds: the identifier depends on the string alone.
#[verifier::external_body]
pub(crate) fn id_from_str(s: &'static str) -> (id: egui::Id)
    ensures
        id == id_of_str(s@),
{
    egui::Id::from(s)
}

} // verus!
