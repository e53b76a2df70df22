//! Character-sheet rendering for an Ars Magica character viewer.
//!
//! Every display component is a total function from a record of display
//! properties to a markup tree. The tree is plain data: a host hands it to
//! whatever engine draws it.

pub mod components;
pub mod markup;
pub mod pairing;
pub mod text;

use crate::components::organisms::{nav_bar, page_display, side_bar};
use crate::markup::{class, element, Markup, MarkupView, nodes3, Tag};
use vstd::prelude::*;

verus! {

/// The application as it stands when nothing holds its state: the
/// navigation bar with a menu that sends nothing, the side bar, and the
/// main region beside it.
pub open spec fn app_markup() -> MarkupView {
    element(
        Tag::Span,
        seq!["theme-dark"@],
        seq![
            nav_bar::nav_bar_markup(None),
            side_bar::side_bar_markup(),
            page_display::main_region_markup(true),
        ],
    )
}

/// Renders the application.
pub fn app() -> (out: Markup)
    ensures
        out@ == app_markup(),
{
    Markup::element(
        Tag::Span,
        class("theme-dark"),
        nodes3(
            nav_bar::nav_bar(&nav_bar::Props { menu_clicked: None }),
            side_bar::side_bar(&side_bar::Props {  }),
            page_display::main_region(true),
        ),
    )
}

} // verus!
