//! The details panel: the strip that chooses a view, and a rule below it.

use crate::components::molecules::page_view_select;
use crate::markup::{class, element, Markup, MarkupView, no_class, nodes0, nodes2, Tag};
use vstd::prelude::*;

verus! {

/// The details panel takes no properties.
#[derive(Clone, Copy, Debug, PartialEq, Eq)]
pub struct Props {}

/// The whole panel.
pub open spec fn details_markup() -> MarkupView {
    element(
        Tag::Div,
        seq!["prevent-select block padding-small content"@],
        seq![
            page_view_select::view_select_markup(),
            element(Tag::Hr, Seq::empty(), Seq::empty()),
        ],
    )
}

/// Renders the details panel.
pub fn details_display(_props: &Props) -> (out: Markup)
    ensures
        out@ == details_markup(),
{
    let select = page_view_select::page_view_select(
        &page_view_select::Props { magus_options: false },
    );
    Markup::element(
        Tag::Div,
        class("prevent-select block padding-small content"),
        nodes2(select, Markup::element(Tag::Hr, no_class(), nodes0())),
    )
}

} // verus!
