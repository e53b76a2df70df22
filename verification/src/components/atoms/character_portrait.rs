//! The character's portrait.

use crate::markup::{
    AttributeName, attributes2, AttributeView, class, Markup, MarkupView, nodes0, Tag,
};
use vstd::prelude::*;

verus! {

/// The portrait takes no properties.
#[derive(Clone, Copy, Debug, PartialEq, Eq)]
pub struct Props {}

/// The portrait: one picture of a fixed width from a fixed address.
pub open spec fn portrait_markup() -> MarkupView {
    MarkupView::Element {
        tag: Tag::Img,
        classes: seq!["portrait prevent-select"@],
        style_sheet: None,
        attributes: seq![
            AttributeView { name: AttributeName::Width, value: "128px"@ },
            AttributeView {
                name: AttributeName::Src,
                value: "https://jlkump.github.io/images/personal-art/Digital-magic-aura.png"@,
            },
        ],
        on_click: None,
        children: Seq::empty(),
    }
}

/// Renders the portrait.
pub fn character_portrait(_props: &Props) -> (out: Markup)
    ensures
        out@ == portrait_markup(),
{
    Markup::element_with(
        Tag::Img,
        class("portrait prevent-select"),
        None,
        attributes2(
            AttributeName::Width,
            "128px",
            AttributeName::Src,
            "https://jlkump.github.io/images/personal-art/Digital-magic-aura.png",
        ),
        None,
        nodes0(),
    )
}

} // verus!
