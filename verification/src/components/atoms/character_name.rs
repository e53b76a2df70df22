//! The character's name as a heading.

use crate::markup::{class, element, Markup, MarkupView, no_class, nodes1, Tag, text};
use vstd::prelude::*;

verus! {

/// What the heading shows.
#[derive(Clone, Debug, PartialEq, Eq)]
pub struct Props {
    pub name: String,
}

/// [`Props`] over mathematical values.
pub struct PropsView {
    pub name: Seq<char>,
}

impl View for Props {
    type V = PropsView;

    open spec fn view(&self) -> PropsView {
        PropsView { name: self.name@ }
    }
}

/// The heading: the name, unchanged, in the colour of the theme.
pub open spec fn name_markup(props: PropsView) -> MarkupView {
    element(
        Tag::Span,
        Seq::empty(),
        seq![
            element(
                Tag::Div,
                Seq::empty(),
                seq![element(Tag::H2, seq!["text-colored"@], seq![text(props.name)])],
            ),
        ],
    )
}

/// Renders the name.
pub fn character_name(props: &Props) -> (out: Markup)
    ensures
        out@ == name_markup(props@),
{
    let heading = Markup::element(
        Tag::H2,
        class("text-colored"),
        nodes1(Markup::text(props.name.as_str())),
    );
    Markup::element(
        Tag::Span,
        no_class(),
        nodes1(Markup::element(Tag::Div, no_class(), nodes1(heading))),
    )
}

} // verus!
