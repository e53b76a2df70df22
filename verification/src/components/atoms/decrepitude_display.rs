//! A character's decrepitude: score and points.

use crate::markup::{
    appended_class, class, class_with, element, Markup, MarkupView, no_class, nodes1, nodes2, Tag,
    text,
};
use crate::text::{decimal, decimal_string};
use vstd::prelude::*;

verus! {

/// What the decrepitude display shows.
#[derive(Clone, Debug, PartialEq, Eq)]
pub struct Props {
    pub score: i32,
    pub points: i32,
    /// Class strings of the caller, put behind the display's own.
    pub class: Option<String>,
}

/// [`Props`] over mathematical values.
pub struct PropsView {
    pub score: int,
    pub points: int,
    pub class: Option<Seq<char>>,
}

impl View for Props {
    type V = PropsView;

    open spec fn view(&self) -> PropsView {
        PropsView {
            score: self.score as int,
            points: self.points as int,
            class: self.class.deep_view(),
        }
    }
}

impl Props {
    /// Score and points, without a class of the caller's.
    pub fn new(score: i32, points: i32) -> (props: Props)
        ensures
            props@ == (PropsView { score: score as int, points: points as int, class: None }),
    {
        Props { score, points, class: None }
    }
}

/// One row of the display: a caption and a number in plain decimal form.
pub open spec fn decrepitude_row(caption: Seq<char>, value: int) -> MarkupView {
    element(
        Tag::Tr,
        Seq::empty(),
        seq![
            element(
                Tag::Td,
                seq!["no-border"@],
                seq![element(Tag::P, Seq::empty(), seq![text(caption)])],
            ),
            element(
                Tag::Td,
                seq!["no-border"@],
                seq![element(Tag::P, Seq::empty(), seq![text(decimal(value))])],
            ),
        ],
    )
}

/// The whole display: a heading, then the score above the points.
pub open spec fn decrepitude_markup(props: PropsView) -> MarkupView {
    element(
        Tag::Div,
        seq![appended_class("center "@, props.class)],
        seq![
            element(Tag::H5, seq!["underlined"@], seq![text("Decrepitude"@)]),
            element(
                Tag::Table,
                Seq::empty(),
                seq![
                    decrepitude_row("Score: "@, props.score),
                    decrepitude_row("Points: "@, props.points),
                ],
            ),
        ],
    )
}

fn row(caption: &str, value: i32) -> (m: Markup)
    ensures
        m@ == decrepitude_row(caption@, value as int),
{
    let caption_cell = Markup::element(
        Tag::Td,
        class("no-border"),
        nodes1(Markup::element(Tag::P, no_class(), nodes1(Markup::text(caption)))),
    );
    let shown = decimal_string(value as i128);
    let value_cell = Markup::element(
        Tag::Td,
        class("no-border"),
        nodes1(Markup::element(Tag::P, no_class(), nodes1(Markup::text(shown.as_str())))),
    );
    Markup::element(Tag::Tr, no_class(), nodes2(caption_cell, value_cell))
}

/// Renders the score and the points under a heading.
pub fn decrepitude_display(props: &Props) -> (out: Markup)
    ensures
        out@ == decrepitude_markup(props@),
{
    let heading = Markup::element(Tag::H5, class("underlined"), nodes1(Markup::text("Decrepitude")));
    let table = Markup::element(
        Tag::Table,
        no_class(),
        nodes2(row("Score: ", props.score), row("Points: ", props.points)),
    );
    Markup::element(Tag::Div, class_with("center ", &props.class), nodes2(heading, table))
}

} // verus!
