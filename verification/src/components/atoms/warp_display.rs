//! A character's warping: score, points, and how strongly it shows.

use crate::markup::{
    appended_class, class, class_with, element, Markup, MarkupView, no_class, nodes0, nodes1,
    nodes2, nodes3, nodes_view, push_node, Tag, text,
};
use crate::text::{decimal, decimal_string};
use vstd::prelude::*;

verus! {

/// How strongly the warping shows. The caller chooses the tier; it is not
/// worked out from score or points.
#[derive(Clone, Copy, Debug, PartialEq, Eq)]
pub enum WarpIntensity {
    Absent,
    Weak,
    Strong,
    Intense,
}

/// What the warp display shows.
#[derive(Clone, Debug, PartialEq, Eq)]
pub struct Props {
    pub score: i32,
    pub points: i32,
    pub class: Option<String>,
    pub warp_intensity: WarpIntensity,
}

/// [`Props`] over mathematical values.
pub struct PropsView {
    pub score: int,
    pub points: int,
    pub class: Option<Seq<char>>,
    pub warp_intensity: WarpIntensity,
}

impl View for Props {
    type V = PropsView;

    open spec fn view(&self) -> PropsView {
        PropsView {
            score: self.score as int,
            points: self.points as int,
            class: self.class.deep_view(),
            warp_intensity: self.warp_intensity,
        }
    }
}

impl Props {
    /// Score and points of a warping that does not show, without a class
    /// of the caller's.
    pub fn new(score: i32, points: i32) -> (props: Props)
        ensures
            props@ == (PropsView {
                score: score as int,
                points: points as int,
                class: None,
                warp_intensity: WarpIntensity::Absent,
            }),
    {
        Props { score, points, class: None, warp_intensity: WarpIntensity::Absent }
    }
}

/// How many bubbles a tier shows: none, one, two or three, rising with the
/// tier.
pub open spec fn bubble_count(intensity: WarpIntensity) -> nat {
    match intensity {
        WarpIntensity::Absent => 0,
        WarpIntensity::Weak => 1,
        WarpIntensity::Strong => 2,
        WarpIntensity::Intense => 3,
    }
}

/// One bubble.
pub open spec fn bubble() -> MarkupView {
    element(Tag::Span, seq!["warp-bubble"@], Seq::empty())
}

/// One row of the display: a caption and a number in plain decimal form.
pub open spec fn warp_row(caption: Seq<char>, value: int) -> MarkupView {
    element(
        Tag::Tr,
        seq!["z-ind-2"@],
        seq![
            element(
                Tag::Td,
                seq!["no-border"@],
                seq![element(Tag::P, Seq::empty(), seq![text(caption)])],
            ),
            element(
                Tag::Td,
                seq!["no-border"@],
                seq![element(Tag::P, Seq::empty(), seq![text(decimal(value))])],
            ),
        ],
    )
}

/// The whole display: a heading, the score, the points, and as many
/// bubbles as the tier asks for.
pub open spec fn warp_markup(props: PropsView) -> MarkupView {
    element(
        Tag::Div,
        seq![appended_class(""@, props.class)],
        seq![
            element(
                Tag::Table,
                seq!["center position-relative warp"@],
                seq![
                    element(Tag::H3, seq!["z-ind-2"@], seq![text("Warping"@)]),
                    warp_row("Score: "@, props.score),
                    warp_row("Points: "@, props.points),
                ] + Seq::new(bubble_count(props.warp_intensity), |i: int| bubble()),
            ),
        ],
    )
}

fn row(caption: &str, value: i32) -> (m: Markup)
    ensures
        m@ == warp_row(caption@, value as int),
{
    let caption_cell = Markup::element(
        Tag::Td,
        class("no-border"),
        nodes1(Markup::element(Tag::P, no_class(), nodes1(Markup::text(caption)))),
    );
    let shown = decimal_string(value as i128);
    let value_cell = Markup::element(
        Tag::Td,
        class("no-border"),
        nodes1(Markup::element(Tag::P, no_class(), nodes1(Markup::text(shown.as_str())))),
    );
    Markup::element(Tag::Tr, class("z-ind-2"), nodes2(caption_cell, value_cell))
}

/// Renders score and points under a heading, and one bubble for a weak
/// warping, two for a strong one, three for an intense one.
pub fn warp_display(props: &Props) -> (out: Markup)
    ensures
        out@ == warp_markup(props@),
{
    let heading = Markup::element(Tag::H3, class("z-ind-2"), nodes1(Markup::text("Warping")));
    let mut rows = nodes3(heading, row("Score: ", props.score), row("Points: ", props.points));
    let ghost fixed = nodes_view(rows@);
    let bubbles: usize = match props.warp_intensity {
        WarpIntensity::Absent => 0,
        WarpIntensity::Weak => 1,
        WarpIntensity::Strong => 2,
        WarpIntensity::Intense => 3,
    };
    let mut shown: usize = 0;
    while shown < bubbles
        invariant
            shown <= bubbles,
            nodes_view(rows@) == fixed + Seq::new(shown as nat, |i: int| bubble()),
        decreases bubbles - shown,
    {
        push_node(&mut rows, Markup::element(Tag::Span, class("warp-bubble"), nodes0()));
        shown = shown + 1;
        assert(nodes_view(rows@) =~= fixed + Seq::new(shown as nat, |i: int| bubble()));
    }
    let table = Markup::element(Tag::Table, class("center position-relative warp"), rows);
    Markup::element(Tag::Div, class_with("", &props.class), nodes1(table))
}

} // verus!
