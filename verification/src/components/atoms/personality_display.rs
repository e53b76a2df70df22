//! A character's personality traits and their scores.
//!
//! Traits and scores are two lists, paired by position. The traits decide
//! how many rows there are; a trait without a score shows zero.

use crate::markup::{
    class, class_of, element, Markup, MarkupView, no_class, nodes0, nodes1, nodes2, nodes_view,
    optional_class, push_node, Tag, text,
};
use crate::pairing::{ints, value_at, value_or_zero};
use crate::text::{format_signed, signed};
use vstd::prelude::*;

verus! {

/// What the list shows.
#[derive(Clone, Debug, PartialEq, Eq)]
pub struct Props {
    pub personality: Vec<String>,
    pub scores: Vec<i32>,
    pub class: Option<String>,
}

/// [`Props`] over mathematical values.
pub struct PropsView {
    pub personality: Seq<Seq<char>>,
    pub scores: Seq<int>,
    pub class: Option<Seq<char>>,
}

impl View for Props {
    type V = PropsView;

    open spec fn view(&self) -> PropsView {
        PropsView {
            personality: self.personality.deep_view(),
            scores: ints(self.scores@),
            class: self.class.deep_view(),
        }
    }
}

impl Props {
    /// The given traits, without scores and without a class of the caller's.
    pub fn new(personality: Vec<String>) -> (props: Props)
        ensures
            props@ == (PropsView { personality: personality.deep_view(), scores: Seq::empty(), class: None }),
    {
        let props = Props { personality, scores: Vec::new(), class: None };
        assert(props@.scores =~= Seq::<int>::empty());
        props
    }
}

/// One row of the list: the trait and its score, written with an explicit
/// sign.
pub open spec fn personality_row(trait_name: Seq<char>, score: int) -> MarkupView {
    element(
        Tag::Tr,
        Seq::empty(),
        seq![
            element(
                Tag::Td,
                Seq::empty(),
                seq![element(Tag::P, Seq::empty(), seq![text(trait_name)])],
            ),
            element(
                Tag::Td,
                Seq::empty(),
                seq![element(Tag::P, seq!["text-center"@], seq![text(signed(score))])],
            ),
        ],
    )
}

/// The rows of the list: one for each trait, in the order given, each
/// with the score at its position, or zero where the scores have run out.
pub open spec fn personality_rows(personality: Seq<Seq<char>>, scores: Seq<int>) -> Seq<MarkupView> {
    Seq::new(personality.len(), |i: int| personality_row(personality[i], value_at(scores, i)))
}

/// The whole list under its heading.
pub open spec fn personality_markup(props: PropsView) -> MarkupView {
    element(
        Tag::Div,
        optional_class(props.class),
        seq![
            element(Tag::H5, seq!["underlined"@], seq![text("Personality"@)]),
            element(
                Tag::Div,
                seq!["personality-reputation-container"@],
                seq![element(Tag::Table, Seq::empty(), personality_rows(props.personality, props.scores))],
            ),
        ],
    )
}

/// Renders one row for each trait, in the order given. Row `i` shows
/// score `i` with an explicit sign: `+` in front of a positive score, the
/// plain decimal form of any other. A row beyond the last score shows `0`.
/// Scores beyond the last trait are not shown.
pub fn table_data(personality: &Vec<String>, scores: &Vec<i32>) -> (rows: Vec<Markup>)
    ensures
        nodes_view(rows@) == personality_rows(personality.deep_view(), ints(scores@)),
        rows.len() == personality.len(),
        forall|i: int|
            scores.len() <= i < personality.len() ==> #[trigger] nodes_view(rows@)[i] == personality_row(
                personality[i]@,
                0,
            ),
{
    let mut rows: Vec<Markup> = nodes0();
    let mut i: usize = 0;
    while i < personality.len()
        invariant
            i <= personality.len(),
            nodes_view(rows@) == Seq::new(
                i as nat,
                |j: int| personality_row(personality.deep_view()[j], value_at(ints(scores@), j)),
            ),
        decreases personality.len() - i,
    {
        let label_cell = Markup::element(
            Tag::Td,
            no_class(),
            nodes1(
                Markup::element(Tag::P, no_class(), nodes1(Markup::text(personality[i].as_str()))),
            ),
        );
        let shown = format_signed(value_or_zero(scores, i));
        let score_cell = Markup::element(
            Tag::Td,
            no_class(),
            nodes1(
                Markup::element(Tag::P, class("text-center"), nodes1(Markup::text(shown.as_str()))),
            ),
        );
        push_node(&mut rows, Markup::element(Tag::Tr, no_class(), nodes2(label_cell, score_cell)));
        i = i + 1;
        assert(nodes_view(rows@) =~= Seq::new(
            i as nat,
            |j: int| personality_row(personality.deep_view()[j], value_at(ints(scores@), j)),
        ));
    }
    assert(nodes_view(rows@).len() == rows.len());
    rows
}

/// Renders the list under its heading.
pub fn personality_display(props: &Props) -> (out: Markup)
    ensures
        out@ == personality_markup(props@),
{
    let heading = Markup::element(Tag::H5, class("underlined"), nodes1(Markup::text("Personality")));
    let table = Markup::element(Tag::Table, no_class(), table_data(&props.personality, &props.scores));
    let container = Markup::element(
        Tag::Div,
        class("personality-reputation-container"),
        nodes1(table),
    );
    Markup::element(Tag::Div, class_of(&props.class), nodes2(heading, container))
}

} // verus!
