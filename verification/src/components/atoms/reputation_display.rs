//! A character's reputations and their scores.
//!
//! Reputations and scores are two lists, paired by position. The reputations decide
//! how many rows there are; a reputation without a score shows zero.

use crate::markup::{
    class, class_of, element, Markup, MarkupView, no_class, nodes0, nodes1, nodes2, nodes_view,
    optional_class, push_node, Tag, text,
};
use crate::pairing::{ints, value_at, value_or_zero};
use crate::text::{format_signed, signed};
use vstd::prelude::*;

verus! {

/// What the list shows.
#[derive(Clone, Debug, PartialEq, Eq)]
pub struct Props {
    pub reputations: Vec<String>,
    pub scores: Vec<i32>,
    pub class: Option<String>,
}

/// [`Props`] over mathematical values.
pub struct PropsView {
    pub reputations: Seq<Seq<char>>,
    pub scores: Seq<int>,
    pub class: Option<Seq<char>>,
}

impl View for Props {
    type V = PropsView;

    open spec fn view(&self) -> PropsView {
        PropsView {
            reputations: self.reputations.deep_view(),
            scores: ints(self.scores@),
            class: self.class.deep_view(),
        }
    }
}

impl Props {
    /// The given reputations, without scores and without a class of the caller's.
    pub fn new(reputations: Vec<String>) -> (props: Props)
        ensures
            props@ == (PropsView { reputations: reputations.deep_view(), scores: Seq::empty(), class: None }),
    {
        let props = Props { reputations, scores: Vec::new(), class: None };
        assert(props@.scores =~= Seq::<int>::empty());
        props
    }
}

/// One row of the list: the reputation and its score, written with an explicit
/// sign.
pub open spec fn reputation_row(reputation: Seq<char>, score: int) -> MarkupView {
    element(
        Tag::Tr,
        Seq::empty(),
        seq![
            element(
                Tag::Td,
                Seq::empty(),
                seq![element(Tag::P, seq!["pad-left-small"@], seq![text(reputation)])],
            ),
            element(
                Tag::Td,
                Seq::empty(),
                seq![element(Tag::P, seq!["text-center"@], seq![text(signed(score))])],
            ),
        ],
    )
}

/// The rows of the list: one for each reputation, in the order given, each
/// with the score at its position, or zero where the scores have run out.
pub open spec fn reputation_rows(reputations: Seq<Seq<char>>, scores: Seq<int>) -> Seq<MarkupView> {
    Seq::new(reputations.len(), |i: int| reputation_row(reputations[i], value_at(scores, i)))
}

/// The whole list under its heading.
pub open spec fn reputation_markup(props: PropsView) -> MarkupView {
    element(
        Tag::Div,
        optional_class(props.class),
        seq![
            element(Tag::H5, Seq::empty(), seq![text("Reputation"@)]),
            element(
                Tag::Div,
                seq!["personality-reputation-container"@],
                seq![element(Tag::Table, Seq::empty(), reputation_rows(props.reputations, props.scores))],
            ),
        ],
    )
}

/// Renders one row for each reputation, in the order given. Row `i` shows
/// score `i` with an explicit sign: `+` in front of a positive score, the
/// plain decimal form of any other. A row beyond the last score shows `0`.
/// Scores beyond the last reputation are not shown.
pub fn table_data(reputations: &Vec<String>, scores: &Vec<i32>) -> (rows: Vec<Markup>)
    ensures
        nodes_view(rows@) == reputation_rows(reputations.deep_view(), ints(scores@)),
        rows.len() == reputations.len(),
        forall|i: int|
            scores.len() <= i < reputations.len() ==> #[trigger] nodes_view(rows@)[i] == reputation_row(
                reputations[i]@,
                0,
            ),
{
    let mut rows: Vec<Markup> = nodes0();
    let mut i: usize = 0;
    while i < reputations.len()
        invariant
            i <= reputations.len(),
            nodes_view(rows@) == Seq::new(
                i as nat,
                |j: int| reputation_row(reputations.deep_view()[j], value_at(ints(scores@), j)),
            ),
        decreases reputations.len() - i,
    {
        let label_cell = Markup::element(
            Tag::Td,
            no_class(),
            nodes1(
                Markup::element(Tag::P, class("pad-left-small"), nodes1(Markup::text(reputations[i].as_str()))),
            ),
        );
        let shown = format_signed(value_or_zero(scores, i));
        let score_cell = Markup::element(
            Tag::Td,
            no_class(),
            nodes1(
                Markup::element(Tag::P, class("text-center"), nodes1(Markup::text(shown.as_str()))),
            ),
        );
        push_node(&mut rows, Markup::element(Tag::Tr, no_class(), nodes2(label_cell, score_cell)));
        i = i + 1;
        assert(nodes_view(rows@) =~= Seq::new(
            i as nat,
            |j: int| reputation_row(reputations.deep_view()[j], value_at(ints(scores@), j)),
        ));
    }
    assert(nodes_view(rows@).len() == rows.len());
    rows
}

/// Renders the list under its heading.
pub fn reputation_display(props: &Props) -> (out: Markup)
    ensures
        out@ == reputation_markup(props@),
{
    let heading = Markup::element(Tag::H5, no_class(), nodes1(Markup::text("Reputation")));
    let table = Markup::element(Tag::Table, no_class(), table_data(&props.reputations, &props.scores));
    let container = Markup::element(
        Tag::Div,
        class("personality-reputation-container"),
        nodes1(table),
    );
    Markup::element(Tag::Div, class_of(&props.class), nodes2(heading, container))
}

} // verus!
