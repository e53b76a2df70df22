//! The table of characteristics: name, score and age of each.
//!
//! Names, scores and ages are three lists, paired by position. The names
//! decide how many rows there are; a name without a score or an age shows
//! zero in its place. A score is written with an explicit sign, an age
//! plainly.

use crate::markup::{
    append_nodes, class, class_of, element, Markup, MarkupView, no_class, nodes0, nodes1, nodes3,
    nodes_view, optional_class, push_node, Tag, text,
};
use crate::pairing::{ints, value_at, value_or_zero};
use crate::text::{decimal, decimal_string, format_signed, signed};
use vstd::prelude::*;

verus! {

/// What the table shows.
#[derive(Clone, Debug, PartialEq, Eq)]
pub struct Props {
    pub chars: Vec<String>,
    pub scores: Vec<i32>,
    pub ages: Vec<i32>,
    /// Class strings of the caller, put in front of the table's own.
    pub class: Option<String>,
}

/// [`Props`] over mathematical values.
pub struct PropsView {
    pub chars: Seq<Seq<char>>,
    pub scores: Seq<int>,
    pub ages: Seq<int>,
    pub class: Option<Seq<char>>,
}

impl View for Props {
    type V = PropsView;

    open spec fn view(&self) -> PropsView {
        PropsView {
            chars: self.chars.deep_view(),
            scores: ints(self.scores@),
            ages: ints(self.ages@),
            class: self.class.deep_view(),
        }
    }
}

impl Props {
    /// The three columns, without a class of the caller's.
    pub fn new(chars: Vec<String>, scores: Vec<i32>, ages: Vec<i32>) -> (props: Props)
        ensures
            props@ == (PropsView {
                chars: chars.deep_view(),
                scores: ints(scores@),
                ages: ints(ages@),
                class: None,
            }),
    {
        Props { chars, scores, ages, class: None }
    }
}

/// A table cell that holds one centred number in plain decimal form.
pub open spec fn number_cell(value: int) -> MarkupView {
    element(
        Tag::Td,
        Seq::empty(),
        seq![element(Tag::P, seq!["text-center"@], seq![text(decimal(value))])],
    )
}

/// A table cell that holds one centred score, written with an explicit
/// sign: `+` in front of a positive score, the plain decimal form of zero
/// and of a negative one.
pub open spec fn score_cell(score: int) -> MarkupView {
    element(
        Tag::Td,
        Seq::empty(),
        seq![element(Tag::P, seq!["text-center"@], seq![text(signed(score))])],
    )
}

/// One row of the table: a characteristic, its score with an explicit
/// sign, and its age in plain decimal form.
pub open spec fn characteristic_row(name: Seq<char>, score: int, age: int) -> MarkupView {
    element(
        Tag::Tr,
        Seq::empty(),
        seq![
            element(
                Tag::Td,
                Seq::empty(),
                seq![element(Tag::P, seq!["pad-left-small"@], seq![text(name)])],
            ),
            score_cell(score),
            number_cell(age),
        ],
    )
}

/// The rows below the heading: one for each characteristic, in the order
/// given, each with the score and the age at its position, or zero where
/// that list has run out.
pub open spec fn characteristic_rows(
    chars: Seq<Seq<char>>,
    scores: Seq<int>,
    ages: Seq<int>,
) -> Seq<MarkupView> {
    Seq::new(
        chars.len(),
        |i: int| characteristic_row(chars[i], value_at(scores, i), value_at(ages, i)),
    )
}

/// One cell of the heading.
pub open spec fn heading_cell(caption: Seq<char>) -> MarkupView {
    element(
        Tag::Th,
        Seq::empty(),
        seq![element(Tag::H6, seq!["text-center"@], seq![text(caption)])],
    )
}

/// The whole table: the heading, then the rows.
pub open spec fn characteristics_markup(props: PropsView) -> MarkupView {
    element(
        Tag::Div,
        seq!["characteristics-container"@],
        seq![
            element(
                Tag::Table,
                optional_class(props.class).push("color"@),
                seq![
                    element(
                        Tag::Tr,
                        Seq::empty(),
                        seq![
                            heading_cell("Characteristic"@),
                            heading_cell("Score"@),
                            heading_cell("Age"@),
                        ],
                    ),
                ] + characteristic_rows(props.chars, props.scores, props.ages),
            ),
        ],
    )
}

fn number(value: i32) -> (m: Markup)
    ensures
        m@ == number_cell(value as int),
{
    let shown = decimal_string(value as i128);
    Markup::element(
        Tag::Td,
        no_class(),
        nodes1(Markup::element(Tag::P, class("text-center"), nodes1(Markup::text(shown.as_str())))),
    )
}

fn score(value: i32) -> (m: Markup)
    ensures
        m@ == score_cell(value as int),
{
    let shown = format_signed(value);
    Markup::element(
        Tag::Td,
        no_class(),
        nodes1(Markup::element(Tag::P, class("text-center"), nodes1(Markup::text(shown.as_str())))),
    )
}

fn heading(caption: &str) -> (m: Markup)
    ensures
        m@ == heading_cell(caption@),
{
    Markup::element(
        Tag::Th,
        no_class(),
        nodes1(Markup::element(Tag::H6, class("text-center"), nodes1(Markup::text(caption)))),
    )
}

/// Renders one row for each characteristic, in the order given. Row `i`
/// shows score `i` with an explicit sign, `+` in front of a positive score
/// and the plain decimal form of any other, and age `i` in plain decimal
/// form. A row beyond the end of either list shows `0` in that column.
/// Scores and ages beyond the last characteristic are not shown.
pub fn table_data(chars: &Vec<String>, scores: &Vec<i32>, ages: &Vec<i32>) -> (rows: Vec<Markup>)
    ensures
        nodes_view(rows@) == characteristic_rows(chars.deep_view(), ints(scores@), ints(ages@)),
        rows.len() == chars.len(),
        forall|i: int|
            0 <= i < chars.len() && i < scores.len() ==> #[trigger] nodes_view(rows@)[i]
                == characteristic_row(chars[i]@, scores[i] as int, value_at(ints(ages@), i)),
        forall|i: int|
            scores.len() <= i < chars.len() ==> #[trigger] nodes_view(rows@)[i]
                == characteristic_row(chars[i]@, 0, value_at(ints(ages@), i)),
        forall|i: int|
            ages.len() <= i < chars.len() ==> #[trigger] nodes_view(rows@)[i]
                == characteristic_row(chars[i]@, value_at(ints(scores@), i), 0),
{
    let mut rows: Vec<Markup> = nodes0();
    let mut i: usize = 0;
    while i < chars.len()
        invariant
            i <= chars.len(),
            nodes_view(rows@) == Seq::new(
                i as nat,
                |j: int|
                    characteristic_row(
                        chars.deep_view()[j],
                        value_at(ints(scores@), j),
                        value_at(ints(ages@), j),
                    ),
            ),
        decreases chars.len() - i,
    {
        let name_cell = Markup::element(
            Tag::Td,
            no_class(),
            nodes1(
                Markup::element(
                    Tag::P,
                    class("pad-left-small"),
                    nodes1(Markup::text(chars[i].as_str())),
                ),
            ),
        );
        let row = Markup::element(
            Tag::Tr,
            no_class(),
            nodes3(name_cell, score(value_or_zero(scores, i)), number(value_or_zero(ages, i))),
        );
        push_node(&mut rows, row);
        i = i + 1;
        assert(nodes_view(rows@) =~= Seq::new(
            i as nat,
            |j: int|
                characteristic_row(
                    chars.deep_view()[j],
                    value_at(ints(scores@), j),
                    value_at(ints(ages@), j),
                ),
        ));
    }
    assert(nodes_view(rows@).len() == rows.len());
    rows
}

/// Renders the table of characteristics.
pub fn characteristics_list(props: &Props) -> (out: Markup)
    ensures
        out@ == characteristics_markup(props@),
{
    let mut classes = class_of(&props.class);
    classes.push("color".to_owned());
    assert(classes.deep_view() =~= optional_class(props@.class).push("color"@));
    let mut rows = nodes1(
        Markup::element(
            Tag::Tr,
            no_class(),
            nodes3(heading("Characteristic"), heading("Score"), heading("Age")),
        ),
    );
    append_nodes(&mut rows, table_data(&props.chars, &props.scores, &props.ages));
    let table = Markup::element(Tag::Table, classes, rows);
    Markup::element(Tag::Div, class("characteristics-container"), nodes1(table))
}

} // verus!
