//! The table of abilities: name, specialty, score and experience of each.
//!
//! The four columns are four lists, paired by position. The names decide
//! how many rows there are. A name without a specialty has an empty cell in
//! its place; a name without a score or without experience shows zero. A
//! score is written with an explicit sign, experience plainly.

use crate::markup::{
    append_nodes, AttributeName, attributes1, AttributeView, class, class_of, element, Markup,
    MarkupView, no_class, nodes0, nodes1, nodes2, nodes4, nodes_view, optional_class, push_node,
    Tag, text,
};
use crate::pairing::{entry_at, ints, value_at, value_or_zero};
use crate::text::{decimal, decimal_string, format_signed, signed};
use vstd::prelude::*;

verus! {

/// What the table shows.
#[derive(Clone, Debug, PartialEq, Eq)]
pub struct Props {
    pub names: Vec<String>,
    pub specialties: Vec<String>,
    pub scores: Vec<i32>,
    pub exps: Vec<i32>,
    /// Class strings of the caller, put in front of the table's own.
    pub class: Option<String>,
}

/// [`Props`] over mathematical values.
pub struct PropsView {
    pub names: Seq<Seq<char>>,
    pub specialties: Seq<Seq<char>>,
    pub scores: Seq<int>,
    pub exps: Seq<int>,
    pub class: Option<Seq<char>>,
}

impl View for Props {
    type V = PropsView;

    open spec fn view(&self) -> PropsView {
        PropsView {
            names: self.names.deep_view(),
            specialties: self.specialties.deep_view(),
            scores: ints(self.scores@),
            exps: ints(self.exps@),
            class: self.class.deep_view(),
        }
    }
}

impl Props {
    /// The four columns, without a class of the caller's.
    pub fn new(
        names: Vec<String>,
        specialties: Vec<String>,
        scores: Vec<i32>,
        exps: Vec<i32>,
    ) -> (props: Props)
        ensures
            props@ == (PropsView {
                names: names.deep_view(),
                specialties: specialties.deep_view(),
                scores: ints(scores@),
                exps: ints(exps@),
                class: None,
            }),
    {
        Props { names, specialties, scores, exps, class: None }
    }
}

/// A table cell that holds one centred number in plain decimal form.
pub open spec fn number_cell(value: int) -> MarkupView {
    element(
        Tag::Td,
        Seq::empty(),
        seq![element(Tag::P, seq!["text-center"@], seq![text(decimal(value))])],
    )
}

/// The cell of a specialty: the specialty in small print, or an empty cell
/// where the name has none.
pub open spec fn specialty_cell(specialty: Option<Seq<char>>) -> MarkupView {
    match specialty {
        Some(s) => element(
            Tag::Td,
            Seq::empty(),
            seq![element(Tag::P, seq!["text-center text-small"@], seq![text(s)])],
        ),
        None => element(Tag::Td, Seq::empty(), Seq::empty()),
    }
}

/// A table cell that holds one centred score, written with an explicit
/// sign: `+` in front of a positive score, the plain decimal form of zero
/// and of a negative one.
pub open spec fn score_cell(score: int) -> MarkupView {
    element(
        Tag::Td,
        Seq::empty(),
        seq![element(Tag::P, seq!["text-center"@], seq![text(signed(score))])],
    )
}

/// One row of the table: a name, its specialty, its score with an explicit
/// sign, and its experience in plain decimal form.
pub open spec fn ability_row(
    name: Seq<char>,
    specialty: Option<Seq<char>>,
    score: int,
    exp: int,
) -> MarkupView {
    element(
        Tag::Tr,
        Seq::empty(),
        seq![
            element(
                Tag::Td,
                Seq::empty(),
                seq![element(Tag::P, seq!["text-center"@], seq![text(name)])],
            ),
            specialty_cell(specialty),
            score_cell(score),
            number_cell(exp),
        ],
    )
}

/// The rows below the headings: one for each name, in the order given,
/// each with what the other three lists hold at its position.
pub open spec fn ability_rows(
    names: Seq<Seq<char>>,
    specialties: Seq<Seq<char>>,
    scores: Seq<int>,
    exps: Seq<int>,
) -> Seq<MarkupView> {
    Seq::new(
        names.len(),
        |i: int|
            ability_row(names[i], entry_at(specialties, i), value_at(scores, i), value_at(exps, i)),
    )
}

/// The title of the table, across all four columns.
pub open spec fn title_row() -> MarkupView {
    element(
        Tag::Tr,
        Seq::empty(),
        seq![
            MarkupView::Element {
                tag: Tag::Th,
                classes: Seq::empty(),
                style_sheet: None,
                attributes: seq![AttributeView { name: AttributeName::Colspan, value: "4"@ }],
                on_click: None,
                children: seq![element(Tag::H5, Seq::empty(), seq![text("Abilities"@)])],
            },
        ],
    )
}

/// One cell of the column headings.
pub open spec fn heading_cell(caption: Seq<char>) -> MarkupView {
    element(
        Tag::Td,
        Seq::empty(),
        seq![element(Tag::H6, seq!["underlined text-center"@], seq![text(caption)])],
    )
}

/// The whole table: the title, the column headings, then the rows.
pub open spec fn abilities_markup(props: PropsView) -> MarkupView {
    element(
        Tag::Div,
        seq!["abilities-container"@],
        seq![
            element(
                Tag::Table,
                optional_class(props.class).push("color"@),
                seq![
                    title_row(),
                    element(
                        Tag::Tr,
                        Seq::empty(),
                        seq![
                            heading_cell("Name"@),
                            heading_cell("Specialty"@),
                            heading_cell("Score"@),
                            heading_cell("Exp"@),
                        ],
                    ),
                ] + ability_rows(props.names, props.specialties, props.scores, props.exps),
            ),
        ],
    )
}

fn number(value: i32) -> (m: Markup)
    ensures
        m@ == number_cell(value as int),
{
    let shown = decimal_string(value as i128);
    Markup::element(
        Tag::Td,
        no_class(),
        nodes1(Markup::element(Tag::P, class("text-center"), nodes1(Markup::text(shown.as_str())))),
    )
}

fn score(value: i32) -> (m: Markup)
    ensures
        m@ == score_cell(value as int),
{
    let shown = format_signed(value);
    Markup::element(
        Tag::Td,
        no_class(),
        nodes1(Markup::element(Tag::P, class("text-center"), nodes1(Markup::text(shown.as_str())))),
    )
}

fn heading(caption: &str) -> (m: Markup)
    ensures
        m@ == heading_cell(caption@),
{
    Markup::element(
        Tag::Td,
        no_class(),
        nodes1(
            Markup::element(Tag::H6, class("underlined text-center"), nodes1(Markup::text(caption))),
        ),
    )
}

fn specialty(specialties: &Vec<String>, i: usize) -> (m: Markup)
    ensures
        m@ == specialty_cell(entry_at(specialties.deep_view(), i as int)),
{
    if i < specialties.len() {
        Markup::element(
            Tag::Td,
            no_class(),
            nodes1(
                Markup::element(
                    Tag::P,
                    class("text-center text-small"),
                    nodes1(Markup::text(specialties[i].as_str())),
                ),
            ),
        )
    } else {
        Markup::element(Tag::Td, no_class(), nodes0())
    }
}

/// Renders one row for each name, in the order given. Row `i` shows
/// specialty `i`, score `i` with an explicit sign, `+` in front of a
/// positive score and the plain decimal form of any other, and experience
/// `i` in plain decimal form. A row beyond the end of a list shows an empty
/// cell for the specialty and `0` for a number. What the three lists hold
/// beyond the last name is not shown.
pub fn table_data(
    names: &Vec<String>,
    specialties: &Vec<String>,
    scores: &Vec<i32>,
    exps: &Vec<i32>,
) -> (rows: Vec<Markup>)
    ensures
        nodes_view(rows@) == ability_rows(
            names.deep_view(),
            specialties.deep_view(),
            ints(scores@),
            ints(exps@),
        ),
        rows.len() == names.len(),
        forall|i: int|
            0 <= i < names.len() && i < scores.len() ==> #[trigger] nodes_view(rows@)[i]
                == ability_row(
                names[i]@,
                entry_at(specialties.deep_view(), i),
                scores[i] as int,
                value_at(ints(exps@), i),
            ),
        forall|i: int|
            specialties.len() <= i < names.len() ==> #[trigger] nodes_view(rows@)[i]
                == ability_row(
                names[i]@,
                None,
                value_at(ints(scores@), i),
                value_at(ints(exps@), i),
            ),
        forall|i: int|
            scores.len() <= i < names.len() ==> #[trigger] nodes_view(rows@)[i] == ability_row(
                names[i]@,
                entry_at(specialties.deep_view(), i),
                0,
                value_at(ints(exps@), i),
            ),
        forall|i: int|
            exps.len() <= i < names.len() ==> #[trigger] nodes_view(rows@)[i] == ability_row(
                names[i]@,
                entry_at(specialties.deep_view(), i),
                value_at(ints(scores@), i),
                0,
            ),
{
    let mut rows: Vec<Markup> = nodes0();
    let mut i: usize = 0;
    while i < names.len()
        invariant
            i <= names.len(),
            nodes_view(rows@) == Seq::new(
                i as nat,
                |j: int|
                    ability_row(
                        names.deep_view()[j],
                        entry_at(specialties.deep_view(), j),
                        value_at(ints(scores@), j),
                        value_at(ints(exps@), j),
                    ),
            ),
        decreases names.len() - i,
    {
        let name_cell = Markup::element(
            Tag::Td,
            no_class(),
            nodes1(
                Markup::element(Tag::P, class("text-center"), nodes1(Markup::text(names[i].as_str()))),
            ),
        );
        let row = Markup::element(
            Tag::Tr,
            no_class(),
            nodes4(
                name_cell,
                specialty(specialties, i),
                score(value_or_zero(scores, i)),
                number(value_or_zero(exps, i)),
            ),
        );
        push_node(&mut rows, row);
        i = i + 1;
        assert(nodes_view(rows@) =~= Seq::new(
            i as nat,
            |j: int|
                ability_row(
                    names.deep_view()[j],
                    entry_at(specialties.deep_view(), j),
                    value_at(ints(scores@), j),
                    value_at(ints(exps@), j),
                ),
        ));
    }
    assert(nodes_view(rows@).len() == rows.len());
    rows
}

/// Renders the table of abilities.
pub fn abilities_list(props: &Props) -> (out: Markup)
    ensures
        out@ == abilities_markup(props@),
{
    let mut classes = class_of(&props.class);
    classes.push("color".to_owned());
    assert(classes.deep_view() =~= optional_class(props@.class).push("color"@));
    let title_cell = Markup::element_with(
        Tag::Th,
        no_class(),
        None,
        attributes1(AttributeName::Colspan, "4"),
        None,
        nodes1(Markup::element(Tag::H5, no_class(), nodes1(Markup::text("Abilities")))),
    );
    let mut rows = nodes2(
        Markup::element(Tag::Tr, no_class(), nodes1(title_cell)),
        Markup::element(
            Tag::Tr,
            no_class(),
            nodes4(heading("Name"), heading("Specialty"), heading("Score"), heading("Exp")),
        ),
    );
    append_nodes(&mut rows, table_data(&props.names, &props.specialties, &props.scores, &props.exps));
    let table = Markup::element(Tag::Table, classes, rows);
    Markup::element(Tag::Div, class("abilities-container"), nodes1(table))
}

} // verus!
