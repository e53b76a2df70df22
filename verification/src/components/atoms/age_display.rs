//! A character's true and apparent age.

use crate::markup::{
    appended_class, class, class_with, element, Markup, MarkupView, no_class, nodes1, nodes2, Tag,
    text,
};
use crate::text::{decimal, decimal_string, digits};
use vstd::prelude::*;

verus! {

/// What the age display shows.
#[derive(Clone, Debug, PartialEq, Eq)]
pub struct Props {
    pub true_age: i32,
    pub apparent_age: i32,
    /// Class strings of the caller, put behind the display's own.
    pub class: Option<String>,
}

/// [`Props`] over mathematical values.
pub struct PropsView {
    pub true_age: int,
    pub apparent_age: int,
    pub class: Option<Seq<char>>,
}

impl View for Props {
    type V = PropsView;

    open spec fn view(&self) -> PropsView {
        PropsView {
            true_age: self.true_age as int,
            apparent_age: self.apparent_age as int,
            class: self.class.deep_view(),
        }
    }
}

impl PropsView {
    /// Whether both numbers can be ages: neither is negative.
    pub open spec fn well_formed(self) -> bool {
        self.true_age >= 0 && self.apparent_age >= 0
    }
}

impl Props {
    /// The two ages, without a class of the caller's.
    pub fn new(true_age: i32, apparent_age: i32) -> (props: Props)
        ensures
            props@ == (PropsView {
                true_age: true_age as int,
                apparent_age: apparent_age as int,
                class: None,
            }),
            props@.well_formed() <==> true_age >= 0 && apparent_age >= 0,
    {
        Props { true_age, apparent_age, class: None }
    }

    /// Whether neither age is negative.
    pub fn is_well_formed(&self) -> (ok: bool)
        ensures
            ok == self@.well_formed(),
    {
        self.true_age >= 0 && self.apparent_age >= 0
    }
}

/// One row of the display: a caption and an age in plain decimal form.
pub open spec fn age_row(caption: Seq<char>, age: int) -> MarkupView {
    age_row_of(caption, decimal(age))
}

/// One row of the display: a caption and an age already written out.
pub open spec fn age_row_of(caption: Seq<char>, shown: Seq<char>) -> MarkupView {
    element(
        Tag::Tr,
        Seq::empty(),
        seq![
            element(
                Tag::Td,
                seq!["no-border"@],
                seq![element(Tag::P, Seq::empty(), seq![text(caption)])],
            ),
            element(
                Tag::Td,
                seq!["no-border pad-left-small"@],
                seq![element(Tag::P, seq!["text-center"@], seq![text(shown)])],
            ),
        ],
    )
}

/// The whole display: a table of two rows, true age above apparent age.
pub open spec fn age_markup(props: PropsView) -> MarkupView {
    element(
        Tag::Div,
        seq![appended_class("center "@, props.class)],
        seq![
            element(
                Tag::Table,
                seq!["center"@],
                seq![
                    age_row("True Age: "@, props.true_age),
                    age_row("Apparent Age: "@, props.apparent_age),
                ],
            ),
        ],
    )
}

fn row(caption: &str, age: i32) -> (m: Markup)
    ensures
        m@ == age_row(caption@, age as int),
{
    let caption_cell = Markup::element(
        Tag::Td,
        class("no-border"),
        nodes1(Markup::element(Tag::P, no_class(), nodes1(Markup::text(caption)))),
    );
    let age_text = decimal_string(age as i128);
    let age_cell = Markup::element(
        Tag::Td,
        class("no-border pad-left-small"),
        nodes1(Markup::element(Tag::P, class("text-center"), nodes1(Markup::text(age_text.as_str())))),
    );
    Markup::element(Tag::Tr, no_class(), nodes2(caption_cell, age_cell))
}

/// Renders the two ages as a table of two rows, true age above apparent
/// age, each a caption and the age in plain decimal form.
///
/// Every pair of numbers is rendered. Ages that are well formed are
/// written with digits alone; a negative number keeps its minus sign.
pub fn age_display(props: &Props) -> (out: Markup)
    ensures
        out@ == age_markup(props@),
        props@.well_formed() ==> out@ == element(
            Tag::Div,
            seq![appended_class("center "@, props@.class)],
            seq![
                element(
                    Tag::Table,
                    seq!["center"@],
                    seq![
                        age_row_of("True Age: "@, digits(props@.true_age as nat)),
                        age_row_of("Apparent Age: "@, digits(props@.apparent_age as nat)),
                    ],
                ),
            ],
        ),
{
    let rows = nodes2(row("True Age: ", props.true_age), row("Apparent Age: ", props.apparent_age));
    let table = Markup::element(Tag::Table, class("center"), rows);
    Markup::element(Tag::Div, class_with("center ", &props.class), nodes1(table))
}

} // verus!
