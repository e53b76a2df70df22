//! A character's size, soak and encumbrance.

use crate::markup::{
    class_of, element, Markup, MarkupView, no_class, nodes1, nodes2, nodes3, optional_class, Tag,
    text,
};
use crate::text::{decimal, decimal_string, format_signed, signed};
use vstd::prelude::*;

verus! {

/// What the display shows.
#[derive(Clone, Debug, PartialEq, Eq)]
pub struct Props {
    pub soak: i32,
    pub size: i32,
    pub encumbrance: i32,
    pub class: Option<String>,
}

/// [`Props`] over mathematical values.
pub struct PropsView {
    pub soak: int,
    pub size: int,
    pub encumbrance: int,
    pub class: Option<Seq<char>>,
}

impl View for Props {
    type V = PropsView;

    open spec fn view(&self) -> PropsView {
        PropsView {
            soak: self.soak as int,
            size: self.size as int,
            encumbrance: self.encumbrance as int,
            class: self.class.deep_view(),
        }
    }
}

impl Props {
    /// Soak, size and encumbrance, without a class of the caller's.
    pub fn new(soak: i32, size: i32, encumbrance: i32) -> (props: Props)
        ensures
            props@ == (PropsView {
                soak: soak as int,
                size: size as int,
                encumbrance: encumbrance as int,
                class: None,
            }),
    {
        Props { soak, size, encumbrance, class: None }
    }
}

/// One row of the display: a caption and a number already written out.
pub open spec fn measure_row(caption: Seq<char>, shown: Seq<char>) -> MarkupView {
    element(
        Tag::Tr,
        Seq::empty(),
        seq![
            element(Tag::Td, Seq::empty(), seq![element(Tag::P, Seq::empty(), seq![text(caption)])]),
            element(Tag::Td, Seq::empty(), seq![element(Tag::P, Seq::empty(), seq![text(shown)])]),
        ],
    )
}

/// The whole display: size, soak, encumbrance, in that order. Size and
/// soak are written with an explicit sign, encumbrance plainly.
pub open spec fn soak_size_markup(props: PropsView) -> MarkupView {
    element(
        Tag::Table,
        optional_class(props.class),
        seq![
            measure_row("Size: "@, signed(props.size)),
            measure_row("Soak: "@, signed(props.soak)),
            measure_row("Encumbrance: "@, decimal(props.encumbrance)),
        ],
    )
}

fn row(caption: &str, shown: &str) -> (m: Markup)
    ensures
        m@ == measure_row(caption@, shown@),
{
    let caption_cell = Markup::element(
        Tag::Td,
        no_class(),
        nodes1(Markup::element(Tag::P, no_class(), nodes1(Markup::text(caption)))),
    );
    let value_cell = Markup::element(
        Tag::Td,
        no_class(),
        nodes1(Markup::element(Tag::P, no_class(), nodes1(Markup::text(shown)))),
    );
    Markup::element(Tag::Tr, no_class(), nodes2(caption_cell, value_cell))
}

/// Renders size, soak and encumbrance as a table of three rows.
pub fn soak_size_display(props: &Props) -> (out: Markup)
    ensures
        out@ == soak_size_markup(props@),
{
    let soak_display_str = format_signed(props.soak);
    let size_display_str = format_signed(props.size);
    let encumbrance_display_str = decimal_string(props.encumbrance as i128);
    Markup::element(
        Tag::Table,
        class_of(&props.class),
        nodes3(
            row("Size: ", size_display_str.as_str()),
            row("Soak: ", soak_display_str.as_str()),
            row("Encumbrance: ", encumbrance_display_str.as_str()),
        ),
    )
}

} // verus!
