//! A character's virtues, one to a row.

use crate::markup::{
    class, class_of, element, icon, IconId, Markup, MarkupView, no_class, nodes0, nodes1, nodes2,
    nodes_view, optional_class, push_node, Tag, text,
};
use vstd::prelude::*;

verus! {

/// What the list shows.
#[derive(Clone, Debug, PartialEq, Eq)]
pub struct Props {
    pub virtues: Vec<String>,
    pub class: Option<String>,
}

/// [`Props`] over mathematical values.
pub struct PropsView {
    pub virtues: Seq<Seq<char>>,
    pub class: Option<Seq<char>>,
}

impl View for Props {
    type V = PropsView;

    open spec fn view(&self) -> PropsView {
        PropsView { virtues: self.virtues.deep_view(), class: self.class.deep_view() }
    }
}

impl Props {
    /// No virtues, and no class of the caller's.
    pub fn new() -> (props: Props)
        ensures
            props@ == (PropsView { virtues: Seq::empty(), class: None }),
    {
        let props = Props { virtues: Vec::new(), class: None };
        assert(props@.virtues =~= Seq::<Seq<char>>::empty());
        props
    }
}

/// One row of the list: the virtue, and the icon that marks a link.
pub open spec fn virtue_row(virtue: Seq<char>) -> MarkupView {
    element(
        Tag::Tr,
        Seq::empty(),
        seq![
            element(
                Tag::Td,
                seq!["flex"@],
                seq![
                    element(Tag::P, seq!["pad-left-small"@], seq![text(virtue)]),
                    icon(IconId::HeroiconsMiniSolidLink, seq!["right size-x-small"@]),
                ],
            ),
        ],
    )
}

/// The rows of the list: one for each virtue, in the order given.
pub open spec fn virtue_rows(virtues: Seq<Seq<char>>) -> Seq<MarkupView> {
    Seq::new(virtues.len(), |i: int| virtue_row(virtues[i]))
}

/// The whole list under its heading.
pub open spec fn virtue_markup(props: PropsView) -> MarkupView {
    element(
        Tag::Div,
        optional_class(props.class),
        seq![
            element(Tag::H5, seq!["underlined"@], seq![text("Virtues"@)]),
            element(
                Tag::Div,
                seq!["virtue-flaw-container"@],
                seq![element(Tag::Table, Seq::empty(), virtue_rows(props.virtues))],
            ),
        ],
    )
}

/// Renders one row for each virtue, in the order given: nothing is sorted
/// and nothing is left out.
pub fn table_data(virtues: &Vec<String>) -> (rows: Vec<Markup>)
    ensures
        nodes_view(rows@) == virtue_rows(virtues.deep_view()),
        rows.len() == virtues.len(),
{
    let mut rows: Vec<Markup> = nodes0();
    let mut i: usize = 0;
    while i < virtues.len()
        invariant
            i <= virtues.len(),
            nodes_view(rows@) == Seq::new(i as nat, |j: int| virtue_row(virtues.deep_view()[j])),
        decreases virtues.len() - i,
    {
        let cell = Markup::element(
            Tag::Td,
            class("flex"),
            nodes2(
                Markup::element(
                    Tag::P,
                    class("pad-left-small"),
                    nodes1(Markup::text(virtues[i].as_str())),
                ),
                Markup::icon(IconId::HeroiconsMiniSolidLink, class("right size-x-small")),
            ),
        );
        push_node(&mut rows, Markup::element(Tag::Tr, no_class(), nodes1(cell)));
        i = i + 1;
        assert(nodes_view(rows@) =~= Seq::new(
            i as nat,
            |j: int| virtue_row(virtues.deep_view()[j]),
        ));
    }
    assert(nodes_view(rows@).len() == rows.len());
    rows
}

/// Renders the list under its heading.
pub fn virtue_display(props: &Props) -> (out: Markup)
    ensures
        out@ == virtue_markup(props@),
{
    let heading = Markup::element(Tag::H5, class("underlined"), nodes1(Markup::text("Virtues")));
    let table = Markup::element(Tag::Table, no_class(), table_data(&props.virtues));
    let container = Markup::element(Tag::Div, class("virtue-flaw-container"), nodes1(table));
    Markup::element(Tag::Div, class_of(&props.class), nodes2(heading, container))
}

} // verus!
