//! A character's flaws, one to a row.

use crate::markup::{
    class, class_of, element, icon, IconId, Markup, MarkupView, no_class, nodes0, nodes1, nodes2,
    nodes_view, optional_class, push_node, Tag, text,
};
use vstd::prelude::*;

verus! {

/// What the list shows.
#[derive(Clone, Debug, PartialEq, Eq)]
pub struct Props {
    pub flaws: Vec<String>,
    pub class: Option<String>,
}

/// [`Props`] over mathematical values.
pub struct PropsView {
    pub flaws: Seq<Seq<char>>,
    pub class: Option<Seq<char>>,
}

impl View for Props {
    type V = PropsView;

    open spec fn view(&self) -> PropsView {
        PropsView { flaws: self.flaws.deep_view(), class: self.class.deep_view() }
    }
}

impl Props {
    /// The given flaws, without a class of the caller's.
    pub fn new(flaws: Vec<String>) -> (props: Props)
        ensures
            props@ == (PropsView { flaws: flaws.deep_view(), class: None }),
    {
        Props { flaws, class: None }
    }
}

/// One row of the list: the flaw, and the icon that marks a link.
pub open spec fn flaw_row(flaw: Seq<char>) -> MarkupView {
    element(
        Tag::Tr,
        Seq::empty(),
        seq![
            element(
                Tag::Td,
                seq!["flex"@],
                seq![
                    element(Tag::P, seq!["pad-left-small"@], seq![text(flaw)]),
                    icon(IconId::HeroiconsMiniSolidLink, seq!["right size-x-small"@]),
                ],
            ),
        ],
    )
}

/// The rows of the list: one for each flaw, in the order given.
pub open spec fn flaw_rows(flaws: Seq<Seq<char>>) -> Seq<MarkupView> {
    Seq::new(flaws.len(), |i: int| flaw_row(flaws[i]))
}

/// The whole list under its heading.
pub open spec fn flaw_markup(props: PropsView) -> MarkupView {
    element(
        Tag::Div,
        optional_class(props.class),
        seq![
            element(Tag::H5, seq!["underlined"@], seq![text("Flaws"@)]),
            element(
                Tag::Div,
                seq!["virtue-flaw-container"@],
                seq![element(Tag::Table, Seq::empty(), flaw_rows(props.flaws))],
            ),
        ],
    )
}

/// Renders one row for each flaw, in the order given: nothing is sorted
/// and nothing is left out.
pub fn table_data(flaws: &Vec<String>) -> (rows: Vec<Markup>)
    ensures
        nodes_view(rows@) == flaw_rows(flaws.deep_view()),
        rows.len() == flaws.len(),
{
    let mut rows: Vec<Markup> = nodes0();
    let mut i: usize = 0;
    while i < flaws.len()
        invariant
            i <= flaws.len(),
            nodes_view(rows@) == Seq::new(i as nat, |j: int| flaw_row(flaws.deep_view()[j])),
        decreases flaws.len() - i,
    {
        let cell = Markup::element(
            Tag::Td,
            class("flex"),
            nodes2(
                Markup::element(
                    Tag::P,
                    class("pad-left-small"),
                    nodes1(Markup::text(flaws[i].as_str())),
                ),
                Markup::icon(IconId::HeroiconsMiniSolidLink, class("right size-x-small")),
            ),
        );
        push_node(&mut rows, Markup::element(Tag::Tr, no_class(), nodes1(cell)));
        i = i + 1;
        assert(nodes_view(rows@) =~= Seq::new(
            i as nat,
            |j: int| flaw_row(flaws.deep_view()[j]),
        ));
    }
    assert(nodes_view(rows@).len() == rows.len());
    rows
}

/// Renders the list under its heading.
pub fn flaw_display(props: &Props) -> (out: Markup)
    ensures
        out@ == flaw_markup(props@),
{
    let heading = Markup::element(Tag::H5, class("underlined"), nodes1(Markup::text("Flaws")));
    let table = Markup::element(Tag::Table, no_class(), table_data(&props.flaws));
    let container = Markup::element(Tag::Div, class("virtue-flaw-container"), nodes1(table));
    Markup::element(Tag::Div, class_of(&props.class), nodes2(heading, container))
}

} // verus!
