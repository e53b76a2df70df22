//! The strip of icons that chooses what the details panel shows.

use crate::markup::{
    class, element, icon, IconId, Markup, MarkupView, no_class, nodes0, nodes1, nodes_view,
    push_node, Tag,
};
use vstd::prelude::*;

verus! {

/// What the strip is told.
#[derive(Clone, Debug, PartialEq, Eq)]
pub struct Props {
    /// Whether the views that only a magus has are offered.
    pub magus_options: bool,
}

impl Props {
    /// A strip that does not offer the views of a magus.
    pub fn new() -> (props: Props)
        ensures
            !props.magus_options,
    {
        Props { magus_options: false }
    }
}

/// The views on offer, in the order of the strip.
pub open spec fn view_icons() -> Seq<IconId> {
    seq![
        IconId::FontAwesomeSolidTimeline,
        IconId::FontAwesomeSolidBook,
        IconId::LucideBoxes,
        IconId::FontAwesomeSolidPlusMinus,
        IconId::FontAwesomeSolidBolt,
        IconId::FontAwesomeSolidFlaskVial,
        IconId::FontAwesomeSolidFeather,
        IconId::HeroiconsSolidMap,
        IconId::BootstrapJournalText,
    ]
}

/// One entry of the strip: the icon of a view, marked if it is the view
/// that is shown.
pub open spec fn view_button(icon_id: IconId, selected: bool) -> MarkupView {
    element(
        Tag::Li,
        if selected {
            seq!["selected"@]
        } else {
            Seq::empty()
        },
        seq![icon(icon_id, Seq::empty())],
    )
}

/// The entries of the strip: one for each view, in order, and the one at
/// `selected_index` marked.
pub open spec fn view_buttons(selected_index: int) -> Seq<MarkupView> {
    Seq::new(view_icons().len(), |i: int| view_button(view_icons()[i], i == selected_index))
}

/// The whole strip, with its first view shown.
pub open spec fn view_select_markup() -> MarkupView {
    element(
        Tag::Div,
        seq!["view-select"@],
        seq![element(Tag::Ul, Seq::empty(), view_buttons(0))],
    )
}

/// Renders one entry for each view, in order, and marks the entry at
/// `selected_index`. An index beyond the last view marks none.
pub fn button_data(selected_index: usize, show_magus_options: bool) -> (buttons: Vec<Markup>)
    ensures
        nodes_view(buttons@) == view_buttons(selected_index as int),
        buttons.len() == 9,
{
    let icon_list = vec![
        IconId::FontAwesomeSolidTimeline,
        IconId::FontAwesomeSolidBook,
        IconId::LucideBoxes,
        IconId::FontAwesomeSolidPlusMinus,
        IconId::FontAwesomeSolidBolt,
        IconId::FontAwesomeSolidFlaskVial,
        IconId::FontAwesomeSolidFeather,
        IconId::HeroiconsSolidMap,
        IconId::BootstrapJournalText,
    ];
    assert(icon_list@ =~= view_icons());
    let mut buttons: Vec<Markup> = nodes0();
    let mut ind: usize = 0;
    while ind < icon_list.len()
        invariant
            ind <= icon_list.len(),
            icon_list@ == view_icons(),
            nodes_view(buttons@) == Seq::new(
                ind as nat,
                |i: int| view_button(view_icons()[i], i == selected_index as int),
            ),
        decreases icon_list.len() - ind,
    {
        let classes = if ind == selected_index {
            class("selected")
        } else {
            no_class()
        };
        let entry = Markup::element(Tag::Li, classes, nodes1(Markup::icon(icon_list[ind], no_class())));
        push_node(&mut buttons, entry);
        ind = ind + 1;
        assert(nodes_view(buttons@) =~= Seq::new(
            ind as nat,
            |i: int| view_button(view_icons()[i], i == selected_index as int),
        ));
    }
    assert(nodes_view(buttons@).len() == buttons.len());
    buttons
}

/// Renders the strip with its first view shown.
pub fn page_view_select(props: &Props) -> (out: Markup)
    ensures
        out@ == view_select_markup(),
{
    let selected_index: usize = 0;
    let list = Markup::element(Tag::Ul, no_class(), button_data(selected_index, props.magus_options));
    Markup::element(Tag::Div, class("view-select"), nodes1(list))
}

} // verus!
