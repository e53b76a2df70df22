//! The side bar: a column of icons.

use crate::markup::{
    class, element, icon, IconId, Markup, MarkupView, no_class, nodes0, nodes1, nodes2, nodes_view,
    push_node, Tag, text,
};
use vstd::prelude::*;

verus! {

/// The side bar takes no properties.
#[derive(Clone, Copy, Debug, PartialEq, Eq)]
pub struct Props {}

/// The icons below the first entry, from the top down.
pub open spec fn side_bar_icons() -> Seq<IconId> {
    seq![
        IconId::BootstrapGearFill,
        IconId::FontAwesomeSolidFeather,
        IconId::FontAwesomeSolidPencil,
        IconId::BootstrapTagsFill,
        IconId::FontAwesomeSolidTag,
        IconId::HeroiconsSolidMap,
        IconId::HeroiconsSolidSparkles,
        IconId::FontAwesomeSolidBook,
        IconId::FontAwesomeSolidEye,
        IconId::FontAwesomeSolidEyeLowVision,
        IconId::FontAwesomeSolidHammer,
        IconId::LucideCoins,
        IconId::FontAwesomeSolidSignsPost,
        IconId::BootstrapFileTextFill,
        IconId::BootstrapFileEarmarkImageFill,
        IconId::LucideUpload,
        IconId::LucideDownload,
        IconId::OcticonsX16,
        IconId::FontAwesomeSolidTimeline,
        IconId::FontAwesomeSolidTimeline,
    ]
}

/// The first entry: an icon with a caption.
pub open spec fn first_entry() -> MarkupView {
    element(
        Tag::Li,
        Seq::empty(),
        seq![
            icon(IconId::FontAwesomeSolidHatWizard, Seq::empty()),
            element(Tag::H2, seq!["prevent-select"@], seq![text("Item 1"@)]),
        ],
    )
}

/// An entry that is an icon alone.
pub open spec fn icon_entry(icon_id: IconId) -> MarkupView {
    element(Tag::Li, Seq::empty(), seq![icon(icon_id, Seq::empty())])
}

/// The last entry, which holds room and shows nothing.
pub open spec fn last_entry() -> MarkupView {
    element(Tag::Li, Seq::empty(), seq![element(Tag::Div, Seq::empty(), Seq::empty())])
}

/// The entries of the side bar, from the top down.
pub open spec fn side_bar_entries() -> Seq<MarkupView> {
    seq![first_entry()] + Seq::new(side_bar_icons().len(), |i: int| icon_entry(side_bar_icons()[i]))
        + seq![last_entry()]
}

/// The whole side bar.
pub open spec fn side_bar_markup() -> MarkupView {
    element(Tag::Div, seq!["sidebar"@], seq![element(Tag::Ul, Seq::empty(), side_bar_entries())])
}

/// Renders the side bar.
pub fn side_bar(_props: &Props) -> (out: Markup)
    ensures
        out@ == side_bar_markup(),
{
    let icons = vec![
        IconId::BootstrapGearFill,
        IconId::FontAwesomeSolidFeather,
        IconId::FontAwesomeSolidPencil,
        IconId::BootstrapTagsFill,
        IconId::FontAwesomeSolidTag,
        IconId::HeroiconsSolidMap,
        IconId::HeroiconsSolidSparkles,
        IconId::FontAwesomeSolidBook,
        IconId::FontAwesomeSolidEye,
        IconId::FontAwesomeSolidEyeLowVision,
        IconId::FontAwesomeSolidHammer,
        IconId::LucideCoins,
        IconId::FontAwesomeSolidSignsPost,
        IconId::BootstrapFileTextFill,
        IconId::BootstrapFileEarmarkImageFill,
        IconId::LucideUpload,
        IconId::LucideDownload,
        IconId::OcticonsX16,
        IconId::FontAwesomeSolidTimeline,
        IconId::FontAwesomeSolidTimeline,
    ];
    assert(icons@ =~= side_bar_icons());
    let first = Markup::element(
        Tag::Li,
        no_class(),
        nodes2(
            Markup::icon(IconId::FontAwesomeSolidHatWizard, no_class()),
            Markup::element(Tag::H2, class("prevent-select"), nodes1(Markup::text("Item 1"))),
        ),
    );
    let mut entries = nodes1(first);
    let mut i: usize = 0;
    while i < icons.len()
        invariant
            i <= icons.len(),
            icons@ == side_bar_icons(),
            nodes_view(entries@) == seq![first_entry()] + Seq::new(
                i as nat,
                |j: int| icon_entry(side_bar_icons()[j]),
            ),
        decreases icons.len() - i,
    {
        push_node(
            &mut entries,
            Markup::element(Tag::Li, no_class(), nodes1(Markup::icon(icons[i], no_class()))),
        );
        i = i + 1;
        assert(nodes_view(entries@) =~= seq![first_entry()] + Seq::new(
            i as nat,
            |j: int| icon_entry(side_bar_icons()[j]),
        ));
    }
    push_node(
        &mut entries,
        Markup::element(
            Tag::Li,
            no_class(),
            nodes1(Markup::element(Tag::Div, no_class(), nodes0())),
        ),
    );
    assert(nodes_view(entries@) =~= side_bar_entries());
    Markup::element(
        Tag::Div,
        class("sidebar"),
        nodes1(Markup::element(Tag::Ul, no_class(), entries)),
    )
}

} // verus!
