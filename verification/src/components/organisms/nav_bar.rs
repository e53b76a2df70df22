//! The navigation bar: the menu, the title, and a link to the sources.

use crate::components::organisms::page_display::Msg;
use crate::markup::{
    AttributeName, attributes1, AttributeView, class, element, icon, IconId, Markup, MarkupView,
    no_class, nodes1, nodes3, Tag, text,
};
use vstd::prelude::*;

verus! {

/// What the navigation bar is told.
#[derive(Clone, Debug, PartialEq, Eq)]
pub struct Props {
    /// The message that a click on the menu sends. Without one a click
    /// does nothing.
    pub menu_clicked: Option<Msg>,
}

impl Props {
    /// A navigation bar whose menu sends nothing.
    pub fn new() -> (props: Props)
        ensures
            props.menu_clicked is None,
    {
        Props { menu_clicked: None }
    }
}

/// The menu: an icon that sends the given message when it is clicked.
pub open spec fn menu_entry(menu_clicked: Option<Msg>) -> MarkupView {
    element(
        Tag::Li,
        Seq::empty(),
        seq![
            MarkupView::Element {
                tag: Tag::A,
                classes: Seq::empty(),
                style_sheet: None,
                attributes: seq![AttributeView { name: AttributeName::Style, value: "cursor: pointer"@ }],
                on_click: menu_clicked,
                children: seq![icon(IconId::LucideMenu, Seq::empty())],
            },
        ],
    )
}

/// The whole bar. The menu is its only entry that answers a click.
pub open spec fn nav_bar_markup(menu_clicked: Option<Msg>) -> MarkupView {
    element(
        Tag::Span,
        seq!["navbar"@],
        seq![
            element(
                Tag::Ul,
                Seq::empty(),
                seq![
                    menu_entry(menu_clicked),
                    element(
                        Tag::Li,
                        Seq::empty(),
                        seq![
                            element(
                                Tag::H1,
                                seq!["prevent-select"@],
                                seq![text("Ars Magica Helper"@)],
                            ),
                        ],
                    ),
                    element(
                        Tag::Li,
                        seq!["right margin-small"@],
                        seq![icon(IconId::BootstrapGithub, Seq::empty())],
                    ),
                ],
            ),
        ],
    )
}

/// Renders the navigation bar.
pub fn nav_bar(props: &Props) -> (out: Markup)
    ensures
        out@ == nav_bar_markup(props.menu_clicked),
{
    let menu = Markup::element_with(
        Tag::A,
        no_class(),
        None,
        attributes1(AttributeName::Style, "cursor: pointer"),
        props.menu_clicked,
        nodes1(Markup::icon(IconId::LucideMenu, no_class())),
    );
    let title = Markup::element(
        Tag::H1,
        class("prevent-select"),
        nodes1(Markup::text("Ars Magica Helper")),
    );
    let entries = nodes3(
        Markup::element(Tag::Li, no_class(), nodes1(menu)),
        Markup::element(Tag::Li, no_class(), nodes1(title)),
        Markup::element(
            Tag::Li,
            class("right margin-small"),
            nodes1(Markup::icon(IconId::BootstrapGithub, no_class())),
        ),
    );
    Markup::element(
        Tag::Span,
        class("navbar"),
        nodes1(Markup::element(Tag::Ul, no_class(), entries)),
    )
}

} // verus!
