//! The page: the one component that holds state.
//!
//! The page knows one thing, whether the side bar is open. It starts
//! closed, and the only thing that changes it is the message that the menu
//! of the navigation bar sends.

use crate::components::organisms::{character_info, details_display, nav_bar, side_bar};
use crate::markup::{
    AttributeName, attributes1, AttributeView, class, Markup, MarkupView, no_attributes, nodes2,
    nodes3, nodes_view, Tag,
};
use vstd::prelude::*;

verus! {

/// The page and its state.
#[derive(Debug)]
pub struct PageDisplay {
    sidebar_open: bool,
}

/// The page takes no properties.
#[derive(Clone, Copy, Debug, PartialEq, Eq)]
pub struct Props {}

/// What the page can be told.
#[derive(Clone, Copy, Debug, PartialEq, Eq)]
pub enum Msg {
    /// The menu in the navigation bar was clicked.
    ToggleSidebar,
}

/// The state that a message leads to: a click on the menu opens a closed
/// side bar and closes an open one.
pub open spec fn next_state(sidebar_open: bool, msg: Msg) -> bool {
    match msg {
        Msg::ToggleSidebar => !sidebar_open,
    }
}

/// Two clicks on the menu leave the side bar as it was, whether it was
/// open or closed; one click always changes it.
pub proof fn lemma_two_toggles_restore(sidebar_open: bool)
    ensures
        next_state(next_state(sidebar_open, Msg::ToggleSidebar), Msg::ToggleSidebar)
            == sidebar_open,
        next_state(sidebar_open, Msg::ToggleSidebar) != sidebar_open,
{
}

/// The region that holds the character panel and the details panel. It
/// moves a fifth of the width to the right where a side bar stands beside
/// it.
pub open spec fn main_region_markup(beside_side_bar: bool) -> MarkupView {
    MarkupView::Element {
        tag: Tag::Div,
        classes: seq!["display-grid-2"@],
        style_sheet: None,
        attributes: if beside_side_bar {
            seq![AttributeView { name: AttributeName::Style, value: "margin-left:20%"@ }]
        } else {
            Seq::empty()
        },
        on_click: None,
        children: seq![
            character_info::character_info_markup(),
            details_display::details_markup(),
        ],
    }
}

/// What the page shows: the navigation bar, whose menu sends
/// [`Msg::ToggleSidebar`]; the side bar, if and only if it is open; and
/// the main region, moved aside exactly when the side bar is shown.
pub open spec fn page_markup(sidebar_open: bool) -> Seq<MarkupView> {
    if sidebar_open {
        seq![
            nav_bar::nav_bar_markup(Some(Msg::ToggleSidebar)),
            side_bar::side_bar_markup(),
            main_region_markup(true),
        ]
    } else {
        seq![nav_bar::nav_bar_markup(Some(Msg::ToggleSidebar)), main_region_markup(false)]
    }
}

/// Renders the main region.
pub fn main_region(beside_side_bar: bool) -> (out: Markup)
    ensures
        out@ == main_region_markup(beside_side_bar),
{
    let attributes = if beside_side_bar {
        attributes1(AttributeName::Style, "margin-left:20%")
    } else {
        no_attributes()
    };
    Markup::element_with(
        Tag::Div,
        class("display-grid-2"),
        None,
        attributes,
        None,
        nodes2(
            character_info::character_info(&character_info::Props {  }),
            details_display::details_display(&details_display::Props {  }),
        ),
    )
}

impl PageDisplay {
    /// Whether the side bar is open.
    pub closed spec fn is_open(&self) -> bool {
        self.sidebar_open
    }

    /// A new page. Its side bar is closed.
    pub fn create() -> (page: Self)
        ensures
            !page.is_open(),
    {
        Self { sidebar_open: false }
    }

    /// Whether the side bar is open.
    pub fn sidebar_open(&self) -> (open: bool)
        ensures
            open == self.is_open(),
    {
        self.sidebar_open
    }

    /// Takes a message. A click on the menu opens a closed side bar and
    /// closes an open one. The result says whether the page has to be drawn
    /// again, which it always has.
    pub fn update(&mut self, msg: Msg) -> (redraw: bool)
        ensures
            final(self).is_open() == next_state(old(self).is_open(), msg),
            final(self).is_open() != old(self).is_open(),
            redraw,
    {
        match msg {
            Msg::ToggleSidebar => {
                self.sidebar_open = !self.sidebar_open;
                true
            },
        }
    }

    /// Renders the page as the nodes that stand side by side at its top:
    /// the navigation bar, then the side bar if it is open, then the main
    /// region.
    pub fn view(&self) -> (nodes: Vec<Markup>)
        ensures
            nodes_view(nodes@) == page_markup(self.is_open()),
    {
        let bar = nav_bar::nav_bar(&nav_bar::Props { menu_clicked: Some(Msg::ToggleSidebar) });
        if self.sidebar_open {
            nodes3(bar, side_bar::side_bar(&side_bar::Props {  }), main_region(true))
        } else {
            nodes2(bar, main_region(false))
        }
    }
}

} // verus!
