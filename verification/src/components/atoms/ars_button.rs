//! A button with a caption.

use crate::components::organisms::page_display::Msg;
use crate::markup::{
    AttributeView, class_of, Markup, MarkupView, no_attributes, nodes1, optional_class, Tag, text,
};
use vstd::prelude::*;

verus! {

/// What the button shows and does.
#[derive(Clone, Debug, PartialEq, Eq)]
pub struct Props {
    pub label: String,
    /// The message that a click sends. Without one a click does nothing.
    pub onclick: Option<Msg>,
    pub class: Option<String>,
}

/// [`Props`] over mathematical values.
pub struct PropsView {
    pub label: Seq<char>,
    pub onclick: Option<Msg>,
    pub class: Option<Seq<char>>,
}

impl View for Props {
    type V = PropsView;

    open spec fn view(&self) -> PropsView {
        PropsView { label: self.label@, onclick: self.onclick, class: self.class.deep_view() }
    }
}

impl Props {
    /// A button with a caption, without a message and without a class.
    pub fn new(label: String) -> (props: Props)
        ensures
            props@ == (PropsView { label: label@, onclick: None, class: None }),
    {
        Props { label, onclick: None, class: None }
    }
}

/// The button: its caption as text, the caller's class if one was given,
/// and the caller's message on a click if one was given.
pub open spec fn button_markup(props: PropsView) -> MarkupView {
    MarkupView::Element {
        tag: Tag::Button,
        classes: optional_class(props.class),
        style_sheet: None,
        attributes: Seq::<AttributeView>::empty(),
        on_click: props.onclick,
        children: seq![text(props.label)],
    }
}

/// Renders the button.
pub fn ars_button(props: &Props) -> (out: Markup)
    ensures
        out@ == button_markup(props@),
{
    Markup::element_with(
        Tag::Button,
        class_of(&props.class),
        None,
        no_attributes(),
        props.onclick,
        nodes1(Markup::text(props.label.as_str())),
    )
}

} // verus!
