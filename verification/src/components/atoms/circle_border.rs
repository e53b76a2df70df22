//! A round frame of a given radius and border width.
//!
//! The frame is an empty element whose whole look is a style sheet of its
//! own, made from the two measures.

use crate::markup::{
    AttributeView, element, Markup, MarkupView, no_attributes, no_class, nodes0, nodes1, Tag,
};
use crate::text::{decimal, decimal_string};
use vstd::prelude::*;

verus! {

/// The measures of the frame, in pixels.
#[derive(Clone, Debug, PartialEq, Eq)]
pub struct Props {
    pub radius: i32,
    pub border: i32,
    pub class: Option<String>,
}

/// [`Props`] over mathematical values.
pub struct PropsView {
    pub radius: int,
    pub border: int,
    pub class: Option<Seq<char>>,
}

impl View for Props {
    type V = PropsView;

    open spec fn view(&self) -> PropsView {
        PropsView {
            radius: self.radius as int,
            border: self.border as int,
            class: self.class.deep_view(),
        }
    }
}

/// The style sheet of the frame: width and height are twice the radius,
/// the border is as wide as given, and the rest is fixed.
pub open spec fn circle_style(radius: int, border: int) -> Seq<char> {
    "\n            margin: 5px;\n            width: "@ + decimal(2 * radius)
        + "px;\n            height: "@ + decimal(2 * radius) + "px;\n            border: "@
        + decimal(border)
        + "px outset #5C4540;\n            -webkit-border-radius: 50%;\n            -moz-border-radius: 50%;\n            border-radius: 50%;\n            /* background-image: radial-gradient(#E8DDCE, #CCB193); */\n            background: #CCB193;\n        "@
}

/// The frame: an empty element that carries the style sheet.
pub open spec fn circle_markup(props: PropsView) -> MarkupView {
    element(
        Tag::Span,
        Seq::empty(),
        seq![
            MarkupView::Element {
                tag: Tag::Div,
                classes: Seq::empty(),
                style_sheet: Some(circle_style(props.radius, props.border)),
                attributes: Seq::<AttributeView>::empty(),
                on_click: None,
                children: Seq::empty(),
            },
        ],
    )
}

/// Writes the style sheet of a frame.
pub fn circle_style_sheet(radius: i32, border: i32) -> (css: String)
    ensures
        css@ == circle_style(radius as int, border as int),
{
    let diameter = decimal_string(2 * (radius as i128));
    let border_width = decimal_string(border as i128);
    let mut css = String::from_str("\n            margin: 5px;\n            width: ");
    css.append(diameter.as_str());
    css.append("px;\n            height: ");
    css.append(diameter.as_str());
    css.append("px;\n            border: ");
    css.append(border_width.as_str());
    css.append(
        "px outset #5C4540;\n            -webkit-border-radius: 50%;\n            -moz-border-radius: 50%;\n            border-radius: 50%;\n            /* background-image: radial-gradient(#E8DDCE, #CCB193); */\n            background: #CCB193;\n        ",
    );
    css
}

/// Renders the frame.
pub fn circle_border(props: &Props) -> (out: Markup)
    ensures
        out@ == circle_markup(props@),
{
    let frame = Markup::element_with(
        Tag::Div,
        no_class(),
        Some(circle_style_sheet(props.radius, props.border)),
        no_attributes(),
        None,
        nodes0(),
    );
    Markup::element(Tag::Span, no_class(), nodes1(frame))
}

} // verus!
