//! The markup tree that the components produce.
//!
//! A tree is plain data. Its view is the same tree over mathematical
//! sequences, and every component states its result as such a view.

use crate::components::organisms::page_display::Msg;
use vstd::prelude::*;

verus! {

/// The elements that the components use.
#[derive(Clone, Copy, Debug, PartialEq, Eq)]
pub enum Tag {
    A,
    Br,
    Button,
    Div,
    H1,
    H2,
    H3,
    H5,
    H6,
    Hr,
    Img,
    Li,
    P,
    Span,
    Table,
    Td,
    Th,
    Tr,
    Ul,
}

/// The icons that the components show.
#[derive(Clone, Copy, Debug, PartialEq, Eq)]
pub enum IconId {
    BootstrapFileEarmarkImageFill,
    BootstrapFileTextFill,
    BootstrapGearFill,
    BootstrapGithub,
    BootstrapJournalText,
    BootstrapTagsFill,
    FontAwesomeSolidBolt,
    FontAwesomeSolidBook,
    FontAwesomeSolidEye,
    FontAwesomeSolidEyeLowVision,
    FontAwesomeSolidFeather,
    FontAwesomeSolidFlaskVial,
    FontAwesomeSolidHammer,
    FontAwesomeSolidHatWizard,
    FontAwesomeSolidPencil,
    FontAwesomeSolidPlusMinus,
    FontAwesomeSolidSignsPost,
    FontAwesomeSolidTag,
    FontAwesomeSolidTimeline,
    HeroiconsMiniSolidLink,
    HeroiconsSolidMap,
    HeroiconsSolidSparkles,
    LucideBoxes,
    LucideCoins,
    LucideDownload,
    LucideMenu,
    LucideUpload,
    OcticonsX16,
}

/// The attributes that the components set, other than classes.
#[derive(Clone, Copy, Debug, PartialEq, Eq)]
pub enum AttributeName {
    Colspan,
    Src,
    Style,
    Width,
}

/// One attribute of an element, other than its classes.
#[derive(Debug, PartialEq, Eq)]
pub struct Attribute {
    pub name: AttributeName,
    pub value: String,
}

/// An [`Attribute`] whose value is a mathematical text.
pub struct AttributeView {
    pub name: AttributeName,
    pub value: Seq<char>,
}

impl View for Attribute {
    type V = AttributeView;

    open spec fn view(&self) -> AttributeView {
        AttributeView { name: self.name, value: self.value@ }
    }
}

/// How an element is written.
pub open spec fn tag_name(tag: Tag) -> Seq<char> {
    match tag {
        Tag::A => "a"@,
        Tag::Br => "br"@,
        Tag::Button => "button"@,
        Tag::Div => "div"@,
        Tag::H1 => "h1"@,
        Tag::H2 => "h2"@,
        Tag::H3 => "h3"@,
        Tag::H5 => "h5"@,
        Tag::H6 => "h6"@,
        Tag::Hr => "hr"@,
        Tag::Img => "img"@,
        Tag::Li => "li"@,
        Tag::P => "p"@,
        Tag::Span => "span"@,
        Tag::Table => "table"@,
        Tag::Td => "td"@,
        Tag::Th => "th"@,
        Tag::Tr => "tr"@,
        Tag::Ul => "ul"@,
    }
}

/// How an attribute is written.
pub open spec fn attribute_name(name: AttributeName) -> Seq<char> {
    match name {
        AttributeName::Colspan => "colspan"@,
        AttributeName::Src => "src"@,
        AttributeName::Style => "style"@,
        AttributeName::Width => "width"@,
    }
}

impl Tag {
    /// How the element is written.
    pub fn name(&self) -> (name: &'static str)
        ensures
            name@ == tag_name(*self),
    {
        match self {
            Tag::A => "a",
            Tag::Br => "br",
            Tag::Button => "button",
            Tag::Div => "div",
            Tag::H1 => "h1",
            Tag::H2 => "h2",
            Tag::H3 => "h3",
            Tag::H5 => "h5",
            Tag::H6 => "h6",
            Tag::Hr => "hr",
            Tag::Img => "img",
            Tag::Li => "li",
            Tag::P => "p",
            Tag::Span => "span",
            Tag::Table => "table",
            Tag::Td => "td",
            Tag::Th => "th",
            Tag::Tr => "tr",
            Tag::Ul => "ul",
        }
    }
}

impl AttributeName {
    /// How the attribute is written.
    pub fn name(&self) -> (name: &'static str)
        ensures
            name@ == attribute_name(*self),
    {
        match self {
            AttributeName::Colspan => "colspan",
            AttributeName::Src => "src",
            AttributeName::Style => "style",
            AttributeName::Width => "width",
        }
    }
}

/// A node of the markup tree.
#[derive(Debug, PartialEq, Eq)]
pub enum Markup {
    /// A run of text.
    Text(String),
    /// An icon, with the class strings given to it.
    Icon { icon_id: IconId, classes: Vec<String> },
    /// An element.
    ///
    /// `classes` holds the class strings in the order in which they were
    /// given; one string may carry several tokens. `style_sheet` is a style
    /// sheet scoped to this element: the engine that draws the tree
    /// registers it and adds the class it stands for. `on_click` is the
    /// message that a click on the element sends; without one a click does
    /// nothing.
    Element {
        tag: Tag,
        classes: Vec<String>,
        style_sheet: Option<String>,
        attributes: Vec<Attribute>,
        on_click: Option<Msg>,
        children: Vec<Markup>,
    },
}

/// A [`Markup`] tree over mathematical sequences.
pub enum MarkupView {
    Text(Seq<char>),
    Icon { icon_id: IconId, classes: Seq<Seq<char>> },
    Element {
        tag: Tag,
        classes: Seq<Seq<char>>,
        style_sheet: Option<Seq<char>>,
        attributes: Seq<AttributeView>,
        on_click: Option<Msg>,
        children: Seq<MarkupView>,
    },
}

/// The views of a sequence of attributes, in order.
pub open spec fn attributes_view(attributes: Seq<Attribute>) -> Seq<AttributeView> {
    attributes.map_values(|a: Attribute| a@)
}

/// The view of one tree.
pub open spec fn markup_view(m: Markup) -> MarkupView
    decreases m,
{
    match m {
        Markup::Text(s) => MarkupView::Text(s@),
        Markup::Icon { icon_id, classes } => MarkupView::Icon {
            icon_id,
            classes: classes.deep_view(),
        },
        Markup::Element { tag, classes, style_sheet, attributes, on_click, children } => {
            MarkupView::Element {
                tag,
                classes: classes.deep_view(),
                style_sheet: style_sheet.deep_view(),
                attributes: attributes_view(attributes@),
                on_click,
                children: Seq::new(
                    children@.len(),
                    |i: int|
                        if 0 <= i < children@.len() {
                            markup_view(children@[i])
                        } else {
                            MarkupView::Text(Seq::empty())
                        },
                ),
            }
        },
    }
}

impl View for Markup {
    type V = MarkupView;

    open spec fn view(&self) -> MarkupView {
        markup_view(*self)
    }
}

/// The views of a sequence of trees, in order.
pub open spec fn nodes_view(nodes: Seq<Markup>) -> Seq<MarkupView> {
    Seq::new(nodes.len(), |i: int| nodes[i]@)
}

/// A run of text.
pub open spec fn text(s: Seq<char>) -> MarkupView {
    MarkupView::Text(s)
}

/// An icon with its class strings.
pub open spec fn icon(icon_id: IconId, classes: Seq<Seq<char>>) -> MarkupView {
    MarkupView::Icon { icon_id, classes }
}

/// An element that has classes and children and nothing else.
pub open spec fn element(
    tag: Tag,
    classes: Seq<Seq<char>>,
    children: Seq<MarkupView>,
) -> MarkupView {
    MarkupView::Element {
        tag,
        classes,
        style_sheet: None,
        attributes: Seq::empty(),
        on_click: None,
        children,
    }
}

/// The class strings of an element whose only class is an optional one:
/// the given string, or none.
pub open spec fn optional_class(given: Option<Seq<char>>) -> Seq<Seq<char>> {
    match given {
        Some(c) => seq![c],
        None => Seq::empty(),
    }
}

/// The one class string of an element that puts the caller's class
/// strings behind its own: `base` followed by what was given, or `base`
/// alone.
pub open spec fn appended_class(base: Seq<char>, given: Option<Seq<char>>) -> Seq<char> {
    match given {
        Some(c) => base + c,
        None => base,
    }
}

/// No class strings.
pub fn no_class() -> (classes: Vec<String>)
    ensures
        classes.deep_view() == Seq::<Seq<char>>::empty(),
{
    let classes: Vec<String> = Vec::new();
    assert(classes.deep_view() =~= Seq::<Seq<char>>::empty());
    classes
}

/// One class string.
pub fn class(name: &str) -> (classes: Vec<String>)
    ensures
        classes.deep_view() == seq![name@],
{
    let mut classes: Vec<String> = Vec::new();
    classes.push(name.to_owned());
    assert(classes.deep_view() =~= seq![name@]);
    classes
}

/// The class strings of an element whose only class is an optional one.
pub fn class_of(given: &Option<String>) -> (classes: Vec<String>)
    ensures
        classes.deep_view() == optional_class(given.deep_view()),
{
    match given {
        Some(c) => {
            let mut classes: Vec<String> = Vec::new();
            classes.push(c.clone());
            assert(classes.deep_view() =~= seq![c@]);
            classes
        },
        None => no_class(),
    }
}

/// The class string `base` with the caller's class strings behind it.
pub fn class_with(base: &str, given: &Option<String>) -> (classes: Vec<String>)
    ensures
        classes.deep_view() == seq![appended_class(base@, given.deep_view())],
{
    let mut joined = base.to_owned();
    match given {
        Some(c) => {
            joined.append(c.as_str());
        },
        None => {},
    }
    let mut classes: Vec<String> = Vec::new();
    classes.push(joined);
    assert(classes.deep_view() =~= seq![appended_class(base@, given.deep_view())]);
    classes
}

/// No attributes.
pub fn no_attributes() -> (attributes: Vec<Attribute>)
    ensures
        attributes_view(attributes@) == Seq::<AttributeView>::empty(),
{
    let attributes: Vec<Attribute> = Vec::new();
    assert(attributes_view(attributes@) =~= Seq::<AttributeView>::empty());
    attributes
}

/// One attribute.
pub fn attributes1(name: AttributeName, value: &str) -> (attributes: Vec<Attribute>)
    ensures
        attributes_view(attributes@) == seq![AttributeView { name, value: value@ }],
{
    let attributes = vec![Attribute { name, value: value.to_owned() }];
    assert(attributes_view(attributes@) =~= seq![AttributeView { name, value: value@ }]);
    attributes
}

/// Two attributes, in the order given.
pub fn attributes2(
    name0: AttributeName,
    value0: &str,
    name1: AttributeName,
    value1: &str,
) -> (attributes: Vec<Attribute>)
    ensures
        attributes_view(attributes@) == seq![
            AttributeView { name: name0, value: value0@ },
            AttributeView { name: name1, value: value1@ },
        ],
{
    let attributes = vec![
        Attribute { name: name0, value: value0.to_owned() },
        Attribute { name: name1, value: value1.to_owned() },
    ];
    assert(attributes_view(attributes@) =~= seq![
        AttributeView { name: name0, value: value0@ },
        AttributeView { name: name1, value: value1@ },
    ]);
    attributes
}

/// No nodes.
pub fn nodes0() -> (nodes: Vec<Markup>)
    ensures
        nodes_view(nodes@) == Seq::<MarkupView>::empty(),
{
    let nodes: Vec<Markup> = Vec::new();
    assert(nodes_view(nodes@) =~= Seq::<MarkupView>::empty());
    nodes
}

/// One node.
pub fn nodes1(a: Markup) -> (nodes: Vec<Markup>)
    ensures
        nodes_view(nodes@) == seq![a@],
{
    let nodes = vec![a];
    assert(nodes_view(nodes@) =~= seq![a@]);
    nodes
}

/// Two nodes, in the order given.
pub fn nodes2(a: Markup, b: Markup) -> (nodes: Vec<Markup>)
    ensures
        nodes_view(nodes@) == seq![a@, b@],
{
    let nodes = vec![a, b];
    assert(nodes_view(nodes@) =~= seq![a@, b@]);
    nodes
}

/// Three nodes, in the order given.
pub fn nodes3(a: Markup, b: Markup, c: Markup) -> (nodes: Vec<Markup>)
    ensures
        nodes_view(nodes@) == seq![a@, b@, c@],
{
    let nodes = vec![a, b, c];
    assert(nodes_view(nodes@) =~= seq![a@, b@, c@]);
    nodes
}

/// Four nodes, in the order given.
pub fn nodes4(a: Markup, b: Markup, c: Markup, d: Markup) -> (nodes: Vec<Markup>)
    ensures
        nodes_view(nodes@) == seq![a@, b@, c@, d@],
{
    let nodes = vec![a, b, c, d];
    assert(nodes_view(nodes@) =~= seq![a@, b@, c@, d@]);
    nodes
}

/// Puts one more node behind the others.
pub fn push_node(nodes: &mut Vec<Markup>, node: Markup)
    ensures
        nodes_view(final(nodes)@) == nodes_view(old(nodes)@).push(node@),
{
    nodes.push(node);
    assert(nodes_view(nodes@) =~= nodes_view(old(nodes)@).push(node@));
}

/// Puts a run of nodes behind the others, in order.
pub fn append_nodes(nodes: &mut Vec<Markup>, more: Vec<Markup>)
    ensures
        nodes_view(final(nodes)@) == nodes_view(old(nodes)@) + nodes_view(more@),
{
    let ghost given = more@;
    let mut more = more;
    nodes.append(&mut more);
    assert(nodes_view(nodes@) =~= nodes_view(old(nodes)@) + nodes_view(given));
}

impl Markup {
    /// A run of text.
    pub fn text(s: &str) -> (m: Markup)
        ensures
            m@ == text(s@),
    {
        Markup::Text(s.to_owned())
    }

    /// An icon with its class strings.
    pub fn icon(icon_id: IconId, classes: Vec<String>) -> (m: Markup)
        ensures
            m@ == icon(icon_id, classes.deep_view()),
    {
        Markup::Icon { icon_id, classes }
    }

    /// An element with every part given.
    pub fn element_with(
        tag: Tag,
        classes: Vec<String>,
        style_sheet: Option<String>,
        attributes: Vec<Attribute>,
        on_click: Option<Msg>,
        children: Vec<Markup>,
    ) -> (m: Markup)
        ensures
            m@ == (MarkupView::Element {
                tag,
                classes: classes.deep_view(),
                style_sheet: style_sheet.deep_view(),
                attributes: attributes_view(attributes@),
                on_click,
                children: nodes_view(children@),
            }),
    {
        let m = Markup::Element { tag, classes, style_sheet, attributes, on_click, children };
        assert(m@->Element_children =~= nodes_view(children@));
        m
    }

    /// An element that has classes and children and nothing else.
    pub fn element(tag: Tag, classes: Vec<String>, children: Vec<Markup>) -> (m: Markup)
        ensures
            m@ == element(tag, classes.deep_view(), nodes_view(children@)),
    {
        Markup::element_with(tag, classes, None, no_attributes(), None, children)
    }
}

} // verus!
