use ars_webclient::components::atoms::{
    age_display, ars_button, character_name, character_portrait, circle_border,
    decrepitude_display, soak_size_display, warp_display,
};
use ars_webclient::components::organisms::page_display::Msg;
use ars_webclient::markup::{Attribute, AttributeName, Markup, Tag};

fn t(s: &str) -> Markup {
    Markup::Text(s.to_string())
}

fn el(tag: Tag, classes: &[&str], children: Vec<Markup>) -> Markup {
    Markup::Element {
        tag,
        classes: classes.iter().map(|c| c.to_string()).collect(),
        style_sheet: None,
        attributes: vec![],
        on_click: None,
        children,
    }
}

fn texts(node: &Markup) -> Vec<String> {
    match node {
        Markup::Text(s) => vec![s.clone()],
        Markup::Icon { .. } => vec![],
        Markup::Element { children, .. } => children.iter().flat_map(texts).collect(),
    }
}

fn children(node: &Markup) -> &Vec<Markup> {
    match node {
        Markup::Element { children, .. } => children,
        _ => panic!("not an element"),
    }
}

fn classes(node: &Markup) -> Vec<String> {
    match node {
        Markup::Element { classes, .. } => classes.clone(),
        Markup::Icon { classes, .. } => classes.clone(),
        Markup::Text(_) => panic!("text has no classes"),
    }
}

fn age_row(caption: &str, age: &str) -> Markup {
    el(
        Tag::Tr,
        &[],
        vec![
            el(Tag::Td, &["no-border"], vec![el(Tag::P, &[], vec![t(caption)])]),
            el(
                Tag::Td,
                &["no-border pad-left-small"],
                vec![el(Tag::P, &["text-center"], vec![t(age)])],
            ),
        ],
    )
}

#[test]
fn age_display_renders_true_age_above_apparent_age() {
    let out = age_display::age_display(&age_display::Props {
        true_age: 25,
        apparent_age: 25,
        class: None,
    });
    let table = &children(&out)[0];
    let rows = children(table);
    assert_eq!(rows.len(), 2);
    assert_eq!(texts(&rows[0]).concat(), "True Age: 25");
    assert_eq!(texts(&rows[1]).concat(), "Apparent Age: 25");
}

#[test]
fn age_display_whole_tree() {
    let out = age_display::age_display(&age_display::Props {
        true_age: 31,
        apparent_age: 28,
        class: Some("half-flex".to_string()),
    });
    assert_eq!(
        out,
        el(
            Tag::Div,
            &["center half-flex"],
            vec![el(
                Tag::Table,
                &["center"],
                vec![age_row("True Age: ", "31"), age_row("Apparent Age: ", "28")],
            )],
        )
    );
}

#[test]
fn age_display_without_class_has_the_base_class_only() {
    let out = age_display::age_display(&age_display::Props {
        true_age: 0,
        apparent_age: 0,
        class: None,
    });
    assert_eq!(classes(&out), vec!["center ".to_string()]);
}

#[test]
fn button_shows_its_label_and_carries_the_message() {
    let out = ars_button::ars_button(&ars_button::Props {
        label: "Season Tracker".to_string(),
        onclick: Some(Msg::ToggleSidebar),
        class: Some("grid-c-1-3 grid-r-1".to_string()),
    });
    assert_eq!(
        out,
        Markup::Element {
            tag: Tag::Button,
            classes: vec!["grid-c-1-3 grid-r-1".to_string()],
            style_sheet: None,
            attributes: vec![],
            on_click: Some(Msg::ToggleSidebar),
            children: vec![t("Season Tracker")],
        }
    );
}

#[test]
fn button_without_handler_and_class() {
    let out = ars_button::ars_button(&ars_button::Props {
        label: "+".to_string(),
        onclick: None,
        class: None,
    });
    assert_eq!(out, el(Tag::Button, &[], vec![t("+")]));
}

#[test]
fn character_name_is_a_coloured_heading() {
    let out = character_name::character_name(&character_name::Props {
        name: "Magus Name".to_string(),
    });
    assert_eq!(
        out,
        el(
            Tag::Span,
            &[],
            vec![el(Tag::Div, &[], vec![el(Tag::H2, &["text-colored"], vec![t("Magus Name")])])],
        )
    );
}

#[test]
fn character_portrait_is_one_picture() {
    let out = character_portrait::character_portrait(&character_portrait::Props {});
    assert_eq!(
        out,
        Markup::Element {
            tag: Tag::Img,
            classes: vec!["portrait prevent-select".to_string()],
            style_sheet: None,
            attributes: vec![
                Attribute { name: AttributeName::Width, value: "128px".to_string() },
                Attribute {
                    name: AttributeName::Src,
                    value: "https://jlkump.github.io/images/personal-art/Digital-magic-aura.png"
                        .to_string(),
                },
            ],
            on_click: None,
            children: vec![],
        }
    );
}

#[test]
fn circle_style_sheet_doubles_the_radius() {
    let expected = format!(
        r#"
            margin: 5px;
            width: {0}px;
            height: {0}px;
            border: {1}px outset #5C4540;
            -webkit-border-radius: 50%;
            -moz-border-radius: 50%;
            border-radius: 50%;
            /* background-image: radial-gradient(#E8DDCE, #CCB193); */
            background: #CCB193;
        "#,
        24, 3
    );
    assert_eq!(circle_border::circle_style_sheet(12, 3), expected);
}

#[test]
fn circle_style_sheet_of_the_largest_radius() {
    let css = circle_border::circle_style_sheet(i32::MAX, i32::MIN);
    assert!(css.contains("width: 4294967294px;"));
    assert!(css.contains("height: 4294967294px;"));
    assert!(css.contains("border: -2147483648px outset"));
    let css = circle_border::circle_style_sheet(i32::MIN, 0);
    assert!(css.contains("width: -4294967296px;"));
}

#[test]
fn circle_border_is_an_empty_element_with_its_style_sheet() {
    let out = circle_border::circle_border(&circle_border::Props {
        radius: 5,
        border: 1,
        class: None,
    });
    assert_eq!(
        out,
        el(
            Tag::Span,
            &[],
            vec![Markup::Element {
                tag: Tag::Div,
                classes: vec![],
                style_sheet: Some(circle_border::circle_style_sheet(5, 1)),
                attributes: vec![],
                on_click: None,
                children: vec![],
            }],
        )
    );
}

fn plain_row(row_classes: &[&str], caption: &str, value: &str) -> Markup {
    el(
        Tag::Tr,
        row_classes,
        vec![
            el(Tag::Td, &["no-border"], vec![el(Tag::P, &[], vec![t(caption)])]),
            el(Tag::Td, &["no-border"], vec![el(Tag::P, &[], vec![t(value)])]),
        ],
    )
}

#[test]
fn decrepitude_display_whole_tree() {
    let out = decrepitude_display::decrepitude_display(&decrepitude_display::Props {
        score: 1,
        points: 5,
        class: Some("half-flex".to_string()),
    });
    assert_eq!(
        out,
        el(
            Tag::Div,
            &["center half-flex"],
            vec![
                el(Tag::H5, &["underlined"], vec![t("Decrepitude")]),
                el(
                    Tag::Table,
                    &[],
                    vec![plain_row(&[], "Score: ", "1"), plain_row(&[], "Points: ", "5")],
                ),
            ],
        )
    );
}

#[test]
fn decrepitude_shows_numbers_without_a_plus_sign() {
    let out = decrepitude_display::decrepitude_display(&decrepitude_display::Props {
        score: 3,
        points: -2,
        class: None,
    });
    assert_eq!(texts(&out), vec!["Decrepitude", "Score: ", "3", "Points: ", "-2"]);
}

fn measure_row(caption: &str, value: &str) -> Markup {
    el(
        Tag::Tr,
        &[],
        vec![
            el(Tag::Td, &[], vec![el(Tag::P, &[], vec![t(caption)])]),
            el(Tag::Td, &[], vec![el(Tag::P, &[], vec![t(value)])]),
        ],
    )
}

#[test]
fn soak_size_display_signs_size_and_soak_only() {
    let out = soak_size_display::soak_size_display(&soak_size_display::Props {
        soak: 1,
        size: 1,
        encumbrance: 1,
        class: Some("half-flex".to_string()),
    });
    assert_eq!(
        out,
        el(
            Tag::Table,
            &["half-flex"],
            vec![
                measure_row("Size: ", "+1"),
                measure_row("Soak: ", "+1"),
                measure_row("Encumbrance: ", "1"),
            ],
        )
    );
}

#[test]
fn soak_size_display_of_zero_and_negative_values() {
    let out = soak_size_display::soak_size_display(&soak_size_display::Props {
        soak: 0,
        size: -2,
        encumbrance: -3,
        class: None,
    });
    assert_eq!(
        out,
        el(
            Tag::Table,
            &[],
            vec![
                measure_row("Size: ", "-2"),
                measure_row("Soak: ", "0"),
                measure_row("Encumbrance: ", "-3"),
            ],
        )
    );
}

fn warp(intensity: warp_display::WarpIntensity, class: Option<&str>) -> Markup {
    warp_display::warp_display(&warp_display::Props {
        score: 1,
        points: 5,
        class: class.map(|c| c.to_string()),
        warp_intensity: intensity,
    })
}

fn bubbles(out: &Markup) -> usize {
    let table = &children(out)[0];
    children(table)
        .iter()
        .filter(|n| **n == el(Tag::Span, &["warp-bubble"], vec![]))
        .count()
}

#[test]
fn warp_display_without_bubbles() {
    let out = warp(warp_display::WarpIntensity::Absent, Some("half-flex"));
    assert_eq!(
        out,
        el(
            Tag::Div,
            &["half-flex"],
            vec![el(
                Tag::Table,
                &["center position-relative warp"],
                vec![
                    el(Tag::H3, &["z-ind-2"], vec![t("Warping")]),
                    plain_row(&["z-ind-2"], "Score: ", "1"),
                    plain_row(&["z-ind-2"], "Points: ", "5"),
                ],
            )],
        )
    );
}

#[test]
fn warp_display_shows_one_bubble_more_for_each_tier() {
    assert_eq!(bubbles(&warp(warp_display::WarpIntensity::Absent, None)), 0);
    assert_eq!(bubbles(&warp(warp_display::WarpIntensity::Weak, None)), 1);
    assert_eq!(bubbles(&warp(warp_display::WarpIntensity::Strong, None)), 2);
    assert_eq!(bubbles(&warp(warp_display::WarpIntensity::Intense, None)), 3);
}

#[test]
fn warp_display_puts_the_bubbles_behind_the_rows() {
    let out = warp(warp_display::WarpIntensity::Intense, None);
    let table = &children(&out)[0];
    let rows = children(table);
    assert_eq!(rows.len(), 6);
    for bubble in &rows[3..] {
        assert_eq!(*bubble, el(Tag::Span, &["warp-bubble"], vec![]));
    }
    assert_eq!(classes(&out), vec!["".to_string()]);
}
