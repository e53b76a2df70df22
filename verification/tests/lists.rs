use ars_webclient::components::atoms::{
    flaw_display, personality_display, reputation_display, virtue_display,
};
use ars_webclient::components::molecules::{
    abilities_list, characteristics_list, page_view_select,
};
use ars_webclient::markup::{Attribute, AttributeName, IconId, Markup, Tag};

fn t(s: &str) -> Markup {
    Markup::Text(s.to_string())
}

fn el(tag: Tag, classes: &[&str], children: Vec<Markup>) -> Markup {
    Markup::Element {
        tag,
        classes: classes.iter().map(|c| c.to_string()).collect(),
        style_sheet: None,
        attributes: vec![],
        on_click: None,
        children,
    }
}

fn texts(node: &Markup) -> Vec<String> {
    match node {
        Markup::Text(s) => vec![s.clone()],
        Markup::Icon { .. } => vec![],
        Markup::Element { children, .. } => children.iter().flat_map(texts).collect(),
    }
}

fn strings(parts: &[&str]) -> Vec<String> {
    parts.iter().map(|p| p.to_string()).collect()
}

fn linked_row(label: &str) -> Markup {
    el(
        Tag::Tr,
        &[],
        vec![el(
            Tag::Td,
            &["flex"],
            vec![
                el(Tag::P, &["pad-left-small"], vec![t(label)]),
                Markup::Icon {
                    icon_id: IconId::HeroiconsMiniSolidLink,
                    classes: vec!["right size-x-small".to_string()],
                },
            ],
        )],
    )
}

#[test]
fn virtue_rows_follow_the_order_given() {
    let rows = virtue_display::table_data(&strings(&["Virtue 2", "Virtue 1", "Virtue 2"]));
    assert_eq!(
        rows,
        vec![linked_row("Virtue 2"), linked_row("Virtue 1"), linked_row("Virtue 2")]
    );
}

#[test]
fn virtue_display_whole_tree() {
    let out = virtue_display::virtue_display(&virtue_display::Props {
        virtues: strings(&["Virtue 1"]),
        class: Some("half-flex".to_string()),
    });
    assert_eq!(
        out,
        el(
            Tag::Div,
            &["half-flex"],
            vec![
                el(Tag::H5, &["underlined"], vec![t("Virtues")]),
                el(
                    Tag::Div,
                    &["virtue-flaw-container"],
                    vec![el(Tag::Table, &[], vec![linked_row("Virtue 1")])],
                ),
            ],
        )
    );
}

#[test]
fn virtue_display_without_virtues_has_an_empty_table() {
    let out = virtue_display::virtue_display(&virtue_display::Props {
        virtues: vec![],
        class: None,
    });
    assert_eq!(
        out,
        el(
            Tag::Div,
            &[],
            vec![
                el(Tag::H5, &["underlined"], vec![t("Virtues")]),
                el(Tag::Div, &["virtue-flaw-container"], vec![el(Tag::Table, &[], vec![])]),
            ],
        )
    );
}

#[test]
fn flaw_display_whole_tree() {
    let out = flaw_display::flaw_display(&flaw_display::Props {
        flaws: strings(&["Flaw 1", "Flaw 2", "Flaw 3"]),
        class: Some("half-flex".to_string()),
    });
    assert_eq!(
        out,
        el(
            Tag::Div,
            &["half-flex"],
            vec![
                el(Tag::H5, &["underlined"], vec![t("Flaws")]),
                el(
                    Tag::Div,
                    &["virtue-flaw-container"],
                    vec![el(
                        Tag::Table,
                        &[],
                        vec![linked_row("Flaw 1"), linked_row("Flaw 2"), linked_row("Flaw 3")],
                    )],
                ),
            ],
        )
    );
    assert_eq!(flaw_display::table_data(&vec![]), vec![]);
}

fn score_row(label_classes: &[&str], label: &str, score: &str) -> Markup {
    el(
        Tag::Tr,
        &[],
        vec![
            el(Tag::Td, &[], vec![el(Tag::P, label_classes, vec![t(label)])]),
            el(Tag::Td, &[], vec![el(Tag::P, &["text-center"], vec![t(score)])]),
        ],
    )
}

#[test]
fn personality_rows_pad_missing_scores_with_zero() {
    let rows = personality_display::table_data(
        &strings(&["Personality 1", "Personality 2", "Personality 3"]),
        &vec![1, -3],
    );
    assert_eq!(rows.len(), 3);
    assert_eq!(texts(&rows[0]), vec!["Personality 1", "+1"]);
    assert_eq!(texts(&rows[1]), vec!["Personality 2", "-3"]);
    assert_eq!(texts(&rows[2]), vec!["Personality 3", "0"]);
}

#[test]
fn personality_rows_whole_trees() {
    let rows = personality_display::table_data(&strings(&["Brave", "Loyal"]), &vec![0]);
    assert_eq!(rows, vec![score_row(&[], "Brave", "0"), score_row(&[], "Loyal", "0")]);
}

#[test]
fn personality_rows_ignore_scores_beyond_the_last_trait() {
    let rows = personality_display::table_data(&strings(&["Brave"]), &vec![3, 4, 5]);
    assert_eq!(rows, vec![score_row(&[], "Brave", "+3")]);
    assert_eq!(personality_display::table_data(&vec![], &vec![3, 4, 5]), vec![]);
}

#[test]
fn personality_display_whole_tree() {
    let out = personality_display::personality_display(&personality_display::Props {
        personality: strings(&["Personality 1", "Personality 2", "Personality 3"]),
        scores: vec![1, -3],
        class: Some("half-flex".to_string()),
    });
    assert_eq!(
        out,
        el(
            Tag::Div,
            &["half-flex"],
            vec![
                el(Tag::H5, &["underlined"], vec![t("Personality")]),
                el(
                    Tag::Div,
                    &["personality-reputation-container"],
                    vec![el(
                        Tag::Table,
                        &[],
                        vec![
                            score_row(&[], "Personality 1", "+1"),
                            score_row(&[], "Personality 2", "-3"),
                            score_row(&[], "Personality 3", "0"),
                        ],
                    )],
                ),
            ],
        )
    );
}

#[test]
fn reputation_display_whole_tree() {
    let out = reputation_display::reputation_display(&reputation_display::Props {
        reputations: strings(&["Reputation 1", "Reputation 2", "Reputation 3"]),
        scores: vec![2, -1],
        class: None,
    });
    assert_eq!(
        out,
        el(
            Tag::Div,
            &[],
            vec![
                el(Tag::H5, &[], vec![t("Reputation")]),
                el(
                    Tag::Div,
                    &["personality-reputation-container"],
                    vec![el(
                        Tag::Table,
                        &[],
                        vec![
                            score_row(&["pad-left-small"], "Reputation 1", "+2"),
                            score_row(&["pad-left-small"], "Reputation 2", "-1"),
                            score_row(&["pad-left-small"], "Reputation 3", "0"),
                        ],
                    )],
                ),
            ],
        )
    );
}

#[test]
fn reputation_rows_without_any_score() {
    let rows = reputation_display::table_data(&strings(&["Kind", "Stern"]), &vec![]);
    assert_eq!(
        rows,
        vec![
            score_row(&["pad-left-small"], "Kind", "0"),
            score_row(&["pad-left-small"], "Stern", "0"),
        ]
    );
}

fn number_cell(value: &str) -> Markup {
    el(Tag::Td, &[], vec![el(Tag::P, &["text-center"], vec![t(value)])])
}

fn characteristic_row(name: &str, score: &str, age: &str) -> Markup {
    el(
        Tag::Tr,
        &[],
        vec![
            el(Tag::Td, &[], vec![el(Tag::P, &["pad-left-small"], vec![t(name)])]),
            number_cell(score),
            number_cell(age),
        ],
    )
}

#[test]
fn characteristics_without_scores_and_ages_show_zero() {
    let names = [
        "Intelligence",
        "Perception",
        "Presence",
        "Communication",
        "Strength",
        "Stamina",
        "Dexterity",
        "Quickness",
    ];
    let rows = characteristics_list::table_data(&strings(&names), &vec![], &vec![]);
    assert_eq!(rows.len(), 8);
    for (row, name) in rows.iter().zip(names) {
        assert_eq!(*row, characteristic_row(name, "0", "0"));
    }
}

#[test]
fn characteristics_columns_run_out_one_by_one() {
    let rows = characteristics_list::table_data(
        &strings(&["Strength", "Stamina", "Dexterity"]),
        &vec![3, -2],
        &vec![1],
    );
    assert_eq!(
        rows,
        vec![
            characteristic_row("Strength", "+3", "1"),
            characteristic_row("Stamina", "-2", "0"),
            characteristic_row("Dexterity", "0", "0"),
        ]
    );
}

#[test]
fn characteristics_scores_carry_a_plus_sign_and_ages_do_not() {
    let rows = characteristics_list::table_data(&strings(&["Strength"]), &vec![5], &vec![7, 8]);
    assert_eq!(rows, vec![characteristic_row("Strength", "+5", "7")]);
}

#[test]
fn characteristics_scores_follow_the_sign_rule() {
    let rows = characteristics_list::table_data(
        &strings(&["Personality 1", "Personality 2", "Personality 3"]),
        &vec![1, -3],
        &vec![],
    );
    assert_eq!(
        rows,
        vec![
            characteristic_row("Personality 1", "+1", "0"),
            characteristic_row("Personality 2", "-3", "0"),
            characteristic_row("Personality 3", "0", "0"),
        ]
    );
}

#[test]
fn characteristics_ages_are_written_plainly() {
    let rows = characteristics_list::table_data(
        &strings(&["Strength", "Stamina"]),
        &vec![0, i32::MAX],
        &vec![30, -1],
    );
    assert_eq!(
        rows,
        vec![
            characteristic_row("Strength", "0", "30"),
            characteristic_row("Stamina", "+2147483647", "-1"),
        ]
    );
}

fn heading_th(caption: &str) -> Markup {
    el(Tag::Th, &[], vec![el(Tag::H6, &["text-center"], vec![t(caption)])])
}

#[test]
fn characteristics_list_whole_tree() {
    let out = characteristics_list::characteristics_list(&characteristics_list::Props {
        chars: strings(&["Strength"]),
        scores: vec![2],
        ages: vec![],
        class: Some("widget".to_string()),
    });
    assert_eq!(
        out,
        el(
            Tag::Div,
            &["characteristics-container"],
            vec![el(
                Tag::Table,
                &["widget", "color"],
                vec![
                    el(
                        Tag::Tr,
                        &[],
                        vec![
                            heading_th("Characteristic"),
                            heading_th("Score"),
                            heading_th("Age"),
                        ],
                    ),
                    characteristic_row("Strength", "+2", "0"),
                ],
            )],
        )
    );
}

#[test]
fn characteristics_list_without_class_has_its_own_class_only() {
    let out = characteristics_list::characteristics_list(&characteristics_list::Props {
        chars: vec![],
        scores: vec![],
        ages: vec![],
        class: None,
    });
    match &out {
        Markup::Element { children, .. } => match &children[0] {
            Markup::Element { classes, children, .. } => {
                assert_eq!(*classes, vec!["color".to_string()]);
                assert_eq!(children.len(), 1);
            }
            _ => panic!("no table"),
        },
        _ => panic!("no container"),
    }
}

fn ability_row(name: &str, specialty: Option<&str>, score: &str, exp: &str) -> Markup {
    el(
        Tag::Tr,
        &[],
        vec![
            el(Tag::Td, &[], vec![el(Tag::P, &["text-center"], vec![t(name)])]),
            match specialty {
                Some(s) => {
                    el(Tag::Td, &[], vec![el(Tag::P, &["text-center text-small"], vec![t(s)])])
                }
                None => el(Tag::Td, &[], vec![]),
            },
            number_cell(score),
            number_cell(exp),
        ],
    )
}

#[test]
fn abilities_rows_pad_every_short_column() {
    let mut names = vec!["Awareness"];
    names.extend(std::iter::repeat("").take(12));
    let rows = abilities_list::table_data(
        &strings(&names),
        &strings(&["Keeping Watch"]),
        &vec![2],
        &vec![21],
    );
    assert_eq!(rows.len(), 13);
    assert_eq!(rows[0], ability_row("Awareness", Some("Keeping Watch"), "+2", "21"));
    for row in &rows[1..] {
        assert_eq!(*row, ability_row("", None, "0", "0"));
    }
}

#[test]
fn abilities_columns_are_padded_independently() {
    let rows = abilities_list::table_data(
        &strings(&["Awareness", "Brawl", "Charm"]),
        &strings(&["Keeping Watch", "Fists", "Wit", "Unused"]),
        &vec![2],
        &vec![21, -4],
    );
    assert_eq!(
        rows,
        vec![
            ability_row("Awareness", Some("Keeping Watch"), "+2", "21"),
            ability_row("Brawl", Some("Fists"), "0", "-4"),
            ability_row("Charm", Some("Wit"), "0", "0"),
        ]
    );
}

#[test]
fn abilities_scores_follow_the_sign_rule_and_experience_is_plain() {
    let rows = abilities_list::table_data(
        &strings(&["Awareness", "Brawl", "Charm"]),
        &vec![],
        &vec![3, 0, -2],
        &vec![5, 0, -1],
    );
    assert_eq!(
        rows,
        vec![
            ability_row("Awareness", None, "+3", "5"),
            ability_row("Brawl", None, "0", "0"),
            ability_row("Charm", None, "-2", "-1"),
        ]
    );
}

fn heading_td(caption: &str) -> Markup {
    el(Tag::Td, &[], vec![el(Tag::H6, &["underlined text-center"], vec![t(caption)])])
}

#[test]
fn abilities_list_whole_tree() {
    let out = abilities_list::abilities_list(&abilities_list::Props {
        names: strings(&["Awareness"]),
        specialties: vec![],
        scores: vec![2],
        exps: vec![21],
        class: Some("widget".to_string()),
    });
    assert_eq!(
        out,
        el(
            Tag::Div,
            &["abilities-container"],
            vec![el(
                Tag::Table,
                &["widget", "color"],
                vec![
                    el(
                        Tag::Tr,
                        &[],
                        vec![Markup::Element {
                            tag: Tag::Th,
                            classes: vec![],
                            style_sheet: None,
                            attributes: vec![Attribute {
                                name: AttributeName::Colspan,
                                value: "4".to_string(),
                            }],
                            on_click: None,
                            children: vec![el(Tag::H5, &[], vec![t("Abilities")])],
                        }],
                    ),
                    el(
                        Tag::Tr,
                        &[],
                        vec![
                            heading_td("Name"),
                            heading_td("Specialty"),
                            heading_td("Score"),
                            heading_td("Exp"),
                        ],
                    ),
                    ability_row("Awareness", None, "+2", "21"),
                ],
            )],
        )
    );
}

fn view_icons() -> Vec<IconId> {
    vec![
        IconId::FontAwesomeSolidTimeline,
        IconId::FontAwesomeSolidBook,
        IconId::LucideBoxes,
        IconId::FontAwesomeSolidPlusMinus,
        IconId::FontAwesomeSolidBolt,
        IconId::FontAwesomeSolidFlaskVial,
        IconId::FontAwesomeSolidFeather,
        IconId::HeroiconsSolidMap,
        IconId::BootstrapJournalText,
    ]
}

fn view_buttons(selected: usize) -> Vec<Markup> {
    view_icons()
        .into_iter()
        .enumerate()
        .map(|(i, icon_id)| {
            el(
                Tag::Li,
                if i == selected { &["selected"] } else { &[] },
                vec![Markup::Icon { icon_id, classes: vec![] }],
            )
        })
        .collect()
}

#[test]
fn button_data_marks_the_selected_view() {
    for selected in 0..9 {
        assert_eq!(page_view_select::button_data(selected, false), view_buttons(selected));
    }
}

#[test]
fn button_data_marks_nothing_beyond_the_last_view() {
    assert_eq!(page_view_select::button_data(9, false), view_buttons(usize::MAX));
    assert_eq!(page_view_select::button_data(usize::MAX, true), view_buttons(usize::MAX));
}

#[test]
fn button_data_does_not_depend_on_magus_options() {
    assert_eq!(page_view_select::button_data(2, true), page_view_select::button_data(2, false));
}

#[test]
fn page_view_select_shows_the_first_view() {
    let out = page_view_select::page_view_select(&page_view_select::Props {
        magus_options: false,
    });
    assert_eq!(out, el(Tag::Div, &["view-select"], vec![el(Tag::Ul, &[], view_buttons(0))]));
}
