use ars_webclient::components::atoms::wound_display;
use ars_webclient::markup::{IconId, Markup, Tag};

fn t(s: &str) -> Markup {
    Markup::Text(s.to_string())
}

fn el(tag: Tag, classes: &[&str], children: Vec<Markup>) -> Markup {
    Markup::Element {
        tag,
        classes: classes.iter().map(|c| c.to_string()).collect(),
        style_sheet: None,
        attributes: vec![],
        on_click: None,
        children,
    }
}

fn texts(node: &Markup) -> Vec<String> {
    match node {
        Markup::Text(s) => vec![s.clone()],
        Markup::Icon { .. } => vec![],
        Markup::Element { children, .. } => children.iter().flat_map(texts).collect(),
    }
}

fn strings(parts: &[&str]) -> Vec<String> {
    parts.iter().map(|p| p.to_string()).collect()
}

fn props(names: &[&str], wounds: &[i32], penalties: &[i32], edit_buttons: bool) -> wound_display::Props {
    wound_display::Props {
        wound_names: strings(names),
        wounds: wounds.to_vec(),
        wound_penalties: penalties.to_vec(),
        edit_buttons,
        class: None,
    }
}

fn centered(content: &str) -> Markup {
    el(Tag::Td, &[], vec![el(Tag::P, &["text-center"], vec![t(content)])])
}

fn name_cell(name: &str) -> Markup {
    el(Tag::Td, &[], vec![el(Tag::P, &[], vec![t(name)])])
}

fn total_row(count: &str, penalty: &str) -> Markup {
    el(
        Tag::Tr,
        &[],
        vec![
            el(Tag::Td, &[], vec![el(Tag::P, &["text-bold"], vec![t("Cummulative Total")])]),
            el(Tag::Td, &[], vec![el(Tag::P, &["text-center text-bold"], vec![t(count)])]),
            el(Tag::Td, &[], vec![el(Tag::P, &["text-center text-bold"], vec![t(penalty)])]),
        ],
    )
}

fn step_button(label: &str) -> Markup {
    el(Tag::Button, &["thirds-flex plus-minus-button"], vec![t(label)])
}

#[test]
fn wound_totals_of_the_sample_character() {
    assert_eq!(wound_display::wound_totals(4, &vec![0, 1, 1, 0], &vec![-1, -3, -5]), (2, -8));
}

#[test]
fn wound_table_of_the_sample_character() {
    let p = props(
        &["Light", "Medium", "Heavy", "Incapacitating"],
        &[0, 1, 1, 0],
        &[-1, -3, -5],
        false,
    );
    let rows = wound_display::table_data(&p, false);
    assert_eq!(
        rows,
        vec![
            el(Tag::Tr, &[], vec![name_cell("Light"), centered("0"), centered("-1")]),
            el(Tag::Tr, &[], vec![name_cell("Medium"), centered("1"), centered("-3")]),
            el(Tag::Tr, &[], vec![name_cell("Heavy"), centered("1"), centered("-5")]),
            el(Tag::Tr, &[], vec![name_cell("Incapacitating"), centered("0"), centered("N/A")]),
            total_row("2", "-8"),
        ]
    );
}

#[test]
fn wound_without_penalty_shows_not_applicable() {
    let p = props(
        &["Light", "Medium", "Heavy", "Incapacitating"],
        &[0, 1, 1, 0],
        &[-1, -3, -5],
        false,
    );
    let rows = wound_display::table_data(&p, false);
    assert_eq!(texts(&rows[3]), vec!["Incapacitating", "0", "N/A"]);
    assert_eq!(texts(&rows[4]), vec!["Cummulative Total", "2", "-8"]);
}

#[test]
fn counts_without_penalty_add_to_the_count_total_only() {
    assert_eq!(wound_display::wound_totals(4, &vec![2, 3, 4, 5], &vec![-1, -3]), (14, -11));
    assert_eq!(wound_display::wound_totals(3, &vec![2, 3, 4], &vec![]), (9, 0));
}

#[test]
fn totals_cover_the_named_rows_only() {
    assert_eq!(wound_display::wound_totals(2, &vec![2, 3, 4, 5], &vec![-1, -3, -5, -7]), (5, -11));
    assert_eq!(wound_display::wound_totals(0, &vec![2, 3], &vec![-1, -3]), (0, 0));
}

#[test]
fn missing_counts_are_none() {
    assert_eq!(wound_display::wound_totals(3, &vec![2], &vec![-1, -3, -5]), (2, -2));
    assert_eq!(wound_display::wound_totals(3, &vec![], &vec![-1, -3, -5]), (0, 0));
}

#[test]
fn totals_do_not_wrap_around() {
    let big = vec![i32::MAX, i32::MAX, i32::MAX];
    let (count, penalty) = wound_display::wound_totals(3, &big, &big);
    assert_eq!(count, 3 * (i32::MAX as i128));
    assert_eq!(penalty, 3 * (i32::MAX as i128) * (i32::MAX as i128));
    let small = vec![i32::MIN, i32::MIN];
    let (count, penalty) = wound_display::wound_totals(2, &small, &vec![i32::MAX, i32::MIN]);
    assert_eq!(count, 2 * (i32::MIN as i128));
    assert_eq!(
        penalty,
        (i32::MIN as i128) * (i32::MAX as i128) + (i32::MIN as i128) * (i32::MIN as i128)
    );
}

#[test]
fn wound_table_shows_totals_beyond_thirty_two_bits() {
    let p = props(&["Light", "Heavy"], &[i32::MAX, i32::MAX], &[i32::MAX, i32::MAX], false);
    let rows = wound_display::table_data(&p, false);
    assert_eq!(*rows.last().unwrap(), total_row("4294967294", "9223372028264841218"));
}

#[test]
fn wound_table_without_names_is_the_total_row() {
    let p = props(&[], &[1, 2], &[-1, -3], false);
    assert_eq!(wound_display::table_data(&p, false), vec![total_row("0", "0")]);
}

#[test]
fn wound_table_has_one_row_for_each_name_and_one_for_the_totals() {
    for n in 0..6 {
        let names: Vec<String> = (0..n).map(|i| format!("Wound {}", i)).collect();
        let p = wound_display::Props {
            wound_names: names,
            wounds: vec![1, 1],
            wound_penalties: vec![-1],
            edit_buttons: false,
            class: None,
        };
        assert_eq!(wound_display::table_data(&p, false).len(), n + 1);
    }
}

#[test]
fn wound_cell_without_buttons() {
    assert_eq!(wound_display::wound_cell(false, &3), centered("3"));
    assert_eq!(wound_display::wound_cell(false, &-3), centered("-3"));
}

#[test]
fn wound_cell_with_buttons() {
    assert_eq!(
        wound_display::wound_cell(true, &2),
        el(
            Tag::Td,
            &["flex"],
            vec![
                step_button("-"),
                el(Tag::P, &["text-center thirds-flex vert-center"], vec![t("2")]),
                step_button("+"),
            ],
        )
    );
}

#[test]
fn edit_buttons_stand_only_in_rows_with_a_penalty() {
    let p = props(&["Light", "Heavy"], &[1, 2], &[-1], true);
    let rows = wound_display::table_data(&p, true);
    assert_eq!(
        rows,
        vec![
            el(
                Tag::Tr,
                &[],
                vec![name_cell("Light"), wound_display::wound_cell(true, &1), centered("-1")],
            ),
            el(Tag::Tr, &[], vec![name_cell("Heavy"), centered("2"), centered("N/A")]),
            total_row("3", "-1"),
        ]
    );
}

#[test]
fn table_data_goes_by_the_flag_it_is_given() {
    let p = props(&["Light"], &[1], &[-1], false);
    let rows = wound_display::table_data(&p, true);
    assert_eq!(
        rows[0],
        el(
            Tag::Tr,
            &[],
            vec![name_cell("Light"), wound_display::wound_cell(true, &1), centered("-1")],
        )
    );
}

fn heading_row() -> Markup {
    el(
        Tag::Tr,
        &[],
        vec![
            el(Tag::Th, &[], vec![el(Tag::H6, &[""], vec![t("Wounds")])]),
            el(Tag::Th, &[], vec![el(Tag::H6, &[""], vec![t("Amount")])]),
            el(
                Tag::Th,
                &["flex"],
                vec![
                    el(Tag::H6, &["half-flex vert-center"], vec![t("Penalty")]),
                    Markup::Icon {
                        icon_id: IconId::FontAwesomeSolidPencil,
                        classes: vec!["size-x-small".to_string()],
                    },
                ],
            ),
        ],
    )
}

#[test]
fn wound_display_whole_tree() {
    let mut p = props(&["Light", "Heavy"], &[1], &[-1, -5], false);
    p.class = Some("wide".to_string());
    let out = wound_display::wound_display(&p);
    assert_eq!(
        out,
        el(
            Tag::Div,
            &["wide"],
            vec![el(
                Tag::Table,
                &["color"],
                vec![
                    heading_row(),
                    el(Tag::Tr, &[], vec![name_cell("Light"), centered("1"), centered("-1")]),
                    el(Tag::Tr, &[], vec![name_cell("Heavy"), centered("0"), centered("-5")]),
                    total_row("1", "-1"),
                ],
            )],
        )
    );
}

#[test]
fn wound_display_uses_its_own_edit_flag() {
    let p = props(&["Light"], &[1], &[-1], true);
    let out = wound_display::wound_display(&p);
    let mut expected = vec![heading_row()];
    expected.extend(wound_display::table_data(&p, true));
    assert_eq!(out, el(Tag::Div, &[], vec![el(Tag::Table, &["color"], expected)]));
}
