//! The wound table: one row for each kind of wound, with how many the
//! character bears and what each costs, and a last row of totals.
//!
//! The three lists of the table are paired by position. The names decide
//! how many rows there are. A kind without a count has none; a kind without
//! a penalty shows "N/A" and adds nothing to the penalty total.

use crate::components::atoms::ars_button;
use crate::markup::{
    append_nodes, class, class_of, element, icon, IconId, Markup, MarkupView, no_class, nodes0,
    nodes1, nodes2, nodes3, nodes_view, optional_class, push_node, Tag, text,
};
use crate::pairing::{entry_at, ints, value_at, value_or_zero};
use crate::text::{decimal, decimal_string};
use vstd::prelude::*;

verus! {

/// What the wound table shows.
#[derive(Clone, Debug, PartialEq, Eq)]
pub struct Props {
    pub wound_names: Vec<String>,
    pub wounds: Vec<i32>,
    pub wound_penalties: Vec<i32>,
    /// Whether a count comes with buttons to lower and raise it.
    pub edit_buttons: bool,
    pub class: Option<String>,
}

/// [`Props`] over mathematical values.
pub struct PropsView {
    pub wound_names: Seq<Seq<char>>,
    pub wounds: Seq<int>,
    pub wound_penalties: Seq<int>,
    pub edit_buttons: bool,
    pub class: Option<Seq<char>>,
}

impl View for Props {
    type V = PropsView;

    open spec fn view(&self) -> PropsView {
        PropsView {
            wound_names: self.wound_names.deep_view(),
            wounds: ints(self.wounds@),
            wound_penalties: ints(self.wound_penalties@),
            edit_buttons: self.edit_buttons,
            class: self.class.deep_view(),
        }
    }
}

impl Props {
    /// The three columns of a table whose counts cannot be edited, without
    /// a class of the caller's.
    pub fn new(wound_names: Vec<String>, wounds: Vec<i32>, wound_penalties: Vec<i32>) -> (props:
        Props)
        ensures
            props@ == (PropsView {
                wound_names: wound_names.deep_view(),
                wounds: ints(wounds@),
                wound_penalties: ints(wound_penalties@),
                edit_buttons: false,
                class: None,
            }),
    {
        Props { wound_names, wounds, wound_penalties, edit_buttons: false, class: None }
    }
}

/// What row `i` adds to the penalty total: its count times its penalty, or
/// nothing where it has no penalty.
pub open spec fn weighted_at(wounds: Seq<int>, penalties: Seq<int>, i: int) -> int {
    match entry_at(penalties, i) {
        Some(p) => value_at(wounds, i) * p,
        None => 0,
    }
}

/// The wounds counted in the first `rows` rows.
pub open spec fn count_total(wounds: Seq<int>, rows: nat) -> int
    decreases rows,
{
    if rows == 0 {
        0
    } else {
        count_total(wounds, (rows - 1) as nat) + value_at(wounds, rows - 1)
    }
}

/// The penalty that the first `rows` rows add up to.
pub open spec fn penalty_total(wounds: Seq<int>, penalties: Seq<int>, rows: nat) -> int
    decreases rows,
{
    if rows == 0 {
        0
    } else {
        penalty_total(wounds, penalties, (rows - 1) as nat) + weighted_at(
            wounds,
            penalties,
            rows - 1,
        )
    }
}

/// The sum of the first `k` numbers of `w`.
pub open spec fn plain_sum(w: Seq<int>, k: nat) -> int
    recommends
        k <= w.len(),
    decreases k,
{
    if k == 0 {
        0
    } else {
        plain_sum(w, (k - 1) as nat) + w[k - 1]
    }
}

/// The sum of the first `k` products `w[i] * p[i]`.
pub open spec fn weighted_sum(w: Seq<int>, p: Seq<int>, k: nat) -> int
    recommends
        k <= w.len(),
        k <= p.len(),
    decreases k,
{
    if k == 0 {
        0
    } else {
        weighted_sum(w, p, (k - 1) as nat) + w[k - 1] * p[k - 1]
    }
}

proof fn lemma_count_total_is_plain_sum(w: Seq<int>, k: nat)
    requires
        k <= w.len(),
    ensures
        count_total(w, k) == plain_sum(w, k),
    decreases k,
{
    if k > 0 {
        lemma_count_total_is_plain_sum(w, (k - 1) as nat);
    }
}

proof fn lemma_penalty_total_is_weighted_sum(w: Seq<int>, p: Seq<int>, rows: nat)
    requires
        p.len() <= w.len(),
    ensures
        rows <= p.len() ==> penalty_total(w, p, rows) == weighted_sum(w, p, rows),
        rows >= p.len() ==> penalty_total(w, p, rows) == weighted_sum(w, p, p.len()),
    decreases rows,
{
    if rows > 0 {
        lemma_penalty_total_is_weighted_sum(w, p, (rows - 1) as nat);
    }
}

/// Where every kind of wound has a count and the penalties are no more
/// than the counts, the penalty total is the sum of `w[i] * p[i]` over the
/// positions that have a penalty, and only those; the count total is the
/// sum of all counts, those without a penalty included.
pub proof fn lemma_totals_of_paired_lists(w: Seq<int>, p: Seq<int>)
    requires
        p.len() <= w.len(),
    ensures
        penalty_total(w, p, w.len()) == weighted_sum(w, p, p.len()),
        count_total(w, w.len()) == plain_sum(w, w.len()),
{
    lemma_penalty_total_is_weighted_sum(w, p, w.len());
    lemma_count_total_is_plain_sum(w, w.len());
}

/// A table cell that holds one centred line of text.
pub open spec fn centered_cell(content: Seq<char>) -> MarkupView {
    element(
        Tag::Td,
        Seq::empty(),
        seq![element(Tag::P, seq!["text-center"@], seq![text(content)])],
    )
}

/// The button that stands on either side of a count that can be edited.
pub open spec fn step_button(label: Seq<char>) -> MarkupView {
    ars_button::button_markup(
        ars_button::PropsView {
            label,
            onclick: None,
            class: Some("thirds-flex plus-minus-button"@),
        },
    )
}

/// The cell that holds a count: the count alone, or between a button to
/// lower it and a button to raise it.
pub open spec fn wound_cell_markup(edit_buttons: bool, count: int) -> MarkupView {
    if edit_buttons {
        element(
            Tag::Td,
            seq!["flex"@],
            seq![
                step_button("-"@),
                element(
                    Tag::P,
                    seq!["text-center thirds-flex vert-center"@],
                    seq![text(decimal(count))],
                ),
                step_button("+"@),
            ],
        )
    } else {
        centered_cell(decimal(count))
    }
}

/// The cell that names a kind of wound.
pub open spec fn name_cell(name: Seq<char>) -> MarkupView {
    element(Tag::Td, Seq::empty(), seq![element(Tag::P, Seq::empty(), seq![text(name)])])
}

/// The row of a kind of wound that has a penalty.
pub open spec fn penalised_row(
    name: Seq<char>,
    edit_buttons: bool,
    count: int,
    penalty: int,
) -> MarkupView {
    element(
        Tag::Tr,
        Seq::empty(),
        seq![
            name_cell(name),
            wound_cell_markup(edit_buttons, count),
            centered_cell(decimal(penalty)),
        ],
    )
}

/// The row of a kind of wound that has no penalty: the count stands
/// without buttons, and the penalty reads "N/A".
pub open spec fn unpenalised_row(name: Seq<char>, count: int) -> MarkupView {
    element(
        Tag::Tr,
        Seq::empty(),
        seq![name_cell(name), centered_cell(decimal(count)), centered_cell("N/A"@)],
    )
}

/// Row `i` of the table: the name, the count and the penalty of one kind of
/// wound.
pub open spec fn wound_row(props: PropsView, edit_buttons: bool, i: int) -> MarkupView
    recommends
        0 <= i < props.wound_names.len(),
{
    let count = value_at(props.wounds, i);
    match entry_at(props.wound_penalties, i) {
        Some(p) => penalised_row(props.wound_names[i], edit_buttons, count, p),
        None => unpenalised_row(props.wound_names[i], count),
    }
}

/// The last row of the table: the two totals.
pub open spec fn total_row(count: int, penalty: int) -> MarkupView {
    element(
        Tag::Tr,
        Seq::empty(),
        seq![
            element(
                Tag::Td,
                Seq::empty(),
                seq![element(Tag::P, seq!["text-bold"@], seq![text("Cummulative Total"@)])],
            ),
            element(
                Tag::Td,
                Seq::empty(),
                seq![
                    element(Tag::P, seq!["text-center text-bold"@], seq![text(decimal(count))]),
                ],
            ),
            element(
                Tag::Td,
                Seq::empty(),
                seq![
                    element(Tag::P, seq!["text-center text-bold"@], seq![text(decimal(penalty))]),
                ],
            ),
        ],
    )
}

/// The rows below the heading: one for each name, in the order of the
/// names, then the totals over exactly those rows.
pub open spec fn wound_rows(props: PropsView, edit_buttons: bool) -> Seq<MarkupView> {
    Seq::new(props.wound_names.len(), |i: int| wound_row(props, edit_buttons, i)).push(
        total_row(
            count_total(props.wounds, props.wound_names.len()),
            penalty_total(props.wounds, props.wound_penalties, props.wound_names.len()),
        ),
    )
}

/// The heading of the table.
pub open spec fn heading_row() -> MarkupView {
    element(
        Tag::Tr,
        Seq::empty(),
        seq![
            element(
                Tag::Th,
                Seq::empty(),
                seq![element(Tag::H6, seq![""@], seq![text("Wounds"@)])],
            ),
            element(
                Tag::Th,
                Seq::empty(),
                seq![element(Tag::H6, seq![""@], seq![text("Amount"@)])],
            ),
            element(
                Tag::Th,
                seq!["flex"@],
                seq![
                    element(Tag::H6, seq!["half-flex vert-center"@], seq![text("Penalty"@)]),
                    icon(IconId::FontAwesomeSolidPencil, seq!["size-x-small"@]),
                ],
            ),
        ],
    )
}

/// The whole table.
pub open spec fn wound_markup(props: PropsView) -> MarkupView {
    element(
        Tag::Div,
        optional_class(props.class),
        seq![
            element(
                Tag::Table,
                seq!["color"@],
                seq![heading_row()] + wound_rows(props, props.edit_buttons),
            ),
        ],
    )
}

proof fn lemma_product_of_counts(a: int, b: int)
    requires
        -0x8000_0000 <= a < 0x8000_0000,
        -0x8000_0000 <= b < 0x8000_0000,
    ensures
        -0x4000_0000_0000_0000 <= a * b <= 0x4000_0000_0000_0000,
{
    assert(-0x4000_0000_0000_0000 <= a * b <= 0x4000_0000_0000_0000) by (nonlinear_arith)
        requires
            -0x8000_0000 <= a < 0x8000_0000,
            -0x8000_0000 <= b < 0x8000_0000,
    ;
}

/// Adds up the table: the wounds counted in the first `rows` rows, and the
/// penalty that those rows add up to. A row adds its count times its
/// penalty to the second total, and nothing where it has no penalty.
pub fn wound_totals(rows: usize, wounds: &Vec<i32>, penalties: &Vec<i32>) -> (totals: (i128, i128))
    ensures
        totals.0 == count_total(ints(wounds@), rows as nat),
        totals.1 == penalty_total(ints(wounds@), ints(penalties@), rows as nat),
{
    let ghost w = ints(wounds@);
    let ghost p = ints(penalties@);
    let mut sum_count: i128 = 0;
    let mut sum_penalty: i128 = 0;
    let mut i: usize = 0;
    while i < rows
        invariant
            i <= rows,
            w == ints(wounds@),
            p == ints(penalties@),
            sum_count == count_total(w, i as nat),
            sum_penalty == penalty_total(w, p, i as nat),
            -(i * 0x8000_0000) <= sum_count <= i * 0x8000_0000,
            -(i * 0x4000_0000_0000_0000) <= sum_penalty <= i * 0x4000_0000_0000_0000,
        decreases rows - i,
    {
        let count: i32 = value_or_zero(wounds, i);
        if i < penalties.len() {
            let penalty: i32 = penalties[i];
            proof {
                lemma_product_of_counts(count as int, penalty as int);
            }
            let weighted: i128 = (count as i128) * (penalty as i128);
            assert(weighted == weighted_at(w, p, i as int));
            sum_penalty = sum_penalty + weighted;
        }
        sum_count = sum_count + count as i128;
        i = i + 1;
    }
    (sum_count, sum_penalty)
}

fn centered(content: &str) -> (m: Markup)
    ensures
        m@ == centered_cell(content@),
{
    Markup::element(
        Tag::Td,
        no_class(),
        nodes1(Markup::element(Tag::P, class("text-center"), nodes1(Markup::text(content)))),
    )
}

fn step(label: &str) -> (m: Markup)
    ensures
        m@ == step_button(label@),
{
    ars_button::ars_button(
        &ars_button::Props {
            label: label.to_owned(),
            onclick: None,
            class: Some("thirds-flex plus-minus-button".to_owned()),
        },
    )
}

/// Renders the cell that holds a count.
pub fn wound_cell(edit_buttons: bool, wounds: &i32) -> (out: Markup)
    ensures
        out@ == wound_cell_markup(edit_buttons, *wounds as int),
{
    let count = decimal_string(*wounds as i128);
    if edit_buttons {
        let shown = Markup::element(
            Tag::P,
            class("text-center thirds-flex vert-center"),
            nodes1(Markup::text(count.as_str())),
        );
        Markup::element(Tag::Td, class("flex"), nodes3(step("-"), shown, step("+")))
    } else {
        centered(count.as_str())
    }
}

fn total(count: i128, penalty: i128) -> (m: Markup)
    ensures
        m@ == total_row(count as int, penalty as int),
{
    let caption = Markup::element(
        Tag::Td,
        no_class(),
        nodes1(
            Markup::element(Tag::P, class("text-bold"), nodes1(Markup::text("Cummulative Total"))),
        ),
    );
    let count_text = decimal_string(count);
    let count_cell = Markup::element(
        Tag::Td,
        no_class(),
        nodes1(
            Markup::element(
                Tag::P,
                class("text-center text-bold"),
                nodes1(Markup::text(count_text.as_str())),
            ),
        ),
    );
    let penalty_text = decimal_string(penalty);
    let penalty_cell = Markup::element(
        Tag::Td,
        no_class(),
        nodes1(
            Markup::element(
                Tag::P,
                class("text-center text-bold"),
                nodes1(Markup::text(penalty_text.as_str())),
            ),
        ),
    );
    Markup::element(Tag::Tr, no_class(), nodes3(caption, count_cell, penalty_cell))
}

/// Renders the rows below the heading: one row for each name, in the order
/// of the names, and the row of totals behind them.
///
/// Row `i` pairs name `i` with count `i` and penalty `i`. A missing count
/// is none; a missing penalty reads "N/A" and leaves the penalty total as
/// it is. Counts and penalties beyond the last name are not shown and not
/// added.
pub fn table_data(props: &Props, edit_buttons: bool) -> (rows: Vec<Markup>)
    ensures
        nodes_view(rows@) == wound_rows(props@, edit_buttons),
        rows.len() == props.wound_names.len() + 1,
        forall|i: int|
            props.wound_penalties.len() <= i < props.wound_names.len() ==> #[trigger] nodes_view(
                rows@,
            )[i] == unpenalised_row(props.wound_names[i]@, value_at(props@.wounds, i)),
        forall|i: int|
            props.wounds.len() <= i < props.wound_names.len() ==> #[trigger] nodes_view(rows@)[i]
                == (match entry_at(props@.wound_penalties, i) {
                Some(p) => penalised_row(props.wound_names[i]@, edit_buttons, 0, p),
                None => unpenalised_row(props.wound_names[i]@, 0),
            }),
        nodes_view(rows@)[props.wound_names.len() as int] == total_row(
            count_total(props@.wounds, props.wound_names.len() as nat),
            penalty_total(props@.wounds, props@.wound_penalties, props.wound_names.len() as nat),
        ),
{
    let n: usize = props.wound_names.len();
    let mut rows: Vec<Markup> = nodes0();
    let mut i: usize = 0;
    while i < n
        invariant
            i <= n,
            n == props.wound_names.len(),
            nodes_view(rows@) == Seq::new(i as nat, |j: int| wound_row(props@, edit_buttons, j)),
        decreases n - i,
    {
        let ghost before = nodes_view(rows@);
        let name_cell = Markup::element(
            Tag::Td,
            no_class(),
            nodes1(
                Markup::element(
                    Tag::P,
                    no_class(),
                    nodes1(Markup::text(props.wound_names[i].as_str())),
                ),
            ),
        );
        let count: i32 = value_or_zero(&props.wounds, i);
        if i < props.wound_penalties.len() {
            let penalty = decimal_string(props.wound_penalties[i] as i128);
            let row = Markup::element(
                Tag::Tr,
                no_class(),
                nodes3(name_cell, wound_cell(edit_buttons, &count), centered(penalty.as_str())),
            );
            push_node(&mut rows, row);
        } else {
            let shown = decimal_string(count as i128);
            let row = Markup::element(
                Tag::Tr,
                no_class(),
                nodes3(name_cell, centered(shown.as_str()), centered("N/A")),
            );
            push_node(&mut rows, row);
        }
        assert(nodes_view(rows@) == before.push(wound_row(props@, edit_buttons, i as int)));
        i = i + 1;
        assert(nodes_view(rows@) =~= Seq::new(
            i as nat,
            |j: int| wound_row(props@, edit_buttons, j),
        ));
    }
    let totals = wound_totals(n, &props.wounds, &props.wound_penalties);
    push_node(&mut rows, total(totals.0, totals.1));
    assert(nodes_view(rows@).len() == rows.len());
    rows
}

/// Renders the wound table: the heading, then the rows of [`table_data`].
pub fn wound_display(props: &Props) -> (out: Markup)
    ensures
        out@ == wound_markup(props@),
{
    let heading = Markup::element(
        Tag::Tr,
        no_class(),
        nodes3(
            Markup::element(
                Tag::Th,
                no_class(),
                nodes1(Markup::element(Tag::H6, class(""), nodes1(Markup::text("Wounds")))),
            ),
            Markup::element(
                Tag::Th,
                no_class(),
                nodes1(Markup::element(Tag::H6, class(""), nodes1(Markup::text("Amount")))),
            ),
            Markup::element(
                Tag::Th,
                class("flex"),
                nodes2(
                    Markup::element(
                        Tag::H6,
                        class("half-flex vert-center"),
                        nodes1(Markup::text("Penalty")),
                    ),
                    Markup::icon(IconId::FontAwesomeSolidPencil, class("size-x-small")),
                ),
            ),
        ),
    );
    let mut rows = nodes1(heading);
    append_nodes(&mut rows, table_data(props, props.edit_buttons));
    let table = Markup::element(Tag::Table, class("color"), rows);
    Markup::element(Tag::Div, class_of(&props.class), nodes1(table))
}

} // verus!
