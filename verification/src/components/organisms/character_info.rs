//! The character panel: portrait and name, the vital numbers, wounds,
//! virtues and flaws, personality and reputation on the left; the tables of
//! characteristics and abilities on the right.
//!
//! The panel shows a sample character.

use crate::components::atoms::{
    age_display, character_name, character_portrait, decrepitude_display, flaw_display,
    personality_display, reputation_display, soak_size_display, virtue_display, warp_display,
    wound_display,
};
use crate::components::molecules::{abilities_list, characteristics_list};
use crate::markup::{
    class, element, Markup, MarkupView, no_class, nodes0, nodes1, nodes2, nodes_view, push_node,
    Tag,
};
use crate::pairing::ints;
use vstd::prelude::*;

verus! {

/// The character panel takes no properties.
#[derive(Clone, Copy, Debug, PartialEq, Eq)]
pub struct Props {}

/// A list of texts.
pub open spec fn texts(parts: Seq<&'static str>) -> Seq<Seq<char>> {
    parts.map_values(|part: &'static str| part@)
}

/// The sample character's ages.
pub open spec fn sample_age() -> age_display::PropsView {
    age_display::PropsView { true_age: 25, apparent_age: 25, class: Some("half-flex"@) }
}

/// The sample character's size, soak and encumbrance.
pub open spec fn sample_soak_size() -> soak_size_display::PropsView {
    soak_size_display::PropsView { soak: 1, size: 1, encumbrance: 1, class: Some("half-flex"@) }
}

/// The sample character's decrepitude.
pub open spec fn sample_decrepitude() -> decrepitude_display::PropsView {
    decrepitude_display::PropsView { score: 1, points: 5, class: Some("half-flex"@) }
}

/// The sample character's warping, which does not show.
pub open spec fn sample_warp() -> warp_display::PropsView {
    warp_display::PropsView {
        score: 1,
        points: 5,
        class: Some("half-flex"@),
        warp_intensity: warp_display::WarpIntensity::Absent,
    }
}

/// The sample character's wounds: four kinds, of which the last has no
/// penalty.
pub open spec fn sample_wounds() -> wound_display::PropsView {
    wound_display::PropsView {
        wound_names: texts(seq!["Light", "Medium", "Heavy", "Incapacitating"]),
        wounds: ints(seq![0i32, 1i32, 1i32, 0i32]),
        wound_penalties: ints(seq![-1i32, -3i32, -5i32]),
        edit_buttons: false,
        class: None,
    }
}

/// The sample character's virtues.
pub open spec fn sample_virtues() -> virtue_display::PropsView {
    virtue_display::PropsView {
        virtues: texts(seq!["Virtue 1", "Virtue 2", "Virtue 3"]),
        class: Some("half-flex"@),
    }
}

/// The sample character's flaws.
pub open spec fn sample_flaws() -> flaw_display::PropsView {
    flaw_display::PropsView {
        flaws: texts(seq!["Flaw 1", "Flaw 2", "Flaw 3"]),
        class: Some("half-flex"@),
    }
}

/// The sample character's personality: three traits, of which the last
/// has no score.
pub open spec fn sample_personality() -> personality_display::PropsView {
    personality_display::PropsView {
        personality: texts(seq!["Personality 1", "Personality 2", "Personality 3"]),
        scores: ints(seq![1i32, -3i32]),
        class: Some("half-flex"@),
    }
}

/// The sample character's reputations: three, of which the last has no
/// score.
pub open spec fn sample_reputations() -> reputation_display::PropsView {
    reputation_display::PropsView {
        reputations: texts(seq!["Reputation 1", "Reputation 2", "Reputation 3"]),
        scores: ints(seq![2i32, -1i32]),
        class: Some("half-flex"@),
    }
}

/// The eight characteristics, without scores and ages.
pub open spec fn sample_characteristics() -> characteristics_list::PropsView {
    characteristics_list::PropsView {
        chars: texts(
            seq![
                "Intelligence",
                "Perception",
                "Presence",
                "Communication",
                "Strength",
                "Stamina",
                "Dexterity",
                "Quickness",
            ],
        ),
        scores: ints(Seq::<i32>::empty()),
        ages: ints(Seq::<i32>::empty()),
        class: Some("widget"@),
    }
}

/// One ability, and twelve rows that are still free.
pub open spec fn sample_abilities() -> abilities_list::PropsView {
    abilities_list::PropsView {
        names: texts(
            seq!["Awareness", "", "", "", "", "", "", "", "", "", "", "", ""],
        ),
        specialties: texts(seq!["Keeping Watch"]),
        scores: ints(seq![2i32]),
        exps: ints(seq![21i32]),
        class: Some("widget"@),
    }
}

/// A horizontal rule.
pub open spec fn rule() -> MarkupView {
    element(Tag::Hr, Seq::empty(), Seq::empty())
}

/// A line break.
pub open spec fn line_break() -> MarkupView {
    element(Tag::Br, Seq::empty(), Seq::empty())
}

/// Two displays side by side.
pub open spec fn side_by_side(left: MarkupView, right: MarkupView) -> MarkupView {
    element(Tag::Div, seq!["flex"@], seq![left, right])
}

/// The left column, from the top down.
pub open spec fn sheet_block() -> MarkupView {
    element(
        Tag::Div,
        seq!["block"@],
        seq![
            side_by_side(
                character_portrait::portrait_markup(),
                character_name::name_markup(character_name::PropsView { name: "Magus Name"@ }),
            ),
            rule(),
            side_by_side(
                age_display::age_markup(sample_age()),
                soak_size_display::soak_size_markup(sample_soak_size()),
            ),
            rule(),
            side_by_side(
                decrepitude_display::decrepitude_markup(sample_decrepitude()),
                warp_display::warp_markup(sample_warp()),
            ),
            line_break(),
            wound_display::wound_markup(sample_wounds()),
            line_break(),
            side_by_side(
                virtue_display::virtue_markup(sample_virtues()),
                flaw_display::flaw_markup(sample_flaws()),
            ),
            rule(),
            side_by_side(
                personality_display::personality_markup(sample_personality()),
                reputation_display::reputation_markup(sample_reputations()),
            ),
        ],
    )
}

/// The right column: characteristics above abilities.
pub open spec fn tables_column() -> MarkupView {
    element(
        Tag::Div,
        seq!["display-grid-1-2 grid-c-2-3 grid-r-1"@],
        seq![
            element(
                Tag::Div,
                seq!["grid-r-1 display-grid-1-1 table-container overflow-x-scroll"@],
                seq![characteristics_list::characteristics_markup(sample_characteristics())],
            ),
            element(
                Tag::Div,
                seq!["grid-r-2 widget no-padding no-border table-container overflow-x-scroll"@],
                seq![abilities_list::abilities_markup(sample_abilities())],
            ),
        ],
    )
}

/// The whole panel.
pub open spec fn character_info_markup() -> MarkupView {
    element(
        Tag::Span,
        seq!["prevent-select grid-r-1 grid-c-1-2 content"@],
        seq![
            element(
                Tag::Div,
                seq!["display-grid-2 margin-small"@],
                seq![
                    element(
                        Tag::Div,
                        seq!["display-grid-1 grid-r-1 grid-c-1-2"@],
                        seq![sheet_block()],
                    ),
                    tables_column(),
                ],
            ),
        ],
    )
}

fn owned(parts: Vec<&'static str>) -> (list: Vec<String>)
    ensures
        list.deep_view() == texts(parts@),
{
    let mut list: Vec<String> = Vec::new();
    let mut i: usize = 0;
    while i < parts.len()
        invariant
            i <= parts.len(),
            list.len() == i,
            forall|j: int| 0 <= j < i ==> (#[trigger] list[j])@ == parts[j]@,
        decreases parts.len() - i,
    {
        list.push(parts[i].to_owned());
        i = i + 1;
    }
    assert(list.deep_view() =~= texts(parts@));
    list
}

fn half_flex() -> (given: Option<String>)
    ensures
        given.deep_view() == Some("half-flex"@),
{
    Some("half-flex".to_owned())
}

fn flex(left: Markup, right: Markup) -> (m: Markup)
    ensures
        m@ == side_by_side(left@, right@),
{
    Markup::element(Tag::Div, class("flex"), nodes2(left, right))
}

fn hr() -> (m: Markup)
    ensures
        m@ == rule(),
{
    Markup::element(Tag::Hr, no_class(), nodes0())
}

fn br() -> (m: Markup)
    ensures
        m@ == line_break(),
{
    Markup::element(Tag::Br, no_class(), nodes0())
}

fn block() -> (m: Markup)
    ensures
        m@ == sheet_block(),
{
    let portrait = character_portrait::character_portrait(&character_portrait::Props {  });
    let name = character_name::character_name(
        &character_name::Props { name: "Magus Name".to_owned() },
    );
    let age = age_display::age_display(
        &age_display::Props { true_age: 25, apparent_age: 25, class: half_flex() },
    );
    let soak_size = soak_size_display::soak_size_display(
        &soak_size_display::Props { soak: 1, size: 1, encumbrance: 1, class: half_flex() },
    );
    let decrepitude = decrepitude_display::decrepitude_display(
        &decrepitude_display::Props { score: 1, points: 5, class: half_flex() },
    );
    let warp = warp_display::warp_display(
        &warp_display::Props {
            score: 1,
            points: 5,
            class: half_flex(),
            warp_intensity: warp_display::WarpIntensity::Absent,
        },
    );
    let wounds = wound_display::wound_display(
        &wound_display::Props {
            wound_names: owned(vec!["Light", "Medium", "Heavy", "Incapacitating"]),
            wounds: vec![0i32, 1i32, 1i32, 0i32],
            wound_penalties: vec![-1i32, -3i32, -5i32],
            edit_buttons: false,
            class: None,
        },
    );
    let virtues = virtue_display::virtue_display(
        &virtue_display::Props {
            virtues: owned(vec!["Virtue 1", "Virtue 2", "Virtue 3"]),
            class: half_flex(),
        },
    );
    let flaws = flaw_display::flaw_display(
        &flaw_display::Props {
            flaws: owned(vec!["Flaw 1", "Flaw 2", "Flaw 3"]),
            class: half_flex(),
        },
    );
    let personality = personality_display::personality_display(
        &personality_display::Props {
            personality: owned(vec!["Personality 1", "Personality 2", "Personality 3"]),
            scores: vec![1i32, -3i32],
            class: half_flex(),
        },
    );
    let reputations = reputation_display::reputation_display(
        &reputation_display::Props {
            reputations: owned(vec!["Reputation 1", "Reputation 2", "Reputation 3"]),
            scores: vec![2i32, -1i32],
            class: half_flex(),
        },
    );
    let mut parts = nodes0();
    push_node(&mut parts, flex(portrait, name));
    push_node(&mut parts, hr());
    push_node(&mut parts, flex(age, soak_size));
    push_node(&mut parts, hr());
    push_node(&mut parts, flex(decrepitude, warp));
    push_node(&mut parts, br());
    push_node(&mut parts, wounds);
    push_node(&mut parts, br());
    push_node(&mut parts, flex(virtues, flaws));
    push_node(&mut parts, hr());
    push_node(&mut parts, flex(personality, reputations));
    assert(nodes_view(parts@) =~= sheet_block()->Element_children);
    Markup::element(Tag::Div, class("block"), parts)
}

fn tables() -> (m: Markup)
    ensures
        m@ == tables_column(),
{
    let characteristics = characteristics_list::characteristics_list(
        &characteristics_list::Props {
            chars: owned(
                vec![
                    "Intelligence",
                    "Perception",
                    "Presence",
                    "Communication",
                    "Strength",
                    "Stamina",
                    "Dexterity",
                    "Quickness",
                ],
            ),
            scores: Vec::new(),
            ages: Vec::new(),
            class: Some("widget".to_owned()),
        },
    );
    let specialties = vec!["Keeping Watch"];
    let scores = vec![2i32];
    let exps = vec![21i32];
    assert(specialties@ =~= seq!["Keeping Watch"]);
    assert(scores@ =~= seq![2i32]);
    assert(exps@ =~= seq![21i32]);
    let abilities = abilities_list::abilities_list(
        &abilities_list::Props {
            names: owned(vec!["Awareness", "", "", "", "", "", "", "", "", "", "", "", ""]),
            specialties: owned(specialties),
            scores,
            exps,
            class: Some("widget".to_owned()),
        },
    );
    Markup::element(
        Tag::Div,
        class("display-grid-1-2 grid-c-2-3 grid-r-1"),
        nodes2(
            Markup::element(
                Tag::Div,
                class("grid-r-1 display-grid-1-1 table-container overflow-x-scroll"),
                nodes1(characteristics),
            ),
            Markup::element(
                Tag::Div,
                class("grid-r-2 widget no-padding no-border table-container overflow-x-scroll"),
                nodes1(abilities),
            ),
        ),
    )
}

/// Renders the character panel.
pub fn character_info(_props: &Props) -> (out: Markup)
    ensures
        out@ == character_info_markup(),
{
    let left = Markup::element(
        Tag::Div,
        class("display-grid-1 grid-r-1 grid-c-1-2"),
        nodes1(block()),
    );
    let grid = Markup::element(Tag::Div, class("display-grid-2 margin-small"), nodes2(left, tables()));
    Markup::element(
        Tag::Span,
        class("prevent-select grid-r-1 grid-c-1-2 content"),
        nodes1(grid),
    )
}

} // verus!
