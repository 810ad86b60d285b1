use dioxus_dnd::effects::{DropEffects, DropQuery};
use dioxus_dnd::types::{
    effective_effect, touch_style, Direction, DragId, DragMode, DropEffect, Edge, EdgeSet,
    KeyModifiers, PointerKind, TouchSense, ZoneId, AUTO_ID_BASE,
};

fn mods(ctrl: bool, meta: bool, alt: bool) -> KeyModifiers {
    KeyModifiers {
        ctrl,
        meta,
        alt,
        shift: false,
    }
}

#[test]
fn pointer_kind_maps_dom_pointer_types() {
    assert_eq!(PointerKind::from_pointer_type("mouse"), PointerKind::Mouse);
    assert_eq!(PointerKind::from_pointer_type("touch"), PointerKind::Touch);
    assert_eq!(PointerKind::from_pointer_type("pen"), PointerKind::Pen);
    assert_eq!(PointerKind::from_pointer_type(""), PointerKind::Mouse);
    assert_eq!(
        PointerKind::from_pointer_type("gamepad"),
        PointerKind::Mouse
    );
    assert!(PointerKind::Touch.implicitly_captured());
    assert!(!PointerKind::Mouse.implicitly_captured());
    assert!(!PointerKind::Pen.implicitly_captured());
    assert_eq!(PointerKind::default(), PointerKind::Mouse);
}

#[test]
fn modifier_effects_follow_convention() {
    assert_eq!(
        effective_effect(DropEffect::Move, KeyModifiers::empty()),
        DropEffect::Move
    );
    assert_eq!(
        effective_effect(DropEffect::Move, mods(true, false, false)),
        DropEffect::Copy
    );
    assert_eq!(
        effective_effect(DropEffect::Move, mods(false, true, false)),
        DropEffect::Copy
    );
    assert_eq!(
        effective_effect(DropEffect::Move, mods(false, false, true)),
        DropEffect::Link
    );
    // Ctrl wins over Alt when both held
    assert_eq!(
        effective_effect(DropEffect::Move, mods(true, false, true)),
        DropEffect::Copy
    );
    // disabled zones stay disabled
    assert_eq!(
        effective_effect(DropEffect::Disabled, mods(true, false, false)),
        DropEffect::Disabled
    );
}

#[test]
fn edge_strings_match_the_attribute_contract() {
    assert_eq!(Edge::Top.as_str(), "top");
    assert_eq!(Edge::Right.as_str(), "right");
    assert_eq!(Edge::Bottom.as_str(), "bottom");
    assert_eq!(Edge::Left.as_str(), "left");
}

#[test]
fn edge_sets_admit_their_axis() {
    assert!(EdgeSet::All.allows(Edge::Left));
    assert!(EdgeSet::Vertical.allows(Edge::Top));
    assert!(EdgeSet::Vertical.allows(Edge::Bottom));
    assert!(!EdgeSet::Vertical.allows(Edge::Left));
    assert!(EdgeSet::Horizontal.allows(Edge::Right));
    assert!(!EdgeSet::Horizontal.allows(Edge::Top));
    assert_eq!(EdgeSet::default(), EdgeSet::All);
}

#[test]
fn drop_effect_strings_match_data_transfer() {
    assert_eq!(DropEffect::Move.as_str(), "move");
    assert_eq!(DropEffect::Copy.as_str(), "copy");
    assert_eq!(DropEffect::Link.as_str(), "link");
    assert_eq!(DropEffect::Disabled.as_str(), "none");
    assert_eq!(DropEffect::default(), DropEffect::Move);
}

#[test]
fn defaults_are_the_documented_ones() {
    assert_eq!(Direction::default(), Direction::Ltr);
    assert_eq!(DragMode::default(), DragMode::Pointer);
    assert_eq!(TouchSense::default(), TouchSense::Auto);
}

#[test]
fn touch_styles_keep_vertical_panning_only_under_auto() {
    assert_eq!(
        touch_style(TouchSense::Auto),
        "touch-action: pan-y pinch-zoom; user-select: none; -webkit-user-select: none; -webkit-touch-callout: none;"
    );
    assert_eq!(
        touch_style(TouchSense::Immediate),
        "touch-action: none; user-select: none; -webkit-user-select: none; -webkit-touch-callout: none;"
    );
}

#[test]
fn explicit_ids_sit_below_the_automatic_range() {
    assert_eq!(AUTO_ID_BASE, 1u64 << 32);
    assert!(!ZoneId(11).is_auto());
    assert!(!ZoneId(u32::MAX as u64).is_auto());
    assert!(ZoneId(1u64 << 32).is_auto());
    assert_eq!(ZoneId::from(7u64), ZoneId(7));
    assert_eq!(DragId::from(9u64), DragId(9));
}

#[test]
fn negotiation_keeps_supported_effect_and_falls_back_explicitly() {
    let effects = DropEffects::only(DropEffect::Move) | DropEffects::only(DropEffect::Copy);
    assert_eq!(effects.negotiate(DropEffect::Copy), Some(DropEffect::Copy));
    assert_eq!(effects.negotiate(DropEffect::Link), Some(DropEffect::Move));
    assert_eq!(DropEffects::empty().negotiate(DropEffect::Move), None);
    assert_eq!(DropEffects::all().negotiate(DropEffect::Disabled), None);
    assert!(!DropEffects::all().contains(DropEffect::Disabled));
}

#[test]
fn effect_sets_union_and_fall_back_in_order() {
    let mut set = DropEffects::only(DropEffect::Link);
    assert!(!set.is_empty());
    assert_eq!(set.negotiate(DropEffect::Move), Some(DropEffect::Link));
    set |= DropEffects::only(DropEffect::Copy);
    assert!(set.contains(DropEffect::Copy));
    assert_eq!(set.negotiate(DropEffect::Move), Some(DropEffect::Copy));
    set.insert_all(DropEffects::only(DropEffect::Move));
    assert_eq!(set, DropEffects::standard());
    assert!(DropEffects::empty().is_empty());
    assert_eq!(DropEffects::default(), DropEffects::all());
    assert_eq!(
        DropEffects::of(true, false, true).negotiate(DropEffect::Copy),
        Some(DropEffect::Move)
    );
    assert!(DropEffects::only(DropEffect::Disabled).is_empty());
}

#[test]
fn drop_queries_start_from_neutral_metadata() {
    let q = DropQuery::new(7u8);
    assert_eq!(q.payload, 7);
    assert_eq!(q.source, None);
    assert_eq!(q.proposed_effect, DropEffect::Move);
    assert_eq!(q.mode, DragMode::Pointer);
    assert_eq!(q.pointer_kind, PointerKind::Mouse);
    assert_eq!(q.drag_id, None);
}
