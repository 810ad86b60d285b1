use std::collections::HashMap;

use dioxus_dnd::board::Board;
use dioxus_dnd::model::{apply_clone_or_move, apply_list_clone_or_move};
use dioxus_dnd::types::{DragMode, DropEffect, DropOutcome, ZoneId};

#[derive(Debug, Clone, Copy, PartialEq, Default)]
struct Point {
    x: f64,
    y: f64,
}

#[derive(Debug, Clone, PartialEq)]
struct Card {
    id: u32,
    title: &'static str,
}

fn outcome(
    payload: Card,
    from: Option<ZoneId>,
    to: ZoneId,
    effect: DropEffect,
) -> DropOutcome<Card, Point> {
    DropOutcome {
        payload,
        from,
        to,
        effect,
        mode: DragMode::Pointer,
        client: Point::default(),
        element: Point::default(),
        grab: Point::default(),
        edge: None,
    }
}

fn card(id: u32, title: &'static str) -> Card {
    Card { id, title }
}

#[test]
fn move_removes_from_source_and_appends_to_target() {
    let a = ZoneId(1);
    let b = ZoneId(2);
    let mut zones: Board<Card> = HashMap::from([
        (a.0, vec![card(1, "one"), card(2, "two")]),
        (b.0, vec![card(3, "three")]),
    ]);

    apply_clone_or_move(
        &mut zones,
        outcome(card(2, "two"), Some(a), b, DropEffect::Move),
        |card: &Card| card.id,
        |card| card,
    );

    assert_eq!(zones[&a.0], vec![card(1, "one")]);
    assert_eq!(zones[&b.0], vec![card(3, "three"), card(2, "two")]);
}

#[test]
fn copy_leaves_source_and_allows_new_identity() {
    let a = ZoneId(1);
    let b = ZoneId(2);
    let mut zones: Board<Card> =
        HashMap::from([(a.0, vec![card(1, "one")]), (b.0, Vec::new())]);

    apply_clone_or_move(
        &mut zones,
        outcome(card(1, "one"), Some(a), b, DropEffect::Copy),
        |card: &Card| card.id,
        |mut card| {
            card.id = 10;
            card
        },
    );

    assert_eq!(zones[&a.0], vec![card(1, "one")]);
    assert_eq!(zones[&b.0], vec![card(10, "one")]);
}

#[test]
fn move_onto_own_zone_reorders_to_end() {
    let a = ZoneId(1);
    let mut zones: Board<Card> = HashMap::from([(a.0, vec![card(1, "one"), card(2, "two")])]);

    apply_clone_or_move(
        &mut zones,
        outcome(card(1, "one"), Some(a), a, DropEffect::Move),
        |card: &Card| card.id,
        |card| card,
    );

    assert_eq!(zones[&a.0], vec![card(2, "two"), card(1, "one")]);
}

#[test]
fn move_without_source_zone_just_appends() {
    let b = ZoneId(2);
    let mut zones: Board<Card> = HashMap::from([(b.0, Vec::new())]);

    apply_clone_or_move(
        &mut zones,
        outcome(card(7, "seven"), None, b, DropEffect::Move),
        |card: &Card| card.id,
        |card| card,
    );

    assert_eq!(zones[&b.0], vec![card(7, "seven")]);
}

#[test]
fn unknown_target_zone_is_created() {
    let a = ZoneId(1);
    let ghost = ZoneId(99);
    let mut zones: Board<Card> = HashMap::from([(a.0, vec![card(1, "one")])]);

    apply_clone_or_move(
        &mut zones,
        outcome(card(1, "one"), Some(a), ghost, DropEffect::Move),
        |card: &Card| card.id,
        |card| card,
    );

    assert!(zones[&a.0].is_empty());
    assert_eq!(zones[&ghost.0], vec![card(1, "one")]);
}

#[test]
fn move_prunes_every_item_sharing_the_key() {
    let a = ZoneId(1);
    let b = ZoneId(2);
    let mut zones: Board<Card> = HashMap::from([(
        a.0,
        vec![card(4, "four"), card(5, "five"), card(4, "four again")],
    )]);

    apply_clone_or_move(
        &mut zones,
        outcome(card(4, "four"), Some(a), b, DropEffect::Link),
        |card: &Card| card.id,
        |card| card,
    );

    assert_eq!(zones[&a.0], vec![card(5, "five")]);
    assert_eq!(zones[&b.0], vec![card(4, "four")]);
}

#[test]
fn list_move_removes_from_source_and_appends_to_target() {
    let mut source = vec![card(1, "one"), card(2, "two")];
    let mut target = vec![card(3, "three")];

    apply_list_clone_or_move(
        Some(&mut source),
        &mut target,
        outcome(card(2, "two"), Some(ZoneId(1)), ZoneId(2), DropEffect::Move),
        |card: &Card| card.id,
        |card| card,
    );

    assert_eq!(source, vec![card(1, "one")]);
    assert_eq!(target, vec![card(3, "three"), card(2, "two")]);
}

#[test]
fn list_copy_leaves_source_and_allows_new_identity() {
    let mut source = vec![card(1, "one")];
    let mut target = Vec::new();

    apply_list_clone_or_move(
        Some(&mut source),
        &mut target,
        outcome(card(1, "one"), Some(ZoneId(1)), ZoneId(2), DropEffect::Copy),
        |card: &Card| card.id,
        |mut card| {
            card.id = 10;
            card
        },
    );

    assert_eq!(source, vec![card(1, "one")]);
    assert_eq!(target, vec![card(10, "one")]);
}

#[test]
fn list_move_without_source_just_appends() {
    let mut target = Vec::new();

    apply_list_clone_or_move(
        None,
        &mut target,
        outcome(card(7, "seven"), None, ZoneId(2), DropEffect::Move),
        |card: &Card| card.id,
        |card| card,
    );

    assert_eq!(target, vec![card(7, "seven")]);
}
