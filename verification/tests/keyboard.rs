use dioxus_dnd::keyboard::{
    drop_announcement, key_action, keyboard_drop_target, nav_plan, over_announcement, pickup_announcement, zone_name,
    Hierarchy, KeyAction, KeyPress,
};
use dioxus_dnd::navigation::{NavInput, NavKey};
use dioxus_dnd::types::{Direction, DragMode, ZoneId};

#[test]
fn activation_picks_up_outside_a_drag() {
    let a = key_action(KeyPress::Activate, Direction::Ltr, false, DragMode::Pointer, false);
    assert_eq!(a, KeyAction::PickUp);
    // Arrows and Escape do nothing without a keyboard drag.
    for press in [KeyPress::Escape, KeyPress::Key(NavInput::ArrowDown)] {
        assert_eq!(
            key_action(press, Direction::Ltr, false, DragMode::Keyboard, true),
            KeyAction::Ignore
        );
    }
    // A pointer drag in flight ignores the keyboard.
    assert_eq!(
        key_action(KeyPress::Activate, Direction::Ltr, true, DragMode::Pointer, true),
        KeyAction::Ignore
    );
}

#[test]
fn a_keyboard_drag_navigates_drops_and_cancels() {
    let during = |press| key_action(press, Direction::Rtl, true, DragMode::Keyboard, true);
    assert_eq!(
        during(KeyPress::Key(NavInput::ArrowDown)),
        KeyAction::Navigate(NavKey::Next)
    );
    assert_eq!(
        during(KeyPress::Key(NavInput::ArrowLeft)),
        KeyAction::Navigate(NavKey::Descend)
    );
    assert_eq!(during(KeyPress::Activate), KeyAction::Drop);
    assert_eq!(during(KeyPress::Escape), KeyAction::Cancel);
    assert_eq!(during(KeyPress::Key(NavInput::Other)), KeyAction::Ignore);
    // Without a payload arrows have nowhere to take it.
    assert_eq!(
        key_action(
            KeyPress::Key(NavInput::ArrowUp),
            Direction::Ltr,
            true,
            DragMode::Keyboard,
            false
        ),
        KeyAction::Ignore
    );
}

#[test]
fn hierarchical_moves_fall_back_to_siblings() {
    assert_eq!(nav_plan(NavKey::Next), (None, 1));
    assert_eq!(nav_plan(NavKey::Prev), (None, -1));
    assert_eq!(nav_plan(NavKey::Descend), (Some(Hierarchy::Child), 1));
    assert_eq!(nav_plan(NavKey::Ascend), (Some(Hierarchy::Parent), -1));
}

#[test]
fn announcements_name_zones_by_label_or_number() {
    assert_eq!(zone_name(Some("Done"), ZoneId(3)), "Done");
    assert_eq!(zone_name(None, ZoneId(42)), "zone 42");
    assert_eq!(over_announcement(Some("Done"), ZoneId(3), None), "Over Done.");
    assert_eq!(
        over_announcement(None, ZoneId(7), Some("Board")),
        "Over zone 7, inside Board."
    );
    assert_eq!(drop_announcement(None, ZoneId(0)), "Dropped in zone 0.");
    assert_eq!(
        pickup_announcement(None),
        "Picked up item. Use arrow keys to choose a drop target, Enter to drop, Escape to cancel."
    );
    assert_eq!(
        pickup_announcement(Some("Piranesi")),
        "Picked up Piranesi. Use arrow keys to choose a drop target, Enter to drop, Escape to cancel."
    );
}

#[test]
fn keyboard_drops_prefer_the_registered_hovered_zone() {
    let mut asked = false;
    assert_eq!(
        keyboard_drop_target(Some(ZoneId(4)), true, || {
            asked = true;
            Some(ZoneId(9))
        }),
        Some(ZoneId(4))
    );
    assert!(!asked);
    assert_eq!(keyboard_drop_target(Some(ZoneId(4)), false, || Some(ZoneId(9))), Some(ZoneId(9)));
    assert_eq!(keyboard_drop_target(None, true, || None), None);
}
