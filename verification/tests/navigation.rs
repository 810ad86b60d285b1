use dioxus_dnd::navigation::{cycle, nav_key, step_in, NavInput, NavKey};
use dioxus_dnd::types::{Direction, ZoneId};

fn check_nav_keys_mirror_under_rtl() {
    for dir in [Direction::Ltr, Direction::Rtl] {
        assert_eq!(nav_key(NavInput::ArrowDown, dir), Some(NavKey::Next));
        assert_eq!(nav_key(NavInput::ArrowUp, dir), Some(NavKey::Prev));
        assert_eq!(nav_key(NavInput::Other, dir), None);
    }
    assert_eq!(
        nav_key(NavInput::ArrowRight, Direction::Ltr),
        Some(NavKey::Descend)
    );
    assert_eq!(
        nav_key(NavInput::ArrowLeft, Direction::Ltr),
        Some(NavKey::Ascend)
    );
    assert_eq!(
        nav_key(NavInput::ArrowRight, Direction::Rtl),
        Some(NavKey::Ascend)
    );
    assert_eq!(
        nav_key(NavInput::ArrowLeft, Direction::Rtl),
        Some(NavKey::Descend)
    );
}

#[test]
fn components_nav_keys_mirror_under_rtl() {
    check_nav_keys_mirror_under_rtl();
}

#[test]
fn draggable_nav_keys_mirror_under_rtl() {
    check_nav_keys_mirror_under_rtl();
}

#[test]
fn cycle_steps_and_wraps() {
    assert_eq!(cycle(0, None, 1), None);
    assert_eq!(cycle(3, None, 1), Some(0));
    assert_eq!(cycle(3, None, -1), Some(2));
    assert_eq!(cycle(3, Some(2), 1), Some(0));
    assert_eq!(cycle(3, Some(0), -1), Some(2));
    assert_eq!(cycle(3, Some(1), 1), Some(2));
}

#[test]
fn cycle_wraps_long_steps_both_ways() {
    assert_eq!(cycle(4, Some(1), 9), Some(2));
    assert_eq!(cycle(4, Some(1), -6), Some(3));
    assert_eq!(cycle(1, Some(0), -1), Some(0));
    assert_eq!(cycle(5, None, 0), Some(0));
}

#[test]
fn stepping_walks_the_zone_order() {
    let zones = [ZoneId(7), ZoneId(3), ZoneId(9)];
    assert_eq!(step_in(&zones, None, 1), Some(ZoneId(7)));
    assert_eq!(step_in(&zones, None, -1), Some(ZoneId(9)));
    assert_eq!(step_in(&zones, Some(ZoneId(7)), 1), Some(ZoneId(3)));
    assert_eq!(step_in(&zones, Some(ZoneId(9)), 1), Some(ZoneId(7)));
    assert_eq!(step_in(&zones, Some(ZoneId(7)), -1), Some(ZoneId(9)));
    // An unknown current starts over.
    assert_eq!(step_in(&zones, Some(ZoneId(42)), 1), Some(ZoneId(7)));
    assert_eq!(step_in(&[], Some(ZoneId(7)), 1), None);
}
