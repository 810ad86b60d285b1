use dioxus_dnd::ids::{AutoIds, Counter};
use dioxus_dnd::types::{DragId, DragSessionId, ZoneId, AUTO_ID_BASE};

#[test]
fn drag_session_ids_are_fresh_for_each_gesture() {
    let mut sessions = Counter::new();
    let first = DragSessionId::auto(&mut sessions);
    let second = DragSessionId::auto(&mut sessions);

    assert_ne!(first, second);
    assert!(second.0 > first.0);
}

#[test]
fn auto_ids_stay_above_the_explicit_range() {
    let mut ids = AutoIds::new();
    for _ in 0..64 {
        assert!(ZoneId::auto(&mut ids).0 >= AUTO_ID_BASE);
        assert!(DragId::auto(&mut ids).0 >= AUTO_ID_BASE);
    }
}

#[test]
fn zone_and_item_ids_share_one_sequence() {
    let mut ids = AutoIds::new();
    let zone = ZoneId::auto(&mut ids);
    let item = DragId::auto(&mut ids);
    let next_zone = ZoneId::auto(&mut ids);
    assert_eq!(zone.0, AUTO_ID_BASE);
    assert_eq!(item.0, AUTO_ID_BASE + 1);
    assert_eq!(next_zone.0, AUTO_ID_BASE + 2);
    assert!(zone.is_auto());
}

#[test]
fn session_ids_start_at_one() {
    let mut sessions = Counter::new();
    assert_eq!(DragSessionId::auto(&mut sessions), DragSessionId(1));
    assert_eq!(DragSessionId::auto(&mut sessions), DragSessionId(2));
}
