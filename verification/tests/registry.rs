use dioxus_dnd::registry::{ZoneRegistration, ZoneTable};
use dioxus_dnd::types::ZoneId;

#[test]
fn replacement_keeps_its_slot_and_retires_the_old_token() {
    let mut table: ZoneTable<&str> = ZoneTable::new();
    let a = table.register(ZoneId(1), "column a", 10);
    let b = table.register(ZoneId(2), "column b", 11);
    assert!(table.is_current(a));
    assert!(table.is_current(b));
    assert_eq!(table.len(), 2);

    // A keyed re-mount registers the same id again before the old cleanup.
    let a2 = table.register(ZoneId(1), "column a, again", 12);
    assert_eq!(table.position(ZoneId(1)), Some(0), "same-id replacement keeps its slot");
    assert!(!table.is_current(a));
    assert!(table.is_current(a2));
    assert_eq!(table.get(ZoneId(1)), Some(&"column a, again"));

    // The old component's cleanup must not delete the replacement.
    assert!(!table.unregister_registration(a));
    assert!(table.contains(ZoneId(1)));
    // Nor may a stale measurement overwrite it.
    assert!(!table.update_if_current(a, "stale"));
    assert!(table.update_if_current(a2, "measured"));
    assert_eq!(table.get(ZoneId(1)), Some(&"measured"));

    assert!(table.unregister_registration(a2));
    assert!(!table.contains(ZoneId(1)));
    assert_eq!(table.current_registration(ZoneId(2)), Some(b));
    assert_eq!(table.entries().len(), 1);
    assert!(!table.unregister(ZoneId(1)));
}

#[test]
fn tokens_expose_their_parts() {
    let t = ZoneRegistration::new(ZoneId(4), 99);
    assert_eq!(t.id(), ZoneId(4));
    assert_eq!(t.generation(), 99);
    let mut table: ZoneTable<u8> = ZoneTable::new();
    assert_eq!(table.register(ZoneId(4), 1, 99), t);
    assert_eq!(table.current_registration(ZoneId(5)), None);
    assert!(table.unregister(ZoneId(4)));
    assert!(!table.is_current(t));
}

#[test]
fn filtered_ids_keep_registration_order_and_ascent_needs_a_registered_parent() {
    let mut table: ZoneTable<(Option<ZoneId>, bool)> = ZoneTable::new();
    table.register(ZoneId(1), (None, true), 1);
    table.register(ZoneId(2), (Some(ZoneId(1)), false), 2);
    table.register(ZoneId(3), (Some(ZoneId(1)), true), 3);
    table.register(ZoneId(4), (Some(ZoneId(9)), true), 4);
    let accepted = table.ids_where(|zone: &(Option<ZoneId>, bool)| zone.1);
    assert_eq!(accepted, vec![ZoneId(1), ZoneId(3), ZoneId(4)]);
    let children = table.ids_where(|zone: &(Option<ZoneId>, bool)| {
        zone.0 == Some(ZoneId(1))
    });
    assert_eq!(children, vec![ZoneId(2), ZoneId(3)]);
    assert_eq!(table.ascend(ZoneId(3), |zone: &(Option<ZoneId>, bool)| zone.0), Some(ZoneId(1)));
    // A parent registered elsewhere is not entered.
    assert_eq!(table.ascend(ZoneId(4), |zone: &(Option<ZoneId>, bool)| zone.0), None);
    assert_eq!(table.ascend(ZoneId(1), |zone: &(Option<ZoneId>, bool)| zone.0), None);
    assert_eq!(table.ascend(ZoneId(7), |zone: &(Option<ZoneId>, bool)| zone.0), None);
}
