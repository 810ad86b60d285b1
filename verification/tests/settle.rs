use dioxus_dnd::settle::{
    cleanup_generation, glide_for_generation, overlay_generation_key, SettleFlag, SettleGlide,
};

#[derive(Debug, Clone, Copy, PartialEq)]
struct Point {
    x: f64,
    y: f64,
}

#[test]
fn stale_glide_is_not_relabelled_as_its_successor() {
    let stale = SettleGlide {
        generation: 7,
        delta: Point { x: 10.0, y: 20.0 },
    };
    assert_eq!(glide_for_generation(Some(stale), Some(7)), Some(stale));
    assert_eq!(glide_for_generation(Some(stale), Some(8)), None);
    assert_ne!(
        overlay_generation_key(Some(7)),
        overlay_generation_key(Some(8))
    );
    assert_eq!(cleanup_generation(false, Some(7), Some(8)), Some(7));
    assert_eq!(cleanup_generation(true, None, Some(8)), Some(8));
    assert_eq!(cleanup_generation(true, Some(7), Some(8)), Some(8));
}

#[test]
fn overlay_keys_name_the_phase() {
    assert_eq!(overlay_generation_key(None), "drag");
    assert_eq!(overlay_generation_key(Some(12)), "settle-12");
    assert_eq!(cleanup_generation(true, Some(3), None), Some(3));
}

#[test]
fn only_the_holder_releases_the_settle_capability() {
    let mut flag = SettleFlag::new();
    assert!(!flag.is_armed());
    flag.arm(1);
    flag.arm(2);
    assert!(flag.is_armed());
    assert!(!flag.release(1), "a superseded overlay must not disarm its successor");
    assert!(flag.is_armed());
    assert!(flag.release(2));
    assert!(!flag.is_armed());
    assert!(!flag.release(2));
}
