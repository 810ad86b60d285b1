use dioxus_dnd::effects::DropEffects;
use dioxus_dnd::targeting::{first_accepted, negotiate_zone, sticky_hover, zone_marks, ZoneMarks};
use dioxus_dnd::types::{DragMode, DropEffect, EdgeSet, ZoneId};
use std::cell::Cell;

type Filter<'a> = Box<dyn FnOnce() -> bool + 'a>;

#[test]
fn negotiation_runs_filters_lazily() {
    let calls = Cell::new(0);
    let refuse = || {
        calls.set(calls.get() + 1);
        false
    };
    let query = || {
        calls.set(calls.get() + 10);
        true
    };
    let r = negotiate_zone(
        DropEffect::Move,
        Some(refuse),
        Some(query),
        DropEffects::standard(),
    );
    assert_eq!(r, None);
    assert_eq!(calls.get(), 1);

    let never: Option<Filter> = Some(Box::new(|| panic!("no effect proposed")));
    assert_eq!(
        negotiate_zone(DropEffect::Disabled, never, None::<Filter>, DropEffects::all()),
        None
    );
}

#[test]
fn negotiation_grants_the_allowed_effect() {
    assert_eq!(
        negotiate_zone(
            DropEffect::Copy,
            None::<Filter>,
            None::<Filter>,
            DropEffects::standard()
        ),
        Some(DropEffect::Copy)
    );
    assert_eq!(
        negotiate_zone(
            DropEffect::Link,
            Some(|| true),
            Some(|| true),
            DropEffects::only(DropEffect::Move)
        ),
        Some(DropEffect::Move)
    );
    assert_eq!(
        negotiate_zone(
            DropEffect::Move,
            Some(|| true),
            Some(|| false),
            DropEffects::all()
        ),
        None
    );
}

#[test]
fn the_best_ranked_acceptable_zone_wins() {
    let accepted = [
        (ZoneId(2), DropEffect::Copy),
        (ZoneId(5), DropEffect::Move),
    ];
    assert_eq!(
        first_accepted(&[ZoneId(9), ZoneId(5), ZoneId(2)], &accepted),
        Some((ZoneId(5), DropEffect::Move))
    );
    assert_eq!(first_accepted(&[ZoneId(9)], &accepted), None);
    assert_eq!(first_accepted(&[], &accepted), None);
}

#[test]
fn exact_hover_wins_and_stickiness_keeps_only_the_current_zone() {
    let exact = Some((ZoneId(1), DropEffect::Move));
    let asked = Cell::new(0);
    let retain = |_: ZoneId| {
        asked.set(asked.get() + 1);
        Some(DropEffect::Copy)
    };
    assert_eq!(sticky_hover(exact, true, Some(ZoneId(2)), retain), exact);
    assert_eq!(asked.get(), 0);
    assert_eq!(sticky_hover(None, false, Some(ZoneId(2)), |_| Some(DropEffect::Copy)), None);
    assert_eq!(sticky_hover(None, true, None, |_| Some(DropEffect::Copy)), None);
    assert_eq!(
        sticky_hover(None, true, Some(ZoneId(2)), |z| if z == ZoneId(2) {
            Some(DropEffect::Link)
        } else {
            None
        }),
        Some((ZoneId(2), DropEffect::Link))
    );
    assert_eq!(sticky_hover(None, true, Some(ZoneId(2)), |_| None), None);
}

#[test]
fn zones_mark_only_acceptable_drags() {
    assert_eq!(
        zone_marks(true, true, true, DragMode::Pointer, Some(EdgeSet::Vertical)),
        ZoneMarks {
            active: true,
            over: true,
            edge: Some(EdgeSet::Vertical)
        }
    );
    assert_eq!(
        zone_marks(true, false, true, DragMode::Pointer, Some(EdgeSet::All)),
        ZoneMarks {
            active: false,
            over: false,
            edge: None
        }
    );
    // Keyboard drags show no edge.
    assert_eq!(
        zone_marks(true, true, true, DragMode::Keyboard, Some(EdgeSet::All)).edge,
        None
    );
    assert!(!zone_marks(false, true, false, DragMode::Pointer, None).active);
}
