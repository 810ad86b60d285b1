use dioxus_dnd::scroll_clock::{
    external_pointer_sample, ClockOwner, ClockToken, FrameAction, ScrollClock, ScrollCoordinator,
};

type Rect = (f64, f64, f64, f64);
type Point = (f64, f64);

fn contains(r: &Rect, p: Point) -> bool {
    p.0 >= r.0 && p.0 <= r.0 + r.2 && p.1 >= r.1 && p.1 <= r.1 + r.3
}

/// The area rank of a container holding `p`, as the host computes it.
fn rank_at(p: Point) -> impl Fn(&Rect) -> Option<u64> {
    move |r: &Rect| {
        if contains(r, p) {
            Some((r.2.max(0.0) * r.3.max(0.0)) as u64)
        } else {
            None
        }
    }
}

fn clock_shown(c: &ScrollClock<Point>) -> bool {
    c.running && c.owner.is_some()
}

#[test]
fn external_pointer_requires_an_explicit_active_gate() {
    let point: Point = (5.0, 5.0);
    assert_eq!(external_pointer_sample(Some(true), Some(point)), Some(point));
    assert_eq!(external_pointer_sample(Some(false), Some(point)), None);
    assert_eq!(external_pointer_sample(None, Some(point)), None);
    assert_eq!(external_pointer_sample::<Point>(Some(true), None), None);
}

#[test]
fn external_pointer_prop_changes_start_and_stop_the_clock() {
    let mut clock: ScrollClock<Point> = ScrollClock::new();
    let mut coordinator: ScrollCoordinator<Rect> = ScrollCoordinator::new();
    let point: Point = (5.0, 5.0);

    clock.external_feed(&mut coordinator, 1, Some(false), None);
    assert!(!clock_shown(&clock));

    clock.external_feed(&mut coordinator, 1, Some(true), Some(point));
    assert!(clock_shown(&clock));

    clock.external_feed(&mut coordinator, 1, None, Some(point));
    assert!(!clock_shown(&clock));

    clock.external_feed(&mut coordinator, 1, Some(true), Some(point));
    assert!(clock_shown(&clock));

    clock.external_feed(&mut coordinator, 1, Some(true), None);
    assert!(!clock_shown(&clock));
}

#[test]
fn nested_coordinator_hands_boundary_to_outer_container() {
    let mut coordinator: ScrollCoordinator<Rect> = ScrollCoordinator::new();
    let outer = 1u64;
    let inner = 2u64;
    let point: Point = (50.0, 50.0);
    coordinator.update(outer, (0.0, 0.0, 200.0, 200.0), true);
    coordinator.update(inner, (25.0, 25.0, 50.0, 50.0), true);
    assert_eq!(coordinator.owner(rank_at(point)), Some(inner));
    coordinator.set_blocked(inner, true);
    assert_eq!(coordinator.owner(rank_at(point)), Some(outer));
}

#[test]
fn owner_ignores_unavailable_and_distant_containers() {
    let mut coordinator: ScrollCoordinator<Rect> = ScrollCoordinator::new();
    coordinator.update(1, (0.0, 0.0, 200.0, 200.0), false);
    coordinator.update(2, (300.0, 300.0, 10.0, 10.0), true);
    assert_eq!(coordinator.owner(rank_at((50.0, 50.0))), None);
    // Equal areas: the earlier registration wins.
    coordinator.update(3, (0.0, 0.0, 100.0, 100.0), true);
    coordinator.update(4, (10.0, 10.0, 100.0, 100.0), true);
    assert_eq!(coordinator.owner(rank_at((50.0, 50.0))), Some(3));
    coordinator.unregister(3);
    assert_eq!(coordinator.owner(rank_at((50.0, 50.0))), Some(4));
    assert_eq!(coordinator.entries().len(), 3);
}

#[test]
fn remeasuring_keeps_the_blocked_bit_until_a_fresh_sample() {
    let mut coordinator: ScrollCoordinator<Rect> = ScrollCoordinator::new();
    let mut clock: ScrollClock<Point> = ScrollClock::new();
    coordinator.update(7, (0.0, 0.0, 100.0, 100.0), true);
    coordinator.set_blocked(7, true);
    coordinator.update(7, (0.0, 0.0, 120.0, 100.0), true);
    assert!(coordinator.entries()[0].blocked);
    clock.start_clock(&mut coordinator, 7, (1.0, 1.0), ClockOwner::Pointer);
    assert!(!coordinator.entries()[0].blocked);
}

#[test]
fn start_and_stop_follow_the_owning_input() {
    let mut coordinator: ScrollCoordinator<Rect> = ScrollCoordinator::new();
    let mut clock: ScrollClock<Point> = ScrollClock::new();
    clock.start_clock(&mut coordinator, 1, (1.0, 1.0), ClockOwner::Pointer);
    assert_eq!(clock.epoch, 1);
    assert_eq!(clock.generation, 1);
    // Same owner again: only the point moves, the run goes on.
    clock.start_clock(&mut coordinator, 1, (2.0, 2.0), ClockOwner::Pointer);
    assert_eq!(clock.epoch, 1);
    assert_eq!(clock.latest, Some((2.0, 2.0)));
    // Another input cannot stop it.
    clock.stop_clock(ClockOwner::NativeDrag);
    assert!(clock.running);
    // Another input takes it over: a new run.
    clock.start_clock(&mut coordinator, 1, (3.0, 3.0), ClockOwner::NativeDrag);
    assert_eq!(clock.epoch, 2);
    assert_eq!(clock.generation, 2);
    assert_eq!(clock.owner, Some(ClockOwner::NativeDrag));
    clock.stop_clock(ClockOwner::NativeDrag);
    assert!(!clock.running);
    assert_eq!(clock.owner, None);
    assert_eq!(clock.epoch, 3);
}

#[test]
fn stale_frames_never_scroll() {
    let mut coordinator: ScrollCoordinator<Rect> = ScrollCoordinator::new();
    let mut clock: ScrollClock<Point> = ScrollClock::new();
    clock.start_clock(&mut coordinator, 1, (50.0, 50.0), ClockOwner::Pointer);
    let token = clock.token().unwrap();
    assert!(clock.frame_begin(token));
    // A second frame while the first is in flight is dropped.
    assert!(!clock.frame_begin(token));
    clock.stop_clock(ClockOwner::Pointer);
    let action = clock.frame_measured(
        &mut coordinator,
        1,
        token,
        (0.0, 0.0, 100.0, 100.0),
        true,
        rank_at((50.0, 50.0)),
    );
    assert_eq!(action, FrameAction::Done);
    assert!(!clock.busy);
    assert!(coordinator.entries().is_empty());
    assert!(!clock.still_owned(token));
    let stale = ClockToken { owner: ClockOwner::Pointer, epoch: 1 };
    assert!(!clock.frame_begin(stale));
}

#[test]
fn a_frame_scrolls_then_hands_over_at_the_end() {
    let mut coordinator: ScrollCoordinator<Rect> = ScrollCoordinator::new();
    let mut clock: ScrollClock<Point> = ScrollClock::new();
    let point: Point = (50.0, 50.0);
    coordinator.update(1, (0.0, 0.0, 200.0, 200.0), true);
    clock.start_clock(&mut coordinator, 2, point, ClockOwner::Pointer);
    let token = clock.token().unwrap();
    assert!(clock.frame_begin(token));
    let action =
        clock.frame_measured(&mut coordinator, 2, token, (25.0, 25.0, 50.0, 50.0), true, rank_at(point));
    assert_eq!(action, FrameAction::Scroll);
    assert!(clock.busy);
    // It could not move: blocked, the clock stops, the outer one takes over.
    clock.frame_scrolled(&mut coordinator, 2, false);
    assert!(!clock.busy);
    assert!(!clock.running);
    assert_eq!(coordinator.owner(rank_at(point)), Some(1));
    clock.frame_ended(token);
    assert_eq!(clock.generation, 1);
}

#[test]
fn a_container_that_does_not_own_the_pointer_skips_its_frame() {
    let mut coordinator: ScrollCoordinator<Rect> = ScrollCoordinator::new();
    let mut clock: ScrollClock<Point> = ScrollClock::new();
    let point: Point = (50.0, 50.0);
    coordinator.update(2, (25.0, 25.0, 50.0, 50.0), true);
    clock.start_clock(&mut coordinator, 1, point, ClockOwner::Pointer);
    let token = clock.token().unwrap();
    assert!(clock.frame_begin(token));
    let action =
        clock.frame_measured(&mut coordinator, 1, token, (0.0, 0.0, 200.0, 200.0), true, rank_at(point));
    assert_eq!(action, FrameAction::Done);
    assert!(clock.running);
    assert!(!clock.busy);
    clock.frame_ended(token);
    assert_eq!(clock.generation, 2);
}

#[test]
fn nothing_to_move_stops_the_clock() {
    let mut coordinator: ScrollCoordinator<Rect> = ScrollCoordinator::new();
    let mut clock: ScrollClock<Point> = ScrollClock::new();
    clock.start_clock(&mut coordinator, 1, (50.0, 50.0), ClockOwner::External);
    let token = clock.token().unwrap();
    assert!(clock.frame_begin(token));
    let action = clock.frame_measured(
        &mut coordinator,
        1,
        token,
        (0.0, 0.0, 200.0, 200.0),
        false,
        rank_at((50.0, 50.0)),
    );
    assert_eq!(action, FrameAction::Done);
    assert!(!clock.running);
    assert_eq!(clock.epoch, 2);
    assert_eq!(coordinator.entries().len(), 1);
    assert!(!coordinator.entries()[0].available);
}

#[test]
fn native_drag_depth_stops_only_at_the_outermost_leave() {
    let mut coordinator: ScrollCoordinator<Rect> = ScrollCoordinator::new();
    let mut clock: ScrollClock<Point> = ScrollClock::new();
    clock.drag_enter();
    clock.drag_enter();
    clock.drag_over(&mut coordinator, 1, (5.0, 5.0));
    assert_eq!(clock.owner, Some(ClockOwner::NativeDrag));
    clock.drag_leave();
    assert!(clock.running);
    assert_eq!(clock.native_depth, 1);
    clock.drag_leave();
    assert!(!clock.running);
    assert_eq!(clock.native_depth, 0);
    clock.drag_leave();
    assert_eq!(clock.native_depth, 0);
    // A dragover without an enter counts as one level.
    clock.drag_over(&mut coordinator, 1, (5.0, 5.0));
    assert_eq!(clock.native_depth, 1);
    clock.drag_drop();
    assert!(!clock.running);
    assert_eq!(clock.native_depth, 0);
}
