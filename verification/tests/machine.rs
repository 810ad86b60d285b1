use dioxus_dnd::types::TouchSense;
use dioxus_dnd::machine::{
    arms_hold_timer, press_plan, release_streak, GestureEffect, GestureEvent, GesturePhase, Promotion, Travel,
    RELEASE_RECOVERY_MOVES,
};

#[derive(Debug, Clone, Copy, PartialEq, Default)]
struct Point {
    x: f64,
    y: f64,
}

impl Point {
    fn new(x: f64, y: f64) -> Self {
        Point { x, y }
    }
}

const T: f64 = 8.0;

/// The host's measurement of a move against the pressed origin.
fn travel_of(phase: GesturePhase<Point>, event: GestureEvent<Point>, threshold: f64) -> Travel {
    match (phase, event) {
        (GesturePhase::Pressed { origin, .. }, GestureEvent::Move { at, .. }) => {
            let dx = at.x - origin.x;
            let dy = at.y - origin.y;
            if (dx * dx + dy * dy).sqrt() < threshold {
                Travel::BelowThreshold
            } else if dx.abs() > dy.abs() {
                Travel::Sideways
            } else {
                Travel::Steep
            }
        }
        _ => Travel::BelowThreshold,
    }
}

fn transition(
    p: GesturePhase<Point>,
    ev: GestureEvent<Point>,
    threshold: f64,
) -> (GesturePhase<Point>, GestureEffect<Point>) {
    dioxus_dnd::machine::transition(p, ev, travel_of(p, ev, threshold))
}

fn transition_with(
    p: GesturePhase<Point>,
    ev: GestureEvent<Point>,
    threshold: f64,
    promotion: Promotion,
) -> (GesturePhase<Point>, GestureEffect<Point>) {
    dioxus_dnd::machine::transition_with(p, ev, travel_of(p, ev, threshold), promotion)
}

fn down(x: f64, y: f64, pid: i32) -> GestureEvent<Point> {
    GestureEvent::Down {
        at: Point::new(x, y),
        pointer_id: pid,
    }
}
fn mv(x: f64, y: f64, pid: i32) -> GestureEvent<Point> {
    GestureEvent::Move {
        at: Point::new(x, y),
        pointer_id: pid,
    }
}
fn up(x: f64, y: f64, pid: i32) -> GestureEvent<Point> {
    GestureEvent::Up {
        at: Point::new(x, y),
        pointer_id: pid,
    }
}
fn hold(pid: i32) -> GestureEvent<Point> {
    GestureEvent::Hold { pointer_id: pid }
}

fn step_auto(
    p: GesturePhase<Point>,
    ev: GestureEvent<Point>,
) -> (GesturePhase<Point>, GestureEffect<Point>) {
    transition_with(p, ev, T, Promotion::HoldOrSideways)
}

#[test]
fn full_drag_lifecycle() {
    let (p, fx) = transition(GesturePhase::Idle, down(0.0, 0.0, 1), T);
    assert_eq!(fx, GestureEffect::Inert);

    let (p, fx) = transition(p, mv(3.0, 3.0, 1), T);
    assert!(matches!(p, GesturePhase::Pressed { .. }));
    assert_eq!(fx, GestureEffect::Inert);

    let (p, fx) = transition(p, mv(10.0, 0.0, 1), T);
    assert_eq!(
        fx,
        GestureEffect::Begin {
            origin: Point::new(0.0, 0.0),
            at: Point::new(10.0, 0.0)
        }
    );

    let (p, fx) = transition(p, mv(20.0, 5.0, 1), T);
    assert_eq!(
        fx,
        GestureEffect::Track {
            at: Point::new(20.0, 5.0)
        }
    );

    let (p, fx) = transition(p, up(20.0, 5.0, 1), T);
    assert_eq!(p, GesturePhase::Idle);
    assert_eq!(
        fx,
        GestureEffect::Drop {
            at: Point::new(20.0, 5.0)
        }
    );
}

#[test]
fn release_before_threshold_is_a_tap() {
    let (p, _) = transition(GesturePhase::Idle, down(0.0, 0.0, 1), T);
    let (p, fx) = transition(p, up(2.0, 2.0, 1), T);
    assert_eq!(p, GesturePhase::Idle);
    assert_eq!(fx, GestureEffect::Tap);
}

#[test]
fn foreign_pointer_ids_are_ignored() {
    let (p, _) = transition(GesturePhase::Idle, down(0.0, 0.0, 1), T);
    let (p, fx) = transition(p, mv(100.0, 100.0, 2), T);
    assert!(matches!(p, GesturePhase::Pressed { .. }));
    assert_eq!(fx, GestureEffect::Inert);
    let (p, fx) = transition(p, up(100.0, 100.0, 2), T);
    assert!(matches!(p, GesturePhase::Pressed { .. }));
    assert_eq!(fx, GestureEffect::Inert);
    let (p, fx) = transition(p, down(50.0, 50.0, 2), T);
    assert!(matches!(p, GesturePhase::Pressed { pointer_id: 1, .. }));
    assert_eq!(fx, GestureEffect::Inert);
}

#[test]
fn cancel_paths() {
    let (p, _) = transition(GesturePhase::Idle, down(0.0, 0.0, 1), T);
    let (p, _) = transition(p, mv(20.0, 0.0, 1), T);
    let (p, fx) = transition(p, GestureEvent::Cancel, T);
    assert_eq!((p, fx), (GesturePhase::Idle, GestureEffect::Abort));
    let (p, _) = transition(GesturePhase::Idle, down(0.0, 0.0, 1), T);
    let (p, fx) = transition(p, GestureEvent::Cancel, T);
    assert_eq!((p, fx), (GesturePhase::Idle, GestureEffect::Inert));
}

#[test]
fn stray_events_while_idle_are_inert() {
    for ev in [mv(9.0, 9.0, 1), up(9.0, 9.0, 1)] {
        let (p, fx) = transition(GesturePhase::Idle, ev, T);
        assert_eq!((p, fx), (GesturePhase::Idle, GestureEffect::Inert));
    }
}

#[test]
fn exact_threshold_promotes() {
    let (p, _) = transition(GesturePhase::Idle, down(0.0, 0.0, 1), T);
    let (_, fx) = transition(p, mv(8.0, 0.0, 1), T);
    assert!(matches!(fx, GestureEffect::Begin { .. }));
}

#[test]
fn hold_promotes_at_the_press_origin() {
    let (p, _) = step_auto(GesturePhase::Idle, down(5.0, 5.0, 1));
    let (p, fx) = step_auto(p, hold(1));
    assert!(matches!(p, GesturePhase::Dragging { .. }));
    assert_eq!(
        fx,
        GestureEffect::Begin {
            origin: Point::new(5.0, 5.0),
            at: Point::new(5.0, 5.0)
        }
    );
    let (_, fx) = step_auto(p, mv(5.0, 40.0, 1));
    assert_eq!(
        fx,
        GestureEffect::Track {
            at: Point::new(5.0, 40.0)
        }
    );
}

#[test]
fn stale_or_foreign_hold_is_inert() {
    let (p, _) = step_auto(GesturePhase::Idle, down(0.0, 0.0, 1));
    let (p2, fx) = step_auto(p, hold(2));
    assert_eq!((p2, fx), (p, GestureEffect::Inert));
    let (p, fx) = step_auto(GesturePhase::Idle, hold(1));
    assert_eq!((p, fx), (GesturePhase::Idle, GestureEffect::Inert));
    let (p, _) = step_auto(GesturePhase::Idle, down(0.0, 0.0, 1));
    let (p, _) = step_auto(p, hold(1));
    let (p2, fx) = step_auto(p, hold(1));
    assert_eq!((p2, fx), (p, GestureEffect::Inert));
    let (p, _) = transition(GesturePhase::Idle, down(0.0, 0.0, 1), T);
    let (_, fx) = transition(p, hold(1), T);
    assert!(matches!(fx, GestureEffect::Begin { .. }));
}

#[test]
fn sideways_pull_promotes_under_auto() {
    let (p, _) = step_auto(GesturePhase::Idle, down(0.0, 0.0, 1));
    let (_, fx) = step_auto(p, mv(9.0, 4.0, 1));
    assert_eq!(
        fx,
        GestureEffect::Begin {
            origin: Point::new(0.0, 0.0),
            at: Point::new(9.0, 4.0)
        }
    );
}

#[test]
fn vertical_pull_yields_to_scroll_under_auto() {
    let (p, _) = step_auto(GesturePhase::Idle, down(0.0, 0.0, 1));
    let (p, fx) = step_auto(p, mv(1.0, 5.0, 1));
    assert!(matches!(p, GesturePhase::Pressed { .. }));
    assert_eq!(fx, GestureEffect::Inert);
    let (p, fx) = step_auto(p, mv(2.0, 12.0, 1));
    assert_eq!((p, fx), (GesturePhase::Idle, GestureEffect::Inert));
    let (p, _) = step_auto(GesturePhase::Idle, down(0.0, 0.0, 1));
    let (p, fx) = step_auto(p, mv(10.0, 10.0, 1));
    assert_eq!((p, fx), (GesturePhase::Idle, GestureEffect::Inert));
}

#[test]
fn distance_policy_promotes_vertical_pulls_unchanged() {
    let (p, _) = transition(GesturePhase::Idle, down(0.0, 0.0, 1), T);
    let (_, fx) = transition(p, mv(0.0, 12.0, 1), T);
    assert!(matches!(fx, GestureEffect::Begin { .. }));
}

#[test]
fn promotion_defaults_to_distance() {
    assert_eq!(Promotion::default(), Promotion::Distance);
}

#[test]
fn travel_is_consulted_only_for_a_pressed_move() {
    let pressed = GesturePhase::Pressed {
        origin: Point::new(0.0, 0.0),
        pointer_id: 3,
    };
    // An up never promotes, whatever the measured travel says.
    let (p, fx) =
        dioxus_dnd::machine::transition(pressed, up(50.0, 50.0, 3), Travel::Sideways);
    assert_eq!((p, fx), (GesturePhase::Idle, GestureEffect::Tap));
    // A steep pull under the distance policy begins at the current point.
    let (p, fx) = dioxus_dnd::machine::transition_with(
        pressed,
        mv(1.0, 30.0, 3),
        Travel::Steep,
        Promotion::Distance,
    );
    assert_eq!(
        p,
        GesturePhase::Dragging {
            origin: Point::new(0.0, 0.0),
            pointer_id: 3
        }
    );
    assert_eq!(
        fx,
        GestureEffect::Begin {
            origin: Point::new(0.0, 0.0),
            at: Point::new(1.0, 30.0)
        }
    );
}

#[test]
fn a_lost_release_needs_three_empty_moves_in_a_row() {
    assert_eq!(RELEASE_RECOVERY_MOVES, 3);
    let (s1, r1) = release_streak(true, true, 0);
    let (s2, r2) = release_streak(true, true, s1);
    assert!(!r1 && !r2);
    // A held move in between starts the count over.
    let (s3, r3) = release_streak(true, false, s2);
    assert_eq!((s3, r3), (0, false));
    let (a, _) = release_streak(true, true, s3);
    let (b, _) = release_streak(true, true, a);
    let (c, released) = release_streak(true, true, b);
    assert_eq!(c, 3);
    assert!(released);
    // Outside a drag nothing counts.
    assert_eq!(release_streak(false, true, 2), (0, false));
    assert_eq!(release_streak(true, true, u8::MAX), (u8::MAX, true));
}

#[test]
fn a_new_press_retires_stale_sessions_but_never_steals_a_live_drag() {
    let pressed: GesturePhase<Point> = GesturePhase::Pressed {
        origin: Point::new(0.0, 0.0),
        pointer_id: 4,
    };
    let dragging: GesturePhase<Point> = GesturePhase::Dragging {
        origin: Point::new(0.0, 0.0),
        pointer_id: 4,
    };
    assert_eq!(press_plan(GesturePhase::<Point>::Idle, false), (true, false));
    assert_eq!(press_plan(pressed, true), (true, false));
    assert_eq!(press_plan(dragging, true), (false, false));
    assert_eq!(press_plan(dragging, false), (false, true));
}

#[test]
fn only_touch_and_pen_presses_under_auto_arm_the_hold_clock() {
    let pressed: GesturePhase<Point> = GesturePhase::Pressed {
        origin: Point::new(0.0, 0.0),
        pointer_id: 4,
    };
    assert!(arms_hold_timer(TouchSense::Auto, "touch", pressed, 4));
    assert!(arms_hold_timer(TouchSense::Auto, "pen", pressed, 4));
    assert!(!arms_hold_timer(TouchSense::Auto, "mouse", pressed, 4));
    assert!(!arms_hold_timer(TouchSense::Immediate, "touch", pressed, 4));
    assert!(!arms_hold_timer(TouchSense::Auto, "touch", pressed, 5));
    assert!(!arms_hold_timer(TouchSense::Auto, "touch", GesturePhase::<Point>::Idle, 4));
}
