use dioxus_dnd::ids::Counter;
use dioxus_dnd::lifecycle::{DragLifecycle, DragPhase};
use dioxus_dnd::types::{DragId, DragMode, EdgeSet, DragSessionId, DropEffect, KeyModifiers, PointerKind, ZoneId};
use dioxus_dnd::world::{
    default_bridging, outcome_edges_of, settle_destination_of, take_for_delivery, DeliveryCompletion, Resume, SettleClaim, WindowKey, WorldState, ZoneLocation,
};

#[derive(Debug, Clone, Copy, PartialEq)]
struct Rect {
    x: f64,
    y: f64,
    width: f64,
    height: f64,
}

type Dnd = DragLifecycle<String, Rect>;

fn start(dnd: &mut Dnd, payload: &str, source: Option<ZoneId>, session: Option<DragSessionId>) {
    dnd.begin(
        payload.to_string(),
        source,
        DropEffect::Move,
        DragMode::Pointer,
        PointerKind::Mouse,
        DragId(1),
        false,
        session,
    );
}

fn rect() -> Rect {
    Rect {
        x: 0.0,
        y: 0.0,
        width: 10.0,
        height: 10.0,
    }
}

#[test]
fn window_keys_are_unique() {
    let mut keys = Counter::new();
    let a = WindowKey::auto(&mut keys);
    let b = WindowKey::auto(&mut keys);
    assert_ne!(a, b);
}

#[test]
fn source_completion_started_drag_owns_replacement_metadata() {
    let mut keys = Counter::new();
    let mut generations = Counter::new();
    let mut dnd = Dnd::new();
    let mut world = WorldState::new();
    let first_origin = WindowKey::auto(&mut keys);
    let replacement = WindowKey::auto(&mut keys);
    let session = DragSessionId(7);

    start(&mut dnd, "first", None, Some(session));
    world.begin_from(&dnd, first_origin, generations.take_next());
    assert_eq!(world.drag_session(), Some(session));

    assert!(dnd.take().is_some());
    let notice = world.finish_session(&mut dnd, session, true).expect("finished");
    // The source hears "dropped" and synchronously starts a replacement.
    assert!(notice.notify);
    start(&mut dnd, "replacement", None, None);
    world.begin_from(&dnd, replacement, generations.take_next());
    world.resume(&mut dnd, notice.resume);

    assert!(dnd.dragging());
    assert_eq!(dnd.payload().as_deref(), Some("replacement"));
    assert_eq!(world.active.map(|drag| drag.origin), Some(replacement));
    assert_eq!(world.drag_session(), None);
    assert!(world.finish_untracked(&mut dnd, false).is_none());
    assert_eq!(world, WorldState::new());
}

#[test]
fn stale_generation_cannot_finish_its_successor() {
    let mut keys = Counter::new();
    let mut generations = Counter::new();
    let mut dnd = Dnd::new();
    let mut world = WorldState::new();
    let origin = WindowKey::auto(&mut keys);
    let presenter = WindowKey::auto(&mut keys);
    start(&mut dnd, "payload", None, None);
    world.begin_from(&dnd, origin, generations.take_next());
    world.claim_settle(presenter, generations.take_next());
    assert!(dnd.take_settling(rect()).is_some());
    let stale = world.settle_token(&dnd, presenter).unwrap();

    world.claim_settle(presenter, generations.take_next());
    let successor = world.settle_token(&dnd, presenter).unwrap();
    assert_ne!(stale, successor);
    assert!(!world.finish_settle_generation(&mut dnd, presenter, stale));
    assert!(dnd.settling().is_some());
    assert!(world.finish_settle_generation(&mut dnd, presenter, successor));
    assert!(dnd.payload().is_none());
}

#[test]
fn cancelled_context_settle_retires_the_claim_tokens() {
    let mut keys = Counter::new();
    let mut generations = Counter::new();
    let mut dnd = Dnd::new();
    let mut world = WorldState::new();
    let origin = WindowKey::auto(&mut keys);
    let presenter = WindowKey::auto(&mut keys);
    start(&mut dnd, "payload", None, None);
    world.begin_from(&dnd, origin, generations.take_next());
    world.claim_settle(presenter, generations.take_next());
    assert!(dnd.take_settling(rect()).is_some());
    assert!(world.settle_token(&dnd, presenter).is_some());

    dnd.cancel();
    assert_eq!(world.settle_token(&dnd, presenter), None);
    assert_eq!(world.settling_in(&dnd), None);
    assert!(!world.finish_settle_from(&mut dnd, presenter));
}

#[test]
fn closing_the_origin_window_cancels_its_drag() {
    let mut keys = Counter::new();
    let mut dnd = Dnd::new();
    let mut world = WorldState::new();
    let origin = WindowKey::auto(&mut keys);
    let other = WindowKey::auto(&mut keys);
    start(&mut dnd, "payload", Some(ZoneId(3)), None);
    world.begin_from(&dnd, origin, 1);
    assert_eq!(
        world.source_location(),
        Some(ZoneLocation {
            window: origin,
            zone: ZoneId(3)
        })
    );
    world.enter_location(
        &mut dnd,
        ZoneLocation {
            window: other,
            zone: ZoneId(9),
        },
    );
    assert!(world.is_over(other, ZoneId(9)));
    assert_eq!(dnd.over(), Some(ZoneId(9)));

    // The hovered window closes first: only the hover goes.
    assert!(world.leave(&mut dnd, other, false).is_none());
    assert_eq!(dnd.over(), None);
    assert!(dnd.dragging());
    assert_eq!(world.origin_window(&dnd), Some(origin));

    // Then the origin: the drag ends and the world forgets it.
    assert!(world.leave(&mut dnd, origin, false).is_none());
    assert!(!dnd.dragging());
    assert_eq!(world, WorldState::new());
}

#[test]
fn closing_the_origin_abandons_a_tracked_source_silently() {
    let mut dnd = Dnd::new();
    let mut world = WorldState::new();
    let origin = WindowKey(1);
    let session = DragSessionId(4);
    start(&mut dnd, "payload", None, Some(session));
    world.begin_from(&dnd, origin, 1);
    assert!(world.leave(&mut dnd, origin, true).is_none());
    assert_eq!(dnd.active_session(), None);
    assert_eq!(dnd.phase(), DragPhase::Idle);
    assert_eq!(world, WorldState::new());
}

#[test]
fn a_receiver_settle_survives_its_origin_closing() {
    let mut dnd = Dnd::new();
    let mut world = WorldState::new();
    let origin = WindowKey(1);
    let receiver = WindowKey(2);
    start(&mut dnd, "payload", None, None);
    world.begin_from(&dnd, origin, 1);
    world.claim_settle(receiver, 5);
    assert!(dnd.take_settling(rect()).is_some());
    assert!(world.leave(&mut dnd, origin, false).is_none());
    assert_eq!(world.settling_in(&dnd), Some(receiver));
    // The receiver lands it.
    assert!(world.leave(&mut dnd, receiver, false).is_none());
    assert_eq!(dnd.phase(), DragPhase::Idle);
    assert_eq!(world, WorldState::new());
}

#[test]
fn host_cancel_notifies_a_tracked_source_once() {
    let mut dnd = Dnd::new();
    let mut world = WorldState::new();
    let session = DragSessionId(2);
    start(&mut dnd, "payload", None, Some(session));
    world.begin_from(&dnd, WindowKey(1), 3);
    assert_eq!(world.drag_generation(), Some((3, Some(session))));
    assert!(world.is_drag_generation(&dnd, 3, Some(session)));
    assert!(!world.is_drag_generation(&dnd, 2, Some(session)));

    let notice = world.cancel_drag(&mut dnd).expect("tracked source");
    assert!(!notice.notify);
    assert_eq!(
        notice.resume,
        Resume::Session {
            session,
            result: false,
            owns_metadata: true
        }
    );
    world.resume(&mut dnd, notice.resume);
    assert_eq!(world, WorldState::new());
    assert!(world.cancel_drag(&mut dnd).is_none());
    assert!(world.finish_session(&mut dnd, session, false).is_none());
}

#[test]
fn world_delivery_commits_before_the_receiver_and_finalizes_after() {
    let mut dnd = Dnd::new();
    let mut world = WorldState::new();
    let session = DragSessionId(8);
    start(&mut dnd, "payload", None, Some(session));
    world.begin_from(&dnd, WindowKey(1), 1);
    world.claim_settle(WindowKey(2), 2);
    let completion = DeliveryCompletion::World(world.drag_session());

    assert!(dnd.take_settling(rect()).is_some());
    completion.commit(&world, &mut dnd);
    assert_eq!(dnd.session_result(session), Some(true));
    let notice = completion.finalize(&mut world, &mut dnd).expect("notify");
    assert!(notice.notify);
    world.resume(&mut dnd, notice.resume);
    // The settle keeps presenting; only the hover and session go.
    assert_eq!(world.settling_in(&dnd), Some(WindowKey(2)));
    assert_eq!(world.drag_session(), None);
    assert_eq!(
        world.settle_presenter(),
        Some(WindowKey(2))
    );
    assert_eq!(
        world.claim,
        Some(SettleClaim {
            presenter: WindowKey(2),
            generation: 2
        })
    );
}

#[test]
fn modifiers_follow_the_host_only_while_dragging() {
    let mut dnd = Dnd::new();
    let mut world = WorldState::new();
    let ctrl = KeyModifiers {
        ctrl: true,
        meta: false,
        alt: false,
        shift: false,
    };
    world.update_modifiers(&dnd, ctrl);
    assert_eq!(world.modifiers(), KeyModifiers::empty());
    start(&mut dnd, "payload", None, None);
    world.begin_from(&dnd, WindowKey(1), 1);
    world.update_modifiers(&dnd, ctrl);
    assert_eq!(world.modifiers(), ctrl);
    assert!(WorldState::tracks_pointer(&dnd));
}

#[test]
fn bridging_defaults_on_unless_no_bridge_is_meaningfully_set() {
    assert!(default_bridging(None));
    assert!(default_bridging(Some("")));
    assert!(default_bridging(Some("0")));
    assert!(!default_bridging(Some("1")));
    assert!(!default_bridging(Some("true")));
}

#[test]
fn pointer_drops_settle_when_armed_and_keyboard_drops_never_do() {
    assert_eq!(settle_destination_of(DragMode::Pointer, true, Some(rect())), Some(rect()));
    assert_eq!(settle_destination_of(DragMode::Pointer, false, Some(rect())), None);
    assert_eq!(settle_destination_of(DragMode::Keyboard, true, Some(rect())), None);
    assert_eq!(
        outcome_edges_of(DragMode::Pointer, Some(EdgeSet::All), Some(rect())),
        Some((EdgeSet::All, rect()))
    );
    assert_eq!(outcome_edges_of(DragMode::Keyboard, Some(EdgeSet::All), Some(rect())), None);

    // A settling pointer delivery elects the presenter and keeps the payload readable.
    let mut dnd = Dnd::new();
    let mut world = WorldState::new();
    let session = DragSessionId(3);
    start(&mut dnd, "payload", Some(ZoneId(1)), Some(session));
    world.begin_from(&dnd, WindowKey(1), 1);
    let completion = DeliveryCompletion::World(world.drag_session());
    let taken = take_for_delivery(&mut world, &mut dnd, true, Some(rect()), Some((WindowKey(2), 7)), completion);
    assert_eq!(taken, Some(("payload".to_string(), Some(ZoneId(1)))));
    assert_eq!(dnd.phase(), DragPhase::Settling);
    assert_eq!(dnd.session_result(session), Some(true));
    assert_eq!(world.settle_token(&dnd, WindowKey(2)), Some(7));

    // A keyboard delivery never settles.
    let mut dnd = Dnd::new();
    let mut world = WorldState::new();
    dnd.begin(
        "key".to_string(),
        None,
        DropEffect::Move,
        DragMode::Keyboard,
        PointerKind::Mouse,
        DragId(1),
        false,
        None,
    );
    let taken = take_for_delivery(&mut world, &mut dnd, true, Some(rect()), Some((WindowKey(2), 8)), DeliveryCompletion::Unowned);
    assert_eq!(taken, Some(("key".to_string(), None)));
    assert_eq!(dnd.phase(), DragPhase::Idle);
    assert_eq!(world.claim, None);
    // Nothing in flight: nothing taken.
    assert_eq!(take_for_delivery(&mut world, &mut dnd, true, None, None, DeliveryCompletion::Unowned), None);
}
