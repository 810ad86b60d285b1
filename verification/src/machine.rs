//! A formal state machine for pointer-driven drag gestures.
//!
//! The lifecycle every synthesized drag goes through - press, threshold
//! promotion, tracking, release or abort - is a pure transition function
//! over explicit states and events. Points are the host's own type `P`;
//! the one geometric question the machine asks (how far, and in which
//! direction, has the pointer travelled from the press origin?) arrives
//! already answered as a [`Travel`], so every decision here is exact.

use vstd::prelude::*;

use crate::types::{same_text, TouchSense};

verus! {

/// Where a pointer gesture currently stands.
#[derive(Debug, Clone, Copy, PartialEq)]
pub enum GesturePhase<P> {
    /// No interaction in progress.
    Idle,
    /// Pointer is down on a draggable but hasn't travelled past the
    /// threshold - could still resolve as a tap.
    Pressed {
        /// Where the press started (client coordinates).
        origin: P,
        /// The pointer that owns this gesture.
        pointer_id: i32,
    },
    /// An active drag.
    Dragging {
        /// Where the press started.
        origin: P,
        /// The pointer that owns this gesture.
        pointer_id: i32,
    },
}

/// An input to the machine.
#[derive(Debug, Clone, Copy, PartialEq)]
pub enum GestureEvent<P> {
    /// Pointer pressed.
    Down { at: P, pointer_id: i32 },
    /// Pointer moved.
    Move { at: P, pointer_id: i32 },
    /// Pointer released.
    Up { at: P, pointer_id: i32 },
    /// The press's hold timer elapsed while the pointer stayed put: a
    /// long-press. Inert in every phase but a matching press, so a stale
    /// timer firing after the gesture resolved is harmless.
    Hold { pointer_id: i32 },
    /// The platform cancelled the gesture (`pointercancel`).
    Cancel,
}

/// How a press gets promoted to a drag - the policy half of the touch
/// auto-sensor.
#[derive(Debug, Clone, Copy, PartialEq, Eq, Structural)]
pub enum Promotion {
    /// Travel in any direction past the threshold begins the drag (the
    /// default): the right policy for mouse and pen, and for touch surfaces
    /// that own every gesture.
    Distance,
    /// Touch sharing the viewport with native vertical scrolling: a hold or
    /// a sideways-dominant pull (|dx| > |dy|) past the threshold begins the
    /// drag, while a vertical-dominant pull resolves the press as scroll
    /// intent and the machine returns to `Idle` (an exact diagonal counts as
    /// scroll).
    HoldOrSideways,
}

impl Default for Promotion {
    fn default() -> (p: Self)
        ensures
            p == Promotion::Distance,
    {
        Promotion::Distance
    }
}

/// How far a move has travelled from the press origin, measured by the
/// host against the promotion threshold.
#[derive(Debug, Clone, Copy, PartialEq, Eq, Structural)]
pub enum Travel {
    /// Closer to the origin than the threshold.
    BelowThreshold,
    /// At least the threshold away, and more horizontal than vertical
    /// (|dx| > |dy|).
    Sideways,
    /// At least the threshold away, and at least as vertical as horizontal.
    Steep,
}

/// What the caller should do after a transition.
#[derive(Debug, Clone, Copy, PartialEq)]
pub enum GestureEffect<P> {
    /// Nothing - including events from foreign pointer ids, which the
    /// machine deliberately ignores.
    Inert,
    /// The threshold was crossed: begin the drag. `origin` is where the
    /// press started (use it for the grab offset), `at` is the current
    /// pointer position.
    Begin { origin: P, at: P },
    /// An active drag moved: track the pointer and update hover.
    Track { at: P },
    /// An active drag released: attempt the drop at `at`.
    Drop { at: P },
    /// The press resolved as a tap (released before the threshold).
    Tap,
    /// An active drag was aborted: clean up drag state.
    Abort,
}

/// The transition table. `travel` describes a `Move` relative to the
/// pressed origin and is consulted only for a `Move` of the owning pointer
/// while `Pressed`.
pub open spec fn step<P>(
    phase: GesturePhase<P>,
    event: GestureEvent<P>,
    travel: Travel,
    promotion: Promotion,
) -> (GesturePhase<P>, GestureEffect<P>) {
    match phase {
        GesturePhase::Idle => match event {
            GestureEvent::Down { at, pointer_id } => (
                GesturePhase::Pressed { origin: at, pointer_id },
                GestureEffect::Inert,
            ),
            _ => (phase, GestureEffect::Inert),
        },
        GesturePhase::Pressed { origin, pointer_id } => match event {
            GestureEvent::Move { at, pointer_id: pid } => if pid != pointer_id {
                (phase, GestureEffect::Inert)
            } else {
                match travel {
                    Travel::BelowThreshold => (phase, GestureEffect::Inert),
                    Travel::Sideways => (
                        GesturePhase::Dragging { origin, pointer_id },
                        GestureEffect::Begin { origin, at },
                    ),
                    Travel::Steep => if promotion == Promotion::Distance {
                        (
                            GesturePhase::Dragging { origin, pointer_id },
                            GestureEffect::Begin { origin, at },
                        )
                    } else {
                        (GesturePhase::Idle, GestureEffect::Inert)
                    },
                }
            },
            GestureEvent::Hold { pointer_id: pid } => if pid != pointer_id {
                (phase, GestureEffect::Inert)
            } else {
                (
                    GesturePhase::Dragging { origin, pointer_id },
                    GestureEffect::Begin { origin, at: origin },
                )
            },
            GestureEvent::Up { at, pointer_id: pid } => if pid != pointer_id {
                (phase, GestureEffect::Inert)
            } else {
                (GesturePhase::Idle, GestureEffect::Tap)
            },
            GestureEvent::Cancel => (GesturePhase::Idle, GestureEffect::Inert),
            GestureEvent::Down { .. } => (phase, GestureEffect::Inert),
        },
        GesturePhase::Dragging { origin, pointer_id } => match event {
            GestureEvent::Move { at, pointer_id: pid } => if pid != pointer_id {
                (phase, GestureEffect::Inert)
            } else {
                (phase, GestureEffect::Track { at })
            },
            GestureEvent::Up { at, pointer_id: pid } => if pid != pointer_id {
                (phase, GestureEffect::Inert)
            } else {
                (GesturePhase::Idle, GestureEffect::Drop { at })
            },
            GestureEvent::Cancel => (GesturePhase::Idle, GestureEffect::Abort),
            _ => (phase, GestureEffect::Inert),
        },
    }
}

/// Advance the machine under an explicit [`Promotion`] policy. Pure: same
/// inputs, same outputs, no side effects.
///
/// The policy only shapes how a pressed pointer becomes a drag; everything
/// after `Begin` is policy-independent. A long-press (`Hold`) promotes under
/// either policy, beginning at the press origin.
pub fn transition_with<P: Copy>(
    phase: GesturePhase<P>,
    event: GestureEvent<P>,
    travel: Travel,
    promotion: Promotion,
) -> (r: (GesturePhase<P>, GestureEffect<P>))
    ensures
        r == step(phase, event, travel, promotion),
{
    match phase {
        GesturePhase::Idle => match event {
            GestureEvent::Down { at, pointer_id } => (
                GesturePhase::Pressed { origin: at, pointer_id },
                GestureEffect::Inert,
            ),
            // Moves, ups and holds while idle are stray: ignored, not errors.
            _ => (phase, GestureEffect::Inert),
        },
        GesturePhase::Pressed { origin, pointer_id } => match event {
            GestureEvent::Move { at, pointer_id: pid } => {
                if pid != pointer_id {
                    return (phase, GestureEffect::Inert);
                }
                match travel {
                    Travel::BelowThreshold => (phase, GestureEffect::Inert),
                    Travel::Sideways => (
                        GesturePhase::Dragging { origin, pointer_id },
                        GestureEffect::Begin { origin, at },
                    ),
                    Travel::Steep => match promotion {
                        Promotion::Distance => (
                            GesturePhase::Dragging { origin, pointer_id },
                            GestureEffect::Begin { origin, at },
                        ),
                        // Vertical-dominant travel is scroll intent: yield
                        // the gesture to the browser's pan.
                        Promotion::HoldOrSideways => (GesturePhase::Idle, GestureEffect::Inert),
                    },
                }
            },
            GestureEvent::Hold { pointer_id: pid } => {
                if pid != pointer_id {
                    return (phase, GestureEffect::Inert);
                }
                (
                    GesturePhase::Dragging { origin, pointer_id },
                    GestureEffect::Begin { origin, at: origin },
                )
            },
            GestureEvent::Up { at: _, pointer_id: pid } => {
                if pid != pointer_id {
                    return (phase, GestureEffect::Inert);
                }
                (GesturePhase::Idle, GestureEffect::Tap)
            },
            GestureEvent::Cancel => (GesturePhase::Idle, GestureEffect::Inert),
            // A second pointer pressing mid-gesture doesn't steal it.
            GestureEvent::Down { .. } => (phase, GestureEffect::Inert),
        },
        GesturePhase::Dragging { origin, pointer_id } => match event {
            GestureEvent::Move { at, pointer_id: pid } => {
                if pid != pointer_id {
                    return (phase, GestureEffect::Inert);
                }
                (phase, GestureEffect::Track { at })
            },
            GestureEvent::Up { at, pointer_id: pid } => {
                if pid != pointer_id {
                    return (phase, GestureEffect::Inert);
                }
                (GesturePhase::Idle, GestureEffect::Drop { at })
            },
            GestureEvent::Cancel => (GesturePhase::Idle, GestureEffect::Abort),
            _ => (phase, GestureEffect::Inert),
        },
    }
}

/// Advance the machine with the default [`Promotion::Distance`] policy.
pub fn transition<P: Copy>(phase: GesturePhase<P>, event: GestureEvent<P>, travel: Travel) -> (r: (
    GesturePhase<P>,
    GestureEffect<P>,
))
    ensures
        r == step(phase, event, travel, Promotion::Distance),
{
    transition_with(phase, event, travel, Promotion::Distance)
}

/// The pointer an event belongs to (`Cancel` belongs to none).
pub open spec fn event_pointer<P>(event: GestureEvent<P>) -> Option<i32> {
    match event {
        GestureEvent::Down { pointer_id, .. } => Some(pointer_id),
        GestureEvent::Move { pointer_id, .. } => Some(pointer_id),
        GestureEvent::Up { pointer_id, .. } => Some(pointer_id),
        GestureEvent::Hold { pointer_id } => Some(pointer_id),
        GestureEvent::Cancel => None,
    }
}

/// The pointer that owns a gesture in progress.
pub open spec fn owner<P>(phase: GesturePhase<P>) -> Option<i32> {
    match phase {
        GesturePhase::Idle => None,
        GesturePhase::Pressed { pointer_id, .. } => Some(pointer_id),
        GesturePhase::Dragging { pointer_id, .. } => Some(pointer_id),
    }
}

/// Foreign pointers never disturb a gesture: while pressed or dragging,
/// every event of another pointer (a second finger pressing, moving,
/// lifting or holding) leaves the phase unchanged and asks for nothing.
pub proof fn law_foreign_pointers_are_inert<P>(
    phase: GesturePhase<P>,
    event: GestureEvent<P>,
    travel: Travel,
    promotion: Promotion,
)
    requires
        owner(phase) is Some,
        event_pointer(event) is Some,
        event_pointer(event) != owner(phase),
    ensures
        step(phase, event, travel, promotion) == (phase, GestureEffect::<P>::Inert),
{
}

/// While idle, only a press does anything: stray moves, releases, holds and
/// cancels are inert.
pub proof fn law_idle_ignores_all_but_press<P>(
    event: GestureEvent<P>,
    travel: Travel,
    promotion: Promotion,
)
    requires
        !(event is Down),
    ensures
        step(GesturePhase::Idle, event, travel, promotion) == (
            GesturePhase::<P>::Idle,
            GestureEffect::<P>::Inert,
        ),
{
}

/// Every terminal effect (drop, tap, abort) returns the machine to idle;
/// a drop or an abort only ever ends an active drag, a tap only a press.
pub proof fn law_terminal_effects_end_the_gesture<P>(
    phase: GesturePhase<P>,
    event: GestureEvent<P>,
    travel: Travel,
    promotion: Promotion,
)
    ensures
        ({
            let (next, fx) = step(phase, event, travel, promotion);
            &&& (fx is Drop || fx is Tap || fx is Abort) ==> next is Idle
            &&& (fx is Drop || fx is Abort || fx is Track) ==> phase is Dragging
            &&& fx is Tap ==> phase is Pressed
        }),
{
}

/// A drag begins only from a press, carries the press origin, and leaves
/// the machine dragging with the same origin and owning pointer.
pub proof fn law_begin_keeps_the_press<P>(
    phase: GesturePhase<P>,
    event: GestureEvent<P>,
    travel: Travel,
    promotion: Promotion,
)
    ensures
        ({
            let (next, fx) = step(phase, event, travel, promotion);
            fx matches GestureEffect::Begin { origin, at } ==> {
                &&& phase matches GesturePhase::Pressed { origin: o, pointer_id: p } && o == origin
                    && next == GesturePhase::Dragging { origin: o, pointer_id: p }
                &&& event is Hold ==> at == origin
            }
        }),
{
}

/// The owning pointer never changes mid-gesture: a gesture still in
/// progress after any event is owned by the pointer that owned it before.
pub proof fn law_owner_is_stable<P>(
    phase: GesturePhase<P>,
    event: GestureEvent<P>,
    travel: Travel,
    promotion: Promotion,
)
    requires
        !(phase is Idle),
    ensures
        ({
            let (next, _) = step(phase, event, travel, promotion);
            !(next is Idle) ==> owner(next) == owner(phase)
        }),
{
}

/// The promotion policy shapes only how a press becomes a drag: outside a
/// pressed move, both policies behave identically, and travel is ignored.
pub proof fn law_policy_only_shapes_promotion<P>(
    phase: GesturePhase<P>,
    event: GestureEvent<P>,
    travel: Travel,
    other: Travel,
)
    requires
        !(phase is Pressed && event is Move),
    ensures
        step(phase, event, travel, Promotion::Distance) == step(
            phase,
            event,
            other,
            Promotion::HoldOrSideways,
        ),
{
}

/// Under the distance policy any travel past the threshold by the owning
/// pointer begins the drag; under hold-or-sideways a steep pull yields the
/// gesture to scrolling instead.
pub proof fn law_threshold_promotion<P>(origin: P, pointer_id: i32, at: P, travel: Travel)
    ensures
        ({
            let phase = GesturePhase::Pressed { origin, pointer_id };
            let event = GestureEvent::Move { at, pointer_id };
            &&& travel != Travel::BelowThreshold ==> step(
                phase,
                event,
                travel,
                Promotion::Distance,
            ).1 == GestureEffect::Begin { origin, at }
            &&& travel == Travel::Steep ==> step(phase, event, travel, Promotion::HoldOrSideways)
                == (GesturePhase::<P>::Idle, GestureEffect::<P>::Inert)
            &&& travel == Travel::BelowThreshold ==> step(phase, event, travel, Promotion::Distance)
                == (phase, GestureEffect::<P>::Inert)
        }),
{
}

/// How many consecutive moves of a dragging pointer must report no held
/// buttons before a lost release is believed. Some pipelines corrupt the
/// button state of isolated events; a genuinely lost release produces a
/// steady stream of them.
pub const RELEASE_RECOVERY_MOVES: u8 = 3;

/// The length of the run of button-less moves after one more move.
pub open spec fn next_streak(dragging: bool, no_buttons_held: bool, streak: u8) -> u8 {
    if dragging && no_buttons_held {
        if streak < u8::MAX {
            (streak + 1) as u8
        } else {
            streak
        }
    } else {
        0
    }
}

/// Lost-release recovery for one pointer move: the new run length of
/// button-less moves while dragging, and whether the move should be taken
/// as the release.
pub fn release_streak(dragging: bool, no_buttons_held: bool, streak: u8) -> (r: (u8, bool))
    ensures
        r.0 == next_streak(dragging, no_buttons_held, streak),
        r.1 == (dragging && no_buttons_held && r.0 >= RELEASE_RECOVERY_MOVES),
{
    if dragging && no_buttons_held {
        let next = if streak < u8::MAX {
            streak + 1
        } else {
            streak
        };
        (next, next >= RELEASE_RECOVERY_MOVES)
    } else {
        (0, false)
    }
}

/// One bogus button-less move never drops: a release is believed only
/// after `RELEASE_RECOVERY_MOVES` consecutive ones, and any move with a
/// button held (or outside a drag) starts the count over.
pub proof fn law_release_needs_a_run_of_empty_moves(streak: u8)
    ensures
        next_streak(true, false, streak) == 0,
        next_streak(false, true, streak) == 0,
        next_streak(true, true, 0) < RELEASE_RECOVERY_MOVES,
        next_streak(true, true, next_streak(true, true, 0)) < RELEASE_RECOVERY_MOVES,
        next_streak(true, true, next_streak(true, true, next_streak(true, true, 0)))
            == RELEASE_RECOVERY_MOVES,
{
}

/// What a new primary press must clear first: a previous gesture's source
/// session is retired unless the machine is still dragging (a second press
/// never steals a live drag), and a machine left dragging after the shared
/// drag ended elsewhere is cancelled so it can accept the press.
pub fn press_plan<P>(phase: GesturePhase<P>, lifecycle_dragging: bool) -> (r: (bool, bool))
    ensures
        r.0 == !(phase is Dragging),
        r.1 == (!lifecycle_dragging && phase is Dragging),
{
    let dragging = match phase {
        GesturePhase::Dragging { .. } => true,
        _ => false,
    };
    (!dragging, !lifecycle_dragging && dragging)
}

/// Whether a press arms the long-press clock: only a finger or pen under
/// `TouchSense::Auto`, and only when that very pointer now holds the press.
pub fn arms_hold_timer<P>(touch: TouchSense, pointer_type: &str, phase: GesturePhase<P>, pointer_id: i32) -> (b: bool)
    ensures
        b == (touch == TouchSense::Auto && pointer_type@ != "mouse"@ && phase is Pressed
            && phase->Pressed_pointer_id == pointer_id),
{
    if touch != TouchSense::Auto || same_text(pointer_type, "mouse") {
        return false;
    }
    match phase {
        GesturePhase::Pressed { pointer_id: owner, .. } => owner == pointer_id,
        _ => false,
    }
}

} // verus!
