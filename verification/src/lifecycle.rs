//! The shared drag state and its lifecycle: start, hover, drop (with or
//! without a settle glide), cancellation, focus restoration after keyboard
//! drops, and the exactly-once completion of tracked pointer sources.
//!
//! The lifecycle is bookkeeping only: it never runs user code. Where the
//! host must notify someone (a source's completion callback, a monitor), an
//! operation returns what happened and the host performs the call. Geometry
//! (pointer samples, grab offsets, element rects) is the host's; only the
//! settle destination `R` passes through here, because its presence is the
//! settling phase.

use vstd::prelude::*;
use vstd::std_specs::cmp::PartialEqSpec;

use crate::ids::{law_every_auto_id_is_fresh, nth_id};
use crate::types::{DragId, DragMode, DragSessionId, DropEffect, PointerKind, ZoneId};

verus! {

/// Where the drag lifecycle stands.
#[derive(Debug, Clone, Copy, PartialEq, Eq, Structural)]
pub enum DragPhase {
    /// No drag.
    Idle,
    /// A drag is in flight.
    Dragging,
    /// A completed drop whose ghost is still gliding home: not dragging,
    /// but the payload stays readable.
    Settling,
}

/// Why a drag was cancelled, for monitor consumers.
#[derive(Debug, Clone, Copy, PartialEq, Eq, Structural)]
#[non_exhaustive]
pub enum CancelReason {
    User,
    PointerCancelled,
    NoTarget,
    SourceUnmounted,
    Replaced,
}

/// How a drag ended, as far as its source is concerned.
#[derive(Debug, Clone, Copy, PartialEq, Eq, Structural)]
pub enum DragCompletion {
    Dropped,
    Cancelled(CancelReason),
}

impl DragCompletion {
    /// Did the drag end in a drop?
    pub fn dropped(self) -> (b: bool)
        ensures
            b == (self == DragCompletion::Dropped),
    {
        match self {
            DragCompletion::Dropped => true,
            _ => false,
        }
    }
}

/// The abstract drag state.
pub struct DragModel<T, R> {
    /// The payload being dragged (or settling).
    pub payload: Option<T>,
    /// Zone the drag started from.
    pub source: Option<ZoneId>,
    /// Zone currently hovered.
    pub over: Option<ZoneId>,
    /// Effect the drag was started with.
    pub effect: DropEffect,
    /// How the drag is driven.
    pub mode: DragMode,
    /// Which pointer device drives a pointer drag.
    pub pointer_kind: PointerKind,
    /// Payload of a just-completed keyboard drop awaiting focus restoration.
    pub refocus: Option<T>,
    /// Destination of a drop whose ghost is gliding home.
    pub settle: Option<R>,
    /// Lifecycle phase.
    pub phase: DragPhase,
    /// Stable identity of the active draggable.
    pub id: Option<DragId>,
    /// Whether the source supplied that identity itself.
    pub identity_explicit: bool,
    /// Fresh identity of the active tracked pointer gesture.
    pub session: Option<DragSessionId>,
    /// The modifier-adjusted effect of the latest pointer sample.
    pub proposed_effect: DropEffect,
    /// The tracked source awaiting completion, with its committed result.
    pub completion: Option<(DragSessionId, Option<bool>)>,
}

/// The phase agrees with what the state holds.
pub open spec fn consistent<T, R>(m: DragModel<T, R>) -> bool {
    match m.phase {
        DragPhase::Idle => m.payload is None && m.settle is None,
        DragPhase::Dragging => m.payload is Some && m.settle is None,
        DragPhase::Settling => m.payload is Some && m.settle is Some,
    }
}

/// Everything back to defaults; a tracked source's completion slot is kept.
pub open spec fn reset<T, R>(m: DragModel<T, R>) -> DragModel<T, R> {
    DragModel {
        payload: None,
        source: None,
        over: None,
        effect: DropEffect::Move,
        mode: DragMode::Pointer,
        pointer_kind: PointerKind::Mouse,
        refocus: None,
        settle: None,
        phase: DragPhase::Idle,
        id: None,
        identity_explicit: false,
        session: None,
        proposed_effect: DropEffect::Move,
        completion: m.completion,
    }
}

/// The state right after a drag starts.
pub open spec fn begun<T, R>(
    m: DragModel<T, R>,
    payload: T,
    source: Option<ZoneId>,
    effect: DropEffect,
    mode: DragMode,
    pointer_kind: PointerKind,
    id: DragId,
    identity_explicit: bool,
    session: Option<DragSessionId>,
) -> DragModel<T, R> {
    DragModel {
        payload: Some(payload),
        source,
        over: None,
        effect,
        mode,
        pointer_kind,
        refocus: None,
        settle: None,
        phase: DragPhase::Dragging,
        id: Some(id),
        identity_explicit,
        session,
        proposed_effect: effect,
        completion: match session {
            Some(s) => Some((s, None)),
            None => m.completion,
        },
    }
}

/// A batch of measurements started during drag `id` of gesture `session`
/// still belongs to the drag in flight: receiver callbacks can finish a
/// drag and start another while measurements are pending, and an old batch
/// must not alter its successor's hover.
pub open spec fn batch_current<T, R>(m: DragModel<T, R>, id: Option<DragId>, session: Option<DragSessionId>) -> bool {
    m.phase == DragPhase::Dragging && m.id == id && m.session == session
}

/// The tracked source generation, if one is registered.
pub open spec fn active_session_of<T, R>(m: DragModel<T, R>) -> Option<DragSessionId> {
    match m.completion {
        Some((id, _)) => Some(id),
        None => None,
    }
}

/// The committed result of session `id`, if it is the active one and has
/// committed.
pub open spec fn session_result_of<T, R>(m: DragModel<T, R>, id: DragSessionId) -> Option<bool> {
    match m.completion {
        Some((cid, committed)) => if cid == id {
            committed
        } else {
            None
        },
        None => None,
    }
}

/// Commit a result for the active session; the first commit wins.
pub open spec fn committed<T, R>(m: DragModel<T, R>, id: DragSessionId, dropped: bool) -> (
    DragModel<T, R>,
    bool,
) {
    match m.completion {
        Some((cid, c)) => if cid == id {
            (
                DragModel {
                    completion: Some(
                        (
                            cid,
                            if c is None {
                                Some(dropped)
                            } else {
                                c
                            },
                        ),
                    ),
                    ..m
                },
                true,
            )
        } else {
            (m, false)
        },
        None => (m, false),
    }
}

/// Retire a committed session: the slot empties and its result is handed
/// out exactly once.
pub open spec fn finalized<T, R>(m: DragModel<T, R>, id: DragSessionId) -> (
    DragModel<T, R>,
    Option<bool>,
) {
    match session_result_of(m, id) {
        Some(r) => (DragModel { completion: None, ..m }, Some(r)),
        None => (m, None),
    }
}

/// Cancel session `id`: an uncommitted session resets the drag and commits
/// "not dropped"; either way the committed result is handed out.
pub open spec fn session_cancelled<T, R>(m: DragModel<T, R>, id: DragSessionId) -> (
    DragModel<T, R>,
    Option<bool>,
) {
    if active_session_of(m) != Some(id) {
        (m, None)
    } else {
        let m1 = if session_result_of(m, id) is None {
            committed(reset(m), id, false).0
        } else {
            m
        };
        finalized(m1, id)
    }
}

/// The state after a settle ends: reset, but only while settling.
pub open spec fn settle_finished<T, R>(m: DragModel<T, R>) -> DragModel<T, R> {
    if m.phase == DragPhase::Settling {
        reset(m)
    } else {
        m
    }
}

/// Hover `zone`.
pub open spec fn hovered<T, R>(m: DragModel<T, R>, zone: ZoneId) -> DragModel<T, R> {
    DragModel { over: Some(zone), ..m }
}

/// Un-hover `zone`: only when it is still the hovered one.
pub open spec fn unhovered<T, R>(m: DragModel<T, R>, zone: ZoneId) -> DragModel<T, R> {
    if m.over == Some(zone) {
        DragModel { over: None, ..m }
    } else {
        m
    }
}

/// Claim a pending focus restoration for `payload`: consumed on a match.
pub open spec fn claimed<T: PartialEq, R>(m: DragModel<T, R>, payload: T) -> (DragModel<T, R>, bool) {
    if m.refocus matches Some(r) && r.eq_spec(&payload) {
        (DragModel { refocus: None, ..m }, true)
    } else {
        (m, false)
    }
}

/// What retiring the current drag before a new start did.
#[derive(Debug, Clone, Copy, PartialEq, Eq, Structural)]
pub enum Retirement {
    /// There was nothing to retire.
    Nothing,
    /// A settle glide was cut short.
    SettleEnded,
    /// An untracked drag was cancelled; monitors should hear of it.
    DragCancelled,
    /// A tracked source's session ended; call its completion with
    /// `dropped`. `drag_cancelled` tells whether the drag itself was still
    /// in flight (monitors should hear of the cancellation).
    SessionEnded { id: DragSessionId, dropped: bool, drag_cancelled: bool },
}

/// The state after retiring whatever stands before a new start.
pub open spec fn retired<T, R>(m: DragModel<T, R>) -> DragModel<T, R> {
    match active_session_of(m) {
        Some(prev) => session_cancelled(m, prev).0,
        None => if m.phase == DragPhase::Dragging {
            reset(m)
        } else {
            settle_finished(m)
        },
    }
}

/// The state after a user cancel: a settle finishes; a tracked session is
/// cancelled through its source; anything else resets.
pub open spec fn cancelled<T, R>(m: DragModel<T, R>) -> DragModel<T, R> {
    if m.phase == DragPhase::Settling {
        settle_finished(m)
    } else {
        match m.session {
            Some(s) => if active_session_of(m) == Some(s) {
                session_cancelled(m, s).0
            } else {
                reset(m)
            },
            None => reset(m),
        }
    }
}

/// What a user cancel hands out for the source to be notified with: the
/// result of cancelling the drag's own tracked session, when it is the
/// active one (and the drag is not settling).
pub open spec fn cancel_result<T, R>(m: DragModel<T, R>) -> Option<bool> {
    if m.phase != DragPhase::Settling && m.session is Some && active_session_of(m) == m.session {
        session_cancelled(m, m.session->Some_0).1
    } else {
        None
    }
}

/// Session `id` retired without notifying anyone: an uncommitted session
/// resets the drag; the slot empties.
pub open spec fn abandoned<T, R>(m: DragModel<T, R>, id: DragSessionId) -> DragModel<T, R> {
    DragModel {
        completion: None,
        ..(if session_result_of(m, id) is None {
            reset(m)
        } else {
            m
        })
    }
}

/// The shared drag state of one provider (or one multi-window world).
pub struct DragLifecycle<T, R> {
    payload: Option<T>,
    source: Option<ZoneId>,
    over: Option<ZoneId>,
    effect: DropEffect,
    mode: DragMode,
    pointer_kind: PointerKind,
    refocus: Option<T>,
    settle: Option<R>,
    phase: DragPhase,
    id: Option<DragId>,
    identity_explicit: bool,
    session: Option<DragSessionId>,
    proposed_effect: DropEffect,
    completion: Option<(DragSessionId, Option<bool>)>,
}

impl<T, R> View for DragLifecycle<T, R> {
    type V = DragModel<T, R>;

    closed spec fn view(&self) -> DragModel<T, R> {
        DragModel {
            payload: self.payload,
            source: self.source,
            over: self.over,
            effect: self.effect,
            mode: self.mode,
            pointer_kind: self.pointer_kind,
            refocus: self.refocus,
            settle: self.settle,
            phase: self.phase,
            id: self.id,
            identity_explicit: self.identity_explicit,
            session: self.session,
            proposed_effect: self.proposed_effect,
            completion: self.completion,
        }
    }
}

impl<T, R> DragLifecycle<T, R> {
    /// The phase always agrees with the payload and settle destination.
    #[verifier::type_invariant]
    closed spec fn well_formed(self) -> bool {
        consistent(self@)
    }

    /// A fresh, idle lifecycle.
    pub fn new() -> (s: Self)
        ensures
            s@ == reset((DragModel::<T, R> { completion: None, ..s@ })),
            s@.completion is None,
    {
        DragLifecycle {
            payload: None,
            source: None,
            over: None,
            effect: DropEffect::Move,
            mode: DragMode::Pointer,
            pointer_kind: PointerKind::Mouse,
            refocus: None,
            settle: None,
            phase: DragPhase::Idle,
            id: None,
            identity_explicit: false,
            session: None,
            proposed_effect: DropEffect::Move,
            completion: None,
        }
    }

    /// An idle lifecycle carrying `completion`.
    fn idle_with(completion: Option<(DragSessionId, Option<bool>)>) -> (s: Self)
        ensures
            s@ == reset((DragModel::<T, R> { completion, ..s@ })),
    {
        DragLifecycle {
            payload: None,
            source: None,
            over: None,
            effect: DropEffect::Move,
            mode: DragMode::Pointer,
            pointer_kind: PointerKind::Mouse,
            refocus: None,
            settle: None,
            phase: DragPhase::Idle,
            id: None,
            identity_explicit: false,
            session: None,
            proposed_effect: DropEffect::Move,
            completion,
        }
    }

    /// Swap in an idle lifecycle (keeping the completion slot), returning
    /// what was there.
    fn replace_with_idle(&mut self) -> (previous: Self)
        ensures
            final(self)@ == reset(old(self)@),
            previous@ == old(self)@,
    {
        let mut idle = Self::idle_with(self.completion);
        std::mem::swap(self, &mut idle);
        idle
    }

    fn reset_state(&mut self)
        ensures
            final(self)@ == reset(old(self)@),
    {
        let _ = self.replace_with_idle();
    }

    /// Begin a drag. Any settle still gliding is interrupted and any
    /// unclaimed focus restoration superseded. A tracked pointer source
    /// passes its fresh `session`, whose completion slot opens uncommitted.
    /// Retire the previous drag first ([`Self::retire_for_start`]).
    pub fn begin(
        &mut self,
        payload: T,
        source: Option<ZoneId>,
        effect: DropEffect,
        mode: DragMode,
        pointer_kind: PointerKind,
        id: DragId,
        identity_explicit: bool,
        session: Option<DragSessionId>,
    )
        ensures
            final(self)@ == begun(
                old(self)@,
                payload,
                source,
                effect,
                mode,
                pointer_kind,
                id,
                identity_explicit,
                session,
            ),
    {
        let completion = match session {
            Some(s) => Some((s, None)),
            None => self.completion,
        };
        *self = DragLifecycle {
            payload: Some(payload),
            source,
            over: None,
            effect,
            mode,
            pointer_kind,
            refocus: None,
            settle: None,
            phase: DragPhase::Dragging,
            id: Some(id),
            identity_explicit,
            session,
            proposed_effect: effect,
            completion,
        };
    }

    /// Current pointer-gesture generation, if a tracked source registered one.
    pub fn active_session(&self) -> (r: Option<DragSessionId>)
        ensures
            r == active_session_of(self@),
    {
        match self.completion {
            Some((id, _)) => Some(id),
            None => None,
        }
    }

    /// Is `id` the active tracked session?
    pub fn is_session(&self, id: DragSessionId) -> (b: bool)
        ensures
            b == (active_session_of(self@) == Some(id)),
    {
        match self.completion {
            Some((cid, _)) => cid == id,
            None => false,
        }
    }

    /// The committed result of session `id`, if any.
    pub fn session_result(&self, id: DragSessionId) -> (r: Option<bool>)
        ensures
            r == session_result_of(self@, id),
    {
        match self.completion {
            Some((cid, c)) => if cid == id {
                c
            } else {
                None
            },
            None => None,
        }
    }

    /// Commit the result before receiver code runs, without notifying the
    /// source yet. The first commit of a session wins. Returns whether `id`
    /// was the active session.
    pub fn commit_source(&mut self, id: DragSessionId, dropped: bool) -> (b: bool)
        ensures
            (final(self)@, b) == committed(old(self)@, id, dropped),
    {
        proof {
            use_type_invariant(&*self);
        }
        match self.completion {
            Some((cid, c)) => {
                if cid != id {
                    return false;
                }
                if c.is_none() {
                    self.completion = Some((cid, Some(dropped)));
                }
                true
            },
            None => false,
        }
    }

    /// Retire a committed session, handing out its result exactly once:
    /// the caller notifies the source with it.
    pub fn finalize_source(&mut self, id: DragSessionId) -> (r: Option<bool>)
        ensures
            (final(self)@, r) == finalized(old(self)@, id),
    {
        proof {
            use_type_invariant(&*self);
        }
        match self.session_result(id) {
            Some(result) => {
                self.completion = None;
                Some(result)
            },
            None => None,
        }
    }

    /// Commit and immediately retire: the result to notify, if `id` was
    /// the active session.
    pub fn finish_source(&mut self, id: DragSessionId, dropped: bool) -> (r: Option<bool>)
        ensures
            ({
                let (m1, ok) = committed(old(self)@, id, dropped);
                (final(self)@, r) == if ok {
                    finalized(m1, id)
                } else {
                    (m1, None)
                }
            }),
    {
        if !self.commit_source(id, dropped) {
            return None;
        }
        self.finalize_source(id)
    }

    /// Cancel session `id`: when still uncommitted, the drag is reset and
    /// "not dropped" committed; the committed result is then handed out for
    /// the caller to notify the source with.
    pub fn cancel_session(&mut self, id: DragSessionId) -> (r: Option<bool>)
        ensures
            (final(self)@, r) == session_cancelled(old(self)@, id),
    {
        if !self.is_session(id) {
            return None;
        }
        if self.session_result(id).is_none() {
            self.reset_state();
            self.commit_source(id, false);
        }
        self.finalize_source(id)
    }

    /// Retire session `id` without notifying anyone (its runtime is being
    /// torn down): an uncommitted session resets the drag; the slot
    /// empties. Returns whether `id` was the active session.
    pub fn abandon_session(&mut self, id: DragSessionId) -> (b: bool)
        ensures
            b == (active_session_of(old(self)@) == Some(id)),
            b ==> final(self)@ == abandoned(old(self)@, id),
            !b ==> final(self)@ == old(self)@,
    {
        proof {
            use_type_invariant(&*self);
        }
        if !self.is_session(id) {
            return false;
        }
        if self.session_result(id).is_none() {
            self.reset_state();
        }
        self.completion = None;
        true
    }

    /// Reset the drag outright; returns whether a drag was in flight (the
    /// monitors' cue for a cancellation event).
    pub fn cancel_state(&mut self) -> (was_dragging: bool)
        ensures
            final(self)@ == reset(old(self)@),
            was_dragging == (old(self)@.phase == DragPhase::Dragging),
    {
        let was = self.phase == DragPhase::Dragging;
        self.reset_state();
        was
    }

    /// End the settling phase and reset. A no-op unless settling, so a late
    /// glide-end can never clobber a new drag. Returns whether it ended one.
    pub fn finish_settle(&mut self) -> (ended: bool)
        ensures
            final(self)@ == settle_finished(old(self)@),
            ended == (old(self)@.phase == DragPhase::Settling),
    {
        if self.phase == DragPhase::Settling {
            self.reset_state();
            true
        } else {
            false
        }
    }

    /// Retire whatever stands before a new drag starts: an active tracked
    /// session is cancelled through its source, an untracked drag is
    /// cancelled, a settle glide is cut short. Afterwards nothing is in
    /// flight and no session is active.
    pub fn retire_for_start(&mut self) -> (r: Retirement)
        ensures
            final(self)@ == retired(old(self)@),
            active_session_of(final(self)@) is None,
            r == match active_session_of(old(self)@) {
                Some(prev) => Retirement::SessionEnded {
                    id: prev,
                    dropped: session_cancelled(old(self)@, prev).1 == Some(true),
                    drag_cancelled: session_result_of(old(self)@, prev) is None
                        && old(self)@.phase == DragPhase::Dragging,
                },
                None => if old(self)@.phase == DragPhase::Dragging {
                    Retirement::DragCancelled
                } else if old(self)@.phase == DragPhase::Settling {
                    Retirement::SettleEnded
                } else {
                    Retirement::Nothing
                },
            },
    {
        proof {
            use_type_invariant(&*self);
        }
        match self.active_session() {
            Some(prev) => {
                let drag_cancelled = self.session_result(prev).is_none() && self.phase
                    == DragPhase::Dragging;
                let result = self.cancel_session(prev);
                Retirement::SessionEnded {
                    id: prev,
                    dropped: result == Some(true),
                    drag_cancelled,
                }
            },
            None => {
                if self.phase == DragPhase::Dragging {
                    self.reset_state();
                    Retirement::DragCancelled
                } else if self.finish_settle() {
                    Retirement::SettleEnded
                } else {
                    Retirement::Nothing
                }
            },
        }
    }

    /// Is the lifecycle free for a new drag: nothing in flight and no
    /// tracked session active? After [`Self::retire_for_start`] this fails
    /// only when a notified source started a replacement meanwhile, which
    /// then owns the state and must not be overwritten.
    pub fn ready_to_begin(&self) -> (b: bool)
        ensures
            b == (active_session_of(self@) is None && self@.phase != DragPhase::Dragging),
    {
        self.completion.is_none() && self.phase != DragPhase::Dragging
    }

    /// Abort the drag: a settle finishes; a tracked session is cancelled
    /// through its source (the returned result is what to notify it with);
    /// anything else resets.
    pub fn cancel(&mut self) -> (r: Option<bool>)
        ensures
            final(self)@ == cancelled(old(self)@),
            r == cancel_result(old(self)@),
    {
        if self.phase == DragPhase::Settling {
            self.finish_settle();
            return None;
        }
        if let Some(session) = self.session {
            if self.is_session(session) {
                return self.cancel_session(session);
            }
        }
        self.reset_state();
        None
    }

    /// Mark `zone` as hovered; returns whether the hovered zone changed.
    pub fn enter(&mut self, zone: ZoneId) -> (changed: bool)
        ensures
            final(self)@ == hovered(old(self)@, zone),
            changed == (old(self)@.over != Some(zone)),
    {
        proof {
            use_type_invariant(&*self);
        }
        let changed = match self.over {
            Some(z) => z != zone,
            None => true,
        };
        self.over = Some(zone);
        changed
    }

    /// Clear hover, but only if `zone` is still the hovered one (avoids
    /// enter/leave races between adjacent zones). Returns whether it did.
    pub fn leave(&mut self, zone: ZoneId) -> (cleared: bool)
        ensures
            cleared == (old(self)@.over == Some(zone)),
            final(self)@ == unhovered(old(self)@, zone),
    {
        proof {
            use_type_invariant(&*self);
        }
        let hit = match self.over {
            Some(z) => z == zone,
            None => false,
        };
        if hit {
            self.over = None;
        }
        hit
    }

    /// Consume the payload on a successful drop: `(payload, source)`, and
    /// the state resets. `None` (and no change) when nothing is in flight.
    pub fn take(&mut self) -> (r: Option<(T, Option<ZoneId>)>)
        ensures
            old(self)@.payload is None ==> r is None && final(self)@ == old(self)@,
            old(self)@.payload matches Some(p) ==> r == Some((p, old(self)@.source))
                && final(self)@ == reset(old(self)@),
    {
        if self.payload.is_none() {
            return None;
        }
        let previous = self.replace_with_idle();
        match previous.payload {
            Some(p) => Some((p, previous.source)),
            None => None,
        }
    }

    /// Consume the payload on a successful drop but enter the settling
    /// phase: the returned clone goes to the drop handler while the stored
    /// payload stays readable, hover clears, and `to` becomes the settle
    /// destination. `None` (and no change) when nothing is in flight.
    pub fn take_settling(&mut self, to: R) -> (r: Option<(T, Option<ZoneId>)>) where T: Clone
        ensures
            old(self)@.payload is None ==> r is None && final(self)@ == old(self)@,
            old(self)@.payload matches Some(p) ==> r matches Some((c, src)) && cloned::<T>(p, c)
                && src == old(self)@.source && final(self)@ == (DragModel {
                over: None,
                settle: Some(to),
                phase: DragPhase::Settling,
                ..old(self)@
            }),
    {
        let payload = match &self.payload {
            Some(p) => p.clone(),
            None => return None,
        };
        let previous = self.replace_with_idle();
        let source = previous.source;
        *self = DragLifecycle {
            payload: previous.payload,
            source: previous.source,
            over: None,
            effect: previous.effect,
            mode: previous.mode,
            pointer_kind: previous.pointer_kind,
            refocus: previous.refocus,
            settle: Some(to),
            phase: DragPhase::Settling,
            id: previous.id,
            identity_explicit: previous.identity_explicit,
            session: previous.session,
            proposed_effect: previous.proposed_effect,
            completion: previous.completion,
        };
        Some((payload, source))
    }

    /// Re-aim an in-flight settle at a better destination. A no-op unless
    /// settling; returns whether it re-aimed.
    pub fn retarget_settle(&mut self, to: R) -> (b: bool)
        ensures
            b == (old(self)@.phase == DragPhase::Settling),
            final(self)@ == if b {
                (DragModel { settle: Some(to), ..old(self)@ })
            } else {
                old(self)@
            },
    {
        proof {
            use_type_invariant(&*self);
        }
        if self.phase == DragPhase::Settling {
            self.settle = Some(to);
            true
        } else {
            false
        }
    }

    /// Record that `payload` just landed via a keyboard drop and its new
    /// element should take focus when it mounts.
    pub fn request_refocus(&mut self, payload: T)
        ensures
            final(self)@ == (DragModel { refocus: Some(payload), ..old(self)@ }),
    {
        proof {
            use_type_invariant(&*self);
        }
        self.refocus = Some(payload);
    }

    /// Claim a pending focus restoration if it matches `payload`; returns
    /// whether the caller should focus itself. The first matching claimant
    /// wins - the request is consumed.
    pub fn claim_refocus(&mut self, payload: &T) -> (hit: bool) where T: PartialEq
        ensures
            T::obeys_eq_spec() ==> (final(self)@, hit) == claimed(old(self)@, *payload),
            hit ==> old(self)@.refocus is Some && final(self)@ == (DragModel {
                refocus: None,
                ..old(self)@
            }),
            !hit ==> final(self)@ == old(self)@,
    {
        proof {
            use_type_invariant(&*self);
        }
        let hit = match &self.refocus {
            Some(r) => r.eq(payload),
            None => false,
        };
        if hit {
            self.refocus = None;
        }
        hit
    }

    /// Record which pointer device drives the current drag.
    pub fn set_pointer_kind(&mut self, kind: PointerKind)
        ensures
            final(self)@ == (DragModel { pointer_kind: kind, ..old(self)@ }),
    {
        proof {
            use_type_invariant(&*self);
        }
        self.pointer_kind = kind;
    }

    /// Record the modifier-adjusted effect of the current pointer sample.
    pub fn set_proposed_effect(&mut self, effect: DropEffect)
        ensures
            final(self)@ == (DragModel { proposed_effect: effect, ..old(self)@ }),
    {
        proof {
            use_type_invariant(&*self);
        }
        self.proposed_effect = effect;
    }

    /// Lifecycle phase.
    pub fn phase(&self) -> (p: DragPhase)
        ensures
            p == self@.phase,
    {
        self.phase
    }

    /// Is a drag currently in flight? False while a completed drop is
    /// still settling.
    pub fn dragging(&self) -> (b: bool)
        ensures
            b == (self@.phase == DragPhase::Dragging),
    {
        self.phase == DragPhase::Dragging
    }

    /// Destination of a drop currently settling, if any.
    pub fn settling(&self) -> (r: Option<R>) where R: Copy
        ensures
            r == if self@.phase == DragPhase::Settling {
                self@.settle
            } else {
                None
            },
    {
        if self.phase == DragPhase::Settling {
            self.settle
        } else {
            None
        }
    }

    /// Clone of the current payload (also readable while settling).
    pub fn payload(&self) -> (r: Option<T>) where T: Clone
        ensures
            self@.payload is None ==> r is None,
            self@.payload matches Some(p) ==> r matches Some(c) && cloned::<T>(p, c),
    {
        match &self.payload {
            Some(p) => Some(p.clone()),
            None => None,
        }
    }

    /// Does a measurement batch started during drag `id` of gesture
    /// `session` still belong to the drag in flight?
    pub fn batch_is_current(&self, id: Option<DragId>, session: Option<DragSessionId>) -> (b: bool)
        ensures
            b == batch_current(self@, id, session),
    {
        let same_id = match (self.id, id) {
            (Some(a), Some(b)) => a == b,
            (None, None) => true,
            _ => false,
        };
        let same_session = match (self.session, session) {
            (Some(a), Some(b)) => a == b,
            (None, None) => true,
            _ => false,
        };
        self.phase == DragPhase::Dragging && same_id && same_session
    }

    /// Stable identity of the active draggable.
    pub fn drag_id(&self) -> (r: Option<DragId>)
        ensures
            r == self@.id,
    {
        self.id
    }

    /// Whether the active source deliberately supplied its stable id.
    pub fn has_explicit_drag_id(&self) -> (b: bool)
        ensures
            b == self@.identity_explicit,
    {
        self.identity_explicit
    }

    /// Fresh identity of the active tracked pointer gesture.
    pub fn drag_session_id(&self) -> (r: Option<DragSessionId>)
        ensures
            r == self@.session,
    {
        self.session
    }

    /// Zone currently hovered.
    pub fn over(&self) -> (r: Option<ZoneId>)
        ensures
            r == self@.over,
    {
        self.over
    }

    /// Zone the drag started from.
    pub fn source(&self) -> (r: Option<ZoneId>)
        ensures
            r == self@.source,
    {
        self.source
    }

    /// Effect the drag was started with.
    pub fn effect(&self) -> (e: DropEffect)
        ensures
            e == self@.effect,
    {
        self.effect
    }

    /// The modifier-adjusted effect of the latest pointer sample.
    pub fn proposed_effect(&self) -> (e: DropEffect)
        ensures
            e == self@.proposed_effect,
    {
        self.proposed_effect
    }

    /// How the current drag is being driven.
    pub fn mode(&self) -> (m: DragMode)
        ensures
            m == self@.mode,
    {
        self.mode
    }

    /// Which pointer device drives the current drag.
    pub fn pointer_kind(&self) -> (k: PointerKind)
        ensures
            k == self@.pointer_kind,
    {
        self.pointer_kind
    }
}

/// A tracked source is completed exactly once: once its committed result
/// has been handed out, the session is gone - it cannot be committed,
/// handed out or cancelled again.
pub proof fn law_completion_exactly_once<T, R>(
    m: DragModel<T, R>,
    id: DragSessionId,
    dropped: bool,
)
    ensures
        ({
            let (m1, r1) = finalized(m, id);
            r1 is Some ==> {
                &&& active_session_of(m1) is None
                &&& finalized(m1, id).1 is None
                &&& !committed(m1, id, dropped).1
                &&& session_cancelled(m1, id).1 is None
            }
        }),
{
}

/// The first commit of a session wins: later commits (and a cancellation,
/// which commits "not dropped") cannot change a committed result, so a
/// committed success survives the source being cleaned up during delivery.
pub proof fn law_first_commit_wins<T, R>(
    m: DragModel<T, R>,
    id: DragSessionId,
    first: bool,
    second: bool,
)
    requires
        active_session_of(m) == Some(id),
        session_result_of(m, id) is None,
    ensures
        ({
            let m1 = committed(m, id, first).0;
            &&& finalized(committed(m1, id, second).0, id).1 == Some(first)
            &&& session_cancelled(m1, id).1 == Some(first)
            &&& session_cancelled(m1, id).0 == (DragModel { completion: None, ..m1 })
        }),
{
}

/// An uncommitted session cancelled through its source reports "not
/// dropped" and resets the drag.
pub proof fn law_cancel_reports_not_dropped<T, R>(m: DragModel<T, R>, id: DragSessionId)
    requires
        active_session_of(m) == Some(id),
        session_result_of(m, id) is None,
    ensures
        session_cancelled(m, id) == (
            (DragModel { completion: None, ..reset(m) }),
            Some(false),
        ),
{
}

/// Hover changes are race-free: leaving a zone that is no longer the
/// hovered one changes nothing, so an enter of the next zone followed by
/// the late leave of the previous one keeps the new hover.
pub proof fn law_late_leave_keeps_new_hover<T, R>(
    m: DragModel<T, R>,
    next: ZoneId,
    previous: ZoneId,
)
    requires
        next != previous,
    ensures
        unhovered(hovered(m, next), previous) == hovered(m, next),
        unhovered(hovered(m, next), next).over is None,
{
}

/// Ending a settle is guarded: it changes nothing unless settling, so a
/// late glide-end can never clobber a drag that started meanwhile.
pub proof fn law_settle_end_is_guarded<T, R>(
    m: DragModel<T, R>,
    payload: T,
    source: Option<ZoneId>,
    effect: DropEffect,
    mode: DragMode,
    pointer_kind: PointerKind,
    id: DragId,
    identity_explicit: bool,
    session: Option<DragSessionId>,
)
    ensures
        m.phase != DragPhase::Settling ==> settle_finished(m) == m,
        ({
            let started = begun(
                m,
                payload,
                source,
                effect,
                mode,
                pointer_kind,
                id,
                identity_explicit,
                session,
            );
            settle_finished(started) == started
        }),
{
}

/// A focus restoration is claimed at most once: after a successful claim,
/// every further claim misses.
pub proof fn law_refocus_claimed_once<T: PartialEq, R>(m: DragModel<T, R>, first: T, second: T)
    ensures
        claimed(m, first).1 ==> !claimed(claimed(m, first).0, second).1,
{
}

/// Every operation keeps the phase in agreement with the state: idle holds
/// no payload, dragging holds one without a settle destination, settling
/// holds both.
pub proof fn law_phase_consistency<T, R>(
    m: DragModel<T, R>,
    id: DragSessionId,
    dropped: bool,
    zone: ZoneId,
    payload: T,
    source: Option<ZoneId>,
    effect: DropEffect,
    mode: DragMode,
    pointer_kind: PointerKind,
    drag: DragId,
    identity_explicit: bool,
    session: Option<DragSessionId>,
)
    requires
        consistent(m),
    ensures
        consistent(reset(m)),
        consistent(
            begun(m, payload, source, effect, mode, pointer_kind, drag, identity_explicit, session),
        ),
        consistent(settle_finished(m)),
        consistent(committed(m, id, dropped).0),
        consistent(finalized(m, id).0),
        consistent(session_cancelled(m, id).0),
        consistent(retired(m)),
        consistent(cancelled(m)),
        consistent(hovered(m, zone)),
        consistent(unhovered(m, zone)),
        active_session_of(retired(m)) is None,
        active_session_of(m) is None ==> retired(m).phase == DragPhase::Idle,
{
}

/// Finishing a tracked source commits and notifies in one step: for the
/// active session the result handed out is the first committed one (this
/// commit's when none came before) and the slot empties, leaving the drag
/// otherwise as it was; for any other session nothing changes and nothing
/// is handed out.
pub proof fn law_finish_source_hands_out_first_result<T, R>(
    m: DragModel<T, R>,
    id: DragSessionId,
    dropped: bool,
)
    ensures
        active_session_of(m) == Some(id) ==> {
            &&& committed(m, id, dropped).1
            &&& finalized(committed(m, id, dropped).0, id) == (
                (DragModel { completion: None, ..m }),
                Some(
                    match session_result_of(m, id) {
                        Some(c) => c,
                        None => dropped,
                    },
                ),
            )
        },
        active_session_of(m) != Some(id) ==> committed(m, id, dropped) == (m, false)
            && finalized(m, id) == (m, None::<bool>) && session_cancelled(m, id) == (m, None::<bool>),
{
}

/// Retiring before a new start always frees the completion slot. Unless
/// the retired session had already committed a drop, nothing is left in
/// flight: no payload, no settle, idle. A committed session only loses its
/// slot.
pub proof fn law_retire_frees_for_start<T, R>(m: DragModel<T, R>)
    requires
        consistent(m),
    ensures
        active_session_of(retired(m)) is None,
        !(active_session_of(m) is Some && session_result_of(m, active_session_of(m)->Some_0) is Some)
            ==> {
            &&& retired(m).phase == DragPhase::Idle
            &&& retired(m).payload is None
            &&& retired(m).settle is None
        },
        active_session_of(m) is Some && session_result_of(m, active_session_of(m)->Some_0) is Some
            ==> retired(m) == (DragModel { completion: None, ..m }),
{
}

/// A session abandoned during teardown frees the slot; an uncommitted one
/// also ends the drag.
pub proof fn law_abandon_frees_the_slot<T, R>(m: DragModel<T, R>, id: DragSessionId)
    ensures
        active_session_of(abandoned(m, id)) is None,
        session_result_of(m, id) is None ==> abandoned(m, id).phase == DragPhase::Idle
            && abandoned(m, id).payload is None,
        session_result_of(m, id) is Some ==> abandoned(m, id) == (DragModel { completion: None, ..m }),
{
}

/// A user cancel ends the drag and notifies a tracked source exactly once.
/// The drag is over afterwards (nothing carried, nothing settling, idle),
/// except when its own session already committed a drop: then only that
/// result is handed out and the slot emptied. A drag whose own tracked
/// session is the active one hands out that session's result ("not
/// dropped" unless a drop already committed) and empties the session slot,
/// so a new drag may begin; a second cancel then hands out nothing. Any
/// other cancel hands out nothing and leaves the completion slot as it was.
/// (`s` names the drag's session.)
pub proof fn law_user_cancel_notifies_once<T, R>(m: DragModel<T, R>, s: DragSessionId)
    ensures
        !(m.phase != DragPhase::Settling && m.session is Some && active_session_of(m) == m.session
            && session_result_of(m, m.session->Some_0) is Some) ==> {
            &&& cancelled(m).phase == DragPhase::Idle
            &&& cancelled(m).payload is None
            &&& cancelled(m).settle is None
            &&& cancelled(m).session is None
        },
        m.phase != DragPhase::Settling && m.session == Some(s) && active_session_of(m) == Some(s)
            && session_result_of(m, s) is Some ==> cancelled(m) == (DragModel {
            completion: None,
            ..m
        }),
        m.phase != DragPhase::Settling && m.session == Some(s) && active_session_of(m) == Some(s) ==> {
            &&& cancel_result(m) == Some(
                match session_result_of(m, s) {
                    Some(r) => r,
                    None => false,
                },
            )
            &&& active_session_of(cancelled(m)) is None
            &&& cancel_result(cancelled(m)) is None
        },
        m.phase == DragPhase::Dragging && m.session == Some(s) && active_session_of(m) == Some(s)
            && session_result_of(m, s) is None ==> cancel_result(m) == Some(false) && active_session_of(
            cancelled(m),
        ) is None,
        !(m.phase != DragPhase::Settling && m.session is Some && active_session_of(m) == m.session)
            ==> cancel_result(m) is None && cancelled(m).completion == m.completion,
{
}

/// A session id drawn from a counter before a newer drag began can neither
/// commit, finalize, nor cancel that newer drag's session: a stale
/// generation never completes its successor, and a measurement batch of the
/// stale gesture no longer applies.
pub proof fn law_stale_session_cannot_finish_its_successor<T, R>(
    m: DragModel<T, R>,
    payload: T,
    source: Option<ZoneId>,
    effect: DropEffect,
    mode: DragMode,
    pointer_kind: PointerKind,
    id: DragId,
    identity_explicit: bool,
    counter: u64,
    earlier: nat,
    later: nat,
    dropped: bool,
)
    requires
        earlier < later,
        counter + later <= u64::MAX,
    ensures
        ({
            let stale = DragSessionId(nth_id(counter, earlier));
            let fresh = DragSessionId(nth_id(counter, later));
            let m1 = begun(m, payload, source, effect, mode, pointer_kind, id, identity_explicit, Some(fresh));
            &&& committed(m1, stale, dropped) == (m1, false)
            &&& finalized(m1, stale) == (m1, None::<bool>)
            &&& session_cancelled(m1, stale) == (m1, None::<bool>)
            &&& active_session_of(m1) == Some(fresh)
            &&& !batch_current(m1, Some(id), Some(stale))
        }),
{
    law_every_auto_id_is_fresh(counter, earlier, later);
}

} // verus!
