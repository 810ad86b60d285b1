//! Multi-window drag worlds: the bookkeeping that lets one drag span
//! several windows sharing one [`DragLifecycle`].
//!
//! A world remembers which window the in-flight drag started in (its
//! coordinate anchor), which window-qualified zone is hovered, and which
//! window was elected to present a settle glide. Window geometry, the
//! global pointer and the windows' zone tables belong to the host.
//!
//! Source notification is user code that may synchronously start a
//! replacement drag. So an operation that ends a tracked source hands back
//! a [`Notice`]: the host notifies the source with `notify`, then calls
//! [`WorldState::resume`] with `resume` to finish the world's part, which
//! then sees whatever the notification started.

use vstd::prelude::*;

use crate::ids::{advanced, law_every_auto_id_is_fresh, nth_id, Counter};
use crate::lifecycle::{
    abandoned, active_session_of, cancel_result, cancelled, committed, finalized, reset,
    session_cancelled, session_result_of, settle_finished, DragLifecycle, DragModel, DragPhase,
};
use crate::types::{same_text, DragMode, DragSessionId, EdgeSet, KeyModifiers, ZoneId};

verus! {

/// Whether host bridging of cross-window pointer input is on, given the
/// value of the host's opt-out setting: on unless the setting holds
/// something other than the empty string or `"0"`.
pub open spec fn bridging_by_default(no_bridge: Option<Seq<char>>) -> bool {
    match no_bridge {
        None => true,
        Some(v) => v == ""@ || v == "0"@,
    }
}

/// Bridging is on unless the opt-out setting is meaningfully set.
pub fn default_bridging(no_bridge: Option<&str>) -> (b: bool)
    ensures
        b == bridging_by_default(
            match no_bridge {
                Some(v) => Some(v@),
                None => None,
            },
        ),
{
    match no_bridge {
        None => true,
        Some(v) => same_text(v, "") || same_text(v, "0"),
    }
}

/// Identifies one joined window within a world.
#[derive(Debug, Clone, Copy, PartialEq, Eq, Hash, PartialOrd, Ord, Structural)]
pub struct WindowKey(pub u64);

impl WindowKey {
    /// Generate a window key no earlier call on `keys` produced.
    pub fn auto(keys: &mut Counter) -> (k: Self)
        ensures
            k.0 == old(keys)@,
            k.0 >= 1,
            final(keys)@ == advanced(old(keys)@),
    {
        WindowKey(keys.take_next())
    }
}

/// A drop-zone identity qualified by the joined window that owns it, so
/// two windows may reuse one explicit id without both rendering as hovered.
#[derive(Debug, Clone, Copy, PartialEq, Eq, Hash, PartialOrd, Ord, Structural)]
pub struct ZoneLocation {
    pub window: WindowKey,
    pub zone: ZoneId,
}

/// The world's record of the in-flight drag.
#[derive(Debug, Clone, Copy, PartialEq, Eq, Structural)]
pub struct WorldDrag {
    /// The window the drag started in.
    pub origin: WindowKey,
    /// Fresh for every start, tracked or not: host observations bind to it.
    pub generation: u64,
    /// The tracked source session the world completes, if any.
    pub session: Option<DragSessionId>,
    /// Where the drag started, qualified by its window.
    pub source_location: Option<ZoneLocation>,
    /// Modifier keys the host last reported for this drag.
    pub modifiers: KeyModifiers,
}

/// The window elected to present a settle glide, with the generation of
/// that election.
#[derive(Debug, Clone, Copy, PartialEq, Eq, Structural)]
pub struct SettleClaim {
    pub presenter: WindowKey,
    pub generation: u64,
}

/// What a world knows beyond the shared lifecycle.
#[derive(Debug, Clone, Copy, PartialEq, Eq, Structural)]
pub struct WorldState {
    pub active: Option<WorldDrag>,
    pub over: Option<ZoneLocation>,
    pub claim: Option<SettleClaim>,
}

/// The world's part that remains after the host notified a source.
#[derive(Debug, Clone, Copy, PartialEq, Eq, Structural)]
pub enum Resume {
    /// Nothing remains.
    Nothing,
    /// Clear the world's metadata.
    ClearWorld,
    /// Finish an untracked completion with this outcome.
    Untracked { dropped: bool },
    /// Finish a tracked session's completion.
    Session { session: DragSessionId, result: bool, owns_metadata: bool },
}

/// A source to notify, and what remains to do afterwards.
#[derive(Debug, Clone, Copy, PartialEq, Eq, Structural)]
pub struct Notice {
    /// Whether the drag ended in a drop, as the source should hear it.
    pub notify: bool,
    pub resume: Resume,
}

/// No modifier key.
pub open spec fn no_modifiers() -> KeyModifiers {
    KeyModifiers { ctrl: false, meta: false, alt: false, shift: false }
}

/// A world with no drag, hover or settle claim.
pub open spec fn empty_world() -> WorldState {
    WorldState { active: None, over: None, claim: None }
}

/// The tracked session the world completes.
pub open spec fn world_session(w: WorldState) -> Option<DragSessionId> {
    match w.active {
        Some(a) => a.session,
        None => None,
    }
}

/// The lifecycle's active session, unless it already committed (a receiver
/// that starts a drag while the previous result awaits finalizing must not
/// attach that old session to the new drag).
pub open spec fn fresh_session<T, R>(m: DragModel<T, R>) -> Option<DragSessionId> {
    match active_session_of(m) {
        Some(s) => if session_result_of(m, s) is None {
            Some(s)
        } else {
            None
        },
        None => None,
    }
}

/// `zone`, qualified by `window`.
pub open spec fn located(window: WindowKey, zone: Option<ZoneId>) -> Option<ZoneLocation> {
    match zone {
        Some(z) => Some(ZoneLocation { window, zone: z }),
        None => None,
    }
}

/// The world right after a drag starts in window `key`.
pub open spec fn world_begun<T, R>(m: DragModel<T, R>, key: WindowKey, generation: u64) -> WorldState {
    WorldState {
        active: Some(
            WorldDrag {
                origin: key,
                generation,
                session: fresh_session(m),
                source_location: located(key, m.source),
                modifiers: no_modifiers(),
            },
        ),
        over: None,
        claim: None,
    }
}

/// Hover cleared in the world and in the lifecycle.
pub open spec fn hover_cleared<T, R>(w: WorldState, m: DragModel<T, R>) -> (WorldState, DragModel<T, R>) {
    (WorldState { over: None, ..w }, DragModel { over: None, ..m })
}

/// The settle generation window `key` may finish, while it presents one.
pub open spec fn settle_token_of<T, R>(w: WorldState, m: DragModel<T, R>, key: WindowKey) -> Option<u64> {
    if m.phase == DragPhase::Settling && w.claim is Some && w.claim->Some_0.presenter == key {
        Some(w.claim->Some_0.generation)
    } else {
        None
    }
}

/// Finish the settle presented by `key` under `generation`: only that exact
/// claim, and only while settling. The world is cleared with it.
pub open spec fn settle_ended<T, R>(w: WorldState, m: DragModel<T, R>, key: WindowKey, generation: u64) -> (
    WorldState,
    DragModel<T, R>,
    bool,
) {
    if w.claim == Some(SettleClaim { presenter: key, generation }) && m.phase == DragPhase::Settling {
        (empty_world(), settle_finished(m), true)
    } else {
        (w, m, false)
    }
}

/// Finish whatever settle `key` currently presents.
pub open spec fn settle_ended_from<T, R>(w: WorldState, m: DragModel<T, R>, key: WindowKey) -> (
    WorldState,
    DragModel<T, R>,
    bool,
) {
    match settle_token_of(w, m, key) {
        Some(g) => settle_ended(w, m, key, g),
        None => (w, m, false),
    }
}

/// The lifecycle after finishing tracked `session`, and the notice to act
/// on: a committed result is finalized; otherwise a drop commits and
/// finalizes, and anything else cancels the session.
pub open spec fn session_finish<T, R>(
    w: WorldState,
    m: DragModel<T, R>,
    session: DragSessionId,
    dropped: bool,
) -> (DragModel<T, R>, Option<Notice>) {
    if active_session_of(m) != Some(session) {
        (m, None)
    } else {
        let owns = world_session(w) == Some(session);
        let result = match session_result_of(m, session) {
            Some(r) => r,
            None => dropped,
        };
        let (m1, r) = if session_result_of(m, session) is Some {
            finalized(m, session)
        } else if dropped {
            finalized(committed(m, session, true).0, session)
        } else {
            session_cancelled(m, session)
        };
        match r {
            Some(n) => (
                m1,
                Some(
                    Notice {
                        notify: n,
                        resume: Resume::Session { session, result, owns_metadata: owns },
                    },
                ),
            ),
            None => (m1, None),
        }
    }
}

/// The end of an untracked completion: a drag still (or again) in flight
/// owns the world; a drop that settles keeps the world but loses its
/// hover; anything else clears the world.
pub open spec fn untracked_tail<T, R>(w: WorldState, m: DragModel<T, R>, dropped: bool) -> (
    WorldState,
    DragModel<T, R>,
) {
    if m.phase == DragPhase::Dragging {
        (w, m)
    } else if dropped && m.phase == DragPhase::Settling {
        hover_cleared(w, m)
    } else {
        (empty_world(), m)
    }
}

/// Finish an untracked drag: a cancellation cancels the drag first.
pub open spec fn untracked_finish<T, R>(w: WorldState, m: DragModel<T, R>, dropped: bool) -> (
    WorldState,
    DragModel<T, R>,
    Option<Notice>,
) {
    if !dropped && m.phase == DragPhase::Dragging {
        match cancel_result(m) {
            Some(n) => (w, cancelled(m), Some(Notice { notify: n, resume: Resume::Untracked { dropped } })),
            None => {
                let (w2, m2) = untracked_tail(w, cancelled(m), dropped);
                (w2, m2, None)
            },
        }
    } else {
        let (w2, m2) = untracked_tail(w, m, dropped);
        (w2, m2, None)
    }
}

/// The world's part after a source was notified.
pub open spec fn resumed<T, R>(w: WorldState, m: DragModel<T, R>, resume: Resume) -> (
    WorldState,
    DragModel<T, R>,
) {
    match resume {
        Resume::Nothing => (w, m),
        Resume::ClearWorld => (empty_world(), m),
        Resume::Untracked { dropped } => untracked_tail(w, m, dropped),
        Resume::Session { session, result, owns_metadata } => {
            if !owns_metadata || world_session(w) != Some(session) || m.phase == DragPhase::Dragging {
                (w, m)
            } else if result && m.phase == DragPhase::Settling {
                let kept = match w.active {
                    Some(a) => Some(WorldDrag { session: None, ..a }),
                    None => None,
                };
                hover_cleared(WorldState { active: kept, ..w }, m)
            } else {
                (empty_world(), m)
            }
        },
    }
}

/// Cancel the drag on the way out of its origin window; a notified
/// source clears the world afterwards.
pub open spec fn origin_cancelled<T, R>(w: WorldState, m: DragModel<T, R>) -> (
    WorldState,
    DragModel<T, R>,
    Option<Notice>,
) {
    match cancel_result(m) {
        Some(n) => (w, cancelled(m), Some(Notice { notify: n, resume: Resume::ClearWorld })),
        None => (empty_world(), cancelled(m), None),
    }
}

/// Window `key` closed. `over_reachable` tells whether the lifecycle's
/// hovered zone is still registered in a remaining window; it matters only
/// when the world has no window-qualified hover.
pub open spec fn left<T, R>(w: WorldState, m: DragModel<T, R>, key: WindowKey, over_reachable: bool) -> (
    WorldState,
    DragModel<T, R>,
    Option<Notice>,
) {
    let (w1, m1) = match w.over {
        Some(o) => if o.window == key {
            hover_cleared(w, m)
        } else {
            (w, m)
        },
        None => if m.over is Some && !over_reachable {
            (w, DragModel { over: None, ..m })
        } else {
            (w, m)
        },
    };
    if w1.active is Some && w1.active->Some_0.origin == key {
        let a = w1.active->Some_0;
        if m1.phase == DragPhase::Dragging {
            if a.session is Some && active_session_of(m1) == a.session {
                (empty_world(), abandoned(m1, a.session->Some_0), None)
            } else {
                origin_cancelled(w1, m1)
            }
        } else if m1.phase == DragPhase::Settling {
            match w1.claim {
                Some(c) => if c.presenter != key {
                    (w1, m1, None)
                } else {
                    let (w2, m2, _) = settle_ended_from(w1, m1, key);
                    (w2, m2, None)
                },
                None => (empty_world(), settle_finished(m1), None),
            }
        } else {
            (empty_world(), m1, None)
        }
    } else {
        let (w2, m2, _) = settle_ended_from(w1, m1, key);
        (w2, m2, None)
    }
}

impl WorldState {
    /// A world with nothing in flight.
    pub fn new() -> (w: Self)
        ensures
            w == empty_world(),
    {
        WorldState { active: None, over: None, claim: None }
    }

    /// Mark a drag as begun from window `key`, under a fresh `generation`,
    /// dropping stale hover and settle claims.
    pub fn begin_from<T, R>(&mut self, lc: &DragLifecycle<T, R>, key: WindowKey, generation: u64)
        ensures
            *final(self) == world_begun(lc@, key, generation),
    {
        let session = match lc.active_session() {
            Some(s) => if lc.session_result(s).is_none() {
                Some(s)
            } else {
                None
            },
            None => None,
        };
        let source_location = match lc.source() {
            Some(zone) => Some(ZoneLocation { window: key, zone }),
            None => None,
        };
        *self = WorldState {
            active: Some(
                WorldDrag {
                    origin: key,
                    generation,
                    session,
                    source_location,
                    modifiers: KeyModifiers::empty(),
                },
            ),
            over: None,
            claim: None,
        };
    }

    /// The tracked session this world completes, if any.
    pub fn drag_session(&self) -> (r: Option<DragSessionId>)
        ensures
            r == world_session(*self),
    {
        match self.active {
            Some(a) => a.session,
            None => None,
        }
    }

    /// The host token of the current world drag: its generation and session.
    pub fn drag_generation(&self) -> (r: Option<(u64, Option<DragSessionId>)>)
        ensures
            r == match self.active {
                Some(a) => Some((a.generation, a.session)),
                None => None,
            },
    {
        match self.active {
            Some(a) => Some((a.generation, a.session)),
            None => None,
        }
    }

    /// Do both halves of a captured host token still name the dragging
    /// world drag? An untracked token (`session: None`) is valid only with
    /// its generation.
    pub fn is_drag_generation<T, R>(
        &self,
        lc: &DragLifecycle<T, R>,
        generation: u64,
        session: Option<DragSessionId>,
    ) -> (b: bool)
        ensures
            b == (self.active is Some && lc@.phase == DragPhase::Dragging
                && self.active->Some_0.generation == generation
                && self.active->Some_0.session == session && (session is None
                || active_session_of(lc@) == session)),
    {
        match self.active {
            None => false,
            Some(a) => {
                if !lc.dragging() || a.generation != generation || a.session != session {
                    return false;
                }
                match session {
                    Some(s) => lc.is_session(s),
                    None => true,
                }
            },
        }
    }

    /// Is `session` both the world's and the lifecycle's active session?
    pub fn is_drag_session<T, R>(&self, lc: &DragLifecycle<T, R>, session: DragSessionId) -> (b: bool)
        ensures
            b == (world_session(*self) == Some(session) && active_session_of(lc@) == Some(session)),
    {
        let mine = match self.drag_session() {
            Some(s) => s == session,
            None => false,
        };
        mine && lc.is_session(session)
    }

    /// Modifier keys of the active drag (none without one).
    pub fn modifiers(&self) -> (k: KeyModifiers)
        ensures
            k == match self.active {
                Some(a) => a.modifiers,
                None => no_modifiers(),
            },
    {
        match self.active {
            Some(a) => a.modifiers,
            None => KeyModifiers::empty(),
        }
    }

    /// Record the modifier keys the host reports, while a drag is in flight.
    pub fn update_modifiers<T, R>(&mut self, lc: &DragLifecycle<T, R>, modifiers: KeyModifiers)
        ensures
            *final(self) == if lc@.phase == DragPhase::Dragging && old(self).active is Some {
                WorldState {
                    active: Some(WorldDrag { modifiers, ..old(self).active->Some_0 }),
                    ..*old(self)
                }
            } else {
                *old(self)
            },
    {
        if !lc.dragging() {
            return;
        }
        match self.active {
            Some(a) => {
                self.active = Some(WorldDrag { modifiers, ..a });
            },
            None => {},
        }
    }

    /// The window the drag started in, while it drags or settles.
    pub fn origin_window<T, R>(&self, lc: &DragLifecycle<T, R>) -> (r: Option<WindowKey>)
        ensures
            r == if lc@.phase != DragPhase::Idle && self.active is Some {
                Some(self.active->Some_0.origin)
            } else {
                None
            },
    {
        if lc.phase() == DragPhase::Idle {
            return None;
        }
        match self.active {
            Some(a) => Some(a.origin),
            None => None,
        }
    }

    /// Where the drag started, qualified by its window.
    pub fn source_location(&self) -> (r: Option<ZoneLocation>)
        ensures
            r == match self.active {
                Some(a) => a.source_location,
                None => None,
            },
    {
        match self.active {
            Some(a) => a.source_location,
            None => None,
        }
    }

    /// The hovered zone, qualified by its window.
    pub fn over_location(&self) -> (r: Option<ZoneLocation>)
        ensures
            r == self.over,
    {
        self.over
    }

    /// Is `zone` of window `key` the hovered one?
    pub fn is_over(&self, key: WindowKey, zone: ZoneId) -> (b: bool)
        ensures
            b == (self.over == Some(ZoneLocation { window: key, zone })),
    {
        match self.over {
            Some(o) => o.window == key && o.zone == zone,
            None => false,
        }
    }

    /// Does host-reported pointer motion drive this drag? Only a pointer
    /// drag in flight follows the host's cursor.
    pub fn tracks_pointer<T, R>(lc: &DragLifecycle<T, R>) -> (b: bool)
        ensures
            b == (lc@.phase == DragPhase::Dragging && lc@.mode == DragMode::Pointer),
    {
        lc.dragging() && lc.mode() == DragMode::Pointer
    }

    /// Forget the drag, its hover and its settle claim.
    pub fn clear_world_state(&mut self)
        ensures
            *final(self) == empty_world(),
    {
        *self = WorldState { active: None, over: None, claim: None };
    }

    /// Hover `location` in the world and its zone in the lifecycle.
    pub fn enter_location<T, R>(&mut self, lc: &mut DragLifecycle<T, R>, location: ZoneLocation)
        ensures
            *final(self) == (WorldState { over: Some(location), ..*old(self) }),
            final(lc)@ == (DragModel { over: Some(location.zone), ..old(lc)@ }),
    {
        self.over = Some(location);
        lc.enter(location.zone);
    }

    /// Clear hover in the world and in the lifecycle.
    pub fn clear_hover<T, R>(&mut self, lc: &mut DragLifecycle<T, R>)
        ensures
            (*final(self), final(lc)@) == hover_cleared(*old(self), old(lc)@),
    {
        match lc.over() {
            Some(over) => {
                lc.leave(over);
            },
            None => {},
        }
        self.over = None;
        assert(lc@ == (DragModel { over: None, ..old(lc)@ }));
    }

    /// Commit `session`'s result before receiver code runs, when it is the
    /// world's live session. Returns whether it committed.
    pub fn commit_session<T, R>(
        &self,
        lc: &mut DragLifecycle<T, R>,
        session: DragSessionId,
        dropped: bool,
    ) -> (b: bool)
        ensures
            (world_session(*self) == Some(session) && active_session_of(old(lc)@) == Some(session))
                ==> (final(lc)@, b) == committed(old(lc)@, session, dropped),
            !(world_session(*self) == Some(session) && active_session_of(old(lc)@) == Some(session))
                ==> final(lc)@ == old(lc)@ && !b,
    {
        if !self.is_drag_session(lc, session) {
            return false;
        }
        lc.commit_source(session, dropped)
    }

    /// Finish tracked `session`. `Some` when it finished: notify its source,
    /// then [`Self::resume`]. The world itself does not change here.
    pub fn finish_session<T, R>(
        &self,
        lc: &mut DragLifecycle<T, R>,
        session: DragSessionId,
        dropped: bool,
    ) -> (r: Option<Notice>)
        ensures
            (final(lc)@, r) == session_finish(*self, old(lc)@, session, dropped),
    {
        if !lc.is_session(session) {
            return None;
        }
        let owns = match self.drag_session() {
            Some(s) => s == session,
            None => false,
        };
        let committed_result = lc.session_result(session);
        let result = match committed_result {
            Some(r) => r,
            None => dropped,
        };
        let finished = if committed_result.is_some() {
            lc.finalize_source(session)
        } else if dropped {
            lc.finish_source(session, true)
        } else {
            lc.cancel_session(session)
        };
        match finished {
            Some(n) => Some(
                Notice {
                    notify: n,
                    resume: Resume::Session { session, result, owns_metadata: owns },
                },
            ),
            None => None,
        }
    }

    /// Finish `session` with the result it committed, if it did.
    pub fn finalize_session<T, R>(&self, lc: &mut DragLifecycle<T, R>, session: DragSessionId) -> (r:
        Option<Notice>)
        ensures
            match session_result_of(old(lc)@, session) {
                Some(result) => (final(lc)@, r) == session_finish(*self, old(lc)@, session, result),
                None => final(lc)@ == old(lc)@ && r is None,
            },
    {
        match lc.session_result(session) {
            Some(result) => self.finish_session(lc, session, result),
            None => None,
        }
    }

    /// Finish a drag no tracked session owns. `Some` when a source must be
    /// notified first; then [`Self::resume`].
    pub fn finish_untracked<T, R>(&mut self, lc: &mut DragLifecycle<T, R>, dropped: bool) -> (r:
        Option<Notice>)
        ensures
            (*final(self), final(lc)@, r) == untracked_finish(*old(self), old(lc)@, dropped),
    {
        if !dropped && lc.dragging() {
            let notify = lc.cancel();
            match notify {
                Some(n) => {
                    return Some(Notice { notify: n, resume: Resume::Untracked { dropped } });
                },
                None => {},
            }
        }
        self.untracked_tail(lc, dropped);
        None
    }

    fn untracked_tail<T, R>(&mut self, lc: &mut DragLifecycle<T, R>, dropped: bool)
        ensures
            (*final(self), final(lc)@) == untracked_tail(*old(self), old(lc)@, dropped),
    {
        if lc.dragging() {
            return;
        }
        if dropped && lc.phase() == DragPhase::Settling {
            self.clear_hover(lc);
        } else {
            self.clear_world_state();
        }
    }

    /// Finish the world's part once the source heard its notice.
    pub fn resume<T, R>(&mut self, lc: &mut DragLifecycle<T, R>, resume: Resume)
        ensures
            (*final(self), final(lc)@) == resumed(*old(self), old(lc)@, resume),
    {
        match resume {
            Resume::Nothing => {},
            Resume::ClearWorld => self.clear_world_state(),
            Resume::Untracked { dropped } => self.untracked_tail(lc, dropped),
            Resume::Session { session, result, owns_metadata } => {
                let still_mine = match self.drag_session() {
                    Some(s) => s == session,
                    None => false,
                };
                if !owns_metadata || !still_mine || lc.dragging() {
                    return;
                }
                if result && lc.phase() == DragPhase::Settling {
                    match self.active {
                        Some(a) => {
                            self.active = Some(WorldDrag { session: None, ..a });
                        },
                        None => {},
                    }
                    self.clear_hover(lc);
                } else {
                    self.clear_world_state();
                }
            },
        }
    }

    /// Abort the in-flight drag from the host side. `Some` when a source
    /// must be notified first; then [`Self::resume`].
    pub fn cancel_drag<T, R>(&mut self, lc: &mut DragLifecycle<T, R>) -> (r: Option<Notice>)
        ensures
            match world_session(*old(self)) {
                Some(s) => *final(self) == *old(self) && (final(lc)@, r) == session_finish(
                    *old(self),
                    old(lc)@,
                    s,
                    false,
                ),
                None => if old(lc)@.phase == DragPhase::Dragging {
                    (*final(self), final(lc)@, r) == untracked_finish(*old(self), old(lc)@, false)
                } else {
                    *final(self) == *old(self) && final(lc)@ == old(lc)@ && r is None
                },
            },
    {
        match self.drag_session() {
            Some(s) => self.finish_session(lc, s, false),
            None => if lc.dragging() {
                self.finish_untracked(lc, false)
            } else {
                None
            },
        }
    }

    /// Elect window `key` to present the next settle, under a fresh
    /// `generation`.
    pub fn claim_settle(&mut self, key: WindowKey, generation: u64)
        ensures
            *final(self) == (WorldState {
                claim: Some(SettleClaim { presenter: key, generation }),
                ..*old(self)
            }),
    {
        self.claim = Some(SettleClaim { presenter: key, generation });
    }

    /// The settle generation window `key` may finish: only while the
    /// lifecycle settles and `key` holds the claim.
    pub fn settle_token<T, R>(&self, lc: &DragLifecycle<T, R>, key: WindowKey) -> (r: Option<u64>)
        ensures
            r == settle_token_of(*self, lc@, key),
    {
        if lc.phase() != DragPhase::Settling {
            return None;
        }
        match self.claim {
            Some(c) => if c.presenter == key {
                Some(c.generation)
            } else {
                None
            },
            None => None,
        }
    }

    /// The window holding the settle claim, if any.
    pub fn settle_presenter(&self) -> (r: Option<WindowKey>)
        ensures
            r == match self.claim {
                Some(c) => Some(c.presenter),
                None => None,
            },
    {
        match self.claim {
            Some(c) => Some(c.presenter),
            None => None,
        }
    }

    /// The window presenting the current settle glide.
    pub fn settling_in<T, R>(&self, lc: &DragLifecycle<T, R>) -> (r: Option<WindowKey>)
        ensures
            r == if lc@.phase == DragPhase::Settling {
                match self.claim {
                    Some(c) => Some(c.presenter),
                    None => None,
                }
            } else {
                None
            },
    {
        if lc.phase() != DragPhase::Settling {
            return None;
        }
        self.settle_presenter()
    }

    /// Finish the settle `key` presents under `generation`. A stale
    /// generation cannot finish its successor. Returns whether it finished.
    pub fn finish_settle_generation<T, R>(
        &mut self,
        lc: &mut DragLifecycle<T, R>,
        key: WindowKey,
        generation: u64,
    ) -> (b: bool)
        ensures
            (*final(self), final(lc)@, b) == settle_ended(*old(self), old(lc)@, key, generation),
    {
        let held = match self.claim {
            Some(c) => c.presenter == key && c.generation == generation,
            None => false,
        };
        if !held || lc.phase() != DragPhase::Settling {
            return false;
        }
        lc.finish_settle();
        self.clear_world_state();
        true
    }

    /// Finish the settle `key` currently presents, if it presents one.
    pub fn finish_settle_from<T, R>(&mut self, lc: &mut DragLifecycle<T, R>, key: WindowKey) -> (b:
        bool)
        ensures
            (*final(self), final(lc)@, b) == settle_ended_from(*old(self), old(lc)@, key),
    {
        match self.settle_token(lc, key) {
            Some(g) => self.finish_settle_generation(lc, key, g),
            None => false,
        }
    }

    /// Window `key` closed. A drag that started there ends (its coordinate
    /// anchor is gone); a drag merely hovering there loses the hover; a
    /// settle it presented finishes. `over_reachable` tells whether the
    /// lifecycle's hovered zone is registered in a remaining window. `Some`
    /// when a source must be notified first; then [`Self::resume`].
    pub fn leave<T, R>(&mut self, lc: &mut DragLifecycle<T, R>, key: WindowKey, over_reachable: bool) -> (r:
        Option<Notice>)
        ensures
            (*final(self), final(lc)@, r) == left(*old(self), old(lc)@, key, over_reachable),
    {
        match self.over {
            Some(o) => if o.window == key {
                self.clear_hover(lc);
            },
            None => match lc.over() {
                Some(over) => if !over_reachable {
                    lc.leave(over);
                },
                None => {},
            },
        }
        let is_origin = match self.active {
            Some(a) => a.origin == key,
            None => false,
        };
        if is_origin {
            if lc.dragging() {
                let session = match self.active {
                    Some(a) => a.session,
                    None => None,
                };
                let live = match session {
                    Some(s) => lc.is_session(s),
                    None => false,
                };
                if live {
                    match session {
                        Some(s) => {
                            lc.abandon_session(s);
                        },
                        None => {},
                    }
                    self.clear_world_state();
                    return None;
                }
                let notify = lc.cancel();
                match notify {
                    Some(n) => {
                        return Some(Notice { notify: n, resume: Resume::ClearWorld });
                    },
                    None => {},
                }
                self.clear_world_state();
                return None;
            }
            if lc.phase() == DragPhase::Settling {
                match self.claim {
                    Some(c) => if c.presenter == key {
                        self.finish_settle_from(lc, key);
                    },
                    None => {
                        lc.finish_settle();
                        self.clear_world_state();
                    },
                }
                return None;
            }
            self.clear_world_state();
            return None;
        }
        self.finish_settle_from(lc, key);
        None
    }
}

/// How a successful delivery completes its source around the receiver's
/// callback: committed before it, finalized after it.
#[derive(Debug, Clone, Copy, PartialEq, Eq, Structural)]
pub enum DeliveryCompletion {
    /// No tracked source.
    Unowned,
    /// A single-window tracked source.
    Local(DragSessionId),
    /// A world drag, tracked or not.
    World(Option<DragSessionId>),
}

impl DeliveryCompletion {
    /// Commit the drop before receiver code runs.
    pub fn commit<T, R>(self, world: &WorldState, lc: &mut DragLifecycle<T, R>)
        ensures
            final(lc)@ == delivery_committed(self, *world, old(lc)@),
    {
        match self {
            DeliveryCompletion::Unowned => {},
            DeliveryCompletion::Local(s) => {
                lc.commit_source(s, true);
            },
            DeliveryCompletion::World(Some(s)) => {
                world.commit_session(lc, s, true);
            },
            DeliveryCompletion::World(None) => {},
        }
    }

    /// Finalize after the receiver's callback. `Some` when a source must be
    /// notified; then [`WorldState::resume`].
    pub fn finalize<T, R>(self, world: &mut WorldState, lc: &mut DragLifecycle<T, R>) -> (r: Option<
        Notice,
    >)
        ensures
            match self {
                DeliveryCompletion::Unowned => *final(world) == *old(world) && final(lc)@
                    == old(lc)@ && r is None,
                DeliveryCompletion::Local(s) => *final(world) == *old(world) && (final(lc)@, match r {
                    Some(n) => Some(n.notify),
                    None => None,
                }) == finalized(old(lc)@, s) && (r matches Some(n) ==> n.resume == Resume::Nothing),
                DeliveryCompletion::World(Some(s)) => *final(world) == *old(world) && match session_result_of(old(lc)@, s) {
                    Some(result) => (final(lc)@, r) == session_finish(*old(world), old(lc)@, s, result),
                    None => final(lc)@ == old(lc)@ && r is None,
                },
                DeliveryCompletion::World(None) => (*final(world), final(lc)@, r) == untracked_finish(
                    *old(world),
                    old(lc)@,
                    true,
                ),
            },
    {
        match self {
            DeliveryCompletion::Unowned => None,
            DeliveryCompletion::Local(s) => match lc.finalize_source(s) {
                Some(n) => Some(Notice { notify: n, resume: Resume::Nothing }),
                None => None,
            },
            DeliveryCompletion::World(Some(s)) => world.finalize_session(lc, s),
            DeliveryCompletion::World(None) => world.finish_untracked(lc, true),
        }
    }
}

/// Where a delivery's settle glide goes: only a pointer drop, onto a zone
/// whose window has an armed settle overlay and a measured rect, settles.
/// Keyboard drops never do.
pub open spec fn settle_destination<R>(mode: DragMode, armed: bool, rect: Option<R>) -> Option<R> {
    if mode == DragMode::Pointer && armed {
        rect
    } else {
        None
    }
}

/// The edges a delivered outcome reports a nearest edge among, with the
/// rect to measure it in: only for pointer drops onto a measured zone that
/// opted in.
pub open spec fn outcome_edges<R>(mode: DragMode, edges: Option<EdgeSet>, rect: Option<R>) -> Option<
    (EdgeSet, R),
> {
    if mode == DragMode::Pointer && edges is Some && rect is Some {
        Some((edges->Some_0, rect->Some_0))
    } else {
        None
    }
}

/// The lifecycle once a delivery took the payload: settling toward `to`,
/// or reset.
pub open spec fn taken_model<T, R>(m: DragModel<T, R>, to: Option<R>) -> DragModel<T, R> {
    match to {
        Some(r) => DragModel { over: None, settle: Some(r), phase: DragPhase::Settling, ..m },
        None => reset(m),
    }
}

/// The lifecycle after a delivery committed its source ("dropped").
pub open spec fn delivery_committed<T, R>(
    c: DeliveryCompletion,
    w: WorldState,
    m: DragModel<T, R>,
) -> DragModel<T, R> {
    match c {
        DeliveryCompletion::Local(s) => committed(m, s, true).0,
        DeliveryCompletion::World(Some(s)) => if world_session(w) == Some(s) && active_session_of(m)
            == Some(s) {
            committed(m, s, true).0
        } else {
            m
        },
        _ => m,
    }
}

/// The world once a settling delivery elected its presenter.
pub open spec fn presenter_claimed<R>(
    w: WorldState,
    to: Option<R>,
    owner: Option<(WindowKey, u64)>,
) -> WorldState {
    if to is Some && owner is Some {
        WorldState {
            claim: Some(SettleClaim { presenter: owner->Some_0.0, generation: owner->Some_0.1 }),
            ..w
        }
    } else {
        w
    }
}

/// Where a delivery settles (see [`settle_destination`]).
pub fn settle_destination_of<R: Copy>(mode: DragMode, armed: bool, rect: Option<R>) -> (r: Option<R>)
    ensures
        r == settle_destination(mode, armed, rect),
{
    if mode == DragMode::Pointer && armed {
        rect
    } else {
        None
    }
}

/// Which edges a delivered outcome measures (see [`outcome_edges`]).
pub fn outcome_edges_of<R: Copy>(mode: DragMode, edges: Option<EdgeSet>, rect: Option<R>) -> (r:
    Option<(EdgeSet, R)>)
    ensures
        r == outcome_edges(mode, edges, rect),
{
    if mode == DragMode::Pointer {
        match (edges, rect) {
            (Some(e), Some(r)) => Some((e, r)),
            _ => None,
        }
    } else {
        None
    }
}

/// The first half of a delivery, before the receiver's callback runs: elect
/// the receiving window as settle presenter when the drop settles (see
/// [`settle_destination`]), take the payload (keeping it readable while it
/// settles), and commit the source as dropped. `None`, with nothing taken,
/// when no payload is in flight. After the callback, finish with
/// [`DeliveryCompletion::finalize`].
pub fn take_for_delivery<T: Clone, R: Copy>(
    world: &mut WorldState,
    lc: &mut DragLifecycle<T, R>,
    settle_armed: bool,
    target_rect: Option<R>,
    settle_owner: Option<(WindowKey, u64)>,
    completion: DeliveryCompletion,
) -> (r: Option<(T, Option<ZoneId>)>)
    ensures
        ({
            let to = settle_destination(old(lc)@.mode, settle_armed, target_rect);
            &&& *final(world) == presenter_claimed(*old(world), to, settle_owner)
            &&& old(lc)@.payload is None ==> r is None && final(lc)@ == old(lc)@
            &&& old(lc)@.payload matches Some(p) ==> {
                &&& r matches Some((c, src)) && src == old(lc)@.source && (to is None ==> c == p)
                    && (to is Some ==> cloned::<T>(p, c))
                &&& final(lc)@ == delivery_committed(
                    completion,
                    *final(world),
                    taken_model(old(lc)@, to),
                )
            }
        }),
{
    let to = settle_destination_of(lc.mode(), settle_armed, target_rect);
    let taken = match to {
        Some(rect) => {
            match settle_owner {
                Some((key, generation)) => world.claim_settle(key, generation),
                None => {},
            }
            lc.take_settling(rect)
        },
        None => lc.take(),
    };
    if taken.is_some() {
        completion.commit(world, lc);
    }
    taken
}

/// Cancelled drags and keyboard drops never settle: a cancellation leaves
/// the lifecycle idle or, when a committed session held it, where it was
/// (never settling), and a keyboard delivery takes the payload without a
/// glide.
pub proof fn law_cancelled_and_keyboard_drops_never_settle<T, R>(
    m: DragModel<T, R>,
    armed: bool,
    rect: Option<R>,
    c: DeliveryCompletion,
    w: WorldState,
)
    ensures
        cancelled(m).phase != DragPhase::Settling,
        m.mode == DragMode::Keyboard ==> settle_destination(m.mode, armed, rect) is None
            && delivery_committed(c, w, taken_model(m, settle_destination(m.mode, armed, rect))).phase
            == DragPhase::Idle,
{
}

/// Closing the window a drag started in never leaves world metadata
/// behind: unless a settle is gliding, the world is cleared at once, or
/// right after the source hears that its drag was cancelled. The drag
/// itself ends too, except when its tracked session had already committed
/// a result (the committed completion then owns what remains).
pub proof fn law_closing_the_origin_window_clears_the_world<T, R>(
    w: WorldState,
    m: DragModel<T, R>,
    key: WindowKey,
    over_reachable: bool,
)
    requires
        w.active matches Some(a) && a.origin == key,
        m.phase != DragPhase::Settling,
    ensures
        ({
            let (w2, m2, n) = left(w, m, key, over_reachable);
            match n {
                None => w2 == empty_world(),
                Some(x) => x.resume == Resume::ClearWorld && resumed(w2, m2, x.resume).0
                    == empty_world(),
            }
        }),
        ({
            let (w2, m2, n) = left(w, m, key, over_reachable);
            !(active_session_of(m) is Some && session_result_of(m, active_session_of(m)->Some_0)
                is Some) ==> m2.phase == DragPhase::Idle
        }),
{
}

/// Settle claims drawn from one counter never finish each other: after a
/// second claim by the same presenter, the first claim's generation finishes
/// nothing, and the second one ends the settle.
pub proof fn law_counted_settle_claims_never_finish_each_other<T, R>(
    w: WorldState,
    m: DragModel<T, R>,
    key: WindowKey,
    counter: u64,
    earlier: nat,
    later: nat,
)
    requires
        earlier < later,
        counter + later <= u64::MAX,
    ensures
        ({
            let first = nth_id(counter, earlier);
            let second = nth_id(counter, later);
            let w1 = WorldState { claim: Some(SettleClaim { presenter: key, generation: first }), ..w };
            let w2 = WorldState { claim: Some(SettleClaim { presenter: key, generation: second }), ..w1 };
            &&& first != second
            &&& settle_ended(w2, m, key, first) == (w2, m, false)
            &&& m.phase == DragPhase::Settling ==> settle_ended(w2, m, key, second) == (
                empty_world(),
                settle_finished(m),
                true,
            )
        }),
{
    law_every_auto_id_is_fresh(counter, earlier, later);
}

/// Only the current settle claim finishes a settle: a stale generation
/// changes nothing, even for the same presenter, while the current one
/// ends the settle and clears the world.
pub proof fn law_stale_settle_generation_cannot_finish_its_successor<T, R>(
    w: WorldState,
    m: DragModel<T, R>,
    key: WindowKey,
    stale: u64,
    current: u64,
)
    requires
        w.claim == Some(SettleClaim { presenter: key, generation: current }),
        stale != current,
    ensures
        settle_ended(w, m, key, stale) == (w, m, false),
        m.phase == DragPhase::Settling ==> settle_ended(w, m, key, current) == (
            empty_world(),
            settle_finished(m),
            true,
        ),
{
}

/// A settle claim presents nothing once the lifecycle stopped settling
/// (say, a custom cancel reset it): no token, and nothing to finish.
pub proof fn law_claims_present_only_while_settling<T, R>(
    w: WorldState,
    m: DragModel<T, R>,
    key: WindowKey,
)
    requires
        m.phase != DragPhase::Settling,
    ensures
        settle_token_of(w, m, key) is None,
        settle_ended_from(w, m, key) == (w, m, false),
{
}

/// A drag started while its predecessor's source was being notified owns
/// the world's metadata: the predecessor's completion leaves it untouched.
pub proof fn law_replacement_drag_keeps_its_metadata<T, R>(
    w: WorldState,
    m: DragModel<T, R>,
    session: DragSessionId,
    result: bool,
    owns_metadata: bool,
)
    requires
        m.phase == DragPhase::Dragging || world_session(w) != Some(session),
    ensures
        resumed(w, m, Resume::Session { session, result, owns_metadata }) == (w, m),
{
}

/// A tracked session is finished, and its source notified, at most once.
pub proof fn law_session_finishes_once<T, R>(
    w: WorldState,
    m: DragModel<T, R>,
    session: DragSessionId,
    dropped: bool,
    again: bool,
)
    ensures
        ({
            let (m1, n) = session_finish(w, m, session, dropped);
            n is Some ==> active_session_of(m1) is None && session_finish(w, m1, session, again).1 is None
        }),
{
}

} // verus!
