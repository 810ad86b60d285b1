//! The auto-scroll clock: which input owns a scrolling container's frame
//! clock, when a frame may scroll, and how nested containers hand the
//! pointer to the outer one once the inner one reaches its end.
//!
//! A container scrolls while a drag hovers near its edges. Three inputs can
//! drive it: pointer moves, native drag-over events, and a host-supplied
//! pointer feed. Each frame measures the container, then scrolls it unless
//! the clock was stopped or handed to another input meanwhile; the
//! measurements and scrolling are the host's, the decisions are here.

use vstd::prelude::*;

use crate::keys::{is_key_fn, key_for, key_of};

verus! {

/// Which input drives a container's scroll clock.
#[derive(Debug, Clone, Copy, PartialEq, Eq, Structural)]
pub enum ClockOwner {
    /// Pointer moves with a button held or contact pressure.
    Pointer,
    /// Native drag-over events.
    NativeDrag,
    /// A host-supplied pointer feed.
    External,
}

/// Identifies one run of the clock: frames carry it, and a frame whose run
/// was stopped or taken over finds it stale.
#[derive(Debug, Clone, Copy, PartialEq, Eq, Structural)]
pub struct ClockToken {
    pub owner: ClockOwner,
    pub epoch: u64,
}

/// One container's clock. `P` is the host's pointer sample.
#[derive(Debug, Clone, Copy, PartialEq)]
pub struct ScrollClock<P> {
    /// The pointer the next frame scrolls toward.
    pub latest: Option<P>,
    pub running: bool,
    pub owner: Option<ClockOwner>,
    /// Advances whenever the clock starts, changes owner or stops.
    pub epoch: u64,
    /// Advances whenever a new frame is scheduled.
    pub generation: u64,
    /// A frame is between its measurement and its scroll.
    pub busy: bool,
    /// Nesting depth of native drag-enter events over the container.
    pub native_depth: u32,
}

/// The clock after `owner` started it at `point`: the point is kept; a
/// clock that was stopped or run by another input starts a new run.
pub open spec fn clock_started<P>(c: ScrollClock<P>, point: P, owner: ClockOwner) -> ScrollClock<P> {
    if !c.running || c.owner != Some(owner) {
        ScrollClock {
            latest: Some(point),
            running: true,
            owner: Some(owner),
            epoch: (c.epoch + 1) as u64,
            generation: (c.generation + 1) as u64,
            ..c
        }
    } else {
        ScrollClock { latest: Some(point), ..c }
    }
}

/// The clock stopped: a new epoch, so in-flight frames find it stale.
pub open spec fn halted<P>(c: ScrollClock<P>) -> ScrollClock<P> {
    ScrollClock { running: false, owner: None, epoch: (c.epoch + 1) as u64, ..c }
}

/// The clock after `owner` stopped it: only the input that runs it can.
pub open spec fn clock_stopped<P>(c: ScrollClock<P>, owner: ClockOwner) -> ScrollClock<P> {
    if c.owner == Some(owner) {
        halted(c)
    } else {
        c
    }
}

/// Is the run named by `t` still the clock's current one?
pub open spec fn owned_by<P>(c: ScrollClock<P>, t: ClockToken) -> bool {
    c.running && c.owner == Some(t.owner) && c.epoch == t.epoch
}

/// The pointer sample a host feed contributes: only when the caller
/// confirms its drag is active, so a retained coordinate cannot scroll idle
/// content.
pub open spec fn feed_sample<P>(active: Option<bool>, pointer: Option<P>) -> Option<P> {
    if active == Some(true) {
        pointer
    } else {
        None
    }
}

/// The host feed's sample (see [`feed_sample`]).
pub fn external_pointer_sample<P: Copy>(active: Option<bool>, pointer: Option<P>) -> (r: Option<P>)
    ensures
        r == feed_sample(active, pointer),
{
    match active {
        Some(true) => pointer,
        _ => None,
    }
}

/// One scrollable container as the coordinator sees it. `R` is the host's
/// rect.
#[derive(Debug, Clone, Copy, PartialEq)]
pub struct ScrollEntry<R> {
    pub id: u64,
    pub rect: R,
    /// Whether the container's own edge band would scroll it.
    pub available: bool,
    /// Whether it hit its end on its last try.
    pub blocked: bool,
}

/// Every id occurs at most once.
pub open spec fn unique_entries<R>(s: Seq<ScrollEntry<R>>) -> bool {
    forall|i: int, j: int|
        0 <= i < s.len() && 0 <= j < s.len() && i != j ==> #[trigger] s[i].id != #[trigger] s[j].id
}

/// Some entry has id `id`.
pub open spec fn has_entry<R>(s: Seq<ScrollEntry<R>>, id: u64) -> bool {
    exists|i: int| 0 <= i < s.len() && (#[trigger] s[i]).id == id
}

/// The index of the entry with id `id`.
pub open spec fn entry_slot<R>(s: Seq<ScrollEntry<R>>, id: u64) -> int {
    choose|i: int| 0 <= i < s.len() && (#[trigger] s[i]).id == id
}

/// The entries after a measurement of container `id`: its rect and
/// availability are replaced (its blocked bit kept), or it joins unblocked.
pub open spec fn measured<R>(s: Seq<ScrollEntry<R>>, id: u64, rect: R, available: bool) -> Seq<
    ScrollEntry<R>,
> {
    if has_entry(s, id) {
        let i = entry_slot(s, id);
        s.update(i, ScrollEntry { rect, available, ..s[i] })
    } else {
        s.push(ScrollEntry { id, rect, available, blocked: false })
    }
}

/// The entries with container `id` marked blocked or not (unknown ids
/// change nothing).
pub open spec fn marked<R>(s: Seq<ScrollEntry<R>>, id: u64, blocked: bool) -> Seq<ScrollEntry<R>> {
    if has_entry(s, id) {
        let i = entry_slot(s, id);
        s.update(i, ScrollEntry { blocked, ..s[i] })
    } else {
        s
    }
}

/// The entry may own the pointer: it would scroll, is not at its end, and
/// contains the pointer (the host's `rank` gives its area rank then).
pub open spec fn eligible<R, F: Fn(&R) -> Option<u64>>(e: ScrollEntry<R>, rank: F) -> bool {
    e.available && !e.blocked && key_of(rank, e.rect) is Some
}

/// `s[j]` owns the pointer: the eligible entry of smallest area rank, the
/// first of several equal ones.
pub open spec fn owner_at<R, F: Fn(&R) -> Option<u64>>(s: Seq<ScrollEntry<R>>, rank: F, j: int) -> bool {
    &&& 0 <= j < s.len()
    &&& eligible(s[j], rank)
    &&& forall|i: int|
        0 <= i < s.len() && eligible(#[trigger] s[i], rank) ==> key_of(rank, s[j].rect)->Some_0
            <= key_of(rank, s[i].rect)->Some_0
    &&& forall|i: int|
        0 <= i < j && eligible(#[trigger] s[i], rank) ==> key_of(rank, s[j].rect)->Some_0 < key_of(
            rank,
            s[i].rect,
        )->Some_0
}

/// The id of the container that owns the pointer, if any (see [`owner_at`]).
pub open spec fn pointer_owner<R, F: Fn(&R) -> Option<u64>>(s: Seq<ScrollEntry<R>>, rank: F) -> Option<u64> {
    if exists|j: int| owner_at(s, rank, j) {
        Some(s[choose|j: int| owner_at(s, rank, j)].id)
    } else {
        None
    }
}

/// At most one entry owns the pointer.
pub proof fn lemma_owner_unique<R, F: Fn(&R) -> Option<u64>>(s: Seq<ScrollEntry<R>>, rank: F, a: int, b: int)
    requires
        owner_at(s, rank, a),
        owner_at(s, rank, b),
    ensures
        a == b,
{
    if a < b {
        assert(eligible(s[a], rank));
    } else if b < a {
        assert(eligible(s[b], rank));
    }
}

/// Every scrollable container in one nesting tree: the innermost
/// (smallest) one able to scroll owns the pointer, and once it reaches its
/// end it hands the pointer to the next one out.
pub struct ScrollCoordinator<R> {
    entries: Vec<ScrollEntry<R>>,
}

impl<R> View for ScrollCoordinator<R> {
    type V = Seq<ScrollEntry<R>>;

    closed spec fn view(&self) -> Seq<ScrollEntry<R>> {
        self.entries@
    }
}

impl<R> ScrollCoordinator<R> {
    #[verifier::type_invariant]
    closed spec fn ids_unique(self) -> bool {
        unique_entries(self.entries@)
    }
}

impl<R: Copy> ScrollCoordinator<R> {

    /// No container yet.
    pub fn new() -> (c: Self)
        ensures
            c@.len() == 0,
    {
        ScrollCoordinator { entries: Vec::new() }
    }

    /// The registered containers, in order.
    pub fn entries(&self) -> (r: &[ScrollEntry<R>])
        ensures
            r@ == self@,
            unique_entries(self@),
    {
        proof {
            use_type_invariant(self);
        }
        self.entries.as_slice()
    }

    /// Where container `id` sits, if registered.
    fn find(&self, id: u64) -> (r: Option<usize>)
        ensures
            r is Some == has_entry(self@, id),
            r matches Some(i) ==> i == entry_slot(self@, id),
    {
        proof {
            use_type_invariant(self);
        }
        let mut i: usize = 0;
        while i < self.entries.len()
            invariant
                i <= self@.len(),
                self@ == self.entries@,
                unique_entries(self@),
                forall|k: int| 0 <= k < i ==> (#[trigger] self@[k]).id != id,
            decreases self@.len() - i,
        {
            if self.entries[i].id == id {
                proof {
                    assert(has_entry(self@, id));
                    let k = entry_slot(self@, id);
                    assert(self@[k].id == id);
                }
                return Some(i);
            }
            i = i + 1;
        }
        None
    }

    /// Record a measurement of container `id`.
    pub fn update(&mut self, id: u64, rect: R, available: bool)
        ensures
            final(self)@ == measured(old(self)@, id, rect, available),
    {
        proof {
            use_type_invariant(&*self);
        }
        let found = self.find(id);
        let ghost s0 = self@;
        let mut entries = Vec::new();
        std::mem::swap(&mut entries, &mut self.entries);
        match found {
            Some(i) => {
                let old = entries[i];
                entries.set(i, ScrollEntry { rect, available, ..old });
            },
            None => {
                entries.push(ScrollEntry { id, rect, available, blocked: false });
            },
        }
        proof {
            let s1 = entries@;
            assert forall|a: int, b: int|
                0 <= a < s1.len() && 0 <= b < s1.len() && a != b implies #[trigger] s1[a].id
                != #[trigger] s1[b].id by {
                if a < s0.len() && b < s0.len() {
                    assert(s1[a].id == s0[a].id && s1[b].id == s0[b].id);
                }
            }
        }
        self.entries = entries;
    }

    /// Mark container `id` as at its end (or not).
    pub fn set_blocked(&mut self, id: u64, blocked: bool)
        ensures
            final(self)@ == marked(old(self)@, id, blocked),
    {
        proof {
            use_type_invariant(&*self);
        }
        let found = self.find(id);
        match found {
            Some(i) => {
                let ghost s0 = self@;
                let mut entries = Vec::new();
                std::mem::swap(&mut entries, &mut self.entries);
                let old = entries[i];
                entries.set(i, ScrollEntry { blocked, ..old });
                proof {
                    let s1 = entries@;
                    assert forall|a: int, b: int|
                        0 <= a < s1.len() && 0 <= b < s1.len() && a != b implies #[trigger] s1[a].id
                        != #[trigger] s1[b].id by {
                        assert(s1[a].id == s0[a].id && s1[b].id == s0[b].id);
                    }
                }
                self.entries = entries;
            },
            None => {},
        }
    }

    /// Forget container `id` (it unmounted).
    pub fn unregister(&mut self, id: u64)
        ensures
            final(self)@ == old(self)@.filter(|e: ScrollEntry<R>| e.id != id),
    {
        proof {
            use_type_invariant(&*self);
        }
        let ghost all = self@;
        let ghost pred = |e: ScrollEntry<R>| e.id != id;
        let mut kept: Vec<ScrollEntry<R>> = Vec::new();
        let mut i: usize = 0;
        while i < self.entries.len()
            invariant
                i <= all.len(),
                all == self.entries@,
                unique_entries(all),
                pred == (|e: ScrollEntry<R>| e.id != id),
                kept@ == all.take(i as int).filter(pred),
                forall|a: int, b: int|
                    0 <= a < kept@.len() && 0 <= b < kept@.len() && a != b ==> #[trigger] kept@[a].id
                        != #[trigger] kept@[b].id,
                forall|a: int|
                    0 <= a < kept@.len() ==> exists|k: int| 0 <= k < i && #[trigger] kept@[a] == all[k],
            decreases all.len() - i,
        {
            let e = self.entries[i];
            proof {
                assert(all.take(i + 1 as int) =~= all.take(i as int).push(e));
                all.take(i as int).lemma_filter_push(e, pred);
            }
            if e.id != id {
                proof {
                    assert forall|a: int| 0 <= a < kept@.len() implies #[trigger] kept@[a].id != e.id by {
                        let k = choose|k: int| 0 <= k < i && #[trigger] kept@[a] == all[k];
                        assert(all[k].id != all[i as int].id);
                    }
                }
                kept.push(e);
                proof {
                    assert forall|a: int|
                        0 <= a < kept@.len() implies exists|k: int| 0 <= k < i + 1 && #[trigger] kept@[a]
                        == all[k] by {
                        if a == kept@.len() - 1 {
                            assert(kept@[a] == all[i as int]);
                        } else {
                            let k = choose|k: int| 0 <= k < i && #[trigger] kept@[a] == all[k];
                            assert(kept@[a] == all[k]);
                        }
                    }
                }
            }
            i = i + 1;
        }
        proof {
            assert(all.take(all.len() as int) =~= all);
        }
        self.entries = kept;
    }

    /// The container that owns the pointer: among those available, not
    /// blocked and containing the pointer (`rank` returns a containing
    /// container's area rank, `None` when it does not contain the pointer),
    /// the one of smallest area, the earliest registered on ties.
    pub fn owner<F: Fn(&R) -> Option<u64>>(&self, rank: F) -> (r: Option<u64>)
        requires
            is_key_fn(rank),
        ensures
            r == pointer_owner(self@, rank),
            r is None <==> forall|i: int| 0 <= i < self@.len() ==> !eligible(#[trigger] self@[i], rank),
    {
        let mut best: Option<(usize, u64)> = None;
        let mut i: usize = 0;
        while i < self.entries.len()
            invariant
                i <= self@.len(),
                self@ == self.entries@,
                is_key_fn(rank),
                best is None ==> forall|k: int| 0 <= k < i ==> !eligible(#[trigger] self@[k], rank),
                best matches Some((b, v)) ==> {
                    &&& b < i
                    &&& eligible(self@[b as int], rank)
                    &&& key_of(rank, self@[b as int].rect) == Some(v)
                    &&& forall|k: int|
                        0 <= k < i && eligible(#[trigger] self@[k], rank) ==> v <= key_of(
                            rank,
                            self@[k].rect,
                        )->Some_0
                    &&& forall|k: int|
                        0 <= k < b && eligible(#[trigger] self@[k], rank) ==> v < key_of(
                            rank,
                            self@[k].rect,
                        )->Some_0
                },
            decreases self@.len() - i,
        {
            let e = self.entries[i];
            let ranked = key_for(&rank, &e.rect);
            if e.available && !e.blocked {
                match ranked {
                    Some(v) => {
                        let better = match best {
                            Some((_, bv)) => v < bv,
                            None => true,
                        };
                        if better {
                            best = Some((i, v));
                        }
                    },
                    None => {},
                }
            }
            i = i + 1;
        }
        match best {
            Some((b, _)) => {
                proof {
                    assert(owner_at(self@, rank, b as int));
                    let j = choose|j: int| owner_at(self@, rank, j);
                    lemma_owner_unique(self@, rank, j, b as int);
                }
                Some(self.entries[b].id)
            },
            None => {
                proof {
                    assert forall|j: int| !owner_at(self@, rank, j) by {
                        if 0 <= j < self@.len() {
                            assert(!eligible(self@[j], rank));
                        }
                    }
                }
                None
            },
        }
    }
}

/// What a frame does once its container was measured.
#[derive(Debug, Clone, Copy, PartialEq, Eq, Structural)]
pub enum FrameAction {
    /// The frame's run is over (stopped, handed over, or nothing to do).
    Done,
    /// Scroll by the measured delta, then report with
    /// [`ScrollClock::frame_scrolled`].
    Scroll,
}

/// What a measured frame does to the clock: a stale run only releases the
/// frame; with nothing to move the clock stops; a container that does not
/// own the pointer skips this frame; else it scrolls, still busy.
pub open spec fn measured_step<P>(c: ScrollClock<P>, token: ClockToken, available: bool, owns: bool) -> (
    ScrollClock<P>,
    FrameAction,
) {
    if !owned_by(c, token) {
        (ScrollClock { busy: false, ..c }, FrameAction::Done)
    } else if !available {
        (ScrollClock { busy: false, ..halted(c) }, FrameAction::Done)
    } else if !owns {
        (ScrollClock { busy: false, ..c }, FrameAction::Done)
    } else {
        (c, FrameAction::Scroll)
    }
}

impl<P: Copy> ScrollClock<P> {
    /// A stopped clock.
    pub fn new() -> (c: Self)
        ensures
            c == (ScrollClock::<P> {
                latest: None,
                running: false,
                owner: None,
                epoch: 0,
                generation: 0,
                busy: false,
                native_depth: 0,
            }),
    {
        ScrollClock {
            latest: None,
            running: false,
            owner: None,
            epoch: 0,
            generation: 0,
            busy: false,
            native_depth: 0,
        }
    }

    /// `owner` drives the clock toward `point`. A fresh sample is a new
    /// chance for a container that hit its end, so container `id` is no
    /// longer blocked.
    pub fn start_clock<R: Copy>(
        &mut self,
        coordinator: &mut ScrollCoordinator<R>,
        id: u64,
        point: P,
        owner: ClockOwner,
    )
        requires
            old(self).epoch < u64::MAX,
            old(self).generation < u64::MAX,
        ensures
            *final(self) == clock_started(*old(self), point, owner),
            final(coordinator)@ == marked(old(coordinator)@, id, false),
    {
        coordinator.set_blocked(id, false);
        self.latest = Some(point);
        let same = match self.owner {
            Some(o) => o == owner,
            None => false,
        };
        if !self.running || !same {
            self.owner = Some(owner);
            self.epoch = self.epoch + 1;
            self.running = true;
            self.generation = self.generation + 1;
        }
    }

    /// `owner` stops driving the clock; another input's run goes on.
    pub fn stop_clock(&mut self, owner: ClockOwner)
        requires
            old(self).epoch < u64::MAX,
        ensures
            *final(self) == clock_stopped(*old(self), owner),
    {
        let mine = match self.owner {
            Some(o) => o == owner,
            None => false,
        };
        if mine {
            self.halt();
        }
    }

    fn halt(&mut self)
        requires
            old(self).epoch < u64::MAX,
        ensures
            *final(self) == halted(*old(self)),
    {
        self.running = false;
        self.owner = None;
        self.epoch = self.epoch + 1;
    }

    /// Is the run named by `token` still the current one?
    pub fn still_owned(&self, token: ClockToken) -> (b: bool)
        ensures
            b == owned_by(*self, token),
    {
        let same = match self.owner {
            Some(o) => o == token.owner,
            None => false,
        };
        self.running && same && self.epoch == token.epoch
    }

    /// The token of the current run, if the clock runs.
    pub fn token(&self) -> (t: Option<ClockToken>)
        ensures
            t == if self.running && self.owner is Some {
                Some(ClockToken { owner: self.owner->Some_0, epoch: self.epoch })
            } else {
                None
            },
    {
        match self.owner {
            Some(o) => if self.running {
                Some(ClockToken { owner: o, epoch: self.epoch })
            } else {
                None
            },
            None => None,
        }
    }

    /// A frame of run `token` fired: it may go on only while that run is
    /// current and no earlier frame is still scrolling; it then marks the
    /// clock busy.
    pub fn frame_begin(&mut self, token: ClockToken) -> (go: bool)
        ensures
            go == (owned_by(*old(self), token) && !old(self).busy),
            *final(self) == if go {
                ScrollClock { busy: true, ..*old(self) }
            } else {
                *old(self)
            },
    {
        if self.still_owned(token) && !self.busy {
            self.busy = true;
            true
        } else {
            false
        }
    }

    /// The frame measured container `id` at `rect`; `available` tells
    /// whether its edge band would move it, and `rank` gives a container's
    /// area rank when it contains the frame's pointer. A run that ended
    /// meanwhile does nothing more. Otherwise the measurement is recorded;
    /// with nothing to move the clock stops; and the frame scrolls only
    /// when this container then owns the pointer.
    pub fn frame_measured<R: Copy, F: Fn(&R) -> Option<u64>>(
        &mut self,
        coordinator: &mut ScrollCoordinator<R>,
        id: u64,
        token: ClockToken,
        rect: R,
        available: bool,
        rank: F,
    ) -> (a: FrameAction)
        requires
            old(self).epoch < u64::MAX,
            is_key_fn(rank),
        ensures
            final(coordinator)@ == if owned_by(*old(self), token) {
                measured(old(coordinator)@, id, rect, available)
            } else {
                old(coordinator)@
            },
            (*final(self), a) == measured_step(
                *old(self),
                token,
                available,
                pointer_owner(measured(old(coordinator)@, id, rect, available), rank) == Some(id),
            ),
    {
        if !self.still_owned(token) {
            self.busy = false;
            return FrameAction::Done;
        }
        coordinator.update(id, rect, available);
        if !available {
            self.halt();
            self.busy = false;
            return FrameAction::Done;
        }
        let mine = match coordinator.owner(rank) {
            Some(o) => o == id,
            None => false,
        };
        if !mine {
            self.busy = false;
            return FrameAction::Done;
        }
        FrameAction::Scroll
    }

    /// A scrolling frame gave up: its run ended while it awaited the host,
    /// or the host could not read the container.
    pub fn frame_abandoned(&mut self)
        ensures
            *final(self) == (ScrollClock { busy: false, ..*old(self) }),
    {
        self.busy = false;
    }

    /// The frame scrolled container `id`; `moved` tells whether its offset
    /// changed. A container that could not move is at its end: it is marked
    /// blocked, handing the pointer to the next container out, and the
    /// clock stops. One that moved is unblocked. The host then re-measures
    /// the zones it scrolled.
    pub fn frame_scrolled<R: Copy>(&mut self, coordinator: &mut ScrollCoordinator<R>, id: u64, moved: bool)
        requires
            old(self).epoch < u64::MAX,
        ensures
            final(coordinator)@ == marked(old(coordinator)@, id, !moved),
            *final(self) == if moved {
                ScrollClock { busy: false, ..*old(self) }
            } else {
                ScrollClock { busy: false, ..halted(*old(self)) }
            },
    {
        coordinator.set_blocked(id, !moved);
        if !moved {
            self.halt();
        }
        self.busy = false;
    }

    /// The frame's animation ended: schedule the next frame while run
    /// `token` is still current.
    pub fn frame_ended(&mut self, token: ClockToken)
        requires
            old(self).generation < u64::MAX,
        ensures
            *final(self) == if owned_by(*old(self), token) {
                ScrollClock { generation: (old(self).generation + 1) as u64, ..*old(self) }
            } else {
                *old(self)
            },
    {
        if self.still_owned(token) {
            self.generation = self.generation + 1;
        }
    }

    /// A native drag entered the container or one of its descendants.
    pub fn drag_enter(&mut self)
        requires
            old(self).native_depth < u32::MAX,
        ensures
            *final(self) == (ScrollClock {
                native_depth: (old(self).native_depth + 1) as u32,
                ..*old(self)
            }),
    {
        self.native_depth = self.native_depth + 1;
    }

    /// A native drag hovers at `point`: the native drag drives the clock.
    pub fn drag_over<R: Copy>(&mut self, coordinator: &mut ScrollCoordinator<R>, id: u64, point: P)
        requires
            old(self).epoch < u64::MAX,
            old(self).generation < u64::MAX,
        ensures
            *final(self) == clock_started(
                ScrollClock {
                    native_depth: if old(self).native_depth == 0 {
                        1
                    } else {
                        old(self).native_depth
                    },
                    ..*old(self)
                },
                point,
                ClockOwner::NativeDrag,
            ),
            final(coordinator)@ == marked(old(coordinator)@, id, false),
    {
        if self.native_depth == 0 {
            self.native_depth = 1;
        }
        self.start_clock(coordinator, id, point, ClockOwner::NativeDrag);
    }

    /// A native drag left the container or a descendant; leaving the
    /// outermost level stops the native drag's clock.
    pub fn drag_leave(&mut self)
        requires
            old(self).epoch < u64::MAX,
        ensures
            ({
                let depth = if old(self).native_depth > 0 {
                    (old(self).native_depth - 1) as u32
                } else {
                    0u32
                };
                let left = ScrollClock { native_depth: depth, ..*old(self) };
                *final(self) == if depth == 0 {
                    clock_stopped(left, ClockOwner::NativeDrag)
                } else {
                    left
                }
            }),
    {
        let next = if self.native_depth > 0 {
            self.native_depth - 1
        } else {
            0
        };
        self.native_depth = next;
        if next == 0 {
            self.stop_clock(ClockOwner::NativeDrag);
        }
    }

    /// A native drag dropped here: it no longer drives the clock.
    pub fn drag_drop(&mut self)
        requires
            old(self).epoch < u64::MAX,
        ensures
            *final(self) == clock_stopped(
                ScrollClock { native_depth: 0, ..*old(self) },
                ClockOwner::NativeDrag,
            ),
    {
        self.native_depth = 0;
        self.stop_clock(ClockOwner::NativeDrag);
    }

    /// The host feed changed: an active feed drives the clock toward its
    /// pointer; any other feed stops the feed's clock.
    pub fn external_feed<R: Copy>(
        &mut self,
        coordinator: &mut ScrollCoordinator<R>,
        id: u64,
        active: Option<bool>,
        pointer: Option<P>,
    )
        requires
            old(self).epoch < u64::MAX,
            old(self).generation < u64::MAX,
        ensures
            feed_sample(active, pointer) matches Some(p) ==> *final(self) == clock_started(
                *old(self),
                p,
                ClockOwner::External,
            ) && final(coordinator)@ == marked(old(coordinator)@, id, false),
            feed_sample(active, pointer) is None ==> *final(self) == clock_stopped(
                *old(self),
                ClockOwner::External,
            ) && final(coordinator)@ == old(coordinator)@,
    {
        match external_pointer_sample(active, pointer) {
            Some(p) => self.start_clock(coordinator, id, p, ClockOwner::External),
            None => self.stop_clock(ClockOwner::External),
        }
    }
}

/// A frame of a stopped or replaced run never scrolls, not after any later
/// start either. The host feed drives the clock only while its caller
/// confirms the drag is active: otherwise it yields no sample. Only the
/// driver that runs the clock can stop it.
pub proof fn law_scroll_clock_ownership<P>(
    c: ScrollClock<P>,
    token: ClockToken,
    point: P,
    pointer: Option<P>,
    other: ClockOwner,
    owner: ClockOwner,
)
    requires
        c.epoch < u64::MAX,
        c.generation < u64::MAX,
        other != owner,
    ensures
        !owned_by(halted(c), token),
        token.epoch <= c.epoch && !owned_by(c, token) ==> !owned_by(clock_started(c, point, owner), token),
        clock_started(c, point, owner).epoch >= c.epoch,
        halted(c).epoch > c.epoch,
        c.owner == Some(owner) ==> clock_stopped(c, other) == c,
        feed_sample(None, pointer) is None && feed_sample(Some(false), pointer) is None,
        owned_by(clock_started(c, point, owner), token) ==> token.owner == owner,
{
}

/// A container that owns the pointer and reaches its end hands the pointer
/// on: once marked blocked it no longer owns it, and a fresh sample that
/// unblocks it restores the coordinator as it was.
pub proof fn law_blocked_container_hands_pointer_on<R, F: Fn(&R) -> Option<u64>>(
    s: Seq<ScrollEntry<R>>,
    id: u64,
    rank: F,
)
    requires
        unique_entries(s),
    ensures
        pointer_owner(marked(s, id, true), rank) != Some(id),
        has_entry(s, id) && !s[entry_slot(s, id)].blocked ==> marked(marked(s, id, true), id, false)
            == s,
{
    let m = marked(s, id, true);
    if exists|j: int| owner_at(m, rank, j) {
        let j = choose|j: int| owner_at(m, rank, j);
        if has_entry(s, id) {
            let k = entry_slot(s, id);
            if j != k {
                assert(m[j] == s[j]);
                assert(s[j].id != s[k].id);
            }
        } else {
            assert(m[j] == s[j]);
        }
    }
    if has_entry(s, id) && !s[entry_slot(s, id)].blocked {
        let k = entry_slot(s, id);
        assert(m.len() == s.len() && m[k].id == id);
        assert(has_entry(m, id));
        let k2 = entry_slot(m, id);
        if k2 != k {
            assert(m[k2] == s[k2]);
            assert(s[k2].id != s[k].id);
        }
        assert(marked(m, id, false) =~= s);
    }
}

} // verus!
