//! Application-wide drag lifecycle monitoring: listener bookkeeping and
//! the re-entrancy-safe event queue.
//!
//! Listeners may emit further events while being notified. Those events
//! queue behind the one being delivered instead of starting a nested
//! dispatch, so every listener sees every event exactly once, in emission
//! order. The host delivers: it asks [`Monitor::emit`] whether to start a
//! dispatch, then drains with [`Monitor::next_event`], calling each
//! listener of [`Monitor::listeners`], and finally [`Monitor::end_dispatch`].

use std::collections::VecDeque;
use vstd::prelude::*;

verus! {

/// The abstract monitor: listeners with their ids (in subscription order),
/// queued events, and whether a dispatch is under way.
pub struct MonitorModel<E, L> {
    pub listeners: Seq<(u64, L)>,
    pub pending: Seq<E>,
    pub dispatching: bool,
}

/// Listener registry and event queue of one drag context.
pub struct Monitor<E, L> {
    listeners: Vec<(u64, L)>,
    pending: VecDeque<E>,
    dispatching: bool,
}

impl<E, L> View for Monitor<E, L> {
    type V = MonitorModel<E, L>;

    closed spec fn view(&self) -> MonitorModel<E, L> {
        MonitorModel {
            listeners: self.listeners@,
            pending: self.pending@,
            dispatching: self.dispatching,
        }
    }
}

/// The monitor after `emit`: with no listener the event is dropped;
/// otherwise it queues, and a dispatch starts unless one is under way.
pub open spec fn emitted<E, L>(m: MonitorModel<E, L>, event: E) -> (MonitorModel<E, L>, bool) {
    if m.listeners.len() == 0 {
        (m, false)
    } else if m.dispatching {
        (MonitorModel { pending: m.pending.push(event), ..m }, false)
    } else {
        (MonitorModel { pending: m.pending.push(event), dispatching: true, ..m }, true)
    }
}

impl<E, L: Copy> Monitor<E, L> {
    /// A monitor with no listener and nothing queued.
    pub fn new() -> (m: Self)
        ensures
            m@.listeners.len() == 0,
            m@.pending.len() == 0,
            !m@.dispatching,
    {
        Monitor { listeners: Vec::new(), pending: VecDeque::new(), dispatching: false }
    }

    /// Add `listener` under a fresh id (the host's counter).
    pub fn subscribe(&mut self, id: u64, listener: L)
        ensures
            final(self)@ == (MonitorModel {
                listeners: old(self)@.listeners.push((id, listener)),
                ..old(self)@
            }),
    {
        self.listeners.push((id, listener));
    }

    /// Remove every listener registered under `id`; the others keep their
    /// order.
    pub fn unsubscribe(&mut self, id: u64)
        ensures
            final(self)@ == (MonitorModel {
                listeners: old(self)@.listeners.filter(|p: (u64, L)| p.0 != id),
                ..old(self)@
            }),
    {
        let ghost all = old(self)@.listeners;
        let ghost pred = |p: (u64, L)| p.0 != id;
        let mut kept: Vec<(u64, L)> = Vec::new();
        let mut i: usize = 0;
        while i < self.listeners.len()
            invariant
                i <= self.listeners@.len(),
                all == self.listeners@,
                pred == (|p: (u64, L)| p.0 != id),
                kept@ == all.take(i as int).filter(pred),
            decreases self.listeners@.len() - i,
        {
            let entry = self.listeners[i];
            proof {
                assert(all.take(i + 1 as int) =~= all.take(i as int).push(entry));
                all.take(i as int).lemma_filter_push(entry, pred);
            }
            if entry.0 != id {
                kept.push(entry);
            }
            i = i + 1;
        }
        proof {
            assert(all.take(all.len() as int) =~= all);
        }
        self.listeners = kept;
    }

    /// Is anyone listening?
    pub fn has_listeners(&self) -> (b: bool)
        ensures
            b == (self@.listeners.len() > 0),
    {
        self.listeners.len() > 0
    }

    /// The listeners to notify, with their ids, in subscription order.
    pub fn listeners(&self) -> (r: &[(u64, L)])
        ensures
            r@ == self@.listeners,
    {
        self.listeners.as_slice()
    }

    /// Queue `event` for delivery. Returns whether the caller should start
    /// dispatching now: false when nobody listens (the event is dropped) or
    /// when a dispatch is already draining the queue (the event waits its
    /// turn).
    pub fn emit(&mut self, event: E) -> (start: bool)
        ensures
            (final(self)@, start) == emitted(old(self)@, event),
    {
        if self.listeners.len() == 0 {
            return false;
        }
        self.pending.push_back(event);
        if self.dispatching {
            false
        } else {
            self.dispatching = true;
            true
        }
    }

    /// The next event to deliver, oldest first.
    pub fn next_event(&mut self) -> (e: Option<E>)
        ensures
            old(self)@.pending.len() == 0 ==> e is None && final(self)@ == old(self)@,
            old(self)@.pending.len() > 0 ==> e == Some(old(self)@.pending[0]) && final(self)@ == (
            MonitorModel { pending: old(self)@.pending.drop_first(), ..old(self)@ }),
    {
        let e = self.pending.pop_front();
        proof {
            if old(self)@.pending.len() > 0 {
                assert(self@.pending =~= old(self)@.pending.drop_first());
            }
        }
        e
    }

    /// The dispatch is over.
    pub fn end_dispatch(&mut self)
        ensures
            final(self)@ == (MonitorModel { dispatching: false, ..old(self)@ }),
    {
        self.dispatching = false;
    }
}

/// Events are delivered one dispatch at a time and in emission order: an
/// event emitted while a dispatch is draining never starts another one and
/// is queued after everything already waiting.
pub proof fn law_events_queue_in_order<E, L>(m: MonitorModel<E, L>, first: E, second: E)
    requires
        m.listeners.len() > 0,
        !m.dispatching,
        m.pending.len() == 0,
    ensures
        ({
            let (m1, start1) = emitted(m, first);
            let (m2, start2) = emitted(m1, second);
            &&& start1
            &&& !start2
            &&& m2.pending == seq![first, second]
        }),
{
    assert(emitted(emitted(m, first).0, second).0.pending =~= seq![first, second]);
}

} // verus!
