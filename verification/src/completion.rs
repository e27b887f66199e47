//! The completion bridge: the state shared between a blocking native call's
//! event callback and the poll side of the future that awaits it.
//!
//! The flag is level-triggered: once the callback records completion it is
//! never unset, so a poll that runs after the event has already fired still
//! observes it.  Each operation allocates a fresh state, so one state sees
//! one completion.

use vstd::prelude::*;

verus! {

/// The engine's event code for "connection opened", the event the completion
/// bridge waits for.
pub const EVENT_ON_CONNECTED: i32 = 1;

/// Completion state shared between the registered callback and the polling
/// future.  `W` is the scheduler's wakeup handle; the bridge stores at most
/// the latest one.
pub struct CompletionState<W> {
    pub completed: bool,
    pub waker: Option<W>,
}

/// The state after the callback observes event `event_id`: the flag is set
/// if the event is the awaited one, and the stored wakeup handle is taken
/// out (to be invoked by the callback).
pub open spec fn after_event<W>(s: CompletionState<W>, event_id: i32) -> CompletionState<W> {
    CompletionState { completed: s.completed || event_id == EVENT_ON_CONNECTED, waker: None }
}

/// Whether a poll of state `s` reports ready.
pub open spec fn poll_ready<W>(s: CompletionState<W>) -> bool {
    s.completed
}

impl<W> CompletionState<W> {
    /// A fresh state: not completed, no wakeup handle stored.
    pub fn new() -> (r: Self)
        ensures
            !r.completed,
            r.waker is None,
    {
        CompletionState { completed: false, waker: None }
    }

    /// The callback half: records completion when the awaited event fires
    /// and hands back the stored wakeup handle, which the caller must
    /// invoke.  The handle is taken out for any event, as the callback
    /// wakes the poller unconditionally.
    pub fn on_event(&mut self, event_id: i32) -> (w: Option<W>)
        ensures
            *final(self) == after_event(*old(self), event_id),
            w == old(self).waker,
    {
        if event_id == EVENT_ON_CONNECTED {
            self.completed = true;
        }
        self.waker.take()
    }

    /// The poll half: reports ready exactly when completion has been
    /// recorded, and otherwise stores the current wakeup handle, replacing
    /// any earlier one -- only the most recent poller is woken.
    pub fn poll(&mut self, w: W) -> (ready: bool)
        ensures
            ready == poll_ready(*old(self)),
            ready ==> *final(self) == *old(self),
            !ready ==> *final(self) == (CompletionState {
                completed: old(self).completed,
                waker: Some(w),
            }),
    {
        if self.completed {
            true
        } else {
            self.waker = Some(w);
            false
        }
    }

    /// Whether completion has been recorded.
    pub fn is_completed(&self) -> (r: bool)
        ensures
            r == self.completed,
    {
        self.completed
    }
}

/// No lost wakeup: if the awaited event fires before the first poll ever
/// runs, that poll still reports ready.
pub proof fn lemma_no_lost_wakeup<W>(s: CompletionState<W>)
    ensures
        poll_ready(after_event(s, EVENT_ON_CONNECTED)),
{
}

/// A completion is never unset: whatever event the callback observes later,
/// a completed state stays completed.
pub proof fn lemma_completion_stable<W>(s: CompletionState<W>, event_id: i32)
    requires
        s.completed,
    ensures
        after_event(s, event_id).completed,
{
}

} // verus!
