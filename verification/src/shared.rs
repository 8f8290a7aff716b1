//! The state that the caller's side and the session's side share.
//!
//! It is a mailbox of one slot. A presence update overwrites the slot and
//! marks it as fresh; the session takes the slot's content only while it is
//! fresh, and taking it clears the mark. However many updates come between
//! two takes, the session sees the last one, once.
//!
//! The record is meant to sit behind one lock: each method is then one
//! atomic step.

use vstd::prelude::*;
use vstd::slice::slice_to_vec;

verus! {

/// What the shared state holds.
pub struct SharedView {
    /// The payload of the presence update that was asked for last.
    pub presence: Seq<u8>,
    /// `presence` has changed since it was last taken.
    pub presence_updated: bool,
    /// Whether the session was connected when it last said so.
    pub is_connected: bool,
    /// The client is shutting down.
    pub stopped: bool,
}

impl SharedView {
    /// The state after a presence update with `payload`.
    pub open spec fn updated(self, payload: Seq<u8>) -> SharedView {
        SharedView { presence: payload, presence_updated: true, ..self }
    }

    /// What a take delivers in this state.
    pub open spec fn pending(self) -> Option<Seq<u8>> {
        if self.presence_updated {
            Some(self.presence)
        } else {
            None
        }
    }

    /// The state after a take.
    pub open spec fn taken(self) -> SharedView {
        SharedView { presence_updated: false, ..self }
    }

    /// The state after the stop.
    pub open spec fn stopped(self) -> SharedView {
        SharedView { presence_updated: false, stopped: true, ..self }
    }
}

pub struct SharedState {
    presence: Vec<u8>,
    presence_updated: bool,
    is_connected: bool,
    stopped: bool,
}

impl View for SharedState {
    type V = SharedView;

    closed spec fn view(&self) -> SharedView {
        SharedView {
            presence: self.presence@,
            presence_updated: self.presence_updated,
            is_connected: self.is_connected,
            stopped: self.stopped,
        }
    }
}

impl SharedState {
    pub fn new() -> (state: Self)
        ensures
            state@ == (SharedView {
                presence: Seq::empty(),
                presence_updated: false,
                is_connected: false,
                stopped: false,
            }),
    {
        SharedState {
            presence: Vec::new(),
            presence_updated: false,
            is_connected: false,
            stopped: false,
        }
    }

    /// Puts `payload` in the slot in place of what was there, and marks the
    /// slot as fresh.
    pub fn update_presence(&mut self, payload: Vec<u8>)
        ensures
            final(self)@ == old(self)@.updated(payload@),
    {
        self.presence = payload;
        self.presence_updated = true;
    }

    /// Tests the mark and clears it in one step. Where it was set, the
    /// slot's content is returned; the slot keeps it.
    pub fn take_presence(&mut self) -> (payload: Option<Vec<u8>>)
        ensures
            final(self)@ == old(self)@.taken(),
            match old(self)@.pending() {
                Some(pending) => payload matches Some(bytes) && bytes@ == pending,
                None => payload is None,
            },
    {
        if self.presence_updated {
            self.presence_updated = false;
            Some(slice_to_vec(self.presence.as_slice()))
        } else {
            None
        }
    }

    /// Records whether the session is connected.
    pub fn publish_connected(&mut self, connected: bool)
        ensures
            final(self)@ == (SharedView { is_connected: connected, ..old(self)@ }),
    {
        self.is_connected = connected;
    }

    pub fn is_connected(&self) -> (connected: bool)
        ensures
            connected == self@.is_connected,
    {
        self.is_connected
    }

    /// Begins the shutdown: a pending presence update is dropped, and the
    /// state is stopped from here on. No method takes the stop back.
    pub fn stop(&mut self)
        ensures
            final(self)@ == old(self)@.stopped(),
    {
        self.presence_updated = false;
        self.stopped = true;
    }

    pub fn is_stopped(&self) -> (stopped: bool)
        ensures
            stopped == self@.stopped,
    {
        self.stopped
    }
}

/// Presence updates coalesce: after two updates with no take between them,
/// one take delivers the second payload, and the take after it delivers
/// nothing.
pub proof fn lemma_updates_coalesce(state: SharedView, first: Seq<u8>, second: Seq<u8>)
    ensures
        state.updated(first).updated(second).pending() == Some(second),
        state.updated(first).updated(second).taken().pending() is None,
        state.updated(first).updated(second) == state.updated(second),
{
}

/// A take changes nothing but the mark, so that a later update is seen again.
pub proof fn lemma_take_keeps_slot(state: SharedView, payload: Seq<u8>)
    ensures
        state.taken().presence == state.presence,
        state.taken().stopped == state.stopped,
        state.taken().updated(payload).pending() == Some(payload),
{
}

/// Once stopped, a state stays stopped through every step.
pub proof fn lemma_stop_is_final(state: SharedView, payload: Seq<u8>, connected: bool)
    requires
        state.stopped,
    ensures
        state.updated(payload).stopped,
        state.taken().stopped,
        state.stopped().stopped,
        (SharedView { is_connected: connected, ..state }).stopped,
{
}

} // verus!
