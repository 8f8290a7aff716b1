//! The caller's side of the client.
//!
//! The facade numbers the commands it sends, keeps track of which handlers
//! are installed, and decides what each call puts on the way to the peer:
//! a presence update for the shared slot, an answer to a join request while
//! connected, and a subscription command for each handler whose presence a
//! change of handlers has altered. Events that the session has queued are
//! handed to the handlers that are installed, in the order they came.

use vstd::prelude::*;
use crate::messages::{JoinReply, SetActivity, ToggleSubscription};
use crate::presence::Presence;
use crate::session::Event;
use crate::shared::SharedState;

verus! {

/// The nonce of the first command that a client sends.
pub const FIRST_NONCE: i32 = 1;

/// The nonce that follows `nonce`: one more, and the least after the greatest.
pub open spec fn next_nonce(nonce: i32) -> i32 {
    if nonce == i32::MAX {
        i32::MIN
    } else {
        (nonce + 1) as i32
    }
}

/// A counter that numbers the commands of one client.
#[derive(Clone, Copy, Debug, PartialEq, Eq)]
pub struct Nonce(pub i32);

impl Nonce {
    /// Returns the current number and steps to the one after it.
    pub fn next(&mut self) -> (nonce: i32)
        ensures
            nonce == old(self).0,
            final(self).0 == next_nonce(old(self).0),
    {
        let result: i32 = self.0;
        self.0 = self.0.wrapping_add(1);
        result
    }
}

/// Which of the caller's handlers are installed.
#[derive(Clone, Copy, Debug, Default, PartialEq, Eq)]
pub struct EventHandlers {
    pub connect: bool,
    pub disconnect: bool,
    pub error: bool,
    pub join_game: bool,
    pub spectate_game: bool,
    pub join_request: bool,
}

impl EventHandlers {
    /// A handler for `event` is installed.
    pub open spec fn spec_handles(self, event: Event) -> bool {
        match event {
            Event::Connected(_) => self.connect,
            Event::Disconnected(_) => self.disconnect,
            Event::GotError(_) => self.error,
            Event::GameJoined(_) => self.join_game,
            Event::StartedSpectating(_) => self.spectate_game,
            Event::JoinRequested(_) => self.join_request,
        }
    }

    /// The test that `spec_handles` makes, as a predicate on events.
    pub open spec fn handled(self) -> spec_fn(Event) -> bool {
        |event: Event| self.spec_handles(event)
    }

    /// Whether a handler for `event` is installed.
    pub fn handles(&self, event: &Event) -> (handled: bool)
        ensures
            handled == self.spec_handles(*event),
    {
        match event {
            Event::Connected(_) => self.connect,
            Event::Disconnected(_) => self.disconnect,
            Event::GotError(_) => self.error,
            Event::GameJoined(_) => self.join_game,
            Event::StartedSpectating(_) => self.spectate_game,
            Event::JoinRequested(_) => self.join_request,
        }
    }

    /// The events for which a handler is installed, in the order they came.
    pub fn check_events(&self, events: Vec<Event>) -> (delivered: Vec<Event>)
        ensures
            delivered@ == events@.filter(self.handled()),
    {
        let ghost all = events@;
        let mut delivered: Vec<Event> = Vec::new();
        assert(all.subrange(0, 0).filter(self.handled()) =~= Seq::<Event>::empty()) by {
            reveal(Seq::filter);
        }
        for event in it: events
            invariant
                it.seq() == all,
                delivered@ == all.subrange(0, it.index() as int).filter(self.handled()),
        {
            proof {
                reveal(Seq::filter);
                let next = all.subrange(0, it.index() + 1);
                assert(next.drop_last() =~= all.subrange(0, it.index() as int));
                assert(next.last() == event);
            }
            if self.handles(&event) {
                delivered.push(event);
            }
        }
        assert(all.subrange(0, all.len() as int) =~= all);
        delivered
    }
}

/// A subscription command.
#[derive(Clone, Copy, Debug, PartialEq, Eq)]
pub enum Toggle<'a> {
    Subscribe(ToggleSubscription<'a, true>),
    Unsubscribe(ToggleSubscription<'a, false>),
}

/// What a subscription command says.
pub struct ToggleView {
    pub enabled: bool,
    pub nonce: i32,
    pub event: Seq<char>,
}

impl<'a> View for Toggle<'a> {
    type V = ToggleView;

    open spec fn view(&self) -> ToggleView {
        match *self {
            Toggle::Subscribe(command) => ToggleView {
                enabled: true,
                nonce: command.nonce,
                event: command.event@,
            },
            Toggle::Unsubscribe(command) => ToggleView {
                enabled: false,
                nonce: command.nonce,
                event: command.event@,
            },
        }
    }
}

/// What each command of a list says.
pub open spec fn toggle_views(toggles: Seq<Toggle<'static>>) -> Seq<ToggleView> {
    toggles.map_values(|toggle: Toggle<'static>| toggle@)
}

/// The command for one handler slot: none when the slot is as it was, else
/// a subscription when the handler is there now and a cancellation when it
/// is gone.
pub open spec fn slot_toggle(was: bool, now: bool, nonce: i32, event: Seq<char>) -> Seq<
    ToggleView,
> {
    if was != now {
        seq![ToggleView { enabled: now, nonce, event }]
    } else {
        Seq::empty()
    }
}

/// The nonce left after one handler slot was looked at.
pub open spec fn slot_nonce(was: bool, now: bool, nonce: i32) -> i32 {
    if was != now {
        next_nonce(nonce)
    } else {
        nonce
    }
}

/// The commands that a change of handlers sends, from `nonce` on: one for
/// each of the three subscriptions whose handler came or went, in the order
/// join, spectate, join request.
pub open spec fn spec_toggles(before: EventHandlers, after: EventHandlers, nonce: i32) -> Seq<
    ToggleView,
> {
    let second = slot_nonce(before.join_game, after.join_game, nonce);
    let third = slot_nonce(before.spectate_game, after.spectate_game, second);
    slot_toggle(before.join_game, after.join_game, nonce, "ACTIVITY_JOIN"@) + slot_toggle(
        before.spectate_game,
        after.spectate_game,
        second,
        "ACTIVITY_SPECTATE"@,
    ) + slot_toggle(before.join_request, after.join_request, third, "ACTIVITY_JOIN_REQUEST"@)
}

/// The nonce left after a change of handlers.
pub open spec fn spec_toggles_nonce(before: EventHandlers, after: EventHandlers, nonce: i32) -> i32 {
    let second = slot_nonce(before.join_game, after.join_game, nonce);
    let third = slot_nonce(before.spectate_game, after.spectate_game, second);
    slot_nonce(before.join_request, after.join_request, third)
}

/// The caller's handle on the client.
#[derive(Clone, Copy, Debug, PartialEq, Eq)]
pub struct Rpc {
    pub handlers: EventHandlers,
    pub pid: u32,
    pub nonce: Nonce,
}

impl Rpc {
    /// A client of the process `pid` with the given handlers. No
    /// subscription is sent for a handler that is there from the start.
    pub fn new(handlers: EventHandlers, pid: u32) -> (rpc: Self)
        ensures
            rpc == (Rpc { handlers, pid, nonce: Nonce(FIRST_NONCE) }),
    {
        Rpc { handlers, pid, nonce: Nonce(FIRST_NONCE) }
    }

    fn toggle_event_subscription(
        &mut self,
        was: bool,
        now: bool,
        event: &'static str,
        toggles: &mut Vec<Toggle<'static>>,
    )
        ensures
            final(self).handlers == old(self).handlers,
            final(self).pid == old(self).pid,
            final(self).nonce.0 == slot_nonce(was, now, old(self).nonce.0),
            toggle_views(final(toggles)@) == toggle_views(old(toggles)@) + slot_toggle(
                was,
                now,
                old(self).nonce.0,
                event@,
            ),
    {
        if !was && now {
            let nonce: i32 = self.nonce.next();
            toggles.push(Toggle::Subscribe(ToggleSubscription::<true> { nonce, event }));
        } else if was && !now {
            let nonce: i32 = self.nonce.next();
            toggles.push(Toggle::Unsubscribe(ToggleSubscription::<false> { nonce, event }));
        }
        assert(toggle_views(toggles@) =~= toggle_views(old(toggles)@) + slot_toggle(
            was,
            now,
            old(self).nonce.0,
            event@,
        ));
    }

    /// Installs `handlers` in place of the handlers so far, and returns the
    /// subscription commands to send. Only what was there before the call
    /// and what is there after it count: a handler that is the same on both
    /// sides sends nothing, whatever happened in between.
    pub fn modify_handlers(&mut self, handlers: EventHandlers) -> (toggles: Vec<Toggle<'static>>)
        ensures
            final(self).handlers == handlers,
            final(self).pid == old(self).pid,
            final(self).nonce.0 == spec_toggles_nonce(
                old(self).handlers,
                handlers,
                old(self).nonce.0,
            ),
            toggle_views(toggles@) == spec_toggles(old(self).handlers, handlers, old(self).nonce.0),
    {
        let before: EventHandlers = self.handlers;
        self.handlers = handlers;
        let mut toggles: Vec<Toggle<'static>> = Vec::new();
        assert(toggle_views(toggles@) =~= Seq::<ToggleView>::empty());
        self.toggle_event_subscription(
            before.join_game,
            handlers.join_game,
            "ACTIVITY_JOIN",
            &mut toggles,
        );
        self.toggle_event_subscription(
            before.spectate_game,
            handlers.spectate_game,
            "ACTIVITY_SPECTATE",
            &mut toggles,
        );
        self.toggle_event_subscription(
            before.join_request,
            handlers.join_request,
            "ACTIVITY_JOIN_REQUEST",
            &mut toggles,
        );
        assert(toggle_views(toggles@) =~= spec_toggles(before, handlers, old(self).nonce.0));
        toggles
    }

    /// The `SET_ACTIVITY` command that shows `presence`, under a fresh nonce.
    /// Its bytes go to the shared slot, where they take the place of an
    /// update that was not yet sent.
    pub fn update_presence<'a>(&mut self, presence: Option<&'a Presence>) -> (command: SetActivity<
        'a,
    >)
        ensures
            command == (SetActivity { pid: old(self).pid, nonce: old(self).nonce.0, presence }),
            *final(self) == (Rpc { nonce: Nonce(next_nonce(old(self).nonce.0)), ..*old(self) }),
    {
        let nonce: i32 = self.nonce.next();
        SetActivity { pid: self.pid, nonce, presence }
    }

    /// The answer to the join request of the user `user_id`, under a fresh
    /// nonce. While the session is not connected there is no answer, and no
    /// nonce is used.
    pub fn reply_to_join_request<'a>(
        &mut self,
        shared: &SharedState,
        user_id: &'a str,
        accepted: bool,
    ) -> (reply: Option<JoinReply<'a>>)
        ensures
            shared@.is_connected ==> reply == Some(
                JoinReply { nonce: old(self).nonce.0, accepted, user_id },
            ) && *final(self) == (Rpc { nonce: Nonce(next_nonce(old(self).nonce.0)), ..*old(self) }),
            !shared@.is_connected ==> reply is None && *final(self) == *old(self),
    {
        if !shared.is_connected() {
            return None;
        }
        let nonce: i32 = self.nonce.next();
        Some(JoinReply { user_id, accepted, nonce })
    }

    /// The events to hand to the caller's handlers: those of `events` for
    /// which a handler is installed, in the order they came.
    pub fn check_events(&self, events: Vec<Event>) -> (delivered: Vec<Event>)
        ensures
            delivered@ == events@.filter(self.handlers.handled()),
    {
        self.handlers.check_events(events)
    }
}

/// A handler that is present before a change and after it sends no
/// command, and so does one that is absent on both sides: where the three
/// subscriptions are as they were, a change of handlers sends nothing and
/// uses no nonce.
pub proof fn lemma_unchanged_handlers_send_nothing(
    before: EventHandlers,
    after: EventHandlers,
    nonce: i32,
)
    requires
        before.join_game == after.join_game,
        before.spectate_game == after.spectate_game,
        before.join_request == after.join_request,
    ensures
        spec_toggles(before, after, nonce) == Seq::<ToggleView>::empty(),
        spec_toggles_nonce(before, after, nonce) == nonce,
{
    assert(spec_toggles(before, after, nonce) =~= Seq::<ToggleView>::empty());
}

/// Installing a join-request handler in one change and removing it in the
/// next sends one subscription and then one cancellation, under
/// consecutive nonces.
pub proof fn lemma_install_then_remove(handlers: EventHandlers, nonce: i32)
    requires
        !handlers.join_request,
    ensures
        spec_toggles(handlers, EventHandlers { join_request: true, ..handlers }, nonce) == seq![
            ToggleView { enabled: true, nonce, event: "ACTIVITY_JOIN_REQUEST"@ },
        ],
        spec_toggles_nonce(handlers, EventHandlers { join_request: true, ..handlers }, nonce)
            == next_nonce(nonce),
        spec_toggles(
            EventHandlers { join_request: true, ..handlers },
            handlers,
            next_nonce(nonce),
        ) == seq![
            ToggleView { enabled: false, nonce: next_nonce(nonce), event: "ACTIVITY_JOIN_REQUEST"@ },
        ],
{
    let installed = EventHandlers { join_request: true, ..handlers };
    assert(spec_toggles(handlers, installed, nonce) =~= seq![
        ToggleView { enabled: true, nonce, event: "ACTIVITY_JOIN_REQUEST"@ },
    ]);
    assert(spec_toggles(installed, handlers, next_nonce(nonce)) =~= seq![
        ToggleView { enabled: false, nonce: next_nonce(nonce), event: "ACTIVITY_JOIN_REQUEST"@ },
    ]);
}

} // verus!
