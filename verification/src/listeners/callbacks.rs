//! The dispatch loop: it owns the table of subscription callbacks.
//!
//! One round of the loop looks at four queues, in a fixed order of priority:
//! the close queue, the registration queue, the unregistration queue and the
//! invocation queue. A close request ends the loop before the other queues
//! are looked at. A notification for an id that has no callback is dropped.
//!
//! The table is generic in the callback: the loop stores it and hands it back,
//! and never calls it.

use crate::config::{Config, Timeout};
use crate::json::Json;
use crate::listeners::LoopState;
use crate::message_channel::WebsocketCloseRequest;
use std::collections::HashMap;
use vstd::prelude::*;

verus! {

broadcast use vstd::std_specs::hash::group_hash_axioms;

/// The callbacks of the open subscriptions, by callback id.
pub struct CallbackTable<C> {
    callbacks: HashMap<u64, C>,
}

impl<C> View for CallbackTable<C> {
    type V = Map<u64, C>;

    closed spec fn view(&self) -> Map<u64, C> {
        self.callbacks@
    }
}

impl<C> CallbackTable<C> {
    /// The empty table.
    pub fn new() -> (table: CallbackTable<C>)
        ensures
            table@ == Map::<u64, C>::empty(),
    {
        CallbackTable { callbacks: HashMap::new() }
    }

    /// Stores `callback` under `id`, in place of the callback that was there.
    pub fn register(&mut self, id: u64, callback: C)
        ensures
            final(self)@ == old(self)@.insert(id, callback),
    {
        let _ = self.callbacks.insert(id, callback);
    }

    /// Removes the callback stored under `id`, if there is one.
    pub fn unregister(&mut self, id: u64)
        ensures
            final(self)@ == old(self)@.remove(id),
    {
        let _ = self.callbacks.remove(&id);
    }

    /// The callback stored under `id`.
    pub fn get(&self, id: u64) -> (callback: Option<&C>)
        ensures
            match callback {
                Some(c) => self@.contains_key(id) && *c == self@[id],
                None => !self@.contains_key(id),
            },
    {
        self.callbacks.get(&id)
    }

    /// The number of callbacks in the table.
    pub fn len(&self) -> (n: usize)
        ensures
            n == self@.len(),
    {
        self.callbacks.len()
    }
}

/// The table after a look at the registration queue.
pub open spec fn after_register<C>(
    state: LoopState,
    table: Map<u64, C>,
    polled: Option<(u64, C)>,
) -> Map<u64, C> {
    match (state, polled) {
        (LoopState::Running, Some((id, callback))) => table.insert(id, callback),
        _ => table,
    }
}

/// The table after a look at the unregistration queue.
pub open spec fn after_unregister<C>(state: LoopState, table: Map<u64, C>, polled: Option<u64>)
    -> Map<u64, C> {
    match (state, polled) {
        (LoopState::Running, Some(id)) => table.remove(id),
        _ => table,
    }
}

/// The callback to call after a look at the invocation queue, if any.
pub open spec fn invoked<C>(state: LoopState, table: Map<u64, C>, polled: Option<u64>) -> Option<
    C,
> {
    match (state, polled) {
        (LoopState::Running, Some(id)) if table.contains_key(id) => Some(table[id]),
        _ => None,
    }
}

/// The dispatch loop: its state and its table.
pub struct DispatchLoop<C> {
    state: LoopState,
    table: CallbackTable<C>,
}

impl<C> DispatchLoop<C> {
    /// Whether the loop still runs.
    pub closed spec fn state(&self) -> LoopState {
        self.state
    }

    /// The callbacks of the open subscriptions.
    pub closed spec fn table(&self) -> Map<u64, C> {
        self.table@
    }

    /// A running loop with an empty table.
    pub fn new() -> (dispatch: DispatchLoop<C>)
        ensures
            dispatch.state() == LoopState::Running,
            dispatch.table() == Map::<u64, C>::empty(),
    {
        DispatchLoop { state: LoopState::Running, table: CallbackTable::new() }
    }

    /// Whether the loop still runs.
    pub fn is_running(&self) -> (running: bool)
        ensures
            running == (self.state() == LoopState::Running),
    {
        match self.state {
            LoopState::Running => true,
            LoopState::Stopped => false,
        }
    }

    /// How long the loop looks at each of its queues, in milliseconds: the
    /// close-poll timeout, and `None` once the loop has stopped.
    pub fn poll_wait(&self, config: &Config) -> (millis: Option<u64>)
        ensures
            millis == match self.state() {
                LoopState::Running => Some(config@.timeouts.length(Timeout::WebsocketClose)),
                LoopState::Stopped => None,
            },
    {
        match self.state {
            LoopState::Running => Some(config.get_timeout(Timeout::WebsocketClose)),
            LoopState::Stopped => None,
        }
    }

    /// First in a round: what the close queue gave. A request stops the loop
    /// for good; the table is left as it is.
    pub fn on_close(&mut self, polled: Option<WebsocketCloseRequest>)
        ensures
            final(self).state() == if polled is Some {
                LoopState::Stopped
            } else {
                old(self).state()
            },
            final(self).table() == old(self).table(),
    {
        if polled.is_some() {
            self.state = LoopState::Stopped;
        }
    }

    /// Second in a round: what the registration queue gave. A running loop
    /// stores the callback under its id, in place of the one that was there.
    pub fn on_register(&mut self, polled: Option<(u64, C)>)
        ensures
            final(self).state() == old(self).state(),
            final(self).table() == after_register(old(self).state(), old(self).table(), polled),
    {
        match self.state {
            LoopState::Running => match polled {
                Some((id, callback)) => {
                    self.table.register(id, callback);
                },
                None => {},
            },
            LoopState::Stopped => {},
        }
    }

    /// Third in a round: what the unregistration queue gave. A running loop
    /// removes the callback stored under the id, if there is one.
    pub fn on_unregister(&mut self, polled: Option<u64>)
        ensures
            final(self).state() == old(self).state(),
            final(self).table() == after_unregister(
                old(self).state(),
                old(self).table(),
                polled,
            ),
    {
        match self.state {
            LoopState::Running => match polled {
                Some(id) => {
                    self.table.unregister(id);
                },
                None => {},
            },
            LoopState::Stopped => {},
        }
    }

    /// Last in a round: what the invocation queue gave. A running loop hands
    /// back the callback stored under the id together with the body that it
    /// is to be called with; where no callback is stored under the id, the
    /// notification is dropped.
    pub fn on_invoke(&self, polled: Option<(u64, Json)>) -> (call: Option<(&C, Json)>)
        ensures
            match call {
                Some((callback, body)) => polled matches Some((id, sent)) && body == sent && invoked(
                    self.state(),
                    self.table(),
                    Some(id),
                ) == Some(*callback),
                None => invoked(
                    self.state(),
                    self.table(),
                    match polled {
                        Some((id, _)) => Some(id),
                        None => None,
                    },
                ) is None,
            },
    {
        match self.state {
            LoopState::Running => match polled {
                Some((id, body)) => match self.table.get(id) {
                    Some(callback) => Some((callback, body)),
                    None => None,
                },
                None => None,
            },
            LoopState::Stopped => None,
        }
    }
}

/// Removing an id that has no callback changes nothing, and removing any id
/// leaves the callbacks of all other ids as they were.
pub proof fn lemma_unregister_leaves_others<C>(table: Map<u64, C>, id: u64, other: u64)
    ensures
        !table.contains_key(id) ==> table.remove(id) == table,
        other != id ==> table.remove(id).contains_key(other) == table.contains_key(other),
        other != id && table.contains_key(other) ==> table.remove(id)[other] == table[other],
        table.remove(id).remove(id) == table.remove(id),
{
    if !table.contains_key(id) {
        assert(table.remove(id) =~= table);
    }
    assert(table.remove(id).remove(id) =~= table.remove(id));
}

/// A callback that was registered is the one that a later notification for
/// its id calls, until it is unregistered or replaced; a notification for an
/// id that has no callback calls nothing.
pub proof fn lemma_registered_callback_is_invoked<C>(
    table: Map<u64, C>,
    id: u64,
    callback: C,
    other: u64,
)
    ensures
        invoked(
            LoopState::Running,
            after_register(LoopState::Running, table, Some((id, callback))),
            Some(id),
        ) == Some(callback),
        other != id && !table.contains_key(other) ==> invoked(
            LoopState::Running,
            after_register(LoopState::Running, table, Some((id, callback))),
            Some(other),
        ) is None,
        invoked(
            LoopState::Running,
            after_unregister(LoopState::Running, table, Some(id)),
            Some(id),
        ) is None,
{
}

/// A loop that has stopped registers nothing, removes nothing and calls
/// nothing: a close request that is seen first in a round ends the round.
pub proof fn lemma_stopped_dispatch_does_nothing<C>(
    table: Map<u64, C>,
    registration: Option<(u64, C)>,
    removal: Option<u64>,
    invocation: Option<u64>,
)
    ensures
        after_register(LoopState::Stopped, table, registration) == table,
        after_unregister(LoopState::Stopped, table, removal) == table,
        invoked(LoopState::Stopped, table, invocation) is None,
{
}

} // verus!
