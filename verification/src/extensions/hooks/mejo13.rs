//! Hooks that change where new tiled clients go and where the focus moves when a
//! client is unmapped.
use crate::client_set::{client_set_contains, swap_down_view, swap_up_view, ClientSet};
use crate::data_types::WinId;
use crate::xconnection::{XConn, XEvent};
use vstd::prelude::*;

verus! {

/// A hook that runs on every event that the window manager handles. It may rearrange
/// the clients; its result says whether the event should be processed further.
pub trait EventHook<X: XConn> {
    /// What the hook does: whether `r`, with the clients going from `before` to `after`,
    /// is an outcome of the hook handling `event`.
    spec fn event_outcome(
        &self,
        event: XEvent,
        before: ClientSet,
        after: ClientSet,
        r: Result<bool, String>,
    ) -> bool;

    fn call(&mut self, event: &XEvent, state: &mut ClientSet, x: &X) -> (r: Result<bool, String>)
        requires
            old(state).wf(),
        ensures
            final(state).wf(),
            old(self).event_outcome(*event, *old(state), *final(state), r),
    ;
}

/// A hook that runs when the window manager starts to manage a new client.
pub trait ManageHook<X: XConn> {
    /// What the hook does: whether `r`, with the clients going from `before` to `after`,
    /// is an outcome of the hook taking `client` into management.
    spec fn manage_outcome(
        &self,
        client: WinId,
        before: ClientSet,
        after: ClientSet,
        r: Result<(), String>,
    ) -> bool;

    fn call(&mut self, client: WinId, state: &mut ClientSet, x: &X) -> (r: Result<(), String>)
        requires
            old(state).wf(),
        ensures
            final(state).wf(),
            old(self).manage_outcome(client, *old(state), *final(state), r),
    ;
}

/// Changes where new tiled clients are placed and how the focus moves when a client is
/// unmapped.
#[derive(Debug)]
pub struct ClientPositioning;

/// When `event` reaches the hook with the clients `cs`, whether the hook swaps the
/// focused client up: the event unmaps a known, tiled client that is not at the top of a
/// non-empty current stack.
pub open spec fn unmap_swaps_up(event: XEvent, cs: ClientSet) -> bool {
    &&& event matches XEvent::Unmap { window }
    &&& cs.current matches Some(s)
    &&& s@.0[0] != window
    &&& client_set_contains(cs, window)
    &&& !cs.floating@.contains(window)
}

/// The event hook swaps up on exactly these events: the unmapping of a window that is
/// not at the top of the non-empty current stack, that the window manager knows (in the
/// current stack or on another workspace), and that does not float. Where the window
/// sits in the stack below the top does not matter.
pub proof fn lemma_unmap_swaps_up_condition(event: XEvent, cs: ClientSet)
    ensures
        !(event is Unmap) ==> !unmap_swaps_up(event, cs),
        event is Unmap ==> (unmap_swaps_up(event, cs) <==> {
            &&& cs.current is Some
            &&& cs.current->0@.0[0] != event->Unmap_window
            &&& (cs.current->0@.0.contains(event->Unmap_window) || cs.other_clients@.contains(
                event->Unmap_window,
            ))
            &&& !cs.floating@.contains(event->Unmap_window)
        }),
{
}

/// The outcome of the positioning event hook: every event is passed on; the focused
/// client is swapped up when [`unmap_swaps_up`] holds, and nothing changes otherwise.
pub open spec fn positioning_event_outcome(
    event: XEvent,
    before: ClientSet,
    after: ClientSet,
    r: Result<bool, String>,
) -> bool {
    &&& r == Ok::<bool, String>(true)
    &&& unmap_swaps_up(event, before) ==> {
        &&& after.other_clients == before.other_clients
        &&& after.floating == before.floating
        &&& before.current matches Some(s)
        &&& after.current matches Some(t)
        &&& t@ == swap_up_view(s@)
    }
    &&& !unmap_swaps_up(event, before) ==> after == before
}

/// The outcome of the positioning manage hook: it succeeds; a client that does not float
/// is moved down by swapping the focused client down, and nothing changes for one that
/// floats.
pub open spec fn positioning_manage_outcome(
    client: WinId,
    before: ClientSet,
    after: ClientSet,
    r: Result<(), String>,
) -> bool {
    &&& r == Ok::<(), String>(())
    &&& !before.floating@.contains(client) ==> {
        &&& after.other_clients == before.other_clients
        &&& after.floating == before.floating
        &&& match before.current {
            Some(s) => after.current matches Some(t) && t@ == swap_down_view(s@),
            None => after.current is None,
        }
    }
    &&& before.floating@.contains(client) ==> after == before
}

impl ClientPositioning {
    /// The event hook: on the unmapping of a tiled client other than the top one of the
    /// current stack, swap the focused client up. Every event is passed on.
    pub fn on_event(&mut self, event: &XEvent, state: &mut ClientSet) -> (r: Result<bool, String>)
        requires
            old(state).wf(),
        ensures
            final(state).wf(),
            r == Ok::<bool, String>(true),
            unmap_swaps_up(*event, *old(state)) ==> {
                &&& final(state).other_clients == old(state).other_clients
                &&& final(state).floating == old(state).floating
                &&& old(state).current matches Some(s)
                &&& final(state).current matches Some(t)
                &&& t@ == swap_up_view(s@)
            },
            !unmap_swaps_up(*event, *old(state)) ==> *final(state) == *old(state),
            match *event {
                XEvent::Unmap { window } => if old(state).current is Some
                    && old(state).current->0@.0[0] != window && (old(
                    state,
                ).current->0@.0.contains(window) || old(state).other_clients@.contains(window))
                    && !old(state).floating@.contains(window) {
                    &&& final(state).current is Some
                    &&& final(state).current->0@ == swap_up_view(old(state).current->0@)
                    &&& final(state).other_clients == old(state).other_clients
                    &&& final(state).floating == old(state).floating
                } else {
                    *final(state) == *old(state)
                },
                _ => *final(state) == *old(state),
            },
    {
        if let XEvent::Unmap { window } = event {
            let head = match state.current_stack() {
                Some(stack) => Some(stack.head()),
                None => None,
            };
            if let Some(head) = head {
                if head != *window && state.contains(*window) && !state.is_floating(*window) {
                    state.swap_up();
                }
            }
        }
        Ok(true)
    }

    /// The manage hook: a new client that is not floating is moved one place down in the
    /// current stack (by swapping the focused client down).
    pub fn on_manage(&mut self, client: WinId, state: &mut ClientSet) -> (r: Result<(), String>)
        requires
            old(state).wf(),
        ensures
            final(state).wf(),
            r == Ok::<(), String>(()),
            !old(state).floating@.contains(client) ==> {
                &&& final(state).other_clients == old(state).other_clients
                &&& final(state).floating == old(state).floating
                &&& match old(state).current {
                    Some(s) => final(state).current matches Some(t) && t@ == swap_down_view(s@),
                    None => final(state).current is None,
                }
            },
            old(state).floating@.contains(client) ==> *final(state) == *old(state),
    {
        if !state.is_floating(client) {
            state.swap_down();
        }
        Ok(())
    }
}

impl<X: XConn> EventHook<X> for ClientPositioning {
    open spec fn event_outcome(
        &self,
        event: XEvent,
        before: ClientSet,
        after: ClientSet,
        r: Result<bool, String>,
    ) -> bool {
        positioning_event_outcome(event, before, after, r)
    }

    /// Runs [`ClientPositioning::on_event`].
    fn call(&mut self, event: &XEvent, state: &mut ClientSet, _x: &X) -> (r: Result<bool, String>) {
        self.on_event(event, state)
    }
}

impl<X: XConn> ManageHook<X> for ClientPositioning {
    open spec fn manage_outcome(
        &self,
        client: WinId,
        before: ClientSet,
        after: ClientSet,
        r: Result<(), String>,
    ) -> bool {
        positioning_manage_outcome(client, before, after, r)
    }

    /// Runs [`ClientPositioning::on_manage`].
    fn call(&mut self, client: WinId, state: &mut ClientSet, _x: &X) -> (r: Result<(), String>) {
        self.on_manage(client, state)
    }
}

} // verus!
