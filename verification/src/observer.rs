//! An observer of both planes that only looks on.

use crate::state::client::{ClientListener, ClientNotice};
use crate::service::rpc::realm::RealmEvent;
use crate::util::event::{EventAction, EventArgs, EventListener};
use vstd::prelude::*;

verus! {

/// Listens to what happens to clients and to realms, and never prevents nor
/// stops anything. It is the place for a log of both planes.
#[derive(Debug, Clone, Copy, PartialEq, Eq, Structural)]
pub struct EventObserver;

impl View for EventObserver {
    type V = ();

    open spec fn view(&self) -> () {
        ()
    }
}

impl EventListener<ClientNotice> for EventObserver {
    open spec fn wf(&self) -> bool {
        true
    }

    open spec fn prevents(state: (), data: ClientNotice, prevented: bool) -> bool {
        false
    }

    open spec fn stops(state: (), data: ClientNotice, prevented: bool) -> bool {
        false
    }

    open spec fn next(state: (), data: ClientNotice, prevented: bool) -> () {
        ()
    }

    fn call<A: EventArgs<ClientNotice>>(&mut self, event: &mut A) -> (action: EventAction) {
        EventAction::Keep
    }
}

impl ClientListener for EventObserver {

}

impl EventListener<RealmEvent> for EventObserver {
    open spec fn wf(&self) -> bool {
        true
    }

    open spec fn prevents(state: (), data: RealmEvent, prevented: bool) -> bool {
        false
    }

    open spec fn stops(state: (), data: RealmEvent, prevented: bool) -> bool {
        false
    }

    open spec fn next(state: (), data: RealmEvent, prevented: bool) -> () {
        ()
    }

    fn call<A: EventArgs<RealmEvent>>(&mut self, event: &mut A) -> (action: EventAction) {
        EventAction::Keep
    }
}

} // verus!
