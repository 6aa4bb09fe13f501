//! The event bus: listeners called in subscription order, each of which may
//! stop the propagation of an event or prevent its default.

use vstd::prelude::*;

verus! {

/// The context that a dispatch hands to each listener: the event's data and
/// the two flags that listeners may raise. A flag, once raised, stays raised.
pub trait EventArgs<T> {
    /// The event's data.
    spec fn payload(&self) -> T;

    /// Whether a listener has stopped the propagation.
    spec fn propagation_stopped(&self) -> bool;

    /// Whether a listener has prevented the default.
    spec fn default_prevented(&self) -> bool;

    fn is_propagation_stopped(&self) -> (stopped: bool)
        ensures
            stopped == self.propagation_stopped(),
    ;

    fn is_default_prevented(&self) -> (prevented: bool)
        ensures
            prevented == self.default_prevented(),
    ;

    fn stop_propagation(&mut self)
        ensures
            final(self).propagation_stopped(),
            final(self).default_prevented() == old(self).default_prevented(),
            final(self).payload() == old(self).payload(),
    ;

    fn prevent_default(&mut self)
        ensures
            final(self).default_prevented(),
            final(self).propagation_stopped() == old(self).propagation_stopped(),
            final(self).payload() == old(self).payload(),
    ;

    fn data(&self) -> (data: &T)
        ensures
            *data == self.payload(),
    ;
}

/// Event arguments that own the event's data.
pub struct EventArgsOwned<T> {
    stop_propagation: bool,
    prevent_default: bool,
    value: T,
}

impl<T> EventArgsOwned<T> {
    /// Arguments for `value` with neither flag raised.
    pub fn new(value: T) -> (args: Self)
        ensures
            args.payload() == value,
            !args.propagation_stopped(),
            !args.default_prevented(),
    {
        EventArgsOwned { stop_propagation: false, prevent_default: false, value }
    }
}

impl<T> EventArgs<T> for EventArgsOwned<T> {
    closed spec fn payload(&self) -> T {
        self.value
    }

    closed spec fn propagation_stopped(&self) -> bool {
        self.stop_propagation
    }

    closed spec fn default_prevented(&self) -> bool {
        self.prevent_default
    }

    fn is_propagation_stopped(&self) -> (stopped: bool) {
        self.stop_propagation
    }

    fn is_default_prevented(&self) -> (prevented: bool) {
        self.prevent_default
    }

    fn stop_propagation(&mut self) {
        self.stop_propagation = true;
    }

    fn prevent_default(&mut self) {
        self.prevent_default = true;
    }

    fn data(&self) -> (data: &T) {
        &self.value
    }
}

/// Event arguments that borrow the event's data.
pub struct EventArgsRef<'a, T> {
    stop_propagation: bool,
    prevent_default: bool,
    value: &'a T,
}

impl<'a, T> EventArgsRef<'a, T> {
    /// Arguments for `value` with neither flag raised.
    pub fn new(value: &'a T) -> (args: Self)
        ensures
            args.payload() == *value,
            !args.propagation_stopped(),
            !args.default_prevented(),
    {
        EventArgsRef { stop_propagation: false, prevent_default: false, value }
    }
}

impl<'a, T> EventArgs<T> for EventArgsRef<'a, T> {
    closed spec fn payload(&self) -> T {
        *self.value
    }

    closed spec fn propagation_stopped(&self) -> bool {
        self.stop_propagation
    }

    closed spec fn default_prevented(&self) -> bool {
        self.prevent_default
    }

    fn is_propagation_stopped(&self) -> (stopped: bool) {
        self.stop_propagation
    }

    fn is_default_prevented(&self) -> (prevented: bool) {
        self.prevent_default
    }

    fn stop_propagation(&mut self) {
        self.stop_propagation = true;
    }

    fn prevent_default(&mut self) {
        self.prevent_default = true;
    }

    fn data(&self) -> (data: &T) {
        self.value
    }
}

/// What a listener asks the bus to do with it after a call.
#[derive(PartialEq, Eq, Copy, Clone, Debug, Structural)]
pub enum EventAction {
    /// Keep the listener subscribed.
    Keep,
}

impl From<()> for EventAction {
    fn from(_unit: ()) -> (action: Self)
        ensures
            action == EventAction::Keep,
    {
        EventAction::Keep
    }
}

/// A subscriber of an event channel.
///
/// A listener has a state (its view). What it does with an event is fixed by
/// that state, the event's data, and whether an earlier listener of the same
/// dispatch has already prevented the default: whether it prevents the
/// default, whether it stops the propagation, and the state it is left in.
pub trait EventListener<T>: View + Sized {
    /// The states in which the listener may be called.
    spec fn wf(&self) -> bool;

    /// Whether a listener in `state` prevents the default of `data`.
    spec fn prevents(state: Self::V, data: T, prevented: bool) -> bool;

    /// Whether a listener in `state` stops the propagation of `data`.
    spec fn stops(state: Self::V, data: T, prevented: bool) -> bool;

    /// The state of a listener that was in `state` when it saw `data`.
    spec fn next(state: Self::V, data: T, prevented: bool) -> Self::V;

    /// Hands an event to the listener.
    fn call<A: EventArgs<T>>(&mut self, event: &mut A) -> (action: EventAction)
        requires
            old(self).wf(),
            !old(event).propagation_stopped(),
        ensures
            final(self).wf(),
            final(self)@ == Self::next(
                old(self)@,
                old(event).payload(),
                old(event).default_prevented(),
            ),
            final(event).payload() == old(event).payload(),
            final(event).default_prevented() == (old(event).default_prevented() || Self::prevents(
                old(self)@,
                old(event).payload(),
                old(event).default_prevented(),
            )),
            final(event).propagation_stopped() == Self::stops(
                old(self)@,
                old(event).payload(),
                old(event).default_prevented(),
            ),
            action == EventAction::Keep,
    ;
}

/// Where a dispatch stands: the listener states, and the two flags.
pub struct Dispatch<S> {
    pub states: Seq<S>,
    pub prevented: bool,
    pub stopped: bool,
}

/// The dispatch of `data` over the first `n` of the listeners in `states`,
/// in subscription order. A listener is skipped once the propagation has been
/// stopped.
pub open spec fn dispatched<T, L: EventListener<T>>(states: Seq<L::V>, data: T, n: nat) -> Dispatch<
    L::V,
>
    decreases n,
{
    if n == 0 || n > states.len() {
        Dispatch { states, prevented: false, stopped: false }
    } else {
        let before = dispatched::<T, L>(states, data, (n - 1) as nat);
        let state = states[n - 1];
        if before.stopped {
            before
        } else {
            Dispatch {
                states: before.states.update(n - 1, L::next(state, data, before.prevented)),
                prevented: before.prevented || L::prevents(state, data, before.prevented),
                stopped: L::stops(state, data, before.prevented),
            }
        }
    }
}

/// Where no listener stops the propagation of `data`, a dispatch reaches
/// every listener: each of the first `n` is left as it is after `data`,
/// given what the listeners before it have prevented, and the others are as
/// they were.
pub proof fn lemma_dispatch_reaches_each<T, L: EventListener<T>>(states: Seq<L::V>, data: T, n: nat)
    requires
        n <= states.len(),
        forall|state: L::V, prevented: bool| !#[trigger] L::stops(state, data, prevented),
    ensures
        dispatched::<T, L>(states, data, n).states.len() == states.len(),
        !dispatched::<T, L>(states, data, n).stopped,
        forall|i: int|
            0 <= i < n ==> #[trigger] dispatched::<T, L>(states, data, n).states[i] == L::next(
                states[i],
                data,
                dispatched::<T, L>(states, data, i as nat).prevented,
            ),
        forall|i: int|
            n <= i < states.len() ==> #[trigger] dispatched::<T, L>(states, data, n).states[i]
                == states[i],
    decreases n,
{
    if n > 0 {
        lemma_dispatch_reaches_each::<T, L>(states, data, (n - 1) as nat);
    }
}

/// An event channel: its listeners, in the order in which they subscribed.
pub struct EventHandler<T, L: EventListener<T>> {
    listeners: Vec<L>,
    _data: core::marker::PhantomData<T>,
}

impl<T, L: EventListener<T>> View for EventHandler<T, L> {
    type V = Seq<L::V>;

    closed spec fn view(&self) -> Seq<L::V> {
        Seq::new(self.listeners@.len(), |i: int| self.listeners@[i]@)
    }
}

impl<T, L: EventListener<T>> EventHandler<T, L> {
    /// Every listener may be called.
    pub closed spec fn wf(&self) -> bool {
        forall|i: int| 0 <= i < self.listeners@.len() ==> (#[trigger] self.listeners@[i]).wf()
    }

    /// A channel without listeners.
    pub fn new() -> (handler: Self)
        ensures
            handler.wf(),
            handler@.len() == 0,
    {
        EventHandler { listeners: Vec::new(), _data: core::marker::PhantomData }
    }

    /// Appends a listener.
    pub fn subscribe(&mut self, listener: L)
        requires
            old(self).wf(),
            listener.wf(),
        ensures
            final(self).wf(),
            final(self)@ == old(self)@.push(listener@),
    {
        self.listeners.push(listener);
        assert(self@ =~= old(self)@.push(listener@));
    }

    /// Dispatches `data`, and says whether its default is still allowed.
    pub fn dispatch(&mut self, data: T) -> (allowed: bool)
        requires
            old(self).wf(),
        ensures
            final(self).wf(),
            final(self)@ == dispatched::<T, L>(old(self)@, data, old(self)@.len()).states,
            allowed == !dispatched::<T, L>(old(self)@, data, old(self)@.len()).prevented,
    {
        let mut event = EventArgsOwned::new(data);
        self.dispatch_impl(&mut event)
    }

    /// Dispatches borrowed `data`, and says whether its default is still allowed.
    pub fn dispatch_ref(&mut self, data: &T) -> (allowed: bool)
        requires
            old(self).wf(),
        ensures
            final(self).wf(),
            final(self)@ == dispatched::<T, L>(old(self)@, *data, old(self)@.len()).states,
            allowed == !dispatched::<T, L>(old(self)@, *data, old(self)@.len()).prevented,
    {
        let mut event = EventArgsRef::new(data);
        self.dispatch_impl(&mut event)
    }

    fn dispatch_impl<A: EventArgs<T>>(&mut self, event: &mut A) -> (allowed: bool)
        requires
            old(self).wf(),
            !old(event).propagation_stopped(),
            !old(event).default_prevented(),
        ensures
            final(self).wf(),
            final(self)@ == dispatched::<T, L>(
                old(self)@,
                old(event).payload(),
                old(self)@.len(),
            ).states,
            allowed == !dispatched::<T, L>(
                old(self)@,
                old(event).payload(),
                old(self)@.len(),
            ).prevented,
    {
        let ghost before = self@;
        let ghost data = event.payload();
        let mut i: usize = 0;
        while i < self.listeners.len()
            invariant
                i <= self.listeners.len(),
                self.wf(),
                self@.len() == before.len(),
                event.payload() == data,
                self@ == dispatched::<T, L>(before, data, i as nat).states,
                event.default_prevented() == dispatched::<T, L>(before, data, i as nat).prevented,
                event.propagation_stopped() == dispatched::<T, L>(before, data, i as nat).stopped,
                forall|k: int| i <= k < before.len() ==> self@[k] == before[k],
            decreases self.listeners.len() - i,
        {
            if !event.is_propagation_stopped() {
                let ghost seen = self@;
                self.listeners[i].call(event);
                assert(self@ =~= seen.update(i as int, self.listeners@[i as int]@));
            }
            i += 1;
        }
        !event.is_default_prevented()
    }
}

} // verus!
