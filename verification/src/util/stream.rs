//! Taking the next item of a stream, where the end of the stream is a
//! failure.

use vstd::prelude::*;

verus! {

/// What a poll of a stream gave.
pub enum Polled<T, E> {
    /// The stream failed.
    Failed(E),
    /// The stream has nothing yet.
    NotReady,
    /// The stream has ended.
    Ended,
    /// The stream's next item.
    Item(T),
}

/// Where the wait for the next item stands after a poll.
pub enum Next<T, S, E> {
    /// No item will come.
    Failed(E),
    /// Nothing yet: poll again.
    NotReady,
    /// The next item, and the stream to go on with.
    Ready(T, S),
}

struct Inner<S, F> {
    stream: S,
    f: F,
}

/// Takes the next item from the stream. If the stream ends then the provided
/// callback is used to generate an error.
pub struct NextOrElse<S, F> {
    inner: Option<Inner<S, F>>,
}

impl<S, F> NextOrElse<S, F> {
    /// Whether the wait still holds its stream and its callback. It does
    /// until a poll has settled it.
    pub closed spec fn pending(&self) -> bool {
        self.inner is Some
    }

    /// The stream that a pending wait holds.
    pub closed spec fn stream(&self) -> S
        recommends
            self.pending(),
    {
        self.inner->0.stream
    }

    /// The callback that a pending wait holds.
    pub closed spec fn callback(&self) -> F
        recommends
            self.pending(),
    {
        self.inner->0.f
    }

    pub fn new(stream: S, f: F) -> (next: NextOrElse<S, F>)
        ensures
            next.pending(),
            next.stream() == stream,
            next.callback() == f,
    {
        let inner = Inner { stream, f };
        NextOrElse { inner: Some(inner) }
    }

    /// Hands out the stream and the callback, to poll the stream.
    pub fn take(&mut self) -> (parts: (S, F))
        requires
            old(self).pending(),
        ensures
            !final(self).pending(),
            parts.0 == old(self).stream(),
            parts.1 == old(self).callback(),
    {
        let inner = self.inner.take().unwrap();
        (inner.stream, inner.f)
    }

    /// Settles a poll: a failure of the stream fails the wait; where nothing
    /// has come yet the wait keeps the stream and the callback; the end of
    /// the stream fails the wait with what the callback makes; an item ends
    /// the wait with the item and the stream.
    pub fn settle<T, E>(&mut self, stream: S, f: F, polled: Polled<T, E>) -> (next: Next<T, S, E>) where
        F: FnOnce() -> E,

        requires
            !old(self).pending(),
            polled is Ended ==> call_requires(f, ()),
        ensures
            final(self).pending() <==> polled is NotReady,
            final(self).pending() ==> final(self).stream() == stream && final(self).callback() == f,
            match polled {
                Polled::Failed(error) => next == Next::<T, S, E>::Failed(error),
                Polled::NotReady => next is NotReady,
                Polled::Ended => next matches Next::Failed(error) && call_ensures(f, (), error),
                Polled::Item(item) => next == Next::<T, S, E>::Ready(item, stream),
            },
    {
        match polled {
            Polled::Failed(error) => Next::Failed(error),
            Polled::NotReady => {
                self.inner = Some(Inner { stream, f });
                Next::NotReady
            },
            Polled::Ended => Next::Failed(f()),
            Polled::Item(item) => Next::Ready(item, stream),
        }
    }
}

/// Extension trait for streams.
pub trait StreamExt: Sized {
    /// Returns a wait for the next item of the stream, along with the stream
    /// itself. If the stream ends then the provided closure is used to
    /// produce an error value.
    fn next_or_else<F>(self, f: F) -> (next: NextOrElse<Self, F>)
        ensures
            next.pending(),
            next.stream() == self,
            next.callback() == f,
    {
        NextOrElse::new(self, f)
    }
}

impl<T: Sized> StreamExt for T {

}

} // verus!
