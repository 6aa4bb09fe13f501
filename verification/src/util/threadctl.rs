//! The supervisor of a worker: it holds what is needed to stop the worker
//! and to wait for it, gives it up once, and says what a stop or a wait has
//! come to.

use vstd::prelude::*;

verus! {

/// How the wait for a worker ended.
#[derive(Debug, PartialEq, Eq)]
pub enum JoinOutcome<E> {
    /// The worker panicked.
    Panicked,
    /// The worker returned this outcome.
    Finished(Result<(), E>),
}

/// Why a stop or a wait failed.
#[derive(Debug, Clone, PartialEq, Eq)]
pub enum ThreadError<E> {
    /// The worker panicked.
    Panicked,
    /// The worker returned this failure.
    Failed(E),
    /// The worker no longer listened for the signal to stop.
    ReceiverClosed,
}

/// Controller for managing a worker. `H` is what its holder needs to signal
/// the worker and to wait for it.
#[derive(Debug)]
pub struct ThreadController<H>(Option<H>);

impl<H> ThreadController<H> {
    /// What the controller holds of its worker, until it is taken.
    pub closed spec fn held(&self) -> Option<H> {
        self.0
    }

    /// Takes charge of a worker that was launched.
    pub fn spawn(worker: H) -> (controller: Self)
        ensures
            controller.held() == Some(worker),
    {
        ThreadController(Some(worker))
    }

    /// Returns whether the worker is still alive or not: the controller
    /// still holds it, and besides the controller the worker itself holds
    /// on to the token of its life. `holders` counts those that hold the
    /// token.
    pub fn is_alive(&self, holders: usize) -> (alive: bool)
        ensures
            alive == (self.held() is Some && holders > 1),
    {
        self.0.is_some() && holders > 1
    }

    /// Gives up the worker, to stop it or to wait for it. This happens
    /// once: after it, there is nothing left to stop.
    pub fn take(&mut self) -> (worker: Option<H>)
        ensures
            worker == old(self).held(),
            final(self).held() is None,
    {
        self.0.take()
    }

    /// What a wait has come to: where there was no worker left to wait
    /// for, all is well; else the worker's own outcome, or that it
    /// panicked.
    pub open spec fn waited<E>(joined: Option<JoinOutcome<E>>) -> Result<(), ThreadError<E>> {
        match joined {
            None => Ok(()),
            Some(JoinOutcome::Panicked) => Err(ThreadError::Panicked),
            Some(JoinOutcome::Finished(Ok(()))) => Ok(()),
            Some(JoinOutcome::Finished(Err(failure))) => Err(ThreadError::Failed(failure)),
        }
    }

    /// What a stop has come to: what the wait has come to, and, where that
    /// went well, a failure if the signal to stop could not be sent.
    pub open spec fn stopped<E>(joined: Option<JoinOutcome<E>>, signalled: bool) -> Result<
        (),
        ThreadError<E>,
    > {
        match Self::waited(joined) {
            Err(failure) => Err(failure),
            Ok(()) => if joined is Some && !signalled {
                Err(ThreadError::ReceiverClosed)
            } else {
                Ok(())
            },
        }
    }

    /// The result of waiting for the worker to finish.
    pub fn wait<E>(joined: Option<JoinOutcome<E>>) -> (result: Result<(), ThreadError<E>>)
        ensures
            result == Self::waited(joined),
    {
        match joined {
            None => Ok(()),
            Some(JoinOutcome::Panicked) => Err(ThreadError::Panicked),
            Some(JoinOutcome::Finished(Ok(()))) => Ok(()),
            Some(JoinOutcome::Finished(Err(failure))) => Err(ThreadError::Failed(failure)),
        }
    }

    /// The result of sending a stop signal and waiting for the worker to
    /// exit. `signalled` says whether the signal could be sent.
    pub fn stop<E>(joined: Option<JoinOutcome<E>>, signalled: bool) -> (result: Result<
        (),
        ThreadError<E>,
    >)
        ensures
            result == Self::stopped(joined, signalled),
    {
        let had_worker = joined.is_some();
        match Self::wait(joined) {
            Err(failure) => Err(failure),
            Ok(()) => {
                if had_worker && !signalled {
                    Err(ThreadError::ReceiverClosed)
                } else {
                    Ok(())
                }
            },
        }
    }
}

} // verus!
