//! Making a service for each connection.

use crate::poll::Poll;
use vstd::prelude::*;

verus! {

/// `App` makes the service of a connection by cloning one that the user
/// provides.
#[derive(Clone, Copy)]
pub struct App<S> {
    svc: S,
}

impl<S> App<S> {
    /// The service that is cloned.
    pub closed spec fn service(&self) -> S {
        self.svc
    }

    /// An `App` that clones `svc`.
    pub fn new(svc: S) -> (out: Self)
        ensures
            out.service() == svc,
    {
        App { svc }
    }

    /// A service can always be made, at once.
    pub fn poll_ready<E>(&mut self) -> (out: Poll<Result<(), E>>)
        ensures
            *final(self) == *old(self),
            out == Poll::Ready(Ok::<(), E>(())),
    {
        Poll::Ready(Ok(()))
    }
}

impl<S: Clone> App<S> {
    /// Makes a service. This never fails.
    pub fn call<E>(&mut self) -> (out: Result<S, E>)
        ensures
            *final(self) == *old(self),
            out matches Ok(svc) && vstd::pervasive::strictly_cloned(old(self).service(), svc),
    {
        Ok(self.svc.clone())
    }
}

/// The services made are clones of the one that was provided, however many
/// are made: making one leaves the `App` as it was, is always possible, at once,
/// and never fails.
pub proof fn law_each_service_is_a_clone_of_the_one_provided<S: Clone, E>(
    svc: S,
    fresh: App<S>,
    app: &mut App<S>,
    ready: Poll<Result<(), E>>,
    made: Result<S, E>,
)
    ensures
        call_requires(App::<S>::new, (svc,)),
        call_ensures(App::<S>::new, (svc,), fresh) ==> fresh.service() == svc,
        call_requires(App::<S>::poll_ready::<E>, (app,)),
        call_ensures(App::<S>::poll_ready::<E>, (app,), ready) ==> {
            &&& ready == Poll::Ready(Ok::<(), E>(()))
            &&& *final(app) == *old(app)
        },
        call_requires(App::<S>::call::<E>, (app,)),
        call_ensures(App::<S>::call::<E>, (app,), made) ==> {
            &&& made matches Ok(clone) && vstd::pervasive::strictly_cloned(
                old(app).service(),
                clone,
            )
            &&& *final(app) == *old(app)
        },
{
}

} // verus!
