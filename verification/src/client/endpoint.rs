//! Connecting to an endpoint.

use super::connection::Connection;
use crate::poll::Poll;
use std::marker::PhantomData;
use vstd::prelude::*;

verus! {

/// An endpoint to which `inner` connects. `B` is the body of the requests that
/// will be made over its connections.
pub struct Endpoint<C, B> {
    inner: C,
    _body: PhantomData<B>,
}

/// How far the connecting to an endpoint has come.
#[derive(Clone, Copy, Debug, PartialEq, Eq, Structural)]
pub enum ConnectState {
    /// Nothing has been done yet.
    Called,
    /// The transport is connecting.
    Connecting,
    /// The protocol is being set up on the transport.
    Building,
    /// The call is over.
    Done,
}

/// What came of the last action. `D` is the destination, `Q` a connection of
/// the transport, `V` the driver of the protocol on it, `T` the sender of
/// requests, `P` an error of the protocol.
#[derive(Debug)]
pub enum ConnectEvent<D, Q, V, T, P> {
    /// A connection to this destination is called for.
    Called(D),
    /// The transport has connected. (Where it cannot connect, no step follows:
    /// whoever drives the call panics.)
    Connected(Q),
    /// The protocol was set up, or could not be.
    Built(Result<(V, T), P>),
}

/// What is to be done next.
pub enum ConnectAction<D, Q, V, T, P> {
    /// Connect the transport to this destination.
    Connect(D),
    /// Set up the protocol on this connection.
    Build(Q),
    /// Give this to the caller.
    Return(Result<(V, Connection<T>), P>),
}

/// `event` can come of the action that led to `state`.
pub open spec fn expects<D, Q, V, T, P>(
    state: ConnectState,
    event: ConnectEvent<D, Q, V, T, P>,
) -> bool {
    match event {
        ConnectEvent::Called(_) => state == ConnectState::Called,
        ConnectEvent::Connected(_) => state == ConnectState::Connecting,
        ConnectEvent::Built(_) => state == ConnectState::Building,
    }
}

/// The state after `event`.
pub open spec fn next_state<D, Q, V, T, P>(event: ConnectEvent<D, Q, V, T, P>) -> ConnectState {
    match event {
        ConnectEvent::Called(_) => ConnectState::Connecting,
        ConnectEvent::Connected(_) => ConnectState::Building,
        ConnectEvent::Built(_) => ConnectState::Done,
    }
}

/// `action` is what is done upon `event`.
pub open spec fn answers<D, Q, V, T, P>(
    event: ConnectEvent<D, Q, V, T, P>,
    action: ConnectAction<D, Q, V, T, P>,
) -> bool {
    match event {
        ConnectEvent::Called(destination) => action == ConnectAction::<D, Q, V, T, P>::Connect(
            destination,
        ),
        ConnectEvent::Connected(transport) => action == ConnectAction::<D, Q, V, T, P>::Build(
            transport,
        ),
        ConnectEvent::Built(Ok((driver, tx))) => {
            &&& action matches ConnectAction::Return(Ok((returned, connection)))
            &&& returned == driver
            &&& connection.sender() == tx
        },
        ConnectEvent::Built(Err(error)) => action == ConnectAction::<D, Q, V, T, P>::Return(
            Err(error),
        ),
    }
}

impl<C, B> Endpoint<C, B> {
    /// What connects.
    pub closed spec fn inner(&self) -> C {
        self.inner
    }

    /// An endpoint to which `inner` connects.
    pub fn new(inner: C) -> (out: Self)
        ensures
            out.inner() == inner,
    {
        Endpoint { inner, _body: PhantomData }
    }

    /// What connects, to connect with it.
    pub fn inner_mut(&mut self) -> (out: &mut C)
        ensures
            *out == old(self).inner(),
            final(self).inner() == *final(out),
    {
        &mut self.inner
    }

    /// A connection can always be called for, at once.
    pub fn poll_ready<P>(&mut self) -> (out: Poll<Result<(), P>>)
        ensures
            *final(self) == *old(self),
            out == Poll::Ready(Ok::<(), P>(())),
    {
        Poll::Ready(Ok(()))
    }

    /// Decides what is done next for a connection, given what came of the last
    /// action.
    ///
    /// The transport is connected to the destination, then the protocol is set
    /// up on that connection; the result is the driver of the protocol and a
    /// [`Connection`] that sends with the sender that came with it. An error of
    /// the setting up is given to the caller. The endpoint itself is asked only
    /// to connect, so that it can be called again while this is going on.
    pub fn call<D, Q, V, T, P>(state: ConnectState, event: ConnectEvent<D, Q, V, T, P>) -> (out: (
        ConnectState,
        ConnectAction<D, Q, V, T, P>,
    ))
        requires
            expects(state, event),
        ensures
            out.0 == next_state(event),
            answers(event, out.1),
    {
        match event {
            ConnectEvent::Called(destination) => {
                (ConnectState::Connecting, ConnectAction::Connect(destination))
            },
            ConnectEvent::Connected(transport) => {
                (ConnectState::Building, ConnectAction::Build(transport))
            },
            ConnectEvent::Built(Ok((driver, tx))) => {
                (ConnectState::Done, ConnectAction::Return(Ok((driver, Connection::new(tx)))))
            },
            ConnectEvent::Built(Err(error)) => {
                (ConnectState::Done, ConnectAction::Return(Err(error)))
            },
        }
    }
}

/// The state in which event `i` comes.
pub open spec fn state_at<D, Q, V, T, P>(
    events: Seq<ConnectEvent<D, Q, V, T, P>>,
    i: int,
) -> ConnectState {
    if i <= 0 {
        ConnectState::Called
    } else {
        next_state(events[i - 1])
    }
}

/// Event `i` can come when it does, and is answered by the action at the same
/// place.
pub open spec fn connected_at<D, Q, V, T, P>(
    events: Seq<ConnectEvent<D, Q, V, T, P>>,
    actions: Seq<ConnectAction<D, Q, V, T, P>>,
    i: int,
) -> bool {
    expects(state_at(events, i), events[i]) && answers(events[i], actions[i])
}

/// An endpoint is connected to with these events, each answered by the action
/// at the same place.
pub open spec fn connected<D, Q, V, T, P>(
    events: Seq<ConnectEvent<D, Q, V, T, P>>,
    actions: Seq<ConnectAction<D, Q, V, T, P>>,
) -> bool {
    &&& events.len() == actions.len()
    &&& forall|i: int| 0 <= i < events.len() ==> #[trigger] connected_at(events, actions, i)
}

/// Connecting takes three steps at most: the transport connects to the
/// destination that was called for, the protocol is set up on that connection,
/// and what came of it is the one result.
pub proof fn law_connecting_gives_one_result<D, Q, V, T, P>(
    events: Seq<ConnectEvent<D, Q, V, T, P>>,
    actions: Seq<ConnectAction<D, Q, V, T, P>>,
)
    requires
        connected(events, actions),
    ensures
        events.len() <= 3,
        0 < events.len() ==> {
            &&& events[0] matches ConnectEvent::Called(destination)
            &&& actions[0] == ConnectAction::<D, Q, V, T, P>::Connect(destination)
        },
        1 < events.len() ==> {
            &&& events[1] matches ConnectEvent::Connected(transport)
            &&& actions[1] == ConnectAction::<D, Q, V, T, P>::Build(transport)
        },
        2 < events.len() ==> {
            &&& events[2] matches ConnectEvent::Built(built)
            &&& actions[2] matches ConnectAction::Return(result)
            &&& match (built, result) {
                (Ok((driver, tx)), Ok((returned, connection))) => returned == driver
                    && connection.sender() == tx,
                (Err(error), Err(returned)) => returned == error,
                _ => false,
            }
        },
{
    assert(0 < events.len() ==> connected_at(events, actions, 0));
    assert(1 < events.len() ==> connected_at(events, actions, 1));
    assert(2 < events.len() ==> connected_at(events, actions, 2));
    assert(3 < events.len() ==> connected_at(events, actions, 3));
}

/// Each step of connecting has its own outcome, for every error type. The
/// transport is connected to the destination called for. The protocol is set up on
/// the connection that the transport made. Where it was set up, the caller gets the
/// driver that came and a connection that sends with the sender that came; where it
/// could not be, the caller gets that error. None of these comes otherwise.
pub proof fn law_each_step_of_connecting<C, B, D, Q, V, T, P>(
    state: ConnectState,
    event: ConnectEvent<D, Q, V, T, P>,
    out: (ConnectState, ConnectAction<D, Q, V, T, P>),
    destination: D,
    transport: Q,
    driver: V,
    tx: T,
    error: P,
)
    requires
        call_ensures(Endpoint::<C, B>::call::<D, Q, V, T, P>, (state, event), out),
    ensures
        event == ConnectEvent::<D, Q, V, T, P>::Called(destination) <==> out.1 == ConnectAction::<
            D,
            Q,
            V,
            T,
            P,
        >::Connect(destination),
        event == ConnectEvent::<D, Q, V, T, P>::Connected(transport) <==> out.1 == ConnectAction::<
            D,
            Q,
            V,
            T,
            P,
        >::Build(transport),
        event == ConnectEvent::<D, Q, V, T, P>::Built(Ok((driver, tx))) <==> (
        out.1 matches ConnectAction::Return(Ok((returned, connection))) && returned == driver
            && connection.sender() == tx),
        event == ConnectEvent::<D, Q, V, T, P>::Built(Err(error)) <==> out.1 == ConnectAction::<
            D,
            Q,
            V,
            T,
            P,
        >::Return(Err(error)),
        event is Called <==> out.0 is Connecting,
        event is Connected <==> out.0 is Building,
        event is Built <==> out.0 is Done,
{
}

/// Connecting goes on whatever comes: a call for every destination is taken
/// first, then every connection of the transport, then every outcome of the
/// setting up.
pub proof fn law_connecting_goes_on<C, B, D, Q, V, T, P>(
    destination: D,
    transport: Q,
    built: Result<(V, T), P>,
)
    ensures
        call_requires(
            Endpoint::<C, B>::call::<D, Q, V, T, P>,
            (ConnectState::Called, ConnectEvent::Called(destination)),
        ),
        call_requires(
            Endpoint::<C, B>::call::<D, Q, V, T, P>,
            (ConnectState::Connecting, ConnectEvent::Connected(transport)),
        ),
        call_requires(
            Endpoint::<C, B>::call::<D, Q, V, T, P>,
            (ConnectState::Building, ConnectEvent::Built(built)),
        ),
{
}

/// The connecting that [`connected`] speaks of is what [`Endpoint::call`]
/// decides, one event after the other from the call for a connection on: nothing
/// has been done before the first event, and where a further event comes in the
/// state that was reached, what is decided upon it goes on with that connecting.
/// Once the result was given, no further event is taken.
pub proof fn law_connecting_is_what_the_endpoint_decides<C, B, D, Q, V, T, P>(
    events: Seq<ConnectEvent<D, Q, V, T, P>>,
    actions: Seq<ConnectAction<D, Q, V, T, P>>,
    n: int,
    event: ConnectEvent<D, Q, V, T, P>,
    out: (ConnectState, ConnectAction<D, Q, V, T, P>),
)
    requires
        connected(events, actions),
        n == events.len(),
        expects(state_at(events, n), event),
        call_ensures(
            Endpoint::<C, B>::call::<D, Q, V, T, P>,
            (state_at(events, n), event),
            out,
        ),
    ensures
        connected(
            Seq::<ConnectEvent<D, Q, V, T, P>>::empty(),
            Seq::<ConnectAction<D, Q, V, T, P>>::empty(),
        ),
        state_at(Seq::<ConnectEvent<D, Q, V, T, P>>::empty(), 0) is Called,
        connected(events.push(event), actions.push(out.1)),
        state_at(events.push(event), n + 1) == out.0,
        n > 0 ==> !(actions[n - 1] is Return),
{
    assert forall|i: int| 0 <= i < n + 1 implies #[trigger] connected_at(
        events.push(event),
        actions.push(out.1),
        i,
    ) by {
        if i < n {
            assert(connected_at(events, actions, i));
        }
    }
    if n > 0 {
        assert(connected_at(events, actions, n - 1));
    }
}

/// An endpoint connects with what it was given, and handing that out to connect
/// with it hands out that very connector: what becomes of it there is what the
/// endpoint connects with next. A connection can always be called for, at once, and
/// asking leaves the endpoint as it was.
pub proof fn law_an_endpoint_connects_with_what_it_was_given<C, B, P>(
    inner: C,
    fresh: Endpoint<C, B>,
    endpoint: &mut Endpoint<C, B>,
    lent: &mut C,
    ready: Poll<Result<(), P>>,
)
    ensures
        call_requires(Endpoint::<C, B>::new, (inner,)),
        call_ensures(Endpoint::<C, B>::new, (inner,), fresh) ==> fresh.inner() == inner,
        call_requires(Endpoint::<C, B>::inner_mut, (endpoint,)),
        call_ensures(Endpoint::<C, B>::inner_mut, (endpoint,), lent) ==> {
            &&& *old(lent) == old(endpoint).inner()
            &&& final(endpoint).inner() == *final(lent)
        },
        call_requires(Endpoint::<C, B>::poll_ready::<P>, (endpoint,)),
        call_ensures(Endpoint::<C, B>::poll_ready::<P>, (endpoint,), ready) ==> {
            &&& ready == Poll::Ready(Ok::<(), P>(()))
            &&& *final(endpoint) == *old(endpoint)
        },
{
}

} // verus!
