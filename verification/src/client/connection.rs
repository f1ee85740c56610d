//! Calling over a connection.

use crate::message;
use crate::poll::Poll;
use vstd::prelude::*;

verus! {

/// A connection to an endpoint, over which requests are made with clones of
/// the sender `tx`.
pub struct Connection<T> {
    tx: T,
}

/// How far a call has come.
#[derive(Clone, Copy, Debug, PartialEq, Eq, Structural)]
pub enum CallState {
    /// The request is being sent.
    Sending,
    /// The head of the response is being waited for.
    Receiving,
    /// The call is over.
    Done,
}

/// What came of the last action of a call. `X` is the stream of the request,
/// `R` reads the body of the response from it, `P` is an error of the protocol.
#[derive(Debug)]
pub enum CallEvent<X, R, P> {
    /// The request was sent on this stream, or could not be.
    Sent(Result<X, P>),
    /// The head of the response came, and its body can be read; or the stream
    /// failed.
    Responded(Result<(http::Response<()>, R), P>),
}

/// What is to be done next for a call.
#[derive(Debug)]
#[verifier::reject_recursive_types(R)]
pub enum CallAction<X, R, P> {
    /// Wait for the head of the response on this stream.
    Receive(X),
    /// Give this to the caller.
    Return(Result<http::Response<R>, P>),
}

/// `event` can come of the action that led to `state`.
pub open spec fn expects<X, R, P>(state: CallState, event: CallEvent<X, R, P>) -> bool {
    match event {
        CallEvent::Sent(_) => state == CallState::Sending,
        CallEvent::Responded(_) => state == CallState::Receiving,
    }
}

/// The state of a call after `event`.
pub open spec fn next_state<X, R, P>(event: CallEvent<X, R, P>) -> CallState {
    match event {
        CallEvent::Sent(Ok(_)) => CallState::Receiving,
        _ => CallState::Done,
    }
}

/// `action` is what is done upon `event`.
pub open spec fn answers<X, R, P>(event: CallEvent<X, R, P>, action: CallAction<X, R, P>) -> bool {
    match event {
        CallEvent::Sent(Ok(stream)) => action == CallAction::<X, R, P>::Receive(stream),
        CallEvent::Sent(Err(error)) => action == CallAction::<X, R, P>::Return(Err(error)),
        CallEvent::Responded(Ok((head, body))) => {
            &&& action matches CallAction::Return(Ok(response))
            &&& message::response_with_body(head, body, response)
        },
        CallEvent::Responded(Err(error)) => action == CallAction::<X, R, P>::Return(Err(error)),
    }
}

impl<T> Connection<T> {
    /// The sender that is cloned for each request.
    pub closed spec fn sender(&self) -> T {
        self.tx
    }

    /// A connection that sends with clones of `tx`.
    pub fn new(tx: T) -> (out: Self)
        ensures
            out.sender() == tx,
    {
        Connection { tx }
    }

    /// A call can always be made, at once.
    pub fn poll_ready<P>(&mut self) -> (out: Poll<Result<(), P>>)
        ensures
            *final(self) == *old(self),
            out == Poll::Ready(Ok::<(), P>(())),
    {
        Poll::Ready(Ok(()))
    }
}

impl<T: Clone> Connection<T> {
    /// Begins a call: gives the sender and what is to be sent with it.
    ///
    /// That is the head of the request. The body of the request is not sent.
    /// The call is then in [`CallState::Sending`], and [`call_step`] decides on
    /// the rest of it.
    pub fn call<B>(&mut self, request: http::Request<B>) -> (out: (T, http::Request<()>))
        ensures
            *final(self) == *old(self),
            vstd::pervasive::strictly_cloned(old(self).sender(), out.0),
            message::request_with_body(request, (), out.1),
    {
        let request = message::replace_request_body(request, ());
        (self.tx.clone(), request)
    }
}

/// Decides what is done next for a call, given what came of the last action.
///
/// Once the request is sent, the head of the response is waited for; once that
/// is there, the response is the head that came with the reader of its body. The
/// call ends with the first error.
pub fn call_step<X, R, P>(state: CallState, event: CallEvent<X, R, P>) -> (out: (
    CallState,
    CallAction<X, R, P>,
))
    requires
        expects(state, event),
    ensures
        out.0 == next_state(event),
        answers(event, out.1),
{
    match event {
        CallEvent::Sent(Ok(stream)) => (CallState::Receiving, CallAction::Receive(stream)),
        CallEvent::Responded(Ok((head, body))) => {
            let response = message::replace_response_body(head, body);
            (CallState::Done, CallAction::Return(Ok(response)))
        },
        CallEvent::Sent(Err(error)) | CallEvent::Responded(Err(error)) => {
            (CallState::Done, CallAction::Return(Err(error)))
        },
    }
}

/// The state in which event `i` of a call comes. The first event comes of the
/// sending of the request.
pub open spec fn state_at<X, R, P>(events: Seq<CallEvent<X, R, P>>, i: int) -> CallState {
    if i <= 0 {
        CallState::Sending
    } else {
        next_state(events[i - 1])
    }
}

/// Event `i` can come when it does, and is answered by the action at the same
/// place.
pub open spec fn called_at<X, R, P>(
    events: Seq<CallEvent<X, R, P>>,
    actions: Seq<CallAction<X, R, P>>,
    i: int,
) -> bool {
    expects(state_at(events, i), events[i]) && answers(events[i], actions[i])
}

/// A call is made with these events, each answered by the action at the same
/// place.
pub open spec fn called<X, R, P>(
    events: Seq<CallEvent<X, R, P>>,
    actions: Seq<CallAction<X, R, P>>,
) -> bool {
    &&& events.len() == actions.len()
    &&& forall|i: int| 0 <= i < events.len() ==> #[trigger] called_at(events, actions, i)
}

/// A call takes at most two steps, and gives its result once: a response where
/// the request was sent and a response came, with the head that came and the
/// reader of its body; else the error that came first.
pub proof fn law_a_call_gives_one_result<X, R, P>(
    events: Seq<CallEvent<X, R, P>>,
    actions: Seq<CallAction<X, R, P>>,
    i: int,
)
    requires
        called(events, actions),
        0 <= i < events.len(),
    ensures
        events.len() <= 2,
        actions[i] is Return ==> i == events.len() - 1,
        actions[i] is Receive ==> i == 0,
        actions[i] matches CallAction::Return(Ok(response)) ==> {
            &&& i == 1
            &&& events[0] matches CallEvent::Sent(Ok(_))
            &&& events[1] matches CallEvent::Responded(Ok((head, body)))
            &&& message::response_with_body(head, body, response)
        },
        actions[i] matches CallAction::Return(Err(error)) ==> events[i] == CallEvent::<
            X,
            R,
            P,
        >::Sent(Err(error)) || events[i] == CallEvent::<X, R, P>::Responded(Err(error)),
{
    assert(called_at(events, actions, i));
    assert(called_at(events, actions, 0));
    assert(1 < events.len() ==> called_at(events, actions, 1));
    assert(2 < events.len() ==> called_at(events, actions, 2));
}

/// Requests are sent with clones of the sender that the connection was given,
/// however many are made: making one leaves the connection as it was, and is
/// always possible, at once. What is sent for a request is its head alone, which is
/// the head that it was put together from, whatever its body.
pub proof fn law_each_request_is_sent_with_a_clone_of_the_sender<T: Clone, B, P>(
    tx: T,
    fresh: Connection<T>,
    connection: &mut Connection<T>,
    ready: Poll<Result<(), P>>,
    request: http::Request<B>,
    out: (T, http::Request<()>),
    head: http::request::Parts,
    body: B,
)
    requires
        call_ensures(Connection::<T>::call::<B>, (connection, request), out),
    ensures
        call_requires(Connection::<T>::new, (tx,)),
        call_ensures(Connection::<T>::new, (tx,), fresh) ==> fresh.sender() == tx,
        call_requires(Connection::<T>::poll_ready::<P>, (connection,)),
        call_ensures(Connection::<T>::poll_ready::<P>, (connection,), ready) ==> ready
            == Poll::Ready(Ok::<(), P>(())),
        call_requires(Connection::<T>::call::<B>, (connection, request)),
        *final(connection) == *old(connection),
        vstd::pervasive::strictly_cloned(old(connection).sender(), out.0),
        call_ensures(http::Request::<B>::from_parts, (head, body), request) ==> call_ensures(
            http::Request::<()>::from_parts,
            (head, ()),
            out.1,
        ),
        exists|its: http::request::Parts, its_body: B|
            #[trigger] call_ensures(http::Request::<B>::from_parts, (its, its_body), request)
                && call_ensures(http::Request::<()>::from_parts, (its, ()), out.1),
{
    message::law_request_with_body_keeps_the_head(request, (), out.1, head, body);
}

/// Asking whether a call can be made leaves the connection as it was.
pub proof fn law_asking_changes_no_connection<T, P>(
    connection: &mut Connection<T>,
    ready: Poll<Result<(), P>>,
)
    requires
        call_ensures(Connection::<T>::poll_ready::<P>, (connection,), ready),
    ensures
        *final(connection) == *old(connection),
{
}

/// Upon the sending of a request, and for every error type: the head of the
/// response is waited for on the stream of the request; where the request could not
/// be sent, the call ends with that error.
pub proof fn law_sending_the_request<X, R, P>(
    sent: Result<X, P>,
    out: (CallState, CallAction<X, R, P>),
    stream: X,
    error: P,
)
    requires
        call_ensures(call_step::<X, R, P>, (CallState::Sending, CallEvent::Sent(sent)), out),
    ensures
        call_requires(call_step::<X, R, P>, (CallState::Sending, CallEvent::Sent(sent))),
        sent == Ok::<X, P>(stream) <==> out.1 == CallAction::<X, R, P>::Receive(stream),
        sent is Ok <==> out.0 is Receiving,
        sent == Err::<X, P>(error) <==> out.1 == CallAction::<X, R, P>::Return(Err(error)),
        sent is Err <==> out.0 is Done,
{
}

/// Upon the waiting for a response, and for every error type: the caller gets
/// a response with the head that came and the reader of the body that came; where
/// the stream failed, the caller gets that error. The call is over either way.
pub proof fn law_receiving_the_response<X, R, P>(
    responded: Result<(http::Response<()>, R), P>,
    out: (CallState, CallAction<X, R, P>),
    came: http::Response<()>,
    body: R,
    head: http::response::Parts,
    error: P,
)
    requires
        call_ensures(
            call_step::<X, R, P>,
            (CallState::Receiving, CallEvent::Responded(responded)),
            out,
        ),
    ensures
        call_requires(
            call_step::<X, R, P>,
            (CallState::Receiving, CallEvent::Responded(responded)),
        ),
        out.0 is Done,
        responded == Ok::<(http::Response<()>, R), P>((came, body)) ==> {
            &&& out.1 matches CallAction::Return(Ok(response))
            &&& call_ensures(http::Response::<()>::from_parts, (head, ()), came) ==> call_ensures(
                http::Response::<R>::from_parts,
                (head, body),
                response,
            )
            &&& exists|its: http::response::Parts, none: ()|
                #[trigger] call_ensures(http::Response::<()>::from_parts, (its, none), came)
                    && call_ensures(http::Response::<R>::from_parts, (its, body), response)
        },
        responded is Ok <==> (out.1 matches CallAction::Return(Ok(_))),
        responded == Err::<(http::Response<()>, R), P>(error) <==> out.1 == CallAction::<
            X,
            R,
            P,
        >::Return(Err(error)),
{
    if let Ok((answered, reader)) = responded {
        if let CallAction::Return(Ok(response)) = out.1 {
            message::law_response_with_body_keeps_the_head(answered, reader, response, head, ());
        }
    }
}

/// The call that [`called`] speaks of is what [`call_step`] decides, one event
/// after the other from the sending of the request on: nothing has been done before
/// the first event, and where a further event comes in the state that was reached,
/// what is decided upon it goes on with that call. A call that has given its result
/// takes no further event.
pub proof fn law_a_call_is_what_its_steps_decide<X, R, P>(
    events: Seq<CallEvent<X, R, P>>,
    actions: Seq<CallAction<X, R, P>>,
    n: int,
    event: CallEvent<X, R, P>,
    out: (CallState, CallAction<X, R, P>),
)
    requires
        called(events, actions),
        n == events.len(),
        expects(state_at(events, n), event),
        call_ensures(call_step::<X, R, P>, (state_at(events, n), event), out),
    ensures
        called(Seq::<CallEvent<X, R, P>>::empty(), Seq::<CallAction<X, R, P>>::empty()),
        state_at(Seq::<CallEvent<X, R, P>>::empty(), 0) is Sending,
        called(events.push(event), actions.push(out.1)),
        state_at(events.push(event), n + 1) == out.0,
        n > 0 ==> !(actions[n - 1] is Return),
{
    assert forall|i: int| 0 <= i < n + 1 implies #[trigger] called_at(
        events.push(event),
        actions.push(out.1),
        i,
    ) by {
        if i < n {
            assert(called_at(events, actions, i));
        }
    }
    if n > 0 {
        assert(called_at(events, actions, n - 1));
    }
}

} // verus!
