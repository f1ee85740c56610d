//! Serving a connection.

use super::error::Error;
use crate::message;
use vstd::prelude::*;

verus! {

/// `Server` serves connections, each with a service that `app` makes for it.
pub struct Server<A> {
    app: A,
}

/// How far the serving of a connection has come, and what is kept meanwhile:
/// the service `V` of the connection, or the stream `X` on which a request is to
/// be answered.
#[derive(Debug)]
pub enum ServeState<V, X> {
    /// The service of the connection is being made.
    Making,
    /// The next request is being waited for.
    Accepting(V),
    /// The service is working on a request, to be answered on this stream.
    Calling(X),
    /// The head of the response is being sent.
    Sending(V),
    /// The stream of the response is being finished.
    Finishing(V),
    /// The connection is no longer served.
    Done,
}

/// What came of the last action. `V` is the service of the connection, `Q`
/// reads the body of a request, `X` is the stream on which the request is
/// answered, `R` is the body of a response; the errors are those of the protocol
/// (`P`), of making the service (`M`) and of the service (`S`).
#[derive(Debug)]
#[verifier::reject_recursive_types(R)]
pub enum ServeEvent<V, Q, X, R, P, M, S> {
    /// The service was made, or could not be.
    Made(Result<V, M>),
    /// A request came with a reader of its body and the stream for its answer,
    /// or the connection has ended, or it has failed.
    Accepted(Result<Option<(http::Request<()>, Q, X)>, P>),
    /// The service, given back, has answered the request or failed on it.
    Responded(V, Result<http::Response<R>, S>),
    /// The head of the response was sent on the stream, given back, or could not
    /// be.
    Sent(Result<X, P>),
    /// The stream of the response was finished, or could not be.
    Finished(Result<(), P>),
}

/// What is to be done next.
#[derive(Debug)]
#[verifier::reject_recursive_types(Q)]
pub enum ServeAction<V, Q, X, P, M, S> {
    /// Wait for the next request.
    Accept,
    /// Call this service with this request.
    Call(V, http::Request<Q>),
    /// Send on this stream this response, which is a head alone.
    Send(X, http::Response<()>),
    /// Finish this stream.
    Finish(X),
    /// Serve the connection no longer.
    Return(Result<(), Error<P, M, S>>),
}

/// `event` can come of the action that led to `state`.
pub open spec fn expects<V, Q, X, R, P, M, S>(
    state: ServeState<V, X>,
    event: ServeEvent<V, Q, X, R, P, M, S>,
) -> bool {
    match event {
        ServeEvent::Made(_) => state is Making,
        ServeEvent::Accepted(_) => state is Accepting,
        ServeEvent::Responded(_, _) => state is Calling,
        ServeEvent::Sent(_) => state is Sending,
        ServeEvent::Finished(_) => state is Finishing,
    }
}

/// The error with which `event` ends the serving, if it does.
pub open spec fn failure<V, Q, X, R, P, M, S>(
    event: ServeEvent<V, Q, X, R, P, M, S>,
) -> Option<Error<P, M, S>> {
    match event {
        ServeEvent::Made(Err(error)) => Some(Error::MakeService(error)),
        ServeEvent::Accepted(Err(error)) => Some(Error::Protocol(error)),
        ServeEvent::Responded(_, Err(error)) => Some(Error::Service(error)),
        ServeEvent::Sent(Err(error)) => Some(Error::Protocol(error)),
        ServeEvent::Finished(Err(error)) => Some(Error::Protocol(error)),
        _ => None,
    }
}

/// The state after `event` in `state`.
pub open spec fn next_state<V, Q, X, R, P, M, S>(
    state: ServeState<V, X>,
    event: ServeEvent<V, Q, X, R, P, M, S>,
) -> ServeState<V, X> {
    match (state, event) {
        (ServeState::Making, ServeEvent::Made(Ok(svc))) => ServeState::Accepting(svc),
        (ServeState::Accepting(_), ServeEvent::Accepted(Ok(Some((_, _, tx))))) => {
            ServeState::Calling(tx)
        },
        (ServeState::Calling(_), ServeEvent::Responded(svc, Ok(_))) => ServeState::Sending(svc),
        (ServeState::Sending(svc), ServeEvent::Sent(Ok(_))) => ServeState::Finishing(svc),
        (ServeState::Finishing(svc), ServeEvent::Finished(Ok(_))) => ServeState::Accepting(svc),
        _ => ServeState::Done,
    }
}

/// `action` is what is done upon `event` in `state`.
pub open spec fn answers<V, Q, X, R, P, M, S>(
    state: ServeState<V, X>,
    event: ServeEvent<V, Q, X, R, P, M, S>,
    action: ServeAction<V, Q, X, P, M, S>,
) -> bool {
    match (state, event) {
        (ServeState::Making, ServeEvent::Made(Ok(_))) => action is Accept,
        (ServeState::Accepting(svc), ServeEvent::Accepted(Ok(Some((request, body, _))))) => {
            &&& action matches ServeAction::Call(called, call)
            &&& called == svc
            &&& message::request_with_body(request, body, call)
        },
        (ServeState::Accepting(_), ServeEvent::Accepted(Ok(None))) => {
            action == ServeAction::<V, Q, X, P, M, S>::Return(Ok(()))
        },
        (ServeState::Calling(tx), ServeEvent::Responded(_, Ok(response))) => {
            &&& action matches ServeAction::Send(stream, head)
            &&& stream == tx
            &&& message::response_with_body(response, (), head)
        },
        (ServeState::Sending(_), ServeEvent::Sent(Ok(tx))) => {
            action == ServeAction::<V, Q, X, P, M, S>::Finish(tx)
        },
        (ServeState::Finishing(_), ServeEvent::Finished(Ok(_))) => action is Accept,
        _ => {
            &&& failure(event) matches Some(error)
            &&& action == ServeAction::<V, Q, X, P, M, S>::Return(Err(error))
        },
    }
}

impl<A> Server<A> {
    /// What makes the services.
    pub closed spec fn app(&self) -> A {
        self.app
    }

    /// A server whose services are made by `app`.
    pub fn new(app: A) -> (out: Self)
        ensures
            out.app() == app,
    {
        Server { app }
    }

    /// What makes the services, to make one.
    pub fn app_mut(&mut self) -> (out: &mut A)
        ensures
            *out == old(self).app(),
            final(self).app() == *final(out),
    {
        &mut self.app
    }

    /// Decides what is done next for a connection, given what came of the last
    /// action.
    ///
    /// A service is made for the connection. Then each request is accepted,
    /// given to the service with a reader of its body, and answered on its own
    /// stream with the head of the service's response, before the next one is
    /// accepted. The body of the response is not sent. The serving ends well where
    /// the connection does, and ends with the first error.
    pub fn serve<V, Q, X, R, P, M, S>(
        &mut self,
        state: ServeState<V, X>,
        event: ServeEvent<V, Q, X, R, P, M, S>,
    ) -> (out: (ServeState<V, X>, ServeAction<V, Q, X, P, M, S>))
        requires
            expects(state, event),
        ensures
            *final(self) == *old(self),
            out.0 == next_state(state, event),
            answers(state, event, out.1),
    {
        match (state, event) {
            (ServeState::Making, ServeEvent::Made(Ok(svc))) => {
                (ServeState::Accepting(svc), ServeAction::Accept)
            },
            (ServeState::Making, ServeEvent::Made(Err(error))) => {
                (ServeState::Done, ServeAction::Return(Err(Error::MakeService(error))))
            },
            (ServeState::Accepting(svc), ServeEvent::Accepted(Ok(Some((request, body, tx))))) => {
                let request = message::replace_request_body(request, body);
                (ServeState::Calling(tx), ServeAction::Call(svc, request))
            },
            (ServeState::Accepting(_), ServeEvent::Accepted(Ok(None))) => {
                (ServeState::Done, ServeAction::Return(Ok(())))
            },
            (ServeState::Accepting(_), ServeEvent::Accepted(Err(error))) => {
                (ServeState::Done, ServeAction::Return(Err(Error::Protocol(error))))
            },
            (ServeState::Calling(tx), ServeEvent::Responded(svc, Ok(response))) => {
                let head = message::replace_response_body(response, ());
                (ServeState::Sending(svc), ServeAction::Send(tx, head))
            },
            (ServeState::Calling(_), ServeEvent::Responded(_, Err(error))) => {
                (ServeState::Done, ServeAction::Return(Err(Error::Service(error))))
            },
            (ServeState::Sending(svc), ServeEvent::Sent(Ok(tx))) => {
                (ServeState::Finishing(svc), ServeAction::Finish(tx))
            },
            (ServeState::Sending(_), ServeEvent::Sent(Err(error))) => {
                (ServeState::Done, ServeAction::Return(Err(Error::Protocol(error))))
            },
            (ServeState::Finishing(svc), ServeEvent::Finished(Ok(()))) => {
                (ServeState::Accepting(svc), ServeAction::Accept)
            },
            (ServeState::Finishing(_), ServeEvent::Finished(Err(error))) => {
                (ServeState::Done, ServeAction::Return(Err(Error::Protocol(error))))
            },
            _ => vstd::pervasive::unreached(),
        }
    }
}

/// The state in which event `i` comes. The first event comes of the making of
/// the service.
pub open spec fn state_at<V, Q, X, R, P, M, S>(
    events: Seq<ServeEvent<V, Q, X, R, P, M, S>>,
    i: int,
) -> ServeState<V, X>
    decreases i,
{
    if i <= 0 {
        ServeState::Making
    } else {
        next_state(state_at(events, i - 1), events[i - 1])
    }
}

/// Event `i` can come when it does, and is answered by the action at the same
/// place.
pub open spec fn served_at<V, Q, X, R, P, M, S>(
    events: Seq<ServeEvent<V, Q, X, R, P, M, S>>,
    actions: Seq<ServeAction<V, Q, X, P, M, S>>,
    i: int,
) -> bool {
    &&& expects(state_at(events, i), events[i])
    &&& answers(state_at(events, i), events[i], actions[i])
}

/// A connection is served with these events, each answered by the action at
/// the same place.
pub open spec fn served<V, Q, X, R, P, M, S>(
    events: Seq<ServeEvent<V, Q, X, R, P, M, S>>,
    actions: Seq<ServeAction<V, Q, X, P, M, S>>,
) -> bool {
    &&& events.len() == actions.len()
    &&& forall|i: int| 0 <= i < events.len() ==> #[trigger] served_at(events, actions, i)
}

/// Requests are served one at a time: after the making of the service, events
/// come in rounds of four, one round for each request, which is accepted, called,
/// answered and finished before the next one is accepted.
pub proof fn law_requests_are_served_in_turn<V, Q, X, R, P, M, S>(
    events: Seq<ServeEvent<V, Q, X, R, P, M, S>>,
    actions: Seq<ServeAction<V, Q, X, P, M, S>>,
    i: int,
)
    requires
        served(events, actions),
        0 <= i < events.len(),
    ensures
        events[i] is Made <==> i == 0,
        events[i] is Accepted <==> i % 4 == 1,
        events[i] is Responded <==> i % 4 == 2,
        events[i] is Sent <==> i % 4 == 3,
        events[i] is Finished <==> i % 4 == 0 && i > 0,
    decreases i,
{
    assert(served_at(events, actions, i));
    if i > 0 {
        law_requests_are_served_in_turn(events, actions, i - 1);
        assert(served_at(events, actions, i - 1));
    }
}

/// What the service is called with is what was accepted: the request of round
/// `round` has the head that came and the reader of the body that came. What is
/// sent for it is what the service answered, the head of its response, and it is
/// sent on the stream that came with the request. That stream, given back by the
/// sending, is finished, and only then is the next request accepted.
pub proof fn law_each_request_gets_its_own_response<V, Q, X, R, P, M, S>(
    events: Seq<ServeEvent<V, Q, X, R, P, M, S>>,
    actions: Seq<ServeAction<V, Q, X, P, M, S>>,
    round: int,
)
    requires
        served(events, actions),
        0 <= round,
        4 * round + 1 < events.len(),
    ensures
        events[4 * round + 1] matches ServeEvent::Accepted(accepted) && {
            accepted matches Ok(Some((request, body, _))) ==> {
                &&& actions[4 * round + 1] matches ServeAction::Call(_, call)
                &&& message::request_with_body(request, body, call)
            }
        },
        4 * round + 2 < events.len() ==> {
            &&& events[4 * round + 1] matches ServeEvent::Accepted(Ok(Some((_, _, tx))))
            &&& events[4 * round + 2] matches ServeEvent::Responded(_, responded)
            &&& responded matches Ok(response) ==> {
                &&& actions[4 * round + 2] matches ServeAction::Send(stream, head)
                &&& stream == tx
                &&& message::response_with_body(response, (), head)
            }
        },
        4 * round + 3 < events.len() ==> {
            &&& events[4 * round + 2] matches ServeEvent::Responded(_, Ok(_))
            &&& events[4 * round + 3] matches ServeEvent::Sent(sent)
            &&& sent matches Ok(tx) ==> actions[4 * round + 3] == ServeAction::<
                V,
                Q,
                X,
                P,
                M,
                S,
            >::Finish(tx)
        },
        4 * round + 4 < events.len() ==> {
            &&& events[4 * round + 3] matches ServeEvent::Sent(Ok(_))
            &&& events[4 * round + 4] matches ServeEvent::Finished(finished)
            &&& finished is Ok ==> actions[4 * round + 4] is Accept
        },
{
    let i: int = 4 * round + 1;
    law_requests_are_served_in_turn(events, actions, i);
    assert(served_at(events, actions, i));
    assert(i + 1 < events.len() ==> served_at(events, actions, i + 1));
    assert(i + 2 < events.len() ==> served_at(events, actions, i + 2));
    assert(i + 3 < events.len() ==> served_at(events, actions, i + 3));
}

/// One service serves the connection: the one that was made is called with the
/// first request, and the one that a call gave back is called with the next.
pub proof fn law_the_service_made_is_the_one_called<V, Q, X, R, P, M, S>(
    events: Seq<ServeEvent<V, Q, X, R, P, M, S>>,
    actions: Seq<ServeAction<V, Q, X, P, M, S>>,
    round: int,
)
    requires
        served(events, actions),
        0 <= round,
        4 * round + 1 < events.len(),
    ensures
        actions[4 * round + 1] matches ServeAction::Call(called, _) ==> if round == 0 {
            events[0] matches ServeEvent::Made(Ok(svc)) && called == svc
        } else {
            events[4 * round - 2] matches ServeEvent::Responded(svc, Ok(_)) && called == svc
        },
{
    let i: int = 4 * round + 1;
    law_requests_are_served_in_turn(events, actions, i);
    assert(served_at(events, actions, i));
    assert(served_at(events, actions, i - 1));
    if round > 0 {
        assert(served_at(events, actions, i - 2));
        assert(served_at(events, actions, i - 3));
    }
}

/// The serving of a connection ends with the first failure, with that failure
/// as its error, or well with the end of the connection, and with nothing else;
/// and nothing happens after it has ended.
pub proof fn law_serving_ends_once<V, Q, X, R, P, M, S>(
    events: Seq<ServeEvent<V, Q, X, R, P, M, S>>,
    actions: Seq<ServeAction<V, Q, X, P, M, S>>,
    i: int,
)
    requires
        served(events, actions),
        0 <= i < events.len(),
    ensures
        actions[i] is Return ==> i == events.len() - 1,
        actions[i] is Return <==> failure(events[i]) is Some || events[i] == ServeEvent::<
            V,
            Q,
            X,
            R,
            P,
            M,
            S,
        >::Accepted(Ok(None)),
        failure(events[i]) matches Some(error) ==> actions[i] == ServeAction::<
            V,
            Q,
            X,
            P,
            M,
            S,
        >::Return(Err(error)),
        events[i] == ServeEvent::<V, Q, X, R, P, M, S>::Accepted(Ok(None)) ==> actions[i]
            == ServeAction::<V, Q, X, P, M, S>::Return(Ok(())),
{
    assert(served_at(events, actions, i));
    assert(i + 1 < events.len() ==> served_at(events, actions, i + 1));
}

/// Upon the making of the service, and for every error type: the service that
/// was made is kept and the first request is waited for; where none could be made,
/// the serving ends with the error of the making.
pub proof fn law_making_the_service<A, V, Q, X, R, P, M, S>(
    server: &mut Server<A>,
    made: Result<V, M>,
    out: (ServeState<V, X>, ServeAction<V, Q, X, P, M, S>),
    svc: V,
    error: M,
)
    requires
        call_ensures(
            Server::<A>::serve::<V, Q, X, R, P, M, S>,
            (server, ServeState::Making, ServeEvent::Made(made)),
            out,
        ),
    ensures
        call_requires(
            Server::<A>::serve::<V, Q, X, R, P, M, S>,
            (server, ServeState::Making, ServeEvent::Made(made)),
        ),
        *final(server) == *old(server),
        made == Ok::<V, M>(svc) <==> out.0 == ServeState::<V, X>::Accepting(svc),
        made is Ok <==> out.1 is Accept,
        made == Err::<V, M>(error) <==> out.1 == ServeAction::<V, Q, X, P, M, S>::Return(
            Err(Error::MakeService(error)),
        ),
        made is Err <==> out.0 is Done,
{
}

/// Upon the waiting for a request, and for every error type: a request that
/// came is given, with its own head and the reader of its body, to the service
/// that was kept, and the stream that came with it is kept for the answer; the end
/// of the connection ends the serving well; and where the connection failed, the
/// serving ends with that error of the protocol.
pub proof fn law_accepting_a_request<A, V, Q, X, R, P, M, S>(
    server: &mut Server<A>,
    svc: V,
    accepted: Result<Option<(http::Request<()>, Q, X)>, P>,
    out: (ServeState<V, X>, ServeAction<V, Q, X, P, M, S>),
    head: http::request::Parts,
    request: http::Request<()>,
    body: Q,
    tx: X,
    error: P,
)
    requires
        call_ensures(
            Server::<A>::serve::<V, Q, X, R, P, M, S>,
            (server, ServeState::Accepting(svc), ServeEvent::Accepted(accepted)),
            out,
        ),
    ensures
        call_requires(
            Server::<A>::serve::<V, Q, X, R, P, M, S>,
            (server, ServeState::Accepting(svc), ServeEvent::Accepted(accepted)),
        ),
        *final(server) == *old(server),
        accepted == Ok::<Option<(http::Request<()>, Q, X)>, P>(Some((request, body, tx))) ==> {
            &&& out.0 == ServeState::<V, X>::Calling(tx)
            &&& out.1 matches ServeAction::Call(called, call)
            &&& called == svc
            &&& call_ensures(http::Request::<()>::from_parts, (head, ()), request)
                ==> call_ensures(http::Request::<Q>::from_parts, (head, body), call)
            &&& exists|its: http::request::Parts, none: ()|
                #[trigger] call_ensures(http::Request::<()>::from_parts, (its, none), request)
                    && call_ensures(http::Request::<Q>::from_parts, (its, body), call)
        },
        (accepted matches Ok(Some(_))) <==> out.1 is Call,
        (accepted matches Ok(Some(_))) <==> out.0 is Calling,
        accepted == Ok::<Option<(http::Request<()>, Q, X)>, P>(None) <==> out.1 == ServeAction::<
            V,
            Q,
            X,
            P,
            M,
            S,
        >::Return(Ok(())),
        accepted == Err::<Option<(http::Request<()>, Q, X)>, P>(error) <==> out.1 == ServeAction::<
            V,
            Q,
            X,
            P,
            M,
            S,
        >::Return(Err(Error::Protocol(error))),
        !(accepted matches Ok(Some(_))) <==> out.0 is Done,
{
    if let Ok(Some((came, reader, _))) = accepted {
        if let ServeAction::Call(_, call) = out.1 {
            message::law_request_with_body_keeps_the_head(came, reader, call, head, ());
        }
    }
}

/// Upon the answer of the service, and for every error type: the head of its
/// response, without the body, is sent on the stream that was kept, and the
/// service given back is kept; where the service failed, the serving ends with the
/// error of the service.
pub proof fn law_answering_a_request<A, V, Q, X, R, P, M, S>(
    server: &mut Server<A>,
    tx: X,
    svc: V,
    responded: Result<http::Response<R>, S>,
    out: (ServeState<V, X>, ServeAction<V, Q, X, P, M, S>),
    head: http::response::Parts,
    response: http::Response<R>,
    body: R,
    error: S,
)
    requires
        call_ensures(
            Server::<A>::serve::<V, Q, X, R, P, M, S>,
            (server, ServeState::Calling(tx), ServeEvent::Responded(svc, responded)),
            out,
        ),
    ensures
        call_requires(
            Server::<A>::serve::<V, Q, X, R, P, M, S>,
            (server, ServeState::Calling(tx), ServeEvent::Responded(svc, responded)),
        ),
        *final(server) == *old(server),
        responded == Ok::<http::Response<R>, S>(response) ==> {
            &&& out.0 == ServeState::<V, X>::Sending(svc)
            &&& out.1 matches ServeAction::Send(stream, sent)
            &&& stream == tx
            &&& call_ensures(http::Response::<R>::from_parts, (head, body), response)
                ==> call_ensures(http::Response::<()>::from_parts, (head, ()), sent)
            &&& exists|its: http::response::Parts, replaced: R|
                #[trigger] call_ensures(http::Response::<R>::from_parts, (its, replaced), response)
                    && call_ensures(http::Response::<()>::from_parts, (its, ()), sent)
        },
        responded is Ok <==> out.1 is Send,
        responded is Ok <==> out.0 is Sending,
        responded == Err::<http::Response<R>, S>(error) <==> out.1 == ServeAction::<
            V,
            Q,
            X,
            P,
            M,
            S,
        >::Return(Err(Error::Service(error))),
        responded is Err <==> out.0 is Done,
{
    if let Ok(answered) = responded {
        if let ServeAction::Send(_, sent) = out.1 {
            message::law_response_with_body_keeps_the_head(answered, (), sent, head, body);
        }
    }
}

/// Upon the sending of the head, and for every error type: the stream that the
/// sending gave back is finished; where the head could not be sent, the serving
/// ends with that error of the protocol. Meanwhile the service is kept.
pub proof fn law_sending_the_head<A, V, Q, X, R, P, M, S>(
    server: &mut Server<A>,
    svc: V,
    sent: Result<X, P>,
    out: (ServeState<V, X>, ServeAction<V, Q, X, P, M, S>),
    tx: X,
    error: P,
)
    requires
        call_ensures(
            Server::<A>::serve::<V, Q, X, R, P, M, S>,
            (server, ServeState::Sending(svc), ServeEvent::Sent(sent)),
            out,
        ),
    ensures
        call_requires(
            Server::<A>::serve::<V, Q, X, R, P, M, S>,
            (server, ServeState::Sending(svc), ServeEvent::Sent(sent)),
        ),
        *final(server) == *old(server),
        sent == Ok::<X, P>(tx) <==> out.1 == ServeAction::<V, Q, X, P, M, S>::Finish(tx),
        sent is Ok <==> out.0 == ServeState::<V, X>::Finishing(svc),
        sent == Err::<X, P>(error) <==> out.1 == ServeAction::<V, Q, X, P, M, S>::Return(
            Err(Error::Protocol(error)),
        ),
        sent is Err <==> out.0 is Done,
{
}

/// Upon the finishing of the stream, and for every error type: the next request
/// is waited for, with the same service; where the stream could not be finished,
/// the serving ends with that error of the protocol.
pub proof fn law_finishing_the_stream<A, V, Q, X, R, P, M, S>(
    server: &mut Server<A>,
    svc: V,
    finished: Result<(), P>,
    out: (ServeState<V, X>, ServeAction<V, Q, X, P, M, S>),
    error: P,
)
    requires
        call_ensures(
            Server::<A>::serve::<V, Q, X, R, P, M, S>,
            (server, ServeState::Finishing(svc), ServeEvent::Finished(finished)),
            out,
        ),
    ensures
        call_requires(
            Server::<A>::serve::<V, Q, X, R, P, M, S>,
            (server, ServeState::Finishing(svc), ServeEvent::Finished(finished)),
        ),
        *final(server) == *old(server),
        finished is Ok <==> out.0 == ServeState::<V, X>::Accepting(svc),
        finished is Ok <==> out.1 is Accept,
        finished == Err::<(), P>(error) <==> out.1 == ServeAction::<V, Q, X, P, M, S>::Return(
            Err(Error::Protocol(error)),
        ),
        finished is Err <==> out.0 is Done,
{
}

/// The serving of a connection ends with an error if and only if something
/// failed, and the error says what: one of the making of the service where that
/// failed, one of the service where it failed on a request, and one of the
/// protocol where accepting, sending or finishing did. It is the very error that
/// came, for every error type, and nothing happens after it. The serving ends well
/// if and only if the connection has ended.
pub proof fn law_a_failure_is_returned_as_what_it_is<V, Q, X, R, P, M, S>(
    events: Seq<ServeEvent<V, Q, X, R, P, M, S>>,
    actions: Seq<ServeAction<V, Q, X, P, M, S>>,
    i: int,
    protocol: P,
    making: M,
    service: S,
)
    requires
        served(events, actions),
        0 <= i < events.len(),
    ensures
        actions[i] == ServeAction::<V, Q, X, P, M, S>::Return(Err(Error::MakeService(making)))
            <==> events[i] == ServeEvent::<V, Q, X, R, P, M, S>::Made(Err(making)),
        actions[i] == ServeAction::<V, Q, X, P, M, S>::Return(Err(Error::Service(service))) <==> (
        events[i] matches ServeEvent::Responded(_, Err(error)) && error == service),
        actions[i] == ServeAction::<V, Q, X, P, M, S>::Return(Err(Error::Protocol(protocol)))
            <==> events[i] == ServeEvent::<V, Q, X, R, P, M, S>::Accepted(Err(protocol))
            || events[i] == ServeEvent::<V, Q, X, R, P, M, S>::Sent(Err(protocol)) || events[i]
            == ServeEvent::<V, Q, X, R, P, M, S>::Finished(Err(protocol)),
        actions[i] == ServeAction::<V, Q, X, P, M, S>::Return(Ok(())) <==> events[i]
            == ServeEvent::<V, Q, X, R, P, M, S>::Accepted(Ok(None)),
        (events[i] matches ServeEvent::Made(Err(_))) ==> i == events.len() - 1,
        (events[i] matches ServeEvent::Responded(_, Err(_))) ==> i == events.len() - 1,
        (events[i] matches ServeEvent::Accepted(Err(_))) ==> i == events.len() - 1,
        (events[i] matches ServeEvent::Sent(Err(_))) ==> i == events.len() - 1,
        (events[i] matches ServeEvent::Finished(Err(_))) ==> i == events.len() - 1,
        events[i] == ServeEvent::<V, Q, X, R, P, M, S>::Accepted(Ok(None)) ==> i == events.len() - 1,
{
    assert(served_at(events, actions, i));
    assert(i + 1 < events.len() ==> served_at(events, actions, i + 1));
}

/// The serving of a connection that [`served`] speaks of is what [`Server::serve`]
/// decides, one event after the other from the making of the service on: nothing
/// has been served before the first event, and where a further event comes in the
/// state that was reached, what is decided upon it goes on with that serving. A
/// server that has returned takes no further event.
pub proof fn law_serving_is_what_the_server_decides<A, V, Q, X, R, P, M, S>(
    server: &mut Server<A>,
    events: Seq<ServeEvent<V, Q, X, R, P, M, S>>,
    actions: Seq<ServeAction<V, Q, X, P, M, S>>,
    n: int,
    event: ServeEvent<V, Q, X, R, P, M, S>,
    out: (ServeState<V, X>, ServeAction<V, Q, X, P, M, S>),
)
    requires
        served(events, actions),
        n == events.len(),
        expects(state_at(events, n), event),
        call_ensures(
            Server::<A>::serve::<V, Q, X, R, P, M, S>,
            (server, state_at(events, n), event),
            out,
        ),
    ensures
        served(
            Seq::<ServeEvent<V, Q, X, R, P, M, S>>::empty(),
            Seq::<ServeAction<V, Q, X, P, M, S>>::empty(),
        ),
        state_at(Seq::<ServeEvent<V, Q, X, R, P, M, S>>::empty(), 0) is Making,
        served(events.push(event), actions.push(out.1)),
        state_at(events.push(event), n + 1) == out.0,
        n > 0 ==> !(actions[n - 1] is Return),
{
    let more = events.push(event);
    assert forall|i: int| 0 <= i < more.len() implies #[trigger] served_at(
        more,
        actions.push(out.1),
        i,
    ) by {
        lemma_state_at_of_prefix(events, event, i);
        if i < n {
            assert(served_at(events, actions, i));
        }
    }
    lemma_state_at_of_prefix(events, event, n);
    if n > 0 {
        assert(served_at(events, actions, n - 1));
    }
}

/// A further event does not change the states in which those before it came.
proof fn lemma_state_at_of_prefix<V, Q, X, R, P, M, S>(
    events: Seq<ServeEvent<V, Q, X, R, P, M, S>>,
    event: ServeEvent<V, Q, X, R, P, M, S>,
    i: int,
)
    requires
        i <= events.len(),
    ensures
        state_at(events.push(event), i) == state_at(events, i),
    decreases i,
{
    if i > 0 {
        lemma_state_at_of_prefix(events, event, i - 1);
    }
}

/// A server makes its services with what it was given, and handing that out to
/// make one with it hands out that very maker: what becomes of it there is what
/// the server makes the next one with.
pub proof fn law_services_are_made_by_the_app_given<A>(
    app: A,
    fresh: Server<A>,
    server: &mut Server<A>,
    lent: &mut A,
)
    ensures
        call_requires(Server::<A>::new, (app,)),
        call_ensures(Server::<A>::new, (app,), fresh) ==> fresh.app() == app,
        call_requires(Server::<A>::app_mut, (server,)),
        call_ensures(Server::<A>::app_mut, (server,), lent) ==> {
            &&& *old(lent) == old(server).app()
            &&& final(server).app() == *final(lent)
        },
{
}

} // verus!
