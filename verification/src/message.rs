//! HTTP messages whose body is exchanged while the head stays as it is.
//!
//! The protocol carries the head of a message and its body apart: a head is
//! sent or received as a message with an empty body, and the body follows as
//! a stream of frames.

use vstd::prelude::*;

verus! {

/// `http::Request`, carried as an opaque value.
#[verifier::external_type_specification]
#[verifier::external_body]
#[verifier::reject_recursive_types(T)]
pub struct ExRequest<T>(http::Request<T>);

/// `http::request::Parts`, the head of a request, carried as an opaque value.
#[verifier::external_type_specification]
#[verifier::external_body]
pub struct ExRequestParts(http::request::Parts);

/// `http::Response`, carried as an opaque value.
#[verifier::external_type_specification]
#[verifier::external_body]
#[verifier::reject_recursive_types(T)]
pub struct ExResponse<T>(http::Response<T>);

/// `http::response::Parts`, the head of a response, carried as an opaque value.
#[verifier::external_type_specification]
#[verifier::external_body]
pub struct ExResponseParts(http::response::Parts);

/// `http::Request::from_parts` puts a request together from a head and a body.
///
/// The contract has no clause of its own: which request comes out of which
/// head and body is what [`request_of`] says, and the contract of
/// `http::Request::into_parts` says what can be read back from it.
pub assume_specification<T>[ http::Request::<T>::from_parts ](
    parts: http::request::Parts,
    body: T,
) -> http::Request<T>;

/// `http::Response::from_parts` puts a response together from a head and a
/// body.
///
/// As for requests, [`response_of`] says which response comes out, and the
/// contract of `http::Response::into_parts` says what can be read back.
pub assume_specification<T>[ http::Response::<T>::from_parts ](
    parts: http::response::Parts,
    body: T,
) -> http::Response<T>;

/// `request` is what `http::Request::from_parts` makes of `head` and `body`.
pub open spec fn request_of<T>(
    request: http::Request<T>,
    head: http::request::Parts,
    body: T,
) -> bool {
    call_ensures(http::Request::<T>::from_parts, (head, body), request)
}

/// `response` is what `http::Response::from_parts` makes of `head` and `body`.
pub open spec fn response_of<T>(
    response: http::Response<T>,
    head: http::response::Parts,
    body: T,
) -> bool {
    call_ensures(http::Response::<T>::from_parts, (head, body), response)
}

/// `http::Request::into_parts` takes a request apart.
///
/// A request is its head and its body: putting the two results together again
/// gives the same request, and a request that was put together gives back the
/// very head and body it was made of.
pub assume_specification<T>[ http::Request::<T>::into_parts ](request: http::Request<T>) -> (out: (
    http::request::Parts,
    T,
))
    ensures
        request_of(request, out.0, out.1),
        (forall|head: http::request::Parts, body: T|
            request_of(request, head, body) ==> out == (head, body)),
;

/// `http::Response::into_parts` takes a response apart.
///
/// A response is its head and its body: putting the two results together again
/// gives the same response, and a response that was put together gives back
/// the very head and body it was made of.
pub assume_specification<T>[ http::Response::<T>::into_parts ](response: http::Response<T>) -> (out:
    (http::response::Parts, T))
    ensures
        response_of(response, out.0, out.1),
        (forall|head: http::response::Parts, body: T|
            response_of(response, head, body) ==> out == (head, body)),
;

/// `out` has the head of `request` and the body `body`.
///
/// There is one head and one body that a request is made of: there is a head
/// of which both are made, and every head of which `request` is made is one of
/// which `out` is made.
pub open spec fn request_with_body<A, B>(
    request: http::Request<A>,
    body: B,
    out: http::Request<B>,
) -> bool {
    &&& exists|head: http::request::Parts, replaced: A|
        request_of(request, head, replaced) && request_of(out, head, body)
    &&& forall|head: http::request::Parts, replaced: A|
        #[trigger] request_of(request, head, replaced) ==> request_of(out, head, body)
}

/// `out` has the head of `response` and the body `body`.
///
/// There is one head and one body that a response is made of: there is a head
/// of which both are made, and every head of which `response` is made is one of
/// which `out` is made.
pub open spec fn response_with_body<A, B>(
    response: http::Response<A>,
    body: B,
    out: http::Response<B>,
) -> bool {
    &&& exists|head: http::response::Parts, replaced: A|
        response_of(response, head, replaced) && response_of(out, head, body)
    &&& forall|head: http::response::Parts, replaced: A|
        #[trigger] response_of(response, head, replaced) ==> response_of(out, head, body)
}

/// Puts a request together from a head and a body.
pub fn make_request<T>(head: http::request::Parts, body: T) -> (out: http::Request<T>)
    ensures
        request_of(out, head, body),
{
    let from_parts = http::Request::<T>::from_parts;
    from_parts(head, body)
}

/// Puts a response together from a head and a body.
pub fn make_response<T>(head: http::response::Parts, body: T) -> (out: http::Response<T>)
    ensures
        response_of(out, head, body),
{
    let from_parts = http::Response::<T>::from_parts;
    from_parts(head, body)
}

/// Gives a request another body and keeps its head.
pub fn replace_request_body<A, B>(request: http::Request<A>, body: B) -> (out: http::Request<B>)
    ensures
        request_with_body(request, body, out),
{
    let (head, _) = request.into_parts();
    make_request(head, body)
}

/// Gives a response another body and keeps its head.
pub fn replace_response_body<A, B>(response: http::Response<A>, body: B) -> (out: http::Response<B>)
    ensures
        response_with_body(response, body, out),
{
    let (head, _) = response.into_parts();
    make_response(head, body)
}

/// To have the head of a request and another body is to be what
/// `http::Request::from_parts` makes of that head and that body: of every head of
/// which the request is made, and there is one.
pub proof fn law_request_with_body_keeps_the_head<A, B>(
    request: http::Request<A>,
    body: B,
    out: http::Request<B>,
    head: http::request::Parts,
    replaced: A,
)
    requires
        request_with_body(request, body, out),
    ensures
        call_ensures(http::Request::<A>::from_parts, (head, replaced), request) ==> call_ensures(
            http::Request::<B>::from_parts,
            (head, body),
            out,
        ),
        exists|its: http::request::Parts, its_body: A|
            #[trigger] call_ensures(http::Request::<A>::from_parts, (its, its_body), request)
                && call_ensures(http::Request::<B>::from_parts, (its, body), out),
{
    assert(request_of(request, head, replaced) ==> request_of(out, head, body));
    let (its, its_body) = choose|its: http::request::Parts, its_body: A|
        request_of(request, its, its_body) && request_of(out, its, body);
    assert(call_ensures(http::Request::<A>::from_parts, (its, its_body), request));
}

/// To have the head of a response and another body is to be what
/// `http::Response::from_parts` makes of that head and that body: of every head of
/// which the response is made, and there is one.
pub proof fn law_response_with_body_keeps_the_head<A, B>(
    response: http::Response<A>,
    body: B,
    out: http::Response<B>,
    head: http::response::Parts,
    replaced: A,
)
    requires
        response_with_body(response, body, out),
    ensures
        call_ensures(http::Response::<A>::from_parts, (head, replaced), response) ==> call_ensures(
            http::Response::<B>::from_parts,
            (head, body),
            out,
        ),
        exists|its: http::response::Parts, its_body: A|
            #[trigger] call_ensures(http::Response::<A>::from_parts, (its, its_body), response)
                && call_ensures(http::Response::<B>::from_parts, (its, body), out),
{
    assert(response_of(response, head, replaced) ==> response_of(out, head, body));
    let (its, its_body) = choose|its: http::response::Parts, its_body: A|
        response_of(response, its, its_body) && response_of(out, its, body);
    assert(call_ensures(http::Response::<A>::from_parts, (its, its_body), response));
}

/// A request put together is what `http::Request::from_parts` makes of the
/// head and the body given. One whose body is exchanged keeps its head: where it
/// was put together from a head, the new one is what is made of that head and the
/// new body. Exchanging the body back gives what is made of that head and the
/// first body. Every head, body and request can be taken.
pub proof fn law_exchanging_the_body_of_a_request<A, B>(
    head: http::request::Parts,
    first: A,
    body: B,
    made: http::Request<A>,
    exchanged: http::Request<B>,
    back: http::Request<A>,
)
    requires
        call_ensures(make_request::<A>, (head, first), made),
        call_ensures(replace_request_body::<A, B>, (made, body), exchanged),
        call_ensures(replace_request_body::<B, A>, (exchanged, first), back),
    ensures
        call_requires(make_request::<A>, (head, first)),
        call_requires(replace_request_body::<A, B>, (made, body)),
        call_ensures(http::Request::<A>::from_parts, (head, first), made),
        call_ensures(http::Request::<B>::from_parts, (head, body), exchanged),
        call_ensures(http::Request::<A>::from_parts, (head, first), back),
{
    law_request_with_body_keeps_the_head(made, body, exchanged, head, first);
    law_request_with_body_keeps_the_head(exchanged, first, back, head, body);
}

/// A response put together is what `http::Response::from_parts` makes of the
/// head and the body given. One whose body is exchanged keeps its head: where it
/// was put together from a head, the new one is what is made of that head and the
/// new body. Exchanging the body back gives what is made of that head and the
/// first body. Every head, body and response can be taken.
pub proof fn law_exchanging_the_body_of_a_response<A, B>(
    head: http::response::Parts,
    first: A,
    body: B,
    made: http::Response<A>,
    exchanged: http::Response<B>,
    back: http::Response<A>,
)
    requires
        call_ensures(make_response::<A>, (head, first), made),
        call_ensures(replace_response_body::<A, B>, (made, body), exchanged),
        call_ensures(replace_response_body::<B, A>, (exchanged, first), back),
    ensures
        call_requires(make_response::<A>, (head, first)),
        call_requires(replace_response_body::<A, B>, (made, body)),
        call_ensures(http::Response::<A>::from_parts, (head, first), made),
        call_ensures(http::Response::<B>::from_parts, (head, body), exchanged),
        call_ensures(http::Response::<A>::from_parts, (head, first), back),
{
    law_response_with_body_keeps_the_head(made, body, exchanged, head, first);
    law_response_with_body_keeps_the_head(exchanged, first, back, head, body);
}

} // verus!
