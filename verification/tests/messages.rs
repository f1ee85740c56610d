use bytes::Bytes;
use std::collections::VecDeque;
use tower_h3::buffer::{join, joined_len};
use tower_h3::message::{
    make_request, make_response, replace_request_body, replace_response_body,
};

fn request<B>(body: B) -> http::Request<B> {
    http::Request::builder()
        .method("POST")
        .uri("https://example.org/upload?x=1")
        .header("x-trace", "abc")
        .body(body)
        .unwrap()
}

fn response<B>(body: B) -> http::Response<B> {
    http::Response::builder()
        .status(418)
        .header("x-kind", "teapot")
        .body(body)
        .unwrap()
}

#[test]
fn replacing_the_body_of_a_request_keeps_its_head() {
    let out = replace_request_body(request("old body"), 7u32);
    assert_eq!(*out.body(), 7u32);
    assert_eq!(out.method(), http::Method::POST);
    assert_eq!(out.uri(), "https://example.org/upload?x=1");
    assert_eq!(out.version(), http::Version::HTTP_11);
    assert_eq!(out.headers().len(), 1);
    assert_eq!(out.headers()["x-trace"], "abc");
}

#[test]
fn replacing_the_body_of_a_request_keeps_its_extensions() {
    let mut given = request(());
    given.extensions_mut().insert(41u8);
    let out = replace_request_body(given, "new");
    assert_eq!(out.extensions().get::<u8>(), Some(&41u8));
    assert_eq!(*out.body(), "new");
}

#[test]
fn replacing_the_body_of_a_response_keeps_its_head() {
    let out = replace_response_body(response(vec![1u8, 2]), "new body");
    assert_eq!(*out.body(), "new body");
    assert_eq!(out.status(), http::StatusCode::IM_A_TEAPOT);
    assert_eq!(out.headers().len(), 1);
    assert_eq!(out.headers()["x-kind"], "teapot");
}

#[test]
fn messages_are_put_together_from_head_and_body() {
    let (head, _) = request(()).into_parts();
    let out = make_request(head, 5u8);
    assert_eq!(*out.body(), 5u8);
    assert_eq!(out.method(), http::Method::POST);

    let (head, _) = response(()).into_parts();
    let out = make_response(head, 6u8);
    assert_eq!(*out.body(), 6u8);
    assert_eq!(out.status(), 418);
}

#[test]
fn chunks_are_joined_in_order() {
    let chunks = VecDeque::from(vec![
        Bytes::from_static(b"hello"),
        Bytes::new(),
        Bytes::from(vec![b',', b' ']),
        Bytes::from_static(b"world"),
    ]);
    assert_eq!(joined_len(&chunks), Some(12));
    assert_eq!(&join(chunks)[..], b"hello, world");
}

#[test]
fn no_chunks_make_an_empty_buffer() {
    assert_eq!(joined_len(&VecDeque::new()), Some(0));
    assert!(join(VecDeque::new()).is_empty());
    let empty = VecDeque::from(vec![Bytes::new(), Bytes::new()]);
    assert_eq!(joined_len(&empty), Some(0));
    assert!(join(empty).is_empty());
}

#[test]
fn one_chunk_is_the_whole_buffer() {
    let shared = Bytes::from(vec![9u8; 300]);
    let kept = shared.clone();
    assert_eq!(join(VecDeque::from(vec![shared])), kept);
}
