use bytes::Bytes;
use tower_h3::client::{
    call_step, destination, make_fut, select_destination, CallAction, CallEvent, CallState,
    ConnectAction, ConnectEvent, ConnectState, Connection, Destination, DestinationError,
    Endpoint, ReceiveAction, Received, RecvStream, UriParts, DEFAULT_PORT,
};
use tower_h3::frame::Frame;
use tower_h3::poll::Poll;

type Call = CallEvent<&'static str, u64, u8>;
type Dial = Endpoint<u8, ()>;
type Connect = ConnectEvent<&'static str, u16, u32, String, u8>;

fn head(status: u16) -> http::Response<()> {
    http::Response::builder().status(status).header("x-a", "b").body(()).unwrap()
}

fn parts(scheme: Option<&str>, host: Option<&str>, port: Option<u16>) -> UriParts {
    UriParts { scheme: scheme.map(String::from), host: host.map(String::from), port }
}

fn found(result: Result<Destination, DestinationError>) -> (String, u16) {
    let destination = result.unwrap();
    (destination.host, destination.port)
}

#[test]
fn a_call_sends_the_head_of_the_request() {
    let mut connection = Connection::new(String::from("sender"));
    assert!(matches!(connection.poll_ready::<u8>(), Poll::Ready(Ok(()))));
    for path in ["/a", "/b"] {
        let request =
            http::Request::builder().method("PUT").uri(path).body(vec![1u8, 2, 3]).unwrap();
        let (tx, sent) = connection.call(request);
        assert_eq!(tx, "sender");
        assert_eq!(sent.uri(), path);
        assert_eq!(sent.method(), http::Method::PUT);
        assert_eq!(*sent.body(), ());
    }
}

#[test]
fn a_call_returns_the_response_with_its_body() {
    let (state, action) = call_step(CallState::Sending, Call::Sent(Ok("stream")));
    assert_eq!(state, CallState::Receiving);
    assert!(matches!(action, CallAction::Receive("stream")));

    let (state, action) = call_step(state, Call::Responded(Ok((head(201), 77))));
    assert_eq!(state, CallState::Done);
    match action {
        CallAction::Return(Ok(response)) => {
            assert_eq!(response.status(), 201);
            assert_eq!(response.headers()["x-a"], "b");
            assert_eq!(*response.body(), 77);
        }
        other => panic!("{:?}", other),
    }
}

#[test]
fn a_call_ends_where_the_request_cannot_be_sent() {
    let (state, action) = call_step(CallState::Sending, Call::Sent(Err(1)));
    assert_eq!(state, CallState::Done);
    assert!(matches!(action, CallAction::Return(Err(1))));
}

#[test]
fn a_call_ends_where_no_response_comes() {
    let (state, action) = call_step(CallState::Receiving, Call::Responded(Err(2)));
    assert_eq!(state, CallState::Done);
    assert!(matches!(action, CallAction::Return(Err(2))));
}

#[test]
fn connecting_goes_from_destination_to_connection() {
    let mut endpoint: Dial = Endpoint::new(5);
    assert!(matches!(endpoint.poll_ready::<u8>(), Poll::Ready(Ok(()))));
    assert_eq!(*endpoint.inner_mut(), 5);
    *endpoint.inner_mut() = 6;

    let (state, action) = Dial::call(ConnectState::Called, Connect::Called("there"));
    assert_eq!(state, ConnectState::Connecting);
    assert!(matches!(action, ConnectAction::Connect("there")));

    let (state, action) = Dial::call(state, Connect::Connected(9));
    assert_eq!(state, ConnectState::Building);
    assert!(matches!(action, ConnectAction::Build(9)));

    let built = Connect::Built(Ok((11, String::from("tx"))));
    let (state, action) = Dial::call(state, built);
    assert_eq!(state, ConnectState::Done);
    match action {
        ConnectAction::Return(Ok((driver, mut connection))) => {
            assert_eq!(driver, 11);
            let (tx, _) = connection.call(http::Request::new(()));
            assert_eq!(tx, "tx");
        }
        _ => panic!("no connection"),
    }
    assert_eq!(*endpoint.inner_mut(), 6);
}

#[test]
fn connecting_ends_where_the_protocol_cannot_be_set_up() {
    let (state, action) = Dial::call(ConnectState::Building, Connect::Built(Err(4)));
    assert_eq!(state, ConnectState::Done);
    assert!(matches!(action, ConnectAction::Return(Err(4))));
}

#[test]
fn data_then_trailers_then_the_end() {
    let mut stream = RecvStream::new();
    for (chunk, rx) in [(&b"x"[..], 1u16), (&b"yz"[..], 2)] {
        let received = Received::Data(Ok(Some(Bytes::copy_from_slice(chunk))));
        match make_fut::<u8, _>(&mut stream, received, rx) {
            ReceiveAction::Yield(Some(Ok(Frame::Data(bytes))), back) => {
                assert_eq!(&bytes[..], chunk);
                assert_eq!(back, rx);
            }
            other => panic!("{:?}", other),
        }
    }

    let out = make_fut::<u8, _>(&mut stream, Received::Data(Ok(None)), 3u16);
    assert!(matches!(out, ReceiveAction::ReadTrailers(3)));
    let mut map = http::HeaderMap::new();
    map.insert("x-sum", http::HeaderValue::from_static("12"));
    match make_fut::<u8, _>(&mut stream, Received::Trailers(Ok(Some(map))), 4u16) {
        ReceiveAction::Yield(Some(Ok(Frame::Trailers(map))), 4) => assert_eq!(map["x-sum"], "12"),
        other => panic!("{:?}", other),
    }

    let out = make_fut::<u8, _>(&mut stream, Received::Data(Ok(None)), 5u16);
    assert!(matches!(out, ReceiveAction::ReadTrailers(5)));
    let out = make_fut::<u8, _>(&mut stream, Received::Trailers(Ok(None)), 6u16);
    assert!(matches!(out, ReceiveAction::Yield(None, 6)));
}

#[test]
fn errors_of_reads_are_given_to_the_reader() {
    let mut stream = RecvStream::new();
    let out = make_fut(&mut stream, Received::Data(Err(1u8)), "rx");
    assert!(matches!(out, ReceiveAction::Yield(Some(Err(1)), "rx")));
    let out = make_fut::<u8, _>(&mut stream, Received::Data(Ok(None)), "rx");
    assert!(matches!(out, ReceiveAction::ReadTrailers("rx")));
    let out = make_fut(&mut stream, Received::Trailers(Err(2u8)), "rx");
    assert!(matches!(out, ReceiveAction::Yield(Some(Err(2)), "rx")));
    let out = make_fut::<u8, _>(&mut stream, Received::Data(Ok(None)), "rx");
    assert!(matches!(out, ReceiveAction::ReadTrailers("rx")));
}

#[test]
fn a_response_frame_read_hands_the_stream_back() {
    let (rx, out) = RecvStream::poll_frame::<u8, u16>(Poll::Ready((None, 8)));
    assert_eq!(rx, Some(8));
    assert!(matches!(out, Poll::Ready(None)));
    let (rx, out) = RecvStream::poll_frame::<u8, u16>(Poll::Pending);
    assert_eq!(rx, None);
    assert!(matches!(out, Poll::Pending));
}

#[test]
fn awaiting_the_body_gives_a_frame() {
    assert!(matches!(RecvStream::poll::<u8>(Poll::Pending), Poll::Pending));
    assert!(matches!(RecvStream::poll::<u8>(Poll::Ready(None)), Poll::Ready(None)));
    let out = RecvStream::poll(Poll::Ready(Some(Err(6u8))));
    assert!(matches!(out, Poll::Ready(Some(Err(6)))));
    let frame = Frame::Data(Bytes::from_static(b"q"));
    match RecvStream::poll::<u8>(Poll::Ready(Some(Ok(frame)))) {
        Poll::Ready(Some(Ok(Frame::Data(bytes)))) => assert_eq!(&bytes[..], b"q"),
        other => panic!("{:?}", other),
    }
}

#[test]
fn a_destination_is_read_from_a_uri() {
    assert_eq!(DEFAULT_PORT, 443);
    let out = destination("https://example.org/index.html").unwrap();
    assert_eq!(found(out), (String::from("example.org"), 443));
    let out = destination("HTTPS://user@example.org:4433/").unwrap();
    assert_eq!(found(out), (String::from("example.org"), 4433));
    let out = destination("https://[::1]:8443").unwrap();
    assert_eq!(found(out), (String::from("[::1]"), 8443));
}

#[test]
fn a_destination_has_to_be_https() {
    assert!(matches!(destination("http://example.org/"), Some(Err(DestinationError::Scheme))));
    assert!(matches!(destination("example.org:443"), Some(Err(DestinationError::Scheme))));
    assert!(matches!(destination("/index.html"), Some(Err(DestinationError::Scheme))));
    assert_eq!(DestinationError::Scheme.message(), "destination scheme must be 'https'");
}

#[test]
fn a_text_that_is_no_uri_has_no_destination() {
    assert!(destination("").is_none());
    assert!(destination("https://").is_none());
    assert!(destination("https://a b/").is_none());
}

#[test]
fn a_destination_is_selected_from_the_parts() {
    let out = select_destination(parts(Some("https"), Some("a.b"), None));
    assert_eq!(found(out), (String::from("a.b"), 443));
    let out = select_destination(parts(Some("https"), Some("a.b"), Some(0)));
    assert_eq!(found(out), (String::from("a.b"), 0));
    let out = select_destination(parts(Some("https"), None, Some(1)));
    assert!(matches!(out, Err(DestinationError::Host)));
    let out = select_destination(parts(Some("HTTPS"), Some("a.b"), None));
    assert!(matches!(out, Err(DestinationError::Scheme)));
    let out = select_destination(parts(None, Some("a.b"), None));
    assert!(matches!(out, Err(DestinationError::Scheme)));
    assert_eq!(DestinationError::Host.message(), "destination must have a host");
}
