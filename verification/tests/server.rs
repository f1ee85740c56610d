use bytes::Bytes;
use tower_h3::frame::Frame;
use tower_h3::poll::Poll;
use tower_h3::server::{
    make_fut, App, Error, RecvStream, ServeAction, ServeEvent, ServeState, Server,
};

type State = ServeState<String, u64>;
type Event = ServeEvent<String, &'static str, u64, Vec<u8>, u8, u16, u32>;
type Action = ServeAction<String, &'static str, u64, u8, u16, u32>;

fn step(state: State, event: Event) -> (State, Action) {
    Server::new(()).serve(state, event)
}

fn request(path: &str) -> http::Request<()> {
    http::Request::builder().uri(path).body(()).unwrap()
}

fn response(status: u16) -> http::Response<Vec<u8>> {
    http::Response::builder().status(status).body(vec![1, 2, 3]).unwrap()
}

fn data(bytes: &'static [u8]) -> Poll<Option<Result<Frame, u8>>> {
    Poll::Ready(Some(Ok(Frame::Data(Bytes::from_static(bytes)))))
}

fn trailers() -> Poll<Option<Result<Frame, u8>>> {
    let mut map = http::HeaderMap::new();
    map.insert("x-sum", http::HeaderValue::from_static("1"));
    Poll::Ready(Some(Ok(Frame::Trailers(map))))
}

fn body(out: Option<Poll<Result<Bytes, u8>>>) -> Bytes {
    match out {
        Some(Poll::Ready(Ok(bytes))) => bytes,
        other => panic!("not a body: {:?}", other),
    }
}

#[test]
fn a_chunk_read_is_a_data_frame() {
    match make_fut::<u8, _>(Ok(Some(Bytes::from_static(b"abc"))), "stream") {
        (Some(Ok(Frame::Data(bytes))), "stream") => assert_eq!(&bytes[..], b"abc"),
        other => panic!("{:?}", other),
    }
}

#[test]
fn the_end_of_the_data_is_the_end_of_the_body() {
    assert!(matches!(make_fut::<u8, _>(Ok(None), "stream"), (None, "stream")));
}

#[test]
fn an_error_of_a_read_is_given_to_the_reader() {
    assert!(matches!(make_fut(Err(3u8), "stream"), (Some(Err(3)), "stream")));
}

#[test]
fn a_frame_read_hands_the_stream_back() {
    let (rx, out) = RecvStream::poll_frame::<u8, &str>(Poll::Ready((None, "stream")));
    assert_eq!(rx, Some("stream"));
    assert!(matches!(out, Poll::Ready(None)));

    let (rx, out) = RecvStream::poll_frame(Poll::Ready((Some(Err(4u8)), "stream")));
    assert_eq!(rx, Some("stream"));
    assert!(matches!(out, Poll::Ready(Some(Err(4)))));
}

#[test]
fn a_read_in_flight_is_kept() {
    let (rx, out) = RecvStream::poll_frame::<u8, &str>(Poll::Pending);
    assert_eq!(rx, None);
    assert!(matches!(out, Poll::Pending));
}

#[test]
fn the_whole_body_is_its_data_in_order() {
    let mut stream = RecvStream::new();
    assert!(stream.poll(data(b"one ")).is_none());
    assert!(stream.poll(data(b"")).is_none());
    assert!(stream.poll(data(b"two")).is_none());
    assert!(stream.poll(trailers()).is_none());
    assert!(stream.fits());
    assert_eq!(&body(stream.poll(Poll::Ready(None)))[..], b"one two");
}

#[test]
fn a_body_without_data_is_empty() {
    let mut stream = RecvStream::new();
    assert!(body(stream.poll(Poll::Ready(None))).is_empty());
    assert!(stream.poll(trailers()).is_none());
    assert!(body(stream.poll(Poll::Ready(None))).is_empty());
}

#[test]
fn an_error_ends_the_reading_of_the_body() {
    let mut stream = RecvStream::new();
    assert!(stream.poll(data(b"lost")).is_none());
    assert!(matches!(stream.poll(Poll::Ready(Some(Err(9)))), Some(Poll::Ready(Err(9)))));
    assert!(stream.poll(data(b"kept")).is_none());
    assert_eq!(&body(stream.poll(Poll::Ready(None)))[..], b"kept");
}

#[test]
fn a_wait_drops_what_was_gathered() {
    let mut stream = RecvStream::new();
    assert!(stream.poll(data(b"before")).is_none());
    assert!(matches!(stream.poll::<u8>(Poll::Pending), Some(Poll::Pending)));
    assert!(stream.poll(data(b"after")).is_none());
    assert_eq!(&body(stream.poll(Poll::Ready(None)))[..], b"after");
}

#[test]
fn chunks_read_from_the_stream_make_up_the_body() {
    let mut stream = RecvStream::new();
    for chunk in [&b"ab"[..], &b"c"[..], &b"def"[..]] {
        let read = make_fut::<u8, _>(Ok(Some(Bytes::copy_from_slice(chunk))), 7u64);
        let (rx, polled) = RecvStream::poll_frame(Poll::Ready(read));
        assert_eq!(rx, Some(7));
        assert!(stream.poll(polled).is_none());
    }
    let (_, polled) = RecvStream::poll_frame(Poll::Ready(make_fut::<u8, _>(Ok(None), 7u64)));
    assert_eq!(&body(stream.poll(polled))[..], b"abcdef");
}

#[test]
fn serving_goes_round_request_by_request() {
    let mut server = Server::new("app");
    *server.app_mut() = "other app";
    assert_eq!(*server.app_mut(), "other app");

    let (mut state, action): (State, Action) =
        server.serve(State::Making, Event::Made(Ok(String::from("service"))));
    assert!(matches!(action, Action::Accept));

    let rounds = [("/one", "body one", 11u64, 200u16), ("/two", "body two", 22, 404)];
    for (path, reader, stream, status) in rounds {
        assert!(matches!(state, State::Accepting(_)));
        let accepted = Event::Accepted(Ok(Some((request(path), reader, stream))));
        let (next, action) = server.serve(state, accepted);
        assert!(matches!(next, State::Calling(_)));
        let service = match action {
            Action::Call(service, call) => {
                assert_eq!(call.uri(), path);
                assert_eq!(*call.body(), reader);
                service
            }
            other => panic!("{:?}", other),
        };
        let expected = if path == "/one" { "service" } else { "service/one" };
        assert_eq!(service, expected);

        let responded = Event::Responded(service + path, Ok(response(status)));
        let (next, action) = server.serve(next, responded);
        assert!(matches!(next, State::Sending(_)));
        match action {
            Action::Send(on, head) => {
                assert_eq!(on, stream);
                assert_eq!(head.status(), status);
            }
            other => panic!("{:?}", other),
        }

        let (next, action) = server.serve(next, Event::Sent(Ok(stream + 1)));
        assert!(matches!(next, State::Finishing(_)));
        match action {
            Action::Finish(on) => assert_eq!(on, stream + 1),
            other => panic!("{:?}", other),
        }

        let (next, action): (State, Action) = server.serve(next, Event::Finished(Ok(())));
        assert!(matches!(action, Action::Accept));
        state = next;
    }

    match &state {
        State::Accepting(service) => assert_eq!(service, "service/one/two"),
        other => panic!("{:?}", other),
    }
    let (state, action): (State, Action) = server.serve(state, Event::Accepted(Ok(None)));
    assert!(matches!(state, State::Done));
    assert!(matches!(action, Action::Return(Ok(()))));
}

#[test]
fn a_service_that_cannot_be_made_ends_the_serving() {
    let (state, action) = step(State::Making, Event::Made(Err(500)));
    assert!(matches!(state, State::Done));
    assert!(matches!(action, Action::Return(Err(Error::MakeService(500)))));
}

#[test]
fn a_failed_connection_ends_the_serving() {
    let (state, action) = step(State::Accepting(String::new()), Event::Accepted(Err(1)));
    assert!(matches!(state, State::Done));
    assert!(matches!(action, Action::Return(Err(Error::Protocol(1)))));
}

#[test]
fn a_failed_service_ends_the_serving() {
    let responded = Event::Responded(String::new(), Err(70_000));
    let (state, action) = step(State::Calling(5), responded);
    assert!(matches!(state, State::Done));
    assert!(matches!(action, Action::Return(Err(Error::Service(70_000)))));
}

#[test]
fn a_response_that_cannot_be_sent_ends_the_serving() {
    let (state, action) = step(State::Sending(String::new()), Event::Sent(Err(2)));
    assert!(matches!(state, State::Done));
    assert!(matches!(action, Action::Return(Err(Error::Protocol(2)))));
}

#[test]
fn a_response_that_cannot_be_finished_ends_the_serving() {
    let (state, action) = step(State::Finishing(String::new()), Event::Finished(Err(3)));
    assert!(matches!(state, State::Done));
    assert!(matches!(action, Action::Return(Err(Error::Protocol(3)))));
}

#[test]
fn errors_have_names_and_messages() {
    let protocol: Error<u8, u8, u8> = Error::Protocol(1);
    assert_eq!(protocol.name(), "Protocol");
    assert_eq!(protocol.message("timeout"), "HTTP/3: timeout");
    assert_eq!(format!("{:?}", protocol), "Protocol(1)");

    let make_service: Error<u8, u8, u8> = Error::MakeService(2);
    assert_eq!(make_service.name(), "MakeService");
    assert_eq!(make_service.message("no room"), "MakService: no room");

    let service: Error<u8, u8, u8> = Error::Service(3);
    assert_eq!(service.name(), "Service");
    assert_eq!(service.message("Füße"), "App: Füße");
    assert_eq!(service.message(""), "App: ");
}

#[test]
fn an_app_clones_its_service() {
    let mut app = App::new(String::from("service"));
    assert!(matches!(app.poll_ready::<u8>(), Poll::Ready(Ok(()))));
    assert_eq!(app.call::<u8>(), Ok(String::from("service")));
    assert_eq!(app.call::<u8>(), Ok(String::from("service")));

    let copied = App::new(5u8);
    let mut other = copied;
    assert_eq!(other.call::<u8>(), Ok(5));
    assert_eq!(copied.clone().call::<u8>(), Ok(5));
}
