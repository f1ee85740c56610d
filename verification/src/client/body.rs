//! The body of a response, as the client reads it.

use crate::frame::Frame;
use crate::poll::Poll;
use vstd::prelude::*;

verus! {

/// What the next read of the stream is for.
#[derive(Clone, Copy, Debug, PartialEq, Eq, Structural)]
pub enum Receiving {
    /// A chunk of the body.
    Data,
    /// The trailers, after the last chunk.
    Trailers,
}

/// What a read of the stream gave.
#[derive(Debug)]
pub enum Received<P> {
    /// A chunk, or the end of the data, or an error.
    Data(Result<Option<bytes::Bytes>, P>),
    /// The trailers, or none, or an error.
    Trailers(Result<Option<http::HeaderMap>, P>),
}

/// What follows from a read. The stream `X` is handed on in either case.
#[derive(Debug)]
pub enum ReceiveAction<P, X> {
    /// Read the trailers next, from this stream.
    ReadTrailers(X),
    /// Give this to the reader of the body: a frame, an error, or the end. The
    /// stream is handed back for the next read.
    Yield(Option<Result<Frame, P>>, X),
}

/// `received` comes of a read for `receiving`.
pub open spec fn expects<P>(receiving: Receiving, received: Received<P>) -> bool {
    match received {
        Received::Data(_) => receiving == Receiving::Data,
        Received::Trailers(_) => receiving == Receiving::Trailers,
    }
}

/// What `received` gives to the reader of the body: a frame, an error or the
/// end; or nothing yet, where the data has ended and the trailers are to be read.
pub open spec fn frame_received<P>(received: Received<P>) -> Option<Option<Result<Frame, P>>> {
    match received {
        Received::Data(Err(error)) => Some(Some(Err(error))),
        Received::Data(Ok(Some(data))) => Some(Some(Ok(Frame::Data(data)))),
        Received::Data(Ok(None)) => None,
        Received::Trailers(Err(error)) => Some(Some(Err(error))),
        Received::Trailers(Ok(Some(trailers))) => Some(Some(Ok(Frame::Trailers(trailers)))),
        Received::Trailers(Ok(None)) => Some(None),
    }
}

/// What follows from `received`, which was read from the stream `rx`.
pub open spec fn follows<P, X>(received: Received<P>, rx: X) -> ReceiveAction<P, X> {
    match frame_received(received) {
        None => ReceiveAction::ReadTrailers(rx),
        Some(frame) => ReceiveAction::Yield(frame, rx),
    }
}

/// What the read after `received` is for.
pub open spec fn receiving_after<P>(received: Received<P>) -> Receiving {
    match frame_received(received) {
        None => Receiving::Trailers,
        Some(_) => Receiving::Data,
    }
}

/// The body of a response, read frame by frame.
pub struct RecvStream {
    receiving: Receiving,
}

impl RecvStream {
    /// What the next read is for.
    pub closed spec fn receiving(&self) -> Receiving {
        self.receiving
    }

    /// A body of which nothing has been read.
    pub fn new() -> (out: Self)
        ensures
            out.receiving() == Receiving::Data,
    {
        RecvStream { receiving: Receiving::Data }
    }

    /// Decides what one request for a frame answers.
    ///
    /// `polled` is the outcome of the read in flight: once it is done, it
    /// gives the frame and hands back the stream `rx`. The answer is the frame,
    /// and the stream is given back for the next read to begin.
    pub fn poll_frame<P, X>(polled: Poll<(Option<Result<Frame, P>>, X)>) -> (out: (
        Option<X>,
        Poll<Option<Result<Frame, P>>>,
    ))
        ensures
            out == match polled {
                Poll::Ready((frame, rx)) => (Some(rx), Poll::Ready(frame)),
                Poll::Pending => (None, Poll::Pending),
            },
    {
        match polled {
            Poll::Ready((frame, rx)) => (Some(rx), Poll::Ready(frame)),
            Poll::Pending => (None, Poll::Pending),
        }
    }

    /// Awaiting the body gives its next frame.
    pub fn poll<P>(polled: Poll<Option<Result<Frame, P>>>) -> (out: Poll<Option<Result<Frame, P>>>)
        ensures
            out == polled,
    {
        match polled {
            Poll::Ready(frame) => Poll::Ready(frame),
            Poll::Pending => Poll::Pending,
        }
    }
}

/// Decides what follows from a read of the stream `rx`.
///
/// Each chunk of data is a frame. Where the data has ended the trailers are
/// read; they are a frame too, and without them the body has ended. An error is
/// given to the reader of the body. After a frame, an error or the end, the next
/// read is for data. The stream is handed on to the reading of the trailers, and
/// handed back beside a frame, an error and the end alike.
pub fn make_fut<P, X>(stream: &mut RecvStream, received: Received<P>, rx: X) -> (out: ReceiveAction<
    P,
    X,
>)
    requires
        expects(old(stream).receiving(), received),
    ensures
        out == follows(received, rx),
        final(stream).receiving() == receiving_after(received),
{
    stream.receiving = Receiving::Data;
    match received {
        Received::Data(Err(error)) => ReceiveAction::Yield(Some(Err(error)), rx),
        Received::Data(Ok(Some(data))) => ReceiveAction::Yield(Some(Ok(Frame::Data(data))), rx),
        Received::Data(Ok(None)) => {
            stream.receiving = Receiving::Trailers;
            ReceiveAction::ReadTrailers(rx)
        },
        Received::Trailers(Err(error)) => ReceiveAction::Yield(Some(Err(error)), rx),
        Received::Trailers(Ok(Some(trailers))) => {
            ReceiveAction::Yield(Some(Ok(Frame::Trailers(trailers))), rx)
        },
        Received::Trailers(Ok(None)) => ReceiveAction::Yield(None, rx),
    }
}

/// Read `i` is for what the read before it left to be read.
pub open spec fn read_in_order_at<P>(reads: Seq<Received<P>>, i: int) -> bool {
    expects(
        if i == 0 {
            Receiving::Data
        } else {
            receiving_after(reads[i - 1])
        },
        reads[i],
    )
}

/// These are the outcomes of the reads of a stream, in order, from its
/// beginning.
pub open spec fn read_in_order<P>(reads: Seq<Received<P>>) -> bool {
    forall|i: int| 0 <= i < reads.len() ==> #[trigger] read_in_order_at(reads, i)
}

/// The trailers are read where the data has ended, and nowhere else, and the
/// body ends only where the data has ended and there are no trailers. So what the
/// reader of the body gets at a time comes of one read of data, followed by one
/// read of the trailers where that read found the end of the data, and by no
/// other read.
pub proof fn law_trailers_follow_the_data<P>(reads: Seq<Received<P>>, i: int)
    requires
        read_in_order(reads),
        0 <= i < reads.len(),
    ensures
        reads[i] is Trailers <==> i > 0 && reads[i - 1] == Received::<P>::Data(Ok(None)),
        frame_received(reads[i]) is None <==> reads[i] == Received::<P>::Data(Ok(None)),
        frame_received(reads[i]) == Some(None::<Result<Frame, P>>) <==> reads[i] == Received::<
            P,
        >::Trailers(Ok(None)),
        frame_received(reads[i]) == Some(None::<Result<Frame, P>>) ==> i > 0 && reads[i - 1]
            == Received::<P>::Data(Ok(None)),
{
    assert(read_in_order_at(reads, i));
}

/// What reads give to the reader of a body: the frames, errors and ends, in
/// order.
pub open spec fn yielded<P>(reads: Seq<Received<P>>) -> Seq<Option<Result<Frame, P>>>
    decreases reads.len(),
{
    if reads.len() == 0 {
        Seq::empty()
    } else {
        match frame_received(reads.last()) {
            None => yielded(reads.drop_last()),
            Some(frame) => yielded(reads.drop_last()).push(frame),
        }
    }
}

/// Where the data has ended, one read of the trailers says what the reader of
/// the body gets next: the trailers, an error, or the end.
pub proof fn law_the_trailers_or_the_end_come_next<P>(
    reads: Seq<Received<P>>,
    trailers: Result<Option<http::HeaderMap>, P>,
)
    requires
        read_in_order(reads),
        reads.len() > 0 ==> receiving_after(reads.last()) == Receiving::Data,
    ensures
        read_in_order(reads.push(Received::Data(Ok(None))).push(Received::Trailers(trailers))),
        yielded(reads.push(Received::Data(Ok(None))).push(Received::Trailers(trailers)))
            == yielded(reads).push(
            match trailers {
                Ok(Some(map)) => Some(Ok(Frame::Trailers(map))),
                Ok(None) => None,
                Err(error) => Some(Err(error)),
            },
        ),
{
    let ended = reads.push(Received::<P>::Data(Ok(None)));
    let all = ended.push(Received::Trailers(trailers));
    assert(ended.drop_last() =~= reads);
    assert(all.drop_last() =~= ended);
    assert(ended.last() == Received::<P>::Data(Ok(None)));
    assert(yielded(ended) == yielded(reads));
    assert forall|i: int| 0 <= i < all.len() implies #[trigger] read_in_order_at(all, i) by {
        if i < reads.len() {
            assert(read_in_order_at(reads, i));
        }
    }
}

/// What the stream delivers is what the reader of the body gets: chunks of data
/// are given as they come, one frame for each, in order; and where the data has
/// ended, the trailers come after them, or the end where there are none.
pub proof fn law_data_is_given_as_it_came<P>(chunks: Seq<bytes::Bytes>, reads: Seq<Received<P>>)
    requires
        reads.len() == chunks.len(),
        forall|i: int|
            0 <= i < chunks.len() ==> #[trigger] reads[i] == Received::<P>::Data(
                Ok(Some(chunks[i])),
            ),
    ensures
        read_in_order(reads),
        yielded(reads).len() == chunks.len(),
        forall|i: int|
            0 <= i < chunks.len() ==> #[trigger] yielded(reads)[i] == Some(
                Ok::<Frame, P>(Frame::Data(chunks[i])),
            ),
        forall|trailers: http::HeaderMap|
            #[trigger] yielded(
                reads.push(Received::Data(Ok(None))).push(Received::Trailers(Ok(Some(trailers)))),
            ) == yielded(reads).push(Some(Ok::<Frame, P>(Frame::Trailers(trailers)))),
        yielded(reads.push(Received::Data(Ok(None))).push(Received::Trailers(Ok(None)))) == yielded(
            reads,
        ).push(None),
    decreases chunks.len(),
{
    if chunks.len() > 0 {
        assert forall|i: int| 0 <= i < chunks.drop_last().len() implies #[trigger] reads.drop_last()[i]
            == Received::<P>::Data(Ok(Some(chunks.drop_last()[i]))) by {
            assert(reads[i] == Received::<P>::Data(Ok(Some(chunks[i]))));
        }
        law_data_is_given_as_it_came(chunks.drop_last(), reads.drop_last());
        assert(reads.last() == reads[reads.len() - 1]);
        assert forall|i: int| 0 <= i < reads.len() implies #[trigger] read_in_order_at(
            reads,
            i,
        ) by {
            assert(reads[i] == Received::<P>::Data(Ok(Some(chunks[i]))));
            if i > 0 {
                assert(reads[i - 1] == Received::<P>::Data(Ok(Some(chunks[i - 1]))));
            }
        }
        assert forall|i: int| 0 <= i < chunks.len() implies #[trigger] yielded(reads)[i] == Some(
            Ok::<Frame, P>(Frame::Data(chunks[i])),
        ) by {
            if i < chunks.len() - 1 {
                assert(yielded(reads.drop_last())[i] == Some(
                    Ok::<Frame, P>(Frame::Data(chunks.drop_last()[i])),
                ));
            }
        }
    }
    assert forall|trailers: http::HeaderMap|
        #[trigger] yielded(
            reads.push(Received::Data(Ok(None))).push(Received::Trailers(Ok(Some(trailers)))),
        ) == yielded(reads).push(Some(Ok::<Frame, P>(Frame::Trailers(trailers)))) by {
        law_the_trailers_or_the_end_come_next(reads, Ok(Some(trailers)));
    }
    law_the_trailers_or_the_end_come_next(reads, Ok(None));
}

/// Each outcome of a read has its own action, for every error type and every
/// stream. A data frame is given to the reader of the body where a chunk was
/// read, whatever it holds, and it is that chunk; a trailers frame where trailers
/// were read, and it is those; an error where the read failed, and it is that
/// error; the end where there were no trailers; and where the data has ended, the
/// trailers are read. None of these comes otherwise, and the stream of the read
/// is handed on with each.
pub proof fn law_a_read_gives_what_it_found<P, X>(
    stream: &mut RecvStream,
    received: Received<P>,
    rx: X,
    out: ReceiveAction<P, X>,
    chunk: bytes::Bytes,
    trailers: http::HeaderMap,
    error: P,
)
    requires
        call_ensures(make_fut::<P, X>, (stream, received, rx), out),
    ensures
        received == Received::<P>::Data(Ok(Some(chunk))) <==> out == ReceiveAction::<P, X>::Yield(
            Some(Ok(Frame::Data(chunk))),
            rx,
        ),
        received == Received::<P>::Trailers(Ok(Some(trailers))) <==> out == ReceiveAction::<
            P,
            X,
        >::Yield(Some(Ok(Frame::Trailers(trailers))), rx),
        received == Received::<P>::Data(Err(error)) || received == Received::<P>::Trailers(
            Err(error),
        ) <==> out == ReceiveAction::<P, X>::Yield(Some(Err(error)), rx),
        received == Received::<P>::Trailers(Ok(None)) <==> out == ReceiveAction::<P, X>::Yield(
            None,
            rx,
        ),
        received == Received::<P>::Data(Ok(None)) <==> out == ReceiveAction::<P, X>::ReadTrailers(
            rx,
        ),
{
}

/// A body is read from its data on. Every outcome of a read for data can be
/// taken where data is read for, and every outcome of a read for the trailers
/// where the trailers are. The trailers are read for after the end of the data
/// alone: whatever else was read, the next read is for data.
pub proof fn law_reads_go_on<P, X>(
    fresh: RecvStream,
    stream: &mut RecvStream,
    data: Result<Option<bytes::Bytes>, P>,
    trailers: Result<Option<http::HeaderMap>, P>,
    rx: X,
    received: Received<P>,
    out: ReceiveAction<P, X>,
)
    ensures
        call_requires(RecvStream::new, ()),
        call_ensures(RecvStream::new, (), fresh) ==> fresh.receiving() is Data,
        old(stream).receiving() is Data ==> call_requires(
            make_fut::<P, X>,
            (stream, Received::Data(data), rx),
        ),
        old(stream).receiving() is Trailers ==> call_requires(
            make_fut::<P, X>,
            (stream, Received::Trailers(trailers), rx),
        ),
        call_ensures(make_fut::<P, X>, (stream, received, rx), out) ==> {
            final(stream).receiving() is Trailers <==> received == Received::<P>::Data(Ok(None))
        },
{
}

/// A body read from its beginning gives to its reader each chunk as a data
/// frame, in order, and nothing between them; then, where the read after the
/// chunks failed, the error; and where it found the end of the data, what came of
/// the one read of the trailers: the trailers, an error, or the end. `streams[i]`
/// is the body at read `i`, of the stream `rxs[i]`, and `actions[i]` is what
/// follows from that read; there are `n` chunks. Each of the reads can be taken
/// when it comes.
pub proof fn law_a_body_is_given_in_order<P, X>(
    streams: Seq<&mut RecvStream>,
    reads: Seq<Received<P>>,
    rxs: Seq<X>,
    actions: Seq<ReceiveAction<P, X>>,
    chunks: Seq<bytes::Bytes>,
    n: int,
    error: P,
    trailers: Result<Option<http::HeaderMap>, P>,
)
    requires
        n == chunks.len(),
        n < streams.len(),
        reads.len() == streams.len(),
        rxs.len() == streams.len(),
        actions.len() == streams.len(),
        call_ensures(RecvStream::new, (), *streams[0]),
        forall|i: int|
            0 <= i < streams.len() ==> #[trigger] call_ensures(
                make_fut::<P, X>,
                (streams[i], reads[i], rxs[i]),
                actions[i],
            ),
        forall|i: int|
            0 < i < streams.len() ==> *(#[trigger] streams[i]) == *final(streams[i - 1]),
        forall|i: int|
            0 <= i < n ==> #[trigger] reads[i] == Received::<P>::Data(
                Ok(Some(chunks[i])),
            ),
    ensures
        forall|i: int|
            0 <= i < n ==> #[trigger] actions[i] == ReceiveAction::<P, X>::Yield(
                Some(Ok(Frame::Data(chunks[i]))),
                rxs[i],
            ) && call_requires(make_fut::<P, X>, (streams[i], reads[i], rxs[i])),
        reads[n] is Data ==> call_requires(make_fut::<P, X>, (streams[n], reads[n], rxs[n])),
        reads[n] == Received::<P>::Data(Err(error))
            ==> actions[n] == ReceiveAction::<P, X>::Yield(
            Some(Err(error)),
            rxs[n],
        ),
        reads[n] == Received::<P>::Data(Ok(None)) ==> {
            &&& actions[n] == ReceiveAction::<P, X>::ReadTrailers(
                rxs[n],
            )
            &&& n + 1 < streams.len() && reads[n + 1] == Received::<
                P,
            >::Trailers(trailers) ==> {
                &&& call_requires(
                    make_fut::<P, X>,
                    (streams[n + 1], reads[n + 1], rxs[n + 1]),
                )
                &&& actions[n + 1] == ReceiveAction::<P, X>::Yield(
                    match trailers {
                        Ok(Some(map)) => Some(Ok(Frame::Trailers(map))),
                        Ok(None) => None,
                        Err(failed) => Some(Err(failed)),
                    },
                    rxs[n + 1],
                )
            }
        },
{
    assert forall|i: int| 0 <= i < n implies #[trigger] actions[i] == ReceiveAction::<P, X>::Yield(
        Some(Ok(Frame::Data(chunks[i]))),
        rxs[i],
    ) && call_requires(make_fut::<P, X>, (streams[i], reads[i], rxs[i])) by {
        assert(call_ensures(make_fut::<P, X>, (streams[i], reads[i], rxs[i]), actions[i]));
        if i > 0 {
            assert(call_ensures(
                make_fut::<P, X>,
                (streams[i - 1], reads[i - 1], rxs[i - 1]),
                actions[i - 1],
            ));
        }
    }
    assert(call_ensures(make_fut::<P, X>, (streams[n], reads[n], rxs[n]), actions[n]));
    if n > 0 {
        assert(call_ensures(
            make_fut::<P, X>,
            (streams[n - 1], reads[n - 1], rxs[n - 1]),
            actions[n - 1],
        ));
    }
    if n + 1 < streams.len() {
        assert(call_ensures(
            make_fut::<P, X>,
            (streams[n + 1], reads[n + 1], rxs[n + 1]),
            actions[n + 1],
        ));
    }
}

/// What [`yielded`] says reads give is what the actions that follow from them
/// give: nothing before the first read, then what the action of each further read
/// gives, after what was given before.
pub proof fn law_what_is_yielded_is_what_actions_give<P, X>(
    stream: &mut RecvStream,
    reads: Seq<Received<P>>,
    received: Received<P>,
    rx: X,
    out: ReceiveAction<P, X>,
)
    requires
        call_ensures(make_fut::<P, X>, (stream, received, rx), out),
    ensures
        yielded(Seq::<Received<P>>::empty()) == Seq::<Option<Result<Frame, P>>>::empty(),
        yielded(reads.push(received)) == match out {
            ReceiveAction::Yield(frame, _) => yielded(reads).push(frame),
            ReceiveAction::ReadTrailers(_) => yielded(reads),
        },
{
    assert(reads.push(received).drop_last() =~= reads);
}

/// A request for a frame is answered once the read in flight is done, with the
/// frame that it gave, and gives back the stream that it handed back; before, it
/// waits and gives back none. Awaiting the body answers the same. Both take every
/// outcome.
pub proof fn law_a_frame_is_given_when_it_is_there<P, X>(
    polled: Poll<(Option<Result<Frame, P>>, X)>,
    out: (Option<X>, Poll<Option<Result<Frame, P>>>),
    awaited: Poll<Option<Result<Frame, P>>>,
    frame: Option<Result<Frame, P>>,
    rx: X,
)
    ensures
        call_requires(RecvStream::poll_frame::<P, X>, (polled,)),
        call_ensures(RecvStream::poll_frame::<P, X>, (polled,), out) ==> {
            &&& polled == Poll::Ready((frame, rx)) <==> out == (Some(rx), Poll::Ready(frame))
            &&& polled is Pending <==> out.1 is Pending
            &&& polled is Pending <==> out.0 is None
        },
        call_requires(RecvStream::poll::<P>, (out.1,)),
        call_ensures(RecvStream::poll::<P>, (out.1,), awaited) ==> {
            &&& out.1 == Poll::Ready(frame) <==> awaited == Poll::Ready(frame)
            &&& out.1 is Pending <==> awaited is Pending
        },
{
}

} // verus!
