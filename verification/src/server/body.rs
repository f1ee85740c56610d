//! The body of a request, as the server reads it.

use crate::buffer;
use crate::frame::Frame;
use crate::poll::Poll;
use std::collections::VecDeque;
use vstd::prelude::*;

verus! {

/// What one read of the stream gives to the reader of the body.
///
/// The end of the data is the end of the body: trailers are not read.
pub open spec fn frame_received<P>(received: Result<Option<bytes::Bytes>, P>) -> Option<
    Result<Frame, P>,
> {
    match received {
        Err(error) => Some(Err(error)),
        Ok(Some(data)) => Some(Ok(Frame::Data(data))),
        Ok(None) => None,
    }
}

/// Turns what was read from the stream `rx` into the next frame of the body.
///
/// The stream is handed back beside the frame, and so it is beside an error and
/// at the end of the body.
pub fn make_fut<P, X>(received: Result<Option<bytes::Bytes>, P>, rx: X) -> (out: (
    Option<Result<Frame, P>>,
    X,
))
    ensures
        out == (frame_received(received), rx),
{
    let frame = match received {
        Err(error) => Some(Err(error)),
        Ok(Some(data)) => Some(Ok(Frame::Data(data))),
        Ok(None) => None,
    };
    (frame, rx)
}

/// The chunks gathered once a further frame was asked for, given those that
/// were gathered before: only a frame keeps them, and only data adds to them.
pub open spec fn gathered_after<P>(
    chunks: Seq<bytes::Bytes>,
    polled: Poll<Option<Result<Frame, P>>>,
) -> Seq<bytes::Bytes> {
    match polled {
        Poll::Ready(Some(Ok(Frame::Data(data)))) => chunks.push(data),
        Poll::Ready(Some(Ok(Frame::Trailers(_)))) => chunks,
        _ => Seq::empty(),
    }
}

/// The chunks gathered by asking for frames with these outcomes, in order,
/// beginning with none.
pub open spec fn gathered<P>(polls: Seq<Poll<Option<Result<Frame, P>>>>) -> Seq<bytes::Bytes>
    decreases polls.len(),
{
    if polls.len() == 0 {
        Seq::empty()
    } else {
        gathered_after(gathered(polls.drop_last()), polls.last())
    }
}

/// The body of a request, read frame by frame or as a whole.
pub struct RecvStream {
    bufs: VecDeque<bytes::Bytes>,
}

impl View for RecvStream {
    type V = Seq<bytes::Bytes>;

    /// The chunks gathered so far.
    closed spec fn view(&self) -> Seq<bytes::Bytes> {
        self.bufs@
    }
}

impl RecvStream {
    /// A body of which nothing has been gathered yet.
    pub fn new() -> (out: Self)
        ensures
            out@ == Seq::<bytes::Bytes>::empty(),
    {
        RecvStream { bufs: VecDeque::new() }
    }

    /// Decides what one request for a frame answers.
    ///
    /// `polled` is the outcome of the read in flight: once it is done, it
    /// gives the frame and hands back the stream `rx`. The answer is the frame,
    /// and the stream is given back for the next read to begin.
    pub fn poll_frame<P, X>(polled: Poll<(Option<Result<Frame, P>>, X)>) -> (out: (
        Option<X>,
        Poll<Option<Result<Frame, P>>>,
    ))
        ensures
            out == match polled {
                Poll::Ready((frame, rx)) => (Some(rx), Poll::Ready(frame)),
                Poll::Pending => (None, Poll::Pending),
            },
    {
        match polled {
            Poll::Ready((frame, rx)) => (Some(rx), Poll::Ready(frame)),
            Poll::Pending => (None, Poll::Pending),
        }
    }

    /// Whether one buffer can hold what has been gathered.
    pub fn fits(&self) -> (out: bool)
        ensures
            out == (buffer::contents(self@).len() <= isize::MAX),
    {
        buffer::joined_len(&self.bufs).is_some()
    }

    /// Decides what one request for the whole body answers, given the outcome
    /// of asking for the next frame. `None` asks for a further frame.
    ///
    /// Data is gathered and trailers are passed over until the body ends; then
    /// the answer is all the data gathered, in order. An error is the answer at
    /// once. Where a frame has to be waited for, the wait is the answer, and
    /// what was gathered is dropped: the next request gathers anew.
    pub fn poll<P>(&mut self, polled: Poll<Option<Result<Frame, P>>>) -> (out: Option<
        Poll<Result<bytes::Bytes, P>>,
    >)
        requires
            polled == Poll::Ready(None::<Result<Frame, P>>) ==> buffer::contents(old(self)@).len()
                <= isize::MAX,
        ensures
            final(self)@ == gathered_after(old(self)@, polled),
            match polled {
                Poll::Pending => out == Some(Poll::<Result<bytes::Bytes, P>>::Pending),
                Poll::Ready(Some(Ok(_))) => out is None,
                Poll::Ready(Some(Err(error))) => out == Some(
                    Poll::Ready(Err::<bytes::Bytes, P>(error)),
                ),
                Poll::Ready(None) => {
                    &&& out matches Some(Poll::Ready(Ok(body)))
                    &&& buffer::bytes_contents(body) == buffer::contents(old(self)@)
                },
            },
    {
        match polled {
            Poll::Pending => {
                self.bufs = VecDeque::new();
                Some(Poll::Pending)
            },
            Poll::Ready(Some(Err(error))) => {
                self.bufs = VecDeque::new();
                Some(Poll::Ready(Err(error)))
            },
            Poll::Ready(Some(Ok(frame))) => {
                match frame {
                    Frame::Data(data) => self.bufs.push_back(data),
                    Frame::Trailers(_) => {},
                }
                None
            },
            Poll::Ready(None) => {
                let mut bufs = VecDeque::new();
                std::mem::swap(&mut bufs, &mut self.bufs);
                Some(Poll::Ready(Ok(buffer::join(bufs))))
            },
        }
    }
}

/// What the stream delivers is what the reader of the whole body gets: where
/// the chunks are read from the stream one after the other without a wait, they
/// are all gathered, in order, and the bytes of the body are theirs.
pub proof fn law_body_is_what_was_received<P>(
    chunks: Seq<bytes::Bytes>,
    polls: Seq<Poll<Option<Result<Frame, P>>>>,
)
    requires
        polls.len() == chunks.len(),
        forall|i: int|
            0 <= i < chunks.len() ==> #[trigger] polls[i] == Poll::Ready(
                frame_received(Ok::<Option<bytes::Bytes>, P>(Some(chunks[i]))),
            ),
    ensures
        gathered(polls) == chunks,
        buffer::contents(gathered(polls)) == buffer::contents(chunks),
    decreases chunks.len(),
{
    if chunks.len() > 0 {
        assert forall|i: int| 0 <= i < chunks.drop_last().len() implies #[trigger] polls.drop_last()[i]
            == Poll::Ready(
            frame_received(Ok::<Option<bytes::Bytes>, P>(Some(chunks.drop_last()[i]))),
        ) by {
            assert(polls[i] == Poll::Ready(
                frame_received(Ok::<Option<bytes::Bytes>, P>(Some(chunks[i]))),
            ));
        }
        law_body_is_what_was_received(chunks.drop_last(), polls.drop_last());
        assert(polls.last() == polls[polls.len() - 1]);
        assert(chunks.drop_last().push(chunks.last()) =~= chunks);
    }
}

/// The whole body holds the data frames alone: one that follows the frames
/// gathered so far adds its bytes at the end, and trailers add none.
pub proof fn law_only_data_adds_to_the_body<P>(
    polls: Seq<Poll<Option<Result<Frame, P>>>>,
    frame: Frame,
)
    ensures
        buffer::contents(gathered(polls.push(Poll::Ready(Some(Ok::<Frame, P>(frame))))))
            == buffer::contents(gathered(polls)) + match frame {
            Frame::Data(data) => buffer::bytes_contents(data),
            Frame::Trailers(_) => Seq::empty(),
        },
{
    let more = polls.push(Poll::Ready(Some(Ok::<Frame, P>(frame))));
    assert(more.drop_last() =~= polls);
    match frame {
        Frame::Data(data) => {
            buffer::lemma_contents_push(gathered(polls), data);
        },
        Frame::Trailers(_) => {
            assert(buffer::contents(gathered(polls)) + Seq::<u8>::empty() =~= buffer::contents(
                gathered(polls),
            ));
        },
    }
}

/// Every answer to the request for the whole body begins anew: whether it was
/// a wait, an error or the body, the next one holds only what came after it.
pub proof fn law_an_answer_drops_what_was_gathered<P>(
    before: Seq<Poll<Option<Result<Frame, P>>>>,
    answered: Poll<Option<Result<Frame, P>>>,
    after: Seq<Poll<Option<Result<Frame, P>>>>,
)
    requires
        !(answered matches Poll::Ready(Some(Ok(_)))),
    ensures
        gathered(before.push(answered) + after) == gathered(after),
    decreases after.len(),
{
    let all = before.push(answered) + after;
    if after.len() == 0 {
        assert(all =~= before.push(answered));
    } else {
        assert(all.drop_last() =~= before.push(answered) + after.drop_last());
        law_an_answer_drops_what_was_gathered(before, answered, after.drop_last());
    }
}

/// Each outcome of a read has its own answer, for every error type and every
/// stream: a data frame where a chunk was read, whatever it holds, and it is that
/// chunk; an error where the read failed, and it is that error; the end where the
/// data has ended. None of these comes otherwise, trailers never do, and the
/// stream is handed back with each. Every outcome can be taken.
pub proof fn law_a_read_gives_what_it_found<P, X>(
    received: Result<Option<bytes::Bytes>, P>,
    rx: X,
    out: (Option<Result<Frame, P>>, X),
    chunk: bytes::Bytes,
    error: P,
)
    requires
        call_ensures(make_fut::<P, X>, (received, rx), out),
    ensures
        call_requires(make_fut::<P, X>, (received, rx)),
        out.1 == rx,
        received == Ok::<Option<bytes::Bytes>, P>(Some(chunk)) <==> out.0 == Some(
            Ok::<Frame, P>(Frame::Data(chunk)),
        ),
        received == Err::<Option<bytes::Bytes>, P>(error) <==> out.0 == Some(
            Err::<Frame, P>(error),
        ),
        received == Ok::<Option<bytes::Bytes>, P>(None) <==> out.0 is None,
        !(out.0 matches Some(Ok(Frame::Trailers(_)))),
{
}

/// A request for a frame is answered once the read in flight is done, with the
/// frame that it gave, and gives back the stream that it handed back; before, it
/// waits and gives back none. It takes every outcome.
pub proof fn law_a_frame_is_given_when_it_is_there<P, X>(
    polled: Poll<(Option<Result<Frame, P>>, X)>,
    out: (Option<X>, Poll<Option<Result<Frame, P>>>),
    frame: Option<Result<Frame, P>>,
    rx: X,
)
    requires
        call_ensures(RecvStream::poll_frame::<P, X>, (polled,), out),
    ensures
        call_requires(RecvStream::poll_frame::<P, X>, (polled,)),
        polled == Poll::Ready((frame, rx)) <==> out == (Some(rx), Poll::Ready(frame)),
        polled is Pending <==> out.1 is Pending,
        polled is Pending <==> out.0 is None,
{
}

/// What a request for the whole body answers is settled by the frame that came
/// next. While there are frames it asks for a further one; it answers an error
/// where that came, and that error; the body where the frames have ended, and its
/// bytes are those of all the chunks gathered; and it waits where the frame is not
/// there yet. None of these comes otherwise. A data frame adds its chunk to those
/// gathered, trailers leave them as they are, and after an answer there are none.
pub proof fn law_the_next_frame_settles_the_answer<P>(
    stream: &mut RecvStream,
    polled: Poll<Option<Result<Frame, P>>>,
    out: Option<Poll<Result<bytes::Bytes, P>>>,
    chunk: bytes::Bytes,
    error: P,
)
    requires
        call_ensures(RecvStream::poll::<P>, (stream, polled), out),
    ensures
        (polled matches Poll::Ready(Some(Ok(_)))) <==> out is None,
        polled == Poll::Ready(Some(Err::<Frame, P>(error))) <==> out == Some(
            Poll::Ready(Err::<bytes::Bytes, P>(error)),
        ),
        polled is Pending <==> out == Some(Poll::<Result<bytes::Bytes, P>>::Pending),
        polled == Poll::Ready(None::<Result<Frame, P>>) <==> (out matches Some(Poll::Ready(Ok(_)))),
        out matches Some(Poll::Ready(Ok(body))) ==> buffer::bytes_contents(body)
            == buffer::contents(old(stream)@),
        polled == Poll::Ready(Some(Ok::<Frame, P>(Frame::Data(chunk)))) ==> final(stream)@
            == old(stream)@.push(chunk),
        polled matches Poll::Ready(Some(Ok(Frame::Trailers(_)))) ==> final(stream)@ == old(stream)@,
        out is Some ==> final(stream)@.len() == 0,
{
}

/// A body of which nothing was read has nothing gathered. Every frame, error
/// and wait can be taken, and the end can be where one buffer can hold what was
/// gathered, which [`RecvStream::fits`] tells.
pub proof fn law_gathering_goes_on<P>(
    fresh: RecvStream,
    stream: &mut RecvStream,
    polled: Poll<Option<Result<Frame, P>>>,
    fits: bool,
)
    ensures
        call_requires(RecvStream::new, ()),
        call_ensures(RecvStream::new, (), fresh) ==> fresh@.len() == 0,
        polled != Poll::Ready(None::<Result<Frame, P>>) ==> call_requires(
            RecvStream::poll::<P>,
            (stream, polled),
        ),
        call_requires(RecvStream::fits, (&*old(stream),)),
        call_ensures(RecvStream::fits, (&*old(stream),), fits) ==> {
            &&& fits <==> buffer::contents(old(stream)@).len() <= isize::MAX
            &&& fits ==> call_requires(RecvStream::poll::<P>, (stream, polled))
        },
{
}

/// Where chunks are read from the stream one after the other, none of them is
/// the answer to the request for the whole body. A failed read after them is
/// answered with its error, never with a body; the end of the data is answered
/// with a body, whose bytes are those of the chunks, in order; and neither is
/// answered to anything else. `streams[i]` is the body at read `i`; `frames[i]` is
/// what the read gave, `polls[i]` what the request for a frame answered, and
/// `answers[i]` what the request for the whole body did. There are `n` chunks.
pub proof fn law_the_whole_body_or_the_error<P, X>(
    streams: Seq<&mut RecvStream>,
    reads: Seq<Result<Option<bytes::Bytes>, P>>,
    rxs: Seq<X>,
    frames: Seq<(Option<Result<Frame, P>>, X)>,
    polls: Seq<(Option<X>, Poll<Option<Result<Frame, P>>>)>,
    answers: Seq<Option<Poll<Result<bytes::Bytes, P>>>>,
    chunks: Seq<bytes::Bytes>,
    n: int,
    error: P,
)
    requires
        n == chunks.len(),
        streams.len() == n + 1,
        reads.len() == n + 1,
        rxs.len() == n + 1,
        frames.len() == n + 1,
        polls.len() == n + 1,
        answers.len() == n + 1,
        call_ensures(RecvStream::new, (), *streams[0]),
        forall|i: int| 0 < i <= n ==> *(#[trigger] streams[i]) == *final(streams[i - 1]),
        forall|i: int|
            0 <= i <= n ==> #[trigger] call_ensures(
                make_fut::<P, X>,
                (reads[i], rxs[i]),
                frames[i],
            ),
        forall|i: int|
            0 <= i <= n ==> #[trigger] call_ensures(
                RecvStream::poll_frame::<P, X>,
                (Poll::Ready(frames[i]),),
                polls[i],
            ),
        forall|i: int|
            0 <= i <= n ==> #[trigger] call_ensures(
                RecvStream::poll::<P>,
                (streams[i], polls[i].1),
                answers[i],
            ),
        forall|i: int|
            0 <= i < n ==> #[trigger] reads[i] == Ok::<Option<bytes::Bytes>, P>(Some(chunks[i])),
    ensures
        forall|i: int| 0 <= i < n ==> #[trigger] answers[i] is None,
        forall|i: int| 0 <= i <= n ==> #[trigger] polls[i].0 == Some(rxs[i]),
        reads[n] == Err::<Option<bytes::Bytes>, P>(error) <==> answers[n] == Some(
            Poll::Ready(Err::<bytes::Bytes, P>(error)),
        ),
        reads[n] == Ok::<Option<bytes::Bytes>, P>(None) <==> (answers[n] matches Some(
            Poll::Ready(Ok(_)),
        )),
        answers[n] matches Some(Poll::Ready(Ok(body))) ==> buffer::bytes_contents(body)
            == buffer::contents(chunks),
{
    law_chunks_are_gathered(streams, reads, rxs, frames, polls, answers, chunks, n);
    assert(call_ensures(make_fut::<P, X>, (reads[n], rxs[n]), frames[n]));
    assert forall|i: int| 0 <= i <= n implies #[trigger] polls[i].0 == Some(rxs[i]) by {
        assert(call_ensures(make_fut::<P, X>, (reads[i], rxs[i]), frames[i]));
        assert(call_ensures(
            RecvStream::poll_frame::<P, X>,
            (Poll::Ready(frames[i]),),
            polls[i],
        ));
    }
    assert forall|i: int| 0 <= i < n implies #[trigger] answers[i] is None by {
        assert(reads[i] == Ok::<Option<bytes::Bytes>, P>(Some(chunks[i])));
        assert(call_ensures(make_fut::<P, X>, (reads[i], rxs[i]), frames[i]));
        assert(call_ensures(
            RecvStream::poll_frame::<P, X>,
            (Poll::Ready(frames[i]),),
            polls[i],
        ));
        assert(call_ensures(RecvStream::poll::<P>, (streams[i], polls[i].1), answers[i]));
    }
    assert(call_ensures(RecvStream::poll_frame::<P, X>, (Poll::Ready(frames[n]),), polls[n]));
    assert(call_ensures(RecvStream::poll::<P>, (streams[n], polls[n].1), answers[n]));
    assert(chunks.take(n) =~= chunks);
}

/// Chunks read one after the other are gathered as they come: at read `k`
/// those read before it are there, in order.
pub proof fn law_chunks_are_gathered<P, X>(
    streams: Seq<&mut RecvStream>,
    reads: Seq<Result<Option<bytes::Bytes>, P>>,
    rxs: Seq<X>,
    frames: Seq<(Option<Result<Frame, P>>, X)>,
    polls: Seq<(Option<X>, Poll<Option<Result<Frame, P>>>)>,
    answers: Seq<Option<Poll<Result<bytes::Bytes, P>>>>,
    chunks: Seq<bytes::Bytes>,
    k: int,
)
    requires
        0 <= k <= chunks.len(),
        streams.len() > k,
        call_ensures(RecvStream::new, (), *streams[0]),
        forall|i: int| 0 < i <= k ==> *(#[trigger] streams[i]) == *final(streams[i - 1]),
        forall|i: int|
            0 <= i < k ==> #[trigger] call_ensures(
                make_fut::<P, X>,
                (reads[i], rxs[i]),
                frames[i],
            ),
        forall|i: int|
            0 <= i < k ==> #[trigger] call_ensures(
                RecvStream::poll_frame::<P, X>,
                (Poll::Ready(frames[i]),),
                polls[i],
            ),
        forall|i: int|
            0 <= i < k ==> #[trigger] call_ensures(
                RecvStream::poll::<P>,
                (streams[i], polls[i].1),
                answers[i],
            ),
        forall|i: int|
            0 <= i < k ==> #[trigger] reads[i] == Ok::<Option<bytes::Bytes>, P>(Some(chunks[i])),
    ensures
        streams[k]@ == chunks.take(k),
    decreases k,
{
    if k > 0 {
        law_chunks_are_gathered(streams, reads, rxs, frames, polls, answers, chunks, k - 1);
        assert(reads[k - 1] == Ok::<Option<bytes::Bytes>, P>(Some(chunks[k - 1])));
        assert(call_ensures(make_fut::<P, X>, (reads[k - 1], rxs[k - 1]), frames[k - 1]));
        assert(call_ensures(
            RecvStream::poll_frame::<P, X>,
            (Poll::Ready(frames[k - 1]),),
            polls[k - 1],
        ));
        assert(call_ensures(
            RecvStream::poll::<P>,
            (streams[k - 1], polls[k - 1].1),
            answers[k - 1],
        ));
        assert(*streams[k] == *final(streams[k - 1]));
        assert(chunks.take(k - 1).push(chunks[k - 1]) =~= chunks.take(k));
    } else {
        assert(streams[0]@ =~= chunks.take(0));
    }
}

/// What [`gathered`] says asking for frames gathers is what the body holds:
/// nothing before the first frame was asked for, and after each one what it made
/// of the chunks that were there before.
pub proof fn law_what_is_gathered_is_what_the_body_holds<P>(
    fresh: RecvStream,
    stream: &mut RecvStream,
    polls: Seq<Poll<Option<Result<Frame, P>>>>,
    polled: Poll<Option<Result<Frame, P>>>,
    out: Option<Poll<Result<bytes::Bytes, P>>>,
)
    requires
        call_ensures(RecvStream::new, (), fresh),
        old(stream)@ == gathered(polls),
        call_ensures(RecvStream::poll::<P>, (stream, polled), out),
    ensures
        fresh@ == gathered(Seq::<Poll<Option<Result<Frame, P>>>>::empty()),
        final(stream)@ == gathered(polls.push(polled)),
{
    assert(polls.push(polled).drop_last() =~= polls);
}

} // verus!
