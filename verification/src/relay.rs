//! Model of one relay direction: the loop that reads blocks from one side of
//! a channel and writes them, unchanged and in order, to the other side until
//! end-of-stream or an I/O failure.

use vstd::prelude::*;

verus! {

/// Largest number of bytes one read may yield: the forwarding loop copies the
/// stream in blocks of at most this size.
pub const BUFFER_SIZE: usize = 8192;

/// What one read on the upstream half of a direction yielded.
pub enum ReadOutcome {
    /// The read returned these bytes (a block of at least one byte).
    Bytes(Vec<u8>),
    /// The read returned zero bytes: the peer closed its sending side.
    Closed,
    /// The read itself failed with an I/O error.
    Failed,
}

/// Why a relay direction stopped, or that it has not stopped yet.
#[derive(Clone, Copy, Debug, PartialEq, Eq, Structural)]
pub enum DirectionEnd {
    /// The upstream peer closed cleanly (a read of zero bytes).
    CleanEof,
    /// A read failed; the direction ends without affecting the other one.
    ReadError,
    /// A write failed; the direction ends without affecting the other one.
    WriteError,
    /// No terminating event has happened yet.
    StillOpen,
}

/// What the forwarding loop must do after one read.
#[derive(Debug, PartialEq, Eq)]
pub enum ForwardStep {
    /// Write exactly these bytes downstream, then read again.
    Deliver(Vec<u8>),
    /// The direction is finished for the given reason.
    Stop(DirectionEnd),
}

/// Decision taken after one read: bytes are forwarded verbatim, a clean close
/// ends the direction normally, a failed read ends it with a warning.
pub fn forward_on_read(outcome: ReadOutcome) -> (step: ForwardStep)
    ensures
        outcome matches ReadOutcome::Bytes(d) ==> step == ForwardStep::Deliver(d),
        outcome is Closed ==> step == ForwardStep::Stop(DirectionEnd::CleanEof),
        outcome is Failed ==> step == ForwardStep::Stop(DirectionEnd::ReadError),
{
    match outcome {
        ReadOutcome::Bytes(d) => ForwardStep::Deliver(d),
        ReadOutcome::Closed => ForwardStep::Stop(DirectionEnd::CleanEof),
        ReadOutcome::Failed => ForwardStep::Stop(DirectionEnd::ReadError),
    }
}

/// Decision taken after one write: a failed write ends the direction, a
/// successful one lets the loop read the next block.
pub fn forward_on_write(write_ok: bool) -> (stop: Option<DirectionEnd>)
    ensures
        write_ok ==> stop is None,
        !write_ok ==> stop == Some(DirectionEnd::WriteError),
{
    if write_ok {
        None
    } else {
        Some(DirectionEnd::WriteError)
    }
}

/// One event in the life of a relay direction, as the forwarding loop sees
/// it: a block that was read together with the fate of its downstream write,
/// a clean close, or a failed read.
pub enum DirectionEvent {
    /// A block of bytes was read; the flag says whether writing it downstream
    /// succeeded.
    Received(Vec<u8>, bool),
    /// The read returned zero bytes: clean end-of-stream.
    Closed,
    /// The read failed.
    ReadFailed,
}

/// The bytes the downstream peer receives from a direction that sees these
/// events: every successfully written block, verbatim and in order, up to the
/// first terminating event. Events after a terminating event do not happen in
/// a real direction and are ignored.
pub open spec fn delivered_bytes(events: Seq<DirectionEvent>) -> Seq<u8>
    decreases events.len(),
{
    if events.len() == 0 {
        Seq::empty()
    } else {
        match events[0] {
            DirectionEvent::Received(d, ok) => if ok {
                d@ + delivered_bytes(events.skip(1))
            } else {
                Seq::empty()
            },
            DirectionEvent::Closed => Seq::empty(),
            DirectionEvent::ReadFailed => Seq::empty(),
        }
    }
}

/// Why a direction that sees these events stops, or `StillOpen` if no
/// terminating event occurs in them.
pub open spec fn direction_end(events: Seq<DirectionEvent>) -> DirectionEnd
    decreases events.len(),
{
    if events.len() == 0 {
        DirectionEnd::StillOpen
    } else {
        match events[0] {
            DirectionEvent::Received(d, ok) => if ok {
                direction_end(events.skip(1))
            } else {
                DirectionEnd::WriteError
            },
            DirectionEvent::Closed => DirectionEnd::CleanEof,
            DirectionEvent::ReadFailed => DirectionEnd::ReadError,
        }
    }
}

/// Replays one direction of a relay over a recorded sequence of events and
/// returns the bytes the downstream peer received and the reason the
/// direction stopped. This is the forwarding loop with its I/O stripped away:
/// the surrounding binary performs the reads and writes and the outcome is
/// exactly what this function computes from them.
pub fn forward_transcript(events: &Vec<DirectionEvent>) -> (r: (Vec<u8>, DirectionEnd))
    ensures
        r.0@ == delivered_bytes(events@),
        r.1 == direction_end(events@),
{
    let mut out: Vec<u8> = Vec::new();
    let mut i: usize = 0;
    proof {
        assert(events@.skip(0) =~= events@);
    }
    while i < events.len()
        invariant
            0 <= i <= events@.len(),
            delivered_bytes(events@) == out@ + delivered_bytes(events@.skip(i as int)),
            direction_end(events@) == direction_end(events@.skip(i as int)),
        decreases events@.len() - i,
    {
        proof {
            assert(events@.skip(i as int)[0] == events@[i as int]);
            assert(events@.skip(i as int).skip(1) =~= events@.skip(i as int + 1));
        }
        match &events[i] {
            DirectionEvent::Received(d, ok) => {
                if *ok {
                    let mut j: usize = 0;
                    let ghost prev = out@;
                    while j < d.len()
                        invariant
                            0 <= j <= d@.len(),
                            out@ == prev + d@.subrange(0, j as int),
                        decreases d@.len() - j,
                    {
                        out.push(d[j]);
                        j += 1;
                        proof {
                            assert(d@.subrange(0, j as int)
                                =~= d@.subrange(0, j as int - 1).push(d@[j as int - 1]));
                        }
                    }
                    proof {
                        assert(d@.subrange(0, d@.len() as int) =~= d@);
                        assert(out@ + delivered_bytes(events@.skip(i as int + 1))
                            =~= prev + (d@ + delivered_bytes(events@.skip(i as int + 1))));
                    }
                } else {
                    proof {
                        assert(delivered_bytes(events@) =~= out@);
                    }
                    return (out, DirectionEnd::WriteError);
                }
            },
            DirectionEvent::Closed => {
                proof {
                    assert(delivered_bytes(events@) =~= out@);
                }
                return (out, DirectionEnd::CleanEof);
            },
            DirectionEvent::ReadFailed => {
                proof {
                    assert(delivered_bytes(events@) =~= out@);
                }
                return (out, DirectionEnd::ReadError);
            },
        }
        i += 1;
    }
    proof {
        assert(events@.skip(events@.len() as int) =~= Seq::<DirectionEvent>::empty());
        assert(delivered_bytes(events@) =~= out@);
    }
    (out, DirectionEnd::StillOpen)
}

/// The concatenation of a sequence of byte blocks.
pub open spec fn concat_chunks(chunks: Seq<Seq<u8>>) -> Seq<u8>
    decreases chunks.len(),
{
    if chunks.len() == 0 {
        Seq::empty()
    } else {
        chunks[0] + concat_chunks(chunks.skip(1))
    }
}

/// The event in which exactly this block was read and successfully written.
pub open spec fn is_clean_block(e: DirectionEvent, chunk: Seq<u8>) -> bool {
    e matches DirectionEvent::Received(d, ok) && ok && d@ == chunk
}

/// A direction in which the upstream peer sent exactly these blocks and then
/// closed, and every downstream write succeeded.
pub open spec fn clean_transcript(events: Seq<DirectionEvent>, chunks: Seq<Seq<u8>>) -> bool {
    &&& events.len() == chunks.len() + 1
    &&& forall|i: int| 0 <= i < chunks.len() ==> is_clean_block(#[trigger] events[i], chunks[i])
    &&& events[chunks.len() as int] is Closed
}

/// Round-trip fidelity of the relay: whatever blocks the upstream peer sends
/// before closing, the downstream peer receives exactly their concatenation,
/// in order, with no truncation or duplication, and the direction ends
/// cleanly. The same holds of the opposite direction by the same lemma.
pub proof fn lemma_relay_fidelity(events: Seq<DirectionEvent>, chunks: Seq<Seq<u8>>)
    requires
        clean_transcript(events, chunks),
    ensures
        delivered_bytes(events) == concat_chunks(chunks),
        direction_end(events) == DirectionEnd::CleanEof,
    decreases chunks.len(),
{
    if chunks.len() == 0 {
        assert(events[0] is Closed);
        assert(delivered_bytes(events) =~= concat_chunks(chunks));
    } else {
        assert(is_clean_block(events[0], chunks[0]));
        assert(clean_transcript(events.skip(1), chunks.skip(1))) by {
            assert(forall|i: int| 0 <= i < chunks.skip(1).len()
                ==> #[trigger] events.skip(1)[i] == events[i + 1]);
            assert(events.skip(1)[chunks.skip(1).len() as int] == events[chunks.len() as int]);
        }
        lemma_relay_fidelity(events.skip(1), chunks.skip(1));
        assert(delivered_bytes(events) =~= chunks[0] + delivered_bytes(events.skip(1)));
    }
}

/// What one whole channel produces: for each direction, the bytes delivered
/// downstream and the reason that direction stopped.
pub open spec fn channel_outcome(
    up: Seq<DirectionEvent>,
    down: Seq<DirectionEvent>,
) -> ((Seq<u8>, DirectionEnd), (Seq<u8>, DirectionEnd)) {
    ((delivered_bytes(up), direction_end(up)), (delivered_bytes(down), direction_end(down)))
}

/// Bidirectional round-trip fidelity of an established channel: whatever
/// block sequence each peer sends before closing, the opposite peer receives
/// exactly its concatenation, in order, with no truncation or duplication,
/// and both directions end cleanly. Stated of channels in which every
/// downstream write succeeds; a direction whose write fails genuinely stops
/// short, as `direction_end` records.
pub proof fn lemma_channel_fidelity(
    up: Seq<DirectionEvent>,
    up_chunks: Seq<Seq<u8>>,
    down: Seq<DirectionEvent>,
    down_chunks: Seq<Seq<u8>>,
)
    requires
        clean_transcript(up, up_chunks),
        clean_transcript(down, down_chunks),
    ensures
        channel_outcome(up, down) == (
            (concat_chunks(up_chunks), DirectionEnd::CleanEof),
            (concat_chunks(down_chunks), DirectionEnd::CleanEof),
        ),
{
    lemma_relay_fidelity(up, up_chunks);
    lemma_relay_fidelity(down, down_chunks);
}

/// Independence of the two directions of a channel: what one direction
/// delivers, and why it stops, does not depend in any way on what happens in
/// the opposite direction. In particular, one direction reaching
/// end-of-stream leaves the other entirely unaffected: it keeps delivering
/// until its own end-of-stream or failure.
pub proof fn lemma_directions_independent(
    up: Seq<DirectionEvent>,
    down1: Seq<DirectionEvent>,
    down2: Seq<DirectionEvent>,
)
    ensures
        channel_outcome(up, down1).0 == channel_outcome(up, down2).0,
{
}

} // verus!
