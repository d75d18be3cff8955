//! The decisions of the task that reads a streamed response body and hands
//! its events to the caller. The task itself waits on the transport and on
//! the channel; after each wait it reports what happened here and does what
//! it is told.

use vstd::prelude::*;
use crate::event::{ExecuteResponse, EventView, decode_event, event_of_frame};

verus! {

/// Where the producing task stands.
#[derive(Clone, Copy, Debug, PartialEq, Eq, Structural)]
pub enum Phase {
    /// The execution request has been sent; no answer yet.
    Connecting,
    /// Waiting for the next chunk of the response body.
    Reading,
    /// Waiting for the channel to accept an event.
    Sending,
    /// Done: the sending side of the channel is to be dropped.
    Closed,
}

/// What the task observed during its last wait.
#[derive(Clone, Debug)]
pub enum ProducerInput {
    /// The service answered; its body can be read.
    Connected,
    /// The request failed at the transport.
    ConnectFailed,
    /// The next chunk of the body.
    Chunk(Vec<u8>),
    /// Reading the body failed at the transport.
    ChunkFailed,
    /// The body has no further chunks.
    EndOfBody,
    /// The channel accepted the event last handed to it.
    Sent,
    /// The channel has no receiver any more.
    ReceiverGone,
}

/// What the task is to do next.
#[derive(Clone, Debug)]
pub enum ProducerAction {
    /// Wait for the next chunk of the body.
    ReadChunk,
    /// Hand this event to the channel and wait until it is accepted.
    Send(ExecuteResponse),
    /// Report that a chunk held no event, then wait for the next chunk.
    Skip,
    /// Stop, dropping the sending side so that the receiver sees the end.
    Close,
}

/// The mathematical content of a [`ProducerInput`].
pub ghost enum InputView {
    Connected,
    ConnectFailed,
    Chunk(Seq<u8>),
    ChunkFailed,
    EndOfBody,
    Sent,
    ReceiverGone,
}

/// The mathematical content of a [`ProducerAction`].
pub ghost enum ActionView {
    ReadChunk,
    Send(EventView),
    Skip,
    Close,
}

impl View for ProducerInput {
    type V = InputView;

    open spec fn view(&self) -> InputView {
        match self {
            ProducerInput::Connected => InputView::Connected,
            ProducerInput::ConnectFailed => InputView::ConnectFailed,
            ProducerInput::Chunk(b) => InputView::Chunk(b@),
            ProducerInput::ChunkFailed => InputView::ChunkFailed,
            ProducerInput::EndOfBody => InputView::EndOfBody,
            ProducerInput::Sent => InputView::Sent,
            ProducerInput::ReceiverGone => InputView::ReceiverGone,
        }
    }
}

impl View for ProducerAction {
    type V = ActionView;

    open spec fn view(&self) -> ActionView {
        match self {
            ProducerAction::ReadChunk => ActionView::ReadChunk,
            ProducerAction::Send(e) => ActionView::Send(e@),
            ProducerAction::Skip => ActionView::Skip,
            ProducerAction::Close => ActionView::Close,
        }
    }
}

/// One decision: the phase that follows `p` on input `i`, and the action.
/// A chunk that decodes to an event is sent; one that does not is skipped
/// and reading goes on. The end of the body, a transport failure or a
/// vanished receiver closes the stream, as does any input that the phase
/// does not wait for.
pub open spec fn step(p: Phase, i: InputView) -> (Phase, ActionView) {
    match (p, i) {
        (Phase::Connecting, InputView::Connected) => (Phase::Reading, ActionView::ReadChunk),
        (Phase::Reading, InputView::Chunk(b)) => match event_of_frame(b) {
            Some(e) => (Phase::Sending, ActionView::Send(e)),
            None => (Phase::Reading, ActionView::Skip),
        },
        (Phase::Sending, InputView::Sent) => (Phase::Reading, ActionView::ReadChunk),
        _ => (Phase::Closed, ActionView::Close),
    }
}

/// The events that a body made of `chunks` carries: one for each chunk that
/// decodes to an event, in the order of the chunks.
pub open spec fn events_of_chunks(chunks: Seq<Seq<u8>>) -> Seq<EventView>
    decreases chunks.len(),
{
    if chunks.len() == 0 {
        seq![]
    } else {
        let rest = events_of_chunks(chunks.drop_first());
        match event_of_frame(chunks[0]) {
            Some(e) => seq![e] + rest,
            None => rest,
        }
    }
}

/// The events among `acts` that are handed to the channel, in order.
pub open spec fn sent_events(acts: Seq<ActionView>) -> Seq<EventView>
    decreases acts.len(),
{
    if acts.len() == 0 {
        seq![]
    } else {
        let rest = sent_events(acts.drop_first());
        match acts[0] {
            ActionView::Send(e) => seq![e] + rest,
            _ => rest,
        }
    }
}

/// A rank that every step of [`run`] lowers.
pub open spec fn run_rank(p: Phase, n: nat) -> nat {
    match p {
        Phase::Connecting => 2 * n + 3,
        Phase::Reading => 2 * n + 1,
        Phase::Sending => 2 * n + 2,
        Phase::Closed => 0,
    }
}

/// The actions the task takes from phase `p` when the rest of the body is
/// `chunks` and the channel accepts every event at once.
pub open spec fn run(p: Phase, chunks: Seq<Seq<u8>>) -> Seq<ActionView>
    decreases run_rank(p, chunks.len()),
{
    match p {
        Phase::Closed => seq![],
        Phase::Connecting => {
            let (q, a) = step(p, InputView::Connected);
            seq![a] + run(q, chunks)
        },
        Phase::Sending => {
            let (q, a) = step(p, InputView::Sent);
            seq![a] + run(q, chunks)
        },
        Phase::Reading => if chunks.len() == 0 {
            let (q, a) = step(p, InputView::EndOfBody);
            seq![a] + run(q, chunks)
        } else {
            let (q, a) = step(p, InputView::Chunk(chunks[0]));
            seq![a] + run(q, chunks.drop_first())
        },
    }
}

/// `acts` ends in its one and only `Close`.
pub open spec fn closes_at_end(acts: Seq<ActionView>) -> bool {
    &&& acts.len() > 0
    &&& acts.last() is Close
    &&& forall|k: int| 0 <= k < acts.len() - 1 ==> !(#[trigger] acts[k] is Close)
}

proof fn lemma_prefix(a: ActionView, rest: Seq<ActionView>)
    ensures
        sent_events(seq![a] + rest) == match a {
            ActionView::Send(e) => seq![e] + sent_events(rest),
            _ => sent_events(rest),
        },
        !(a is Close) && closes_at_end(rest) ==> closes_at_end(seq![a] + rest),
{
    assert((seq![a] + rest).drop_first() =~= rest);
    if !(a is Close) && closes_at_end(rest) {
        let s = seq![a] + rest;
        assert forall|k: int| 0 <= k < s.len() - 1 implies !(#[trigger] s[k] is Close) by {
            if k > 0 {
                assert(s[k] == rest[k - 1]);
            }
        }
    }
}

/// Over a whole body whose events the caller takes, the task hands to the
/// channel exactly one event for each chunk that decodes to one, in the
/// order the chunks came; a chunk that does not decode adds nothing and
/// does not stop the stream; and the end of the body closes the stream,
/// once and after the last event.
pub proof fn stream_forwards_decoded_chunks(chunks: Seq<Seq<u8>>)
    ensures
        sent_events(run(Phase::Reading, chunks)) == events_of_chunks(chunks),
        closes_at_end(run(Phase::Reading, chunks)),
    decreases chunks.len(),
{
    if chunks.len() == 0 {
        assert(run(Phase::Closed, chunks) =~= seq![]);
        lemma_prefix(ActionView::Close, seq![]);
        assert(seq![ActionView::Close] + seq![] =~= seq![ActionView::Close]);
        assert(sent_events(seq![]) =~= seq![]);
    } else {
        let rest = chunks.drop_first();
        stream_forwards_decoded_chunks(rest);
        match event_of_frame(chunks[0]) {
            Some(e) => {
                lemma_prefix(ActionView::ReadChunk, run(Phase::Reading, rest));
                lemma_prefix(ActionView::Send(e), run(Phase::Sending, rest));
            },
            None => {
                lemma_prefix(ActionView::Skip, run(Phase::Reading, rest));
            },
        }
    }
}

/// While an event waits for the channel, the task neither produces another
/// event nor reads further: it reads on only once the channel has taken it.
pub proof fn sending_waits_for_channel(i: InputView)
    ensures
        !(step(Phase::Sending, i).1 is Send),
        step(Phase::Sending, i).1 is ReadChunk <==> i is Sent,
{
}

/// Once closed, the task stays closed and hands out nothing more.
pub proof fn closed_is_final(i: InputView)
    ensures
        step(Phase::Closed, i) == (Phase::Closed, ActionView::Close),
{
}

/// The state of one producing task.
#[derive(Debug)]
pub struct Producer {
    pub phase: Phase,
}

impl Producer {
    /// A task whose execution request has just been sent.
    pub fn new() -> (r: Producer)
        ensures
            r.phase == Phase::Connecting,
    {
        Producer { phase: Phase::Connecting }
    }

    /// Takes what the last wait observed and says what to do next.
    pub fn on_input(&mut self, input: ProducerInput) -> (a: ProducerAction)
        ensures
            (final(self).phase, a@) == step(old(self).phase, input@),
    {
        match (self.phase, input) {
            (Phase::Connecting, ProducerInput::Connected) => {
                self.phase = Phase::Reading;
                ProducerAction::ReadChunk
            },
            (Phase::Reading, ProducerInput::Chunk(b)) => match decode_event(b.as_slice()) {
                Some(e) => {
                    self.phase = Phase::Sending;
                    ProducerAction::Send(e)
                },
                None => ProducerAction::Skip,
            },
            (Phase::Sending, ProducerInput::Sent) => {
                self.phase = Phase::Reading;
                ProducerAction::ReadChunk
            },
            _ => {
                self.phase = Phase::Closed;
                ProducerAction::Close
            },
        }
    }
}

} // verus!
