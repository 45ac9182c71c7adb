//! The decisions of one conversion: what to do after the request is sent,
//! after each part of the response arrives and after each write to the sink.
//! The caller performs each action and reports back what happened.
use crate::error::Error;
use crate::http::describe;
use vstd::prelude::*;

verus! {

/// Whether an HTTP status reports success (2xx).
pub open spec fn is_success(status: u16) -> bool {
    200 <= status < 300
}

/// Where a conversion stands.
#[derive(PartialEq, Eq, Structural, Debug, Clone, Copy)]
pub enum Stage {
    /// The request is out; its response is awaited.
    Sending,
    /// The service refused with this status; its body is being read as text.
    Rejected(u16),
    /// The next chunk of a successful response is awaited.
    Streaming,
    /// A chunk is being written to the sink.
    Writing,
    /// The outcome has been given; nothing more is awaited.
    Done,
}

/// What happened since the last action.
pub enum Event {
    /// The response came, with this status.
    Responded(u16),
    /// The request could not be sent.
    SendFailed(reqwest::Error),
    /// The body of a refusal, as text.
    RejectionText(String),
    /// The body of a refusal could not be read as text.
    RejectionTextFailed(reqwest::Error),
    /// The next chunk of the body.
    Chunk(Vec<u8>),
    /// The next chunk could not be read.
    ChunkFailed(reqwest::Error),
    /// The body has no more chunks.
    BodyEnd,
    /// The sink took the whole chunk.
    Written,
    /// The sink refused the chunk.
    WriteFailed(std::io::Error),
}

/// What to do next.
pub enum Action {
    /// Read the whole response body as text.
    ReadRejection,
    /// Read the next chunk of the response body.
    ReadChunk,
    /// Write these bytes, all of them, to the sink.
    Write(Vec<u8>),
    /// Stop: the conversion ends with this outcome.
    Finish(Result<(), Error>),
}

/// Whether `stage` awaits `event`.
pub open spec fn awaits(stage: Stage, event: Event) -> bool {
    match stage {
        Stage::Sending => event is Responded || event is SendFailed,
        Stage::Rejected(_) => event is RejectionText || event is RejectionTextFailed,
        Stage::Streaming => event is Chunk || event is ChunkFailed || event is BodyEnd,
        Stage::Writing => event is Written || event is WriteFailed,
        Stage::Done => false,
    }
}

/// The state of a conversion as the laws below read it.
pub struct ConversionView {
    pub stage: Stage,
    pub received: Seq<u8>,
    pub written: Seq<u8>,
    pub pending: Seq<u8>,
}

/// The state of a conversion whose request has just been sent.
pub open spec fn fresh() -> ConversionView {
    ConversionView {
        stage: Stage::Sending,
        received: Seq::empty(),
        written: Seq::empty(),
        pending: Seq::empty(),
    }
}

/// The state after `event`.
pub open spec fn advance(v: ConversionView, event: Event) -> ConversionView {
    match event {
        Event::Responded(status) => ConversionView {
            stage: if is_success(status) { Stage::Streaming } else { Stage::Rejected(status) },
            ..v
        },
        Event::Chunk(bytes) => ConversionView {
            stage: Stage::Writing,
            received: v.received + bytes@,
            pending: bytes@,
            ..v
        },
        Event::Written => ConversionView { stage: Stage::Streaming, written: v.written + v.pending, ..v },
        _ => ConversionView { stage: Stage::Done, ..v },
    }
}

/// The state after each of `events` in turn.
pub open spec fn run(v: ConversionView, events: Seq<Event>) -> ConversionView
    decreases events.len(),
{
    if events.len() == 0 {
        v
    } else {
        advance(run(v, events.drop_last()), events.last())
    }
}

/// Whether each of `events` is awaited when it comes.
pub open spec fn accepted(v: ConversionView, events: Seq<Event>) -> bool
    decreases events.len(),
{
    events.len() == 0 || (accepted(v, events.drop_last()) && awaits(run(v, events.drop_last()).stage, events.last()))
}

/// The bytes of the chunks among `events`, in order.
pub open spec fn chunks_of(events: Seq<Event>) -> Seq<u8>
    decreases events.len(),
{
    if events.len() == 0 {
        Seq::empty()
    } else {
        chunks_of(events.drop_last()) + match events.last() {
            Event::Chunk(bytes) => bytes@,
            _ => Seq::empty(),
        }
    }
}

/// What holds of every state that a run from `fresh` reaches.
pub open spec fn consistent(v: ConversionView, events: Seq<Event>) -> bool {
    &&& v.received == chunks_of(events)
    &&& v.stage is Writing ==> v.written + v.pending == v.received
    &&& v.stage is Streaming ==> v.written == v.received
    &&& (v.stage is Sending || v.stage is Rejected) ==> v.written == Seq::<u8>::empty()
}

proof fn lemma_run_consistent(events: Seq<Event>)
    requires
        accepted(fresh(), events),
    ensures
        consistent(run(fresh(), events), events),
    decreases events.len(),
{
    if events.len() > 0 {
        lemma_run_consistent(events.drop_last());
        let v = run(fresh(), events.drop_last());
        assert(v.received == chunks_of(events.drop_last()));
        match events.last() {
            Event::Chunk(bytes) => {
                assert(run(fresh(), events).received == v.received + bytes@);
            },
            _ => {
                assert(chunks_of(events) =~= chunks_of(events.drop_last()));
            },
        }
    }
}

/// However the body arrives, the sink takes its chunks in arrival order:
/// between writes it has taken exactly the bytes received, and when the body
/// ends it has taken the whole body.
pub proof fn lemma_sink_gets_the_body_in_order(events: Seq<Event>)
    requires
        accepted(fresh(), events),
    ensures
        run(fresh(), events).received == chunks_of(events),
        run(fresh(), events).stage is Streaming ==> run(fresh(), events).written == chunks_of(events),
        events.len() > 0 && events.last() is BodyEnd ==> run(fresh(), events).stage is Done
            && run(fresh(), events).written == chunks_of(events),
{
    lemma_run_consistent(events);
    if events.len() > 0 && events.last() is BodyEnd {
        lemma_run_consistent(events.drop_last());
        assert(chunks_of(events) =~= chunks_of(events.drop_last()));
    }
}

/// When the sink refuses a chunk the conversion ends, and what the sink took
/// before stays: every chunk received but the refused one.
pub proof fn lemma_failed_write_keeps_earlier_output(events: Seq<Event>)
    requires
        accepted(fresh(), events),
        events.len() > 0,
        events.last() is WriteFailed,
    ensures
        run(fresh(), events).stage is Done,
        run(fresh(), events).written == run(fresh(), events.drop_last()).written,
        run(fresh(), events).written + run(fresh(), events.drop_last()).pending == chunks_of(events),
{
    lemma_run_consistent(events.drop_last());
    assert(chunks_of(events) =~= chunks_of(events.drop_last()));
}

proof fn lemma_accepted_prefix(events: Seq<Event>, k: int)
    requires
        accepted(fresh(), events),
        0 <= k <= events.len(),
    ensures
        accepted(fresh(), events.subrange(0, k)),
    decreases events.len(),
{
    if k < events.len() {
        lemma_accepted_prefix(events.drop_last(), k);
        assert(events.drop_last().subrange(0, k) =~= events.subrange(0, k));
    } else {
        assert(events.subrange(0, k) =~= events);
    }
}

/// A request that could not be sent ends the conversion: no event is awaited
/// after it, so nothing is sent again and nothing is written.
pub proof fn lemma_send_failure_is_final(events: Seq<Event>)
    requires
        accepted(fresh(), events),
        events.len() > 0,
        events[0] is SendFailed,
    ensures
        events.len() == 1,
        run(fresh(), events).stage is Done,
        run(fresh(), events).written == Seq::<u8>::empty(),
{
    if events.len() > 1 {
        lemma_accepted_prefix(events, 2);
        let two = events.subrange(0, 2);
        assert(two.drop_last() =~= seq![events[0]]);
        assert(seq![events[0]].drop_last() =~= Seq::<Event>::empty());
        assert(run(fresh(), two.drop_last()).stage is Done);
    }
    assert(events.drop_last() =~= Seq::<Event>::empty());
}

/// Once a conversion has given its outcome it awaits no event at all: a
/// failed send, read or write is never followed by another attempt.
pub proof fn lemma_finished_awaits_nothing(c: Conversion, event: Event)
    requires
        c.stage() is Done,
    ensures
        !awaits(c.stage(), event),
{
}

/// One conversion in progress. Besides its stage it records, as ghost state,
/// the body bytes received so far, the bytes the sink has taken, and the
/// chunk being written.
pub struct Conversion {
    stage: Stage,
    received: Ghost<Seq<u8>>,
    written: Ghost<Seq<u8>>,
    pending: Ghost<Seq<u8>>,
}

impl Conversion {
    /// The state of the conversion.
    pub closed spec fn model(&self) -> ConversionView {
        ConversionView {
            stage: self.stage,
            received: self.received@,
            written: self.written@,
            pending: self.pending@,
        }
    }

    /// Where the conversion stands.
    pub closed spec fn spec_stage(&self) -> Stage {
        self.stage
    }

    /// Where the conversion stands.
    #[verifier::when_used_as_spec(spec_stage)]
    pub fn stage(&self) -> (r: Stage)
        ensures
            r == self.spec_stage(),
    {
        self.stage
    }

    /// The body bytes received so far, in arrival order.
    pub closed spec fn received(&self) -> Seq<u8> {
        self.received@
    }

    /// The bytes the sink has taken so far, in order.
    pub closed spec fn written(&self) -> Seq<u8> {
        self.written@
    }

    /// The chunk being written, while the stage is `Writing`.
    pub closed spec fn pending(&self) -> Seq<u8> {
        self.pending@
    }

    /// The sink has taken exactly the bytes received, but for the chunk being
    /// written; before a successful response nothing was received.
    pub open spec fn wf(&self) -> bool {
        &&& self.stage() is Writing ==> self.written() + self.pending() == self.received()
        &&& self.stage() is Streaming ==> self.written() == self.received()
        &&& (self.stage() is Sending || self.stage() is Rejected) ==> self.received() == Seq::<u8>::empty()
            && self.written() == Seq::<u8>::empty()
        &&& self.written().len() <= self.received().len()
        &&& self.received().subrange(0, self.written().len() as int) =~= self.written()
    }

    /// A conversion whose request has just been sent.
    pub fn new() -> (r: Conversion)
        ensures
            r.wf(),
            r.model() == fresh(),
            r.stage() == Stage::Sending,
            r.received() == Seq::<u8>::empty(),
            r.written() == Seq::<u8>::empty(),
    {
        Conversion {
            stage: Stage::Sending,
            received: Ghost(Seq::empty()),
            written: Ghost(Seq::empty()),
            pending: Ghost(Seq::empty()),
        }
    }

    /// Whether this conversion awaits `event` now.
    pub fn expects(&self, event: &Event) -> (r: bool)
        ensures
            r == awaits(self.stage(), *event),
    {
        match self.stage {
            Stage::Sending => matches!(event, Event::Responded(_) | Event::SendFailed(_)),
            Stage::Rejected(_) => matches!(event, Event::RejectionText(_) | Event::RejectionTextFailed(_)),
            Stage::Streaming => matches!(event, Event::Chunk(_) | Event::ChunkFailed(_) | Event::BodyEnd),
            Stage::Writing => matches!(event, Event::Written | Event::WriteFailed(_)),
            Stage::Done => false,
        }
    }

    /// Takes in what happened and says what to do next.
    pub fn step(&mut self, event: Event) -> (r: Action)
        requires
            old(self).wf(),
            awaits(old(self).stage(), event),
        ensures
            final(self).wf(),
            final(self).model() == advance(old(self).model(), event),
            final(self).written().len() >= old(self).written().len(),
            final(self).written().subrange(0, old(self).written().len() as int) =~= old(self).written(),
            r is Finish <==> final(self).stage() is Done,
            match event {
                Event::Responded(status) => if is_success(status) {
                    final(self).stage() == Stage::Streaming && r is ReadChunk
                        && final(self).received() == old(self).received()
                        && final(self).written() == old(self).written()
                } else {
                    final(self).stage() == Stage::Rejected(status) && r is ReadRejection
                        && final(self).written() == old(self).written()
                },
                Event::SendFailed(e) => r == Action::Finish(Err(Error::Http(e)))
                    && final(self).written() == old(self).written(),
                Event::RejectionText(text) => r == Action::Finish(
                    Err(Error::Gotenberg(old(self).stage()->Rejected_0, text)),
                ) && final(self).written() == Seq::<u8>::empty(),
                Event::RejectionTextFailed(_) => (r matches Action::Finish(Err(Error::Gotenberg(s, text)))
                    && s == old(self).stage()->Rejected_0 && text@.len() > 0) && final(self).written() == Seq::<u8>::empty(),
                Event::Chunk(bytes) => final(self).stage() == Stage::Writing && r == Action::Write(bytes)
                    && final(self).received() == old(self).received() + bytes@
                    && final(self).pending() == bytes@
                    && final(self).written() == old(self).written(),
                Event::ChunkFailed(e) => r == Action::Finish(Err(Error::Http(e)))
                    && final(self).written() == old(self).written(),
                Event::BodyEnd => r == Action::Finish(Ok(()))
                    && final(self).written() == old(self).received()
                    && final(self).received() == old(self).received(),
                Event::Written => final(self).stage() == Stage::Streaming && r is ReadChunk
                    && final(self).written() == old(self).written() + old(self).pending()
                    && final(self).received() == old(self).received(),
                Event::WriteFailed(e) => r == Action::Finish(Err(Error::Io(e)))
                    && final(self).written() == old(self).written(),
            },
    {
        match event {
            Event::Responded(status) => {
                if 200 <= status && status < 300 {
                    self.stage = Stage::Streaming;
                    Action::ReadChunk
                } else {
                    self.stage = Stage::Rejected(status);
                    Action::ReadRejection
                }
            },
            Event::SendFailed(e) => {
                self.stage = Stage::Done;
                Action::Finish(Err(Error::Http(e)))
            },
            Event::RejectionText(text) => {
                let status = match self.stage {
                    Stage::Rejected(s) => s,
                    _ => 0,
                };
                self.stage = Stage::Done;
                Action::Finish(Err(Error::Gotenberg(status, text)))
            },
            Event::RejectionTextFailed(e) => {
                let status = match self.stage {
                    Stage::Rejected(s) => s,
                    _ => 0,
                };
                self.stage = Stage::Done;
                Action::Finish(Err(Error::Gotenberg(status, describe(&e))))
            },
            Event::Chunk(bytes) => {
                self.stage = Stage::Writing;
                self.received = Ghost(self.received@ + bytes@);
                self.pending = Ghost(bytes@);
                Action::Write(bytes)
            },
            Event::ChunkFailed(e) => {
                self.stage = Stage::Done;
                Action::Finish(Err(Error::Http(e)))
            },
            Event::BodyEnd => {
                self.stage = Stage::Done;
                Action::Finish(Ok(()))
            },
            Event::Written => {
                self.stage = Stage::Streaming;
                self.written = Ghost(self.written@ + self.pending@);
                Action::ReadChunk
            },
            Event::WriteFailed(e) => {
                self.stage = Stage::Done;
                Action::Finish(Err(Error::Io(e)))
            },
        }
    }
}

} // verus!
