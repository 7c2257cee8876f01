use vstd::prelude::*;
use crate::error::ChatError;
use crate::event::{State, StreamState, finish_kind, finish_reason, is_terminal, kind_of, terminal_event};

verus! {

/// What one line of the event stream means.
#[derive(Debug)]
pub enum LineKind {
    /// A data line with its payload: one delta object.
    Data(Vec<u8>),
    /// The data line that ends the stream.
    Sentinel,
    /// A blank line, a comment or keep-alive, or a field the decoder has no use for.
    Ignore,
}

pub open spec fn data_prefix() -> Seq<u8> {
    seq![100u8, 97u8, 116u8, 97u8, 58u8]
}

pub open spec fn done_marker() -> Seq<u8> {
    seq![91u8, 68u8, 79u8, 78u8, 69u8, 93u8]
}

/// A line without the carriage return that may end it.
pub open spec fn without_cr(l: Seq<u8>) -> Seq<u8> {
    if l.len() > 0 && l.last() == 13 {
        l.drop_last()
    } else {
        l
    }
}

/// The payload of a data line: what follows `data:` and one optional space.
pub open spec fn payload_of(l: Seq<u8>) -> Option<Seq<u8>> {
    let t = without_cr(l);
    if t.len() >= 5 && t.subrange(0, 5) == data_prefix() {
        let rest = t.subrange(5, t.len() as int);
        if rest.len() > 0 && rest[0] == 32 {
            Some(rest.subrange(1, rest.len() as int))
        } else {
            Some(rest)
        }
    } else {
        None
    }
}

/// Tells data lines, the end of the stream and everything else apart.
pub fn classify_line(line: &Vec<u8>) -> (r: LineKind)
    ensures
        match payload_of(line@) {
            None => r is Ignore,
            Some(p) => if p == done_marker() {
                r is Sentinel
            } else {
                r matches LineKind::Data(v) && v@ == p
            },
        },
{
    let n = line.len();
    let end: usize = if n > 0 && line[n - 1] == 13 { n - 1 } else { n };
    let ghost t = without_cr(line@);
    assert(t =~= line@.subrange(0, end as int));
    if !(end >= 5 && line[0] == 100 && line[1] == 97 && line[2] == 116 && line[3] == 97 && line[4] == 58) {
        proof {
            if t.len() >= 5 && t.subrange(0, 5) == data_prefix() {
                assert(t.subrange(0, 5)[0] == 100);
                assert(t.subrange(0, 5)[1] == 97);
                assert(t.subrange(0, 5)[2] == 116);
                assert(t.subrange(0, 5)[3] == 97);
                assert(t.subrange(0, 5)[4] == 58);
            }
        }
        return LineKind::Ignore;
    }
    assert(t.subrange(0, 5) =~= data_prefix());
    let start: usize = if end > 5 && line[5] == 32 { 6 } else { 5 };
    let mut p: Vec<u8> = Vec::new();
    let mut k: usize = start;
    while k < end
        invariant
            start <= k <= end <= n,
            n == line.len(),
            p@ == line@.subrange(start as int, k as int),
        decreases end - k,
    {
        p.push(line[k]);
        proof {
            assert(line@.subrange(start as int, k + 1) =~= line@.subrange(start as int, k as int).push(line[k as int]));
        }
        k = k + 1;
    }
    let ghost rest = t.subrange(5, t.len() as int);
    assert(payload_of(line@) == Some(p@)) by {
        if rest.len() > 0 && rest[0] == 32 {
            assert(rest.subrange(1, rest.len() as int) =~= p@);
        } else {
            assert(rest =~= p@);
        }
    }
    if p.len() == 6 && p[0] == 91 && p[1] == 68 && p[2] == 79 && p[3] == 78 && p[4] == 69 && p[5] == 93 {
        assert(p@ =~= done_marker());
        LineKind::Sentinel
    } else {
        proof {
            if p@ == done_marker() {
                assert(p@[0] == 91 && p@[1] == 68 && p@[2] == 79 && p@[3] == 78 && p@[4] == 69 && p@[5] == 93);
            }
        }
        LineKind::Data(p)
    }
}

/// Where a streamed turn stands.
#[derive(Clone, Copy, Debug, PartialEq, Eq, Structural)]
pub enum Phase {
    /// Nothing received yet.
    Waiting,
    /// Started; chunks may follow.
    Streaming,
    /// A finish reason was received.
    Finished,
    /// The end-of-stream marker followed the finish reason.
    Closed,
}

/// One delta object of the event stream.
#[derive(Clone, Debug)]
pub struct Delta {
    pub role: Option<String>,
    pub content: Option<String>,
    pub finish_reason: Option<String>,
}

/// The kinds of a sequence of events.
pub open spec fn kinds(h: Seq<State>) -> Seq<StreamState> {
    h.map_values(|e: State| kind_of(e))
}

/// The text that an event carries.
pub open spec fn text_of(e: State) -> Seq<char> {
    match e {
        State::Message(m) => m@,
        _ => Seq::empty(),
    }
}

/// The text of all chunks of a sequence of events, in order.
pub open spec fn chunk_text(h: Seq<State>) -> Seq<char>
    decreases h.len(),
{
    if h.len() == 0 {
        Seq::empty()
    } else {
        chunk_text(h.drop_last()) + text_of(h.last())
    }
}

pub open spec fn chunks_between(k: Seq<StreamState>, lo: int, hi: int) -> bool {
    forall|i: int| lo <= i < hi ==> #[trigger] k[i] == StreamState::Chunk
}

/// The kinds emitted so far agree with the phase: nothing while waiting; then
/// one start and chunks; then one terminal kind; then optionally done.
pub open spec fn shaped(p: Phase, k: Seq<StreamState>) -> bool {
    match p {
        Phase::Waiting => k.len() == 0,
        Phase::Streaming => k.len() >= 1 && k[0] == StreamState::Start && chunks_between(
            k,
            1,
            k.len() as int,
        ),
        Phase::Finished => k.len() >= 2 && k[0] == StreamState::Start && chunks_between(
            k,
            1,
            k.len() - 1,
        ) && is_terminal(k.last()),
        Phase::Closed => k.len() >= 3 && k[0] == StreamState::Start && chunks_between(
            k,
            1,
            k.len() - 2,
        ) && is_terminal(k[k.len() - 2]) && k.last() == StreamState::Done,
    }
}

/// The order of a turn that came to its end: `Start`, chunks, one terminal
/// kind, and `Done` at most once, last.
pub open spec fn completed_order(k: Seq<StreamState>) -> bool {
    shaped(Phase::Finished, k) || shaped(Phase::Closed, k)
}

/// The text a delta carries.
pub open spec fn delta_text(d: Delta) -> Seq<char> {
    match d.content {
        Some(c) => c@,
        None => Seq::empty(),
    }
}

/// A delta that the decoder refuses in phase `p`: text or a finish reason
/// after the turn has ended, or a finish reason it does not know.
pub open spec fn rejects(p: Phase, d: Delta) -> bool {
    ||| (p is Finished || p is Closed) && (delta_text(d).len() > 0 || d.finish_reason is Some)
    ||| d.finish_reason is Some && finish_kind(d.finish_reason.unwrap()@) is None
}

/// The kinds that an accepted delta produces in phase `p`.
pub open spec fn expected_kinds(p: Phase, d: Delta) -> Seq<StreamState> {
    (if p is Waiting {
        seq![StreamState::Start]
    } else {
        Seq::empty()
    }) + (if delta_text(d).len() > 0 {
        seq![StreamState::Chunk]
    } else {
        Seq::empty()
    }) + (if d.finish_reason is Some {
        seq![finish_kind(d.finish_reason.unwrap()@).unwrap()]
    } else {
        Seq::empty()
    })
}

/// The phase after an accepted delta.
pub open spec fn next_phase(p: Phase, d: Delta) -> Phase {
    if d.finish_reason is Some {
        Phase::Finished
    } else if p is Waiting {
        Phase::Streaming
    } else {
        p
    }
}

proof fn lemma_push_event(h: Seq<State>, e: State)
    ensures
        kinds(h.push(e)) == kinds(h).push(kind_of(e)),
        chunk_text(h.push(e)) == chunk_text(h) + text_of(e),
{
    assert(kinds(h.push(e)) =~= kinds(h).push(kind_of(e)));
    assert(h.push(e).drop_last() =~= h);
}

proof fn lemma_shape_step(p: Phase, k: Seq<StreamState>, x: StreamState, q: Phase)
    requires
        shaped(p, k),
        (p is Waiting && x is Start && q is Streaming) || (p is Streaming && x is Chunk
            && q is Streaming) || (p is Streaming && is_terminal(x) && q is Finished) || (
        p is Finished && x is Done && q is Closed),
    ensures
        shaped(q, k.push(x)),
{
    let k2 = k.push(x);
    assert forall|i: int| 0 <= i < k.len() implies k2[i] == k[i] by {}
    if p is Streaming && x is Chunk {
        assert forall|i: int| 1 <= i < k2.len() implies #[trigger] k2[i] == StreamState::Chunk by {
            if i < k.len() {
                assert(k2[i] == k[i]);
            }
        }
    }
    if p is Streaming && is_terminal(x) {
        assert forall|i: int| 1 <= i < k2.len() - 1 implies #[trigger] k2[i] == StreamState::Chunk by {
            assert(k2[i] == k[i]);
        }
    }
    if p is Finished {
        assert forall|i: int| 1 <= i < k2.len() - 2 implies #[trigger] k2[i] == StreamState::Chunk by {
            assert(k2[i] == k[i]);
        }
    }
}

/// Turns the deltas of one streamed reply into events, in arrival order, and
/// gathers the reply's text.
pub struct StreamDecoder {
    phase: Phase,
    content: String,
    history: Ghost<Seq<State>>,
}

impl StreamDecoder {
    pub closed spec fn phase(&self) -> Phase {
        self.phase
    }

    /// Every event handed out so far, in order.
    pub closed spec fn history(&self) -> Seq<State> {
        self.history@
    }

    /// The text gathered so far.
    pub closed spec fn content(&self) -> Seq<char> {
        self.content@
    }

    pub closed spec fn wf(&self) -> bool {
        &&& shaped(self.phase, kinds(self.history@))
        &&& self.content@ == chunk_text(self.history@)
    }

    pub fn new() -> (r: StreamDecoder)
        ensures
            r.wf(),
            r.phase() == Phase::Waiting,
            r.history() == Seq::<State>::empty(),
    {
        let r = StreamDecoder { phase: Phase::Waiting, content: String::new(), history: Ghost(Seq::empty()) };
        assert(kinds(r.history@) =~= Seq::<StreamState>::empty());
        r
    }

    /// Takes the next delta and returns the events it produces: `Start` before
    /// the first delta's own events, a chunk for non-empty text, and the
    /// terminal event of a finish reason.
    pub fn on_delta(&mut self, d: Delta) -> (r: Result<Vec<State>, ChatError>)
        requires
            old(self).wf(),
        ensures
            final(self).wf(),
            r is Ok <==> !rejects(old(self).phase(), d),
            r is Ok ==> {
                &&& final(self).history() == old(self).history() + r->Ok_0@
                &&& kinds(r->Ok_0@) == expected_kinds(old(self).phase(), d)
                &&& chunk_text(final(self).history()) == chunk_text(old(self).history())
                    + delta_text(d)
                &&& final(self).phase() == next_phase(old(self).phase(), d)
            },
            r is Err ==> r->Err_0.is_protocol() && *final(self) == *old(self),
    {
        let has_text = match &d.content {
            Some(c) => !c.as_str().is_empty(),
            None => false,
        };
        let ended = self.phase == Phase::Finished || self.phase == Phase::Closed;
        if ended && (has_text || d.finish_reason.is_some()) {
            return Err(ChatError::Protocol("delta after the finish reason".to_string()));
        }
        let finish = match &d.finish_reason {
            Some(f) => Some(finish_reason(f)?),
            None => None,
        };
        let mut out: Vec<State> = Vec::new();
        let ghost h0 = self.history@;
        let ghost p0 = self.phase;
        assert(kinds(out@) =~= Seq::<StreamState>::empty());
        if self.phase == Phase::Waiting {
            proof {
                lemma_shape_step(self.phase, kinds(self.history@), StreamState::Start, Phase::Streaming);
                lemma_push_event(self.history@, State::Start);
                lemma_push_event(out@, State::Start);
                self.history@ = self.history@.push(State::Start);
            }
            self.phase = Phase::Streaming;
            out.push(State::Start);
        }
        if has_text {
            let c = d.content.unwrap();
            self.content.append(c.as_str());
            let e = State::Message(c);
            proof {
                lemma_shape_step(self.phase, kinds(self.history@), StreamState::Chunk, Phase::Streaming);
                lemma_push_event(self.history@, e);
                lemma_push_event(out@, e);
                self.history@ = self.history@.push(e);
            }
            out.push(e);
        }
        if let Some(k) = finish {
            let e = terminal_event(k);
            proof {
                lemma_shape_step(self.phase, kinds(self.history@), k, Phase::Finished);
                lemma_push_event(self.history@, e);
                lemma_push_event(out@, e);
                self.history@ = self.history@.push(e);
            }
            self.phase = Phase::Finished;
            out.push(e);
        }
        proof {
            assert(self.history@ =~= h0 + out@);
        }
        Ok(out)
    }

    /// Takes the end-of-stream marker: `Done` after a finish reason, a
    /// protocol error anywhere else.
    pub fn on_sentinel(&mut self) -> (r: Result<Vec<State>, ChatError>)
        requires
            old(self).wf(),
        ensures
            final(self).wf(),
            old(self).phase() is Finished ==> r is Ok && r->Ok_0@ == seq![State::Done]
                && final(self).history() == old(self).history().push(State::Done)
                && final(self).content() == old(self).content() && final(self).phase() is Closed,
            !(old(self).phase() is Finished) ==> r is Err && r->Err_0.is_protocol() && *final(self)
                == *old(self),
    {
        if self.phase == Phase::Finished {
            proof {
                lemma_shape_step(self.phase, kinds(self.history@), StreamState::Done, Phase::Closed);
                lemma_push_event(self.history@, State::Done);
                self.history@ = self.history@.push(State::Done);
            }
            self.phase = Phase::Closed;
            let mut out: Vec<State> = Vec::new();
            out.push(State::Done);
            assert(out@ =~= seq![State::Done]);
            Ok(out)
        } else {
            Err(ChatError::Protocol("end of stream before a finish reason".to_string()))
        }
    }

    /// Ends the exchange and hands back the reply's text: the chunks in
    /// order. A stream that broke off before its finish reason is a transport
    /// error.
    pub fn finish(self) -> (r: Result<String, ChatError>)
        requires
            self.wf(),
        ensures
            (self.phase() is Finished || self.phase() is Closed) ==> r is Ok && r->Ok_0@
                == chunk_text(self.history()) && completed_order(kinds(self.history())),
            !(self.phase() is Finished || self.phase() is Closed) ==> r is Err && r->Err_0 is Transport,
    {
        if self.phase == Phase::Finished || self.phase == Phase::Closed {
            Ok(self.content)
        } else {
            Err(ChatError::Transport("stream ended before a finish reason".to_string()))
        }
    }
}

/// In a finished turn the first event is the only start, and after the
/// terminal event nothing but `Done` follows: no chunk, no second terminal.
pub proof fn lemma_completed_order(k: Seq<StreamState>)
    requires
        completed_order(k),
    ensures
        k[0] == StreamState::Start,
        forall|i: int| 0 < i < k.len() ==> #[trigger] k[i] != StreamState::Start,
        exists|i: int| 0 < i < k.len() && is_terminal(#[trigger] k[i]),
        forall|i: int, j: int|
            0 <= i < j < k.len() && is_terminal(#[trigger] k[i]) ==> #[trigger] k[j] == StreamState::Done,
{
    if shaped(Phase::Finished, k) {
        assert(is_terminal(k[k.len() - 1]));
        assert forall|i: int| 0 < i < k.len() implies #[trigger] k[i] != StreamState::Start by {
            if i < k.len() - 1 {
                assert(k[i] == StreamState::Chunk);
            }
        }
        assert forall|i: int, j: int|
            0 <= i < j < k.len() && is_terminal(#[trigger] k[i]) implies #[trigger] k[j] == StreamState::Done by {
            if i == 0 {
            } else if i < k.len() - 1 {
                assert(k[i] == StreamState::Chunk);
            }
        }
    } else {
        assert(is_terminal(k[k.len() - 2]));
        assert forall|i: int| 0 < i < k.len() implies #[trigger] k[i] != StreamState::Start by {
            if i < k.len() - 2 {
                assert(k[i] == StreamState::Chunk);
            }
        }
        assert forall|i: int, j: int|
            0 <= i < j < k.len() && is_terminal(#[trigger] k[i]) implies #[trigger] k[j] == StreamState::Done by {
            if i == 0 {
            } else if i < k.len() - 2 {
                assert(k[i] == StreamState::Chunk);
            }
        }
    }
}

/// The events of a reply received whole: `Start`, one chunk with all its
/// text (none for an empty reply), and the terminal event of its finish
/// reason; the same order and the same text as a streamed reply.
pub fn single_shot_events(content: String, finish: StreamState) -> (r: Vec<State>)
    requires
        is_terminal(finish),
    ensures
        completed_order(kinds(r@)),
        chunk_text(r@) == content@,
        kinds(r@) == expected_kinds(
            Phase::Waiting,
            Delta { role: None, content: Some(content), finish_reason: None },
        ).push(finish),
{
    let mut out: Vec<State> = Vec::new();
    let ghost cv = content@;
    let ghost d = Delta { role: None, content: Some(content), finish_reason: None };
    proof {
        lemma_push_event(out@, State::Start);
    }
    out.push(State::Start);
    assert(out@.drop_last() =~= Seq::<State>::empty());
    if !content.as_str().is_empty() {
        let e = State::Message(content);
        proof {
            lemma_push_event(out@, e);
        }
        out.push(e);
    } else {
        assert(cv =~= Seq::<char>::empty());
    }
    let e = terminal_event(finish);
    proof {
        lemma_push_event(out@, e);
    }
    out.push(e);
    proof {
        let k = kinds(out@);
        assert(k =~= expected_kinds(Phase::Waiting, d).push(finish));
        assert(chunks_between(k, 1, k.len() - 1));
    }
    out
}

} // verus!
