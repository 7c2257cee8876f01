use vstd::prelude::*;
use crate::error::ChatError;
use crate::role::Role;

verus! {

/// The largest sampling temperature, in thousandths.
pub const MAX_TEMPERATURE_MILLI: u64 = 2000;

/// One turn of the dialogue.
#[derive(Debug)]
pub struct Turn {
    pub role: Role,
    pub content: String,
}

impl Turn {
    /// A copy of this turn.
    pub fn duplicate(&self) -> (r: Turn)
        ensures
            r == *self,
    {
        Turn { role: self.role, content: self.content.clone() }
    }
}

/// What a turn is: its role and its text.
pub open spec fn turn_view(t: Turn) -> (Role, Seq<char>) {
    (t.role, t.content@)
}

pub open spec fn turns_view(ts: Seq<Turn>) -> Seq<(Role, Seq<char>)> {
    ts.map_values(|t: Turn| turn_view(t))
}

/// Generation settings, checked once when they are made. The temperature is
/// kept in thousandths.
#[derive(Clone, Copy, Debug)]
pub struct Settings {
    stream: bool,
    temperature_milli: u64,
    max_tokens: i64,
    seed: Option<i64>,
}

impl Settings {
    pub closed spec fn spec_stream(&self) -> bool {
        self.stream
    }

    pub closed spec fn spec_temperature_milli(&self) -> u64 {
        self.temperature_milli
    }

    pub closed spec fn spec_max_tokens(&self) -> i64 {
        self.max_tokens
    }

    pub closed spec fn spec_seed(&self) -> Option<i64> {
        self.seed
    }

    /// Settings in range: a temperature from 0 to 2 and a positive token limit.
    pub open spec fn wf(&self) -> bool {
        self.spec_temperature_milli() <= MAX_TEMPERATURE_MILLI && self.spec_max_tokens() > 0
    }

    /// Checks and keeps the settings; out-of-range values are a validation error.
    pub fn new(stream: bool, temperature_milli: u64, max_tokens: i64, seed: Option<i64>) -> (r: Result<Settings, ChatError>)
        ensures
            r is Ok <==> temperature_milli <= MAX_TEMPERATURE_MILLI && max_tokens > 0,
            r matches Ok(s) ==> s.wf() && s.spec_stream() == stream && s.spec_temperature_milli()
                == temperature_milli && s.spec_max_tokens() == max_tokens && s.spec_seed() == seed,
            r matches Err(e) ==> e is Validation,
    {
        if temperature_milli > MAX_TEMPERATURE_MILLI {
            Err(ChatError::Validation("temperature must lie between 0 and 2".to_string()))
        } else if max_tokens <= 0 {
            Err(ChatError::Validation("max_tokens must be positive".to_string()))
        } else {
            Ok(Settings { stream, temperature_milli, max_tokens, seed })
        }
    }

    pub fn stream(&self) -> (r: bool)
        ensures
            r == self.spec_stream(),
    {
        self.stream
    }

    pub fn temperature_milli(&self) -> (r: u64)
        ensures
            r == self.spec_temperature_milli(),
    {
        self.temperature_milli
    }

    pub fn max_tokens(&self) -> (r: i64)
        ensures
            r == self.spec_max_tokens(),
    {
        self.max_tokens
    }

    pub fn seed(&self) -> (r: Option<i64>)
        ensures
            r == self.spec_seed(),
    {
        self.seed
    }
}

/// A dialogue: its transcript in send order and the settings of every request.
pub struct Conversation {
    transcript: Vec<Turn>,
    settings: Settings,
    sending: bool,
}

impl Conversation {
    /// The transcript, turn by turn.
    pub closed spec fn turns(&self) -> Seq<(Role, Seq<char>)> {
        turns_view(self.transcript@)
    }

    pub closed spec fn spec_settings(&self) -> Settings {
        self.settings
    }

    /// A send has started and not yet been completed.
    pub closed spec fn spec_sending(&self) -> bool {
        self.sending
    }

    pub fn new(settings: Settings) -> (r: Conversation)
        ensures
            r.turns() == Seq::<(Role, Seq<char>)>::empty(),
            r.spec_settings() == settings,
            !r.spec_sending(),
    {
        let r = Conversation { transcript: Vec::new(), settings, sending: false };
        assert(r.turns() =~= Seq::<(Role, Seq<char>)>::empty());
        r
    }

    /// Appends a turn; nothing is sent.
    pub fn build(&mut self, role: Role, message: &str) -> (r: &mut Conversation)
        ensures
            r.turns() == apply(old(self).turns(), Step::Append(role, message@)),
            r.spec_settings() == old(self).spec_settings(),
            r.spec_sending() == old(self).spec_sending(),
            *final(self) == *final(r),
    {
        let ghost before = self.transcript@;
        let t = Turn { role, content: message.to_string() };
        self.transcript.push(t);
        assert(turns_view(self.transcript@) =~= turns_view(before).push((role, message@)));
        self
    }

    pub fn settings(&self) -> (r: &Settings)
        ensures
            *r == self.spec_settings(),
    {
        &self.settings
    }

    pub fn is_sending(&self) -> (r: bool)
        ensures
            r == self.spec_sending(),
    {
        self.sending
    }

    pub fn len(&self) -> (r: usize)
        ensures
            r == self.turns().len(),
    {
        self.transcript.len()
    }

    /// The turn at `i`.
    pub fn turn(&self, i: usize) -> (r: &Turn)
        requires
            i < self.turns().len(),
        ensures
            turn_view(*r) == self.turns()[i as int],
    {
        &self.transcript[i]
    }

    /// Opens a send: hands out a copy of the whole transcript for the request.
    /// A second send while one is open is refused.
    pub fn begin_send(&mut self) -> (r: Result<Vec<Turn>, ChatError>)
        ensures
            final(self).turns() == old(self).turns(),
            final(self).spec_settings() == old(self).spec_settings(),
            old(self).spec_sending() ==> r is Err && r->Err_0 is Busy && final(self).spec_sending(),
            !old(self).spec_sending() ==> r is Ok && turns_view(r->Ok_0@) == old(self).turns()
                && final(self).spec_sending(),
    {
        if self.sending {
            return Err(ChatError::Busy);
        }
        let mut out: Vec<Turn> = Vec::new();
        let mut i: usize = 0;
        while i < self.transcript.len()
            invariant
                i <= self.transcript@.len(),
                out@ == self.transcript@.subrange(0, i as int),
            decreases self.transcript@.len() - i,
        {
            out.push(self.transcript[i].duplicate());
            assert(out@ =~= self.transcript@.subrange(0, i + 1));
            i = i + 1;
        }
        assert(out@ =~= self.transcript@);
        self.sending = true;
        Ok(out)
    }

    /// Closes a send with its outcome: a reply is appended as an assistant
    /// turn; an error is handed back and the transcript stays as it was.
    pub fn complete_send(&mut self, outcome: Result<String, ChatError>) -> (r: Result<(), ChatError>)
        ensures
            !final(self).spec_sending(),
            final(self).spec_settings() == old(self).spec_settings(),
            match outcome {
                Ok(c) => r is Ok && final(self).turns() == apply(old(self).turns(), Step::Reply(Some(c@))),
                Err(e) => r == Err::<(), ChatError>(e) && final(self).turns() == apply(old(self).turns(), Step::Reply(None)),
            },
    {
        self.sending = false;
        match outcome {
            Ok(c) => {
                let ghost before = self.transcript@;
                let ghost cv = c@;
                self.transcript.push(Turn { role: Role::Assistant, content: c });
                assert(turns_view(self.transcript@) =~= turns_view(before).push((Role::Assistant, cv)));
                Ok(())
            },
            Err(e) => Err(e),
        }
    }
}

/// One operation on a transcript: an appended turn, or the outcome of a send
/// (the reply's text, or nothing for a failed send).
pub enum Step {
    Append(Role, Seq<char>),
    Reply(Option<Seq<char>>),
}

/// A transcript after one step, as `build` and `complete_send` change it.
pub open spec fn apply(t: Seq<(Role, Seq<char>)>, s: Step) -> Seq<(Role, Seq<char>)> {
    match s {
        Step::Append(role, m) => t.push((role, m)),
        Step::Reply(Some(c)) => t.push((Role::Assistant, c)),
        Step::Reply(None) => t,
    }
}

pub open spec fn apply_all(t: Seq<(Role, Seq<char>)>, steps: Seq<Step>) -> Seq<(Role, Seq<char>)>
    decreases steps.len(),
{
    if steps.len() == 0 {
        t
    } else {
        apply(apply_all(t, steps.drop_last()), steps.last())
    }
}

/// The number of appends among the steps.
pub open spec fn appends(steps: Seq<Step>) -> nat
    decreases steps.len(),
{
    if steps.len() == 0 {
        0
    } else {
        appends(steps.drop_last()) + if steps.last() is Append {
            1nat
        } else {
            0nat
        }
    }
}

/// The number of sends among the steps that brought a reply.
pub open spec fn replies(steps: Seq<Step>) -> nat
    decreases steps.len(),
{
    if steps.len() == 0 {
        0
    } else {
        replies(steps.drop_last()) + if steps.last() matches Step::Reply(Some(_)) {
            1nat
        } else {
            0nat
        }
    }
}

/// Whatever the appends and sends, the transcript grows by one turn per append
/// and one assistant turn per send that succeeded, and by nothing else.
pub proof fn lemma_transcript_length(t: Seq<(Role, Seq<char>)>, steps: Seq<Step>)
    ensures
        apply_all(t, steps).len() == t.len() + appends(steps) + replies(steps),
    decreases steps.len(),
{
    if steps.len() > 0 {
        lemma_transcript_length(t, steps.drop_last());
    }
}

/// A failed send leaves the transcript as it was, and the next send that
/// succeeds adds exactly one assistant turn with the reply's text.
pub proof fn lemma_retry_after_failure(t: Seq<(Role, Seq<char>)>, c: Seq<char>)
    ensures
        apply(t, Step::Reply(None)) == t,
        apply_all(t, seq![Step::Reply(None), Step::Reply(Some(c))]) == t.push((Role::Assistant, c)),
{
    let steps = seq![Step::Reply(None), Step::Reply(Some(c))];
    assert(steps.drop_last() =~= seq![Step::Reply(None)]);
    assert(steps.drop_last().drop_last() =~= Seq::<Step>::empty());
    assert(apply_all(t, steps.drop_last().drop_last()) == t);
    assert(steps.drop_last().last() == Step::Reply(None));
    assert(apply_all(t, steps.drop_last()) == t);
    assert(steps.last() == Step::Reply(Some(c)));
}

} // verus!
