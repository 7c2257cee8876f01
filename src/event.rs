use vstd::prelude::*;
use vstd::string::*;
use crate::error::ChatError;

verus! {

/// The kind of one event in the life of an assistant turn, without its payload.
#[derive(Clone, Copy, Debug, PartialEq, Eq, Structural)]
pub enum StreamState {
    Start,
    Stop,
    Chunk,
    OutOfCharacters,
    ContentFilter,
    ToolCalls,
    Done,
}

/// One event of an assistant turn as an observer sees it.
#[derive(Clone, Debug)]
pub enum State {
    Start,
    Stop,
    Message(String),
    OutOfCharacters,
    ContentFilter,
    ToolCalls,
    Done,
}

/// A kind that ends the generated turn.
pub open spec fn is_terminal(k: StreamState) -> bool {
    k is Stop || k is OutOfCharacters || k is ContentFilter || k is ToolCalls
}

/// The lookup from the service's finish reason to the terminal kind.
pub open spec fn finish_kind(reason: Seq<char>) -> Option<StreamState> {
    if reason == "stop"@ {
        Some(StreamState::Stop)
    } else if reason == "length"@ {
        Some(StreamState::OutOfCharacters)
    } else if reason == "content_filter"@ {
        Some(StreamState::ContentFilter)
    } else if reason == "tool_calls"@ {
        Some(StreamState::ToolCalls)
    } else {
        None
    }
}

pub open spec fn kind_text(k: StreamState) -> Seq<char> {
    match k {
        StreamState::Start => "start"@,
        StreamState::Stop => "stop"@,
        StreamState::Chunk => "chunk"@,
        StreamState::OutOfCharacters => "length"@,
        StreamState::ContentFilter => "content_filter"@,
        StreamState::ToolCalls => "tool_calls"@,
        StreamState::Done => "done"@,
    }
}

/// The kind of an event.
pub open spec fn kind_of(e: State) -> StreamState {
    match e {
        State::Start => StreamState::Start,
        State::Stop => StreamState::Stop,
        State::Message(_) => StreamState::Chunk,
        State::OutOfCharacters => StreamState::OutOfCharacters,
        State::ContentFilter => StreamState::ContentFilter,
        State::ToolCalls => StreamState::ToolCalls,
        State::Done => StreamState::Done,
    }
}

impl StreamState {
    /// The name of this kind; a terminal kind is named by its finish reason.
    pub fn to_text(&self) -> (r: String)
        ensures
            r@ == kind_text(*self),
    {
        match self {
            StreamState::Start => "start".to_string(),
            StreamState::Stop => "stop".to_string(),
            StreamState::Chunk => "chunk".to_string(),
            StreamState::OutOfCharacters => "length".to_string(),
            StreamState::ContentFilter => "content_filter".to_string(),
            StreamState::ToolCalls => "tool_calls".to_string(),
            StreamState::Done => "done".to_string(),
        }
    }
}

/// Maps the service's finish reason to the terminal kind it names.
pub fn finish_reason(reason: &String) -> (r: Result<StreamState, ChatError>)
    ensures
        finish_kind(reason@) is Some ==> r == Ok::<StreamState, ChatError>(finish_kind(reason@).unwrap()),
        finish_kind(reason@) is None ==> r is Err && r.unwrap_err().is_protocol(),
{
    if *reason == "stop".to_string() {
        Ok(StreamState::Stop)
    } else if *reason == "length".to_string() {
        Ok(StreamState::OutOfCharacters)
    } else if *reason == "content_filter".to_string() {
        Ok(StreamState::ContentFilter)
    } else if *reason == "tool_calls".to_string() {
        Ok(StreamState::ToolCalls)
    } else {
        let mut m = "unknown finish reason: ".to_string();
        m.append(reason.as_str());
        Err(ChatError::Protocol(m))
    }
}

/// The payload-free event of a terminal kind.
pub fn terminal_event(k: StreamState) -> (r: State)
    requires
        is_terminal(k),
    ensures
        kind_of(r) == k,
{
    match k {
        StreamState::Stop => State::Stop,
        StreamState::OutOfCharacters => State::OutOfCharacters,
        StreamState::ContentFilter => State::ContentFilter,
        _ => State::ToolCalls,
    }
}

impl State {
    /// The kind of this event.
    pub fn kind(&self) -> (r: StreamState)
        ensures
            r == kind_of(*self),
    {
        match self {
            State::Start => StreamState::Start,
            State::Stop => StreamState::Stop,
            State::Message(_) => StreamState::Chunk,
            State::OutOfCharacters => StreamState::OutOfCharacters,
            State::ContentFilter => StreamState::ContentFilter,
            State::ToolCalls => StreamState::ToolCalls,
            State::Done => StreamState::Done,
        }
    }

    /// A line of text that names this event; a chunk shows its text.
    pub fn to_text(&self) -> (r: String)
        ensures
            match *self {
                State::Message(m) => r@ == "message: "@ + m@,
                _ => r@ == kind_text(kind_of(*self)),
            },
    {
        match self {
            State::Message(m) => {
                let mut s = "message: ".to_string();
                s.append(m.as_str());
                s
            },
            _ => self.kind().to_text(),
        }
    }
}

} // verus!
