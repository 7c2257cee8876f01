use vstd::prelude::*;
use vstd::string::*;
use crate::error::ChatError;
use crate::event::{StreamState, finish_kind, finish_reason};
use crate::role::{Role, role_text};

verus! {

/// The body of the service's error envelope.
#[derive(Clone, Debug)]
pub struct ErrorObject {
    pub message: String,
    pub kind: String,
    pub param: Option<String>,
    pub code: Option<String>,
}

/// A tool call that the model asks for; carried through, never run.
#[derive(Clone, Debug)]
pub struct ToolCall {
    pub id: String,
    pub kind: String,
    pub name: String,
    pub arguments: String,
}

/// The message of one choice of a success envelope.
#[derive(Clone, Debug)]
pub struct WireMessage {
    pub role: String,
    pub content: Option<String>,
    pub tool_calls: Vec<ToolCall>,
}

/// One choice of a success envelope.
#[derive(Clone, Debug)]
pub struct Choice {
    pub index: i64,
    pub message: WireMessage,
    pub finish_reason: Option<String>,
}

/// A response body by its top-level shape: which of the two envelopes'
/// required members it holds.
#[derive(Clone, Debug)]
pub struct Envelope {
    pub error: Option<ErrorObject>,
    pub choices: Option<Vec<Choice>>,
}

/// A decoded single-shot completion.
#[derive(Clone, Debug)]
pub struct Completion {
    pub role: Role,
    pub content: String,
    pub finish: StreamState,
    pub tool_calls: Vec<ToolCall>,
}

/// The role that a wire literal names.
pub open spec fn role_named(s: Seq<char>) -> Option<Role> {
    if s == role_text(Role::System) {
        Some(Role::System)
    } else if s == role_text(Role::Assistant) {
        Some(Role::Assistant)
    } else if s == role_text(Role::User) {
        Some(Role::User)
    } else if s == role_text(Role::Tool) {
        Some(Role::Tool)
    } else {
        None
    }
}

/// The content of a message; an absent content is empty.
pub open spec fn content_of(m: WireMessage) -> Seq<char> {
    match m.content {
        Some(c) => c@,
        None => Seq::empty(),
    }
}

/// A success envelope whose first choice can be decoded.
pub open spec fn decodable_choice(c: Choice) -> bool {
    &&& role_named(c.message.role@) is Some
    &&& c.finish_reason is Some
    &&& finish_kind(c.finish_reason.unwrap()@) is Some
}

/// The error of the service's error envelope, as sent.
pub open spec fn service_error(e: ErrorObject) -> ChatError {
    ChatError::Service { message: e.message, code: e.code }
}

/// `d` is what the choice `c` decodes to.
pub open spec fn decodes_to(d: Completion, c: Choice) -> bool {
    &&& d.role == role_named(c.message.role@).unwrap()
    &&& d.content@ == content_of(c.message)
    &&& d.finish == finish_kind(c.finish_reason.unwrap()@).unwrap()
    &&& d.tool_calls@ == c.message.tool_calls@
}

/// The result is a protocol error.
pub open spec fn fails_protocol<T>(r: Result<T, ChatError>) -> bool {
    r is Err && r->Err_0.is_protocol()
}

/// Reads a role from its wire literal.
pub fn parse_role(s: &String) -> (r: Option<Role>)
    ensures
        r == role_named(s@),
{
    if *s == Role::System.to_text() {
        Some(Role::System)
    } else if *s == Role::Assistant.to_text() {
        Some(Role::Assistant)
    } else if *s == Role::User.to_text() {
        Some(Role::User)
    } else if *s == Role::Tool.to_text() {
        Some(Role::Tool)
    } else {
        None
    }
}

/// Decodes one choice of a success envelope.
pub fn decode_choice(c: Choice) -> (r: Result<Completion, ChatError>)
    ensures
        decodable_choice(c) ==> r is Ok && decodes_to(r->Ok_0, c),
        !decodable_choice(c) ==> fails_protocol(r),
{
    let role = match parse_role(&c.message.role) {
        Some(role) => role,
        None => {
            let mut m = "unknown role: ".to_string();
            m.append(c.message.role.as_str());
            return Err(ChatError::Protocol(m));
        },
    };
    let finish = match &c.finish_reason {
        Some(f) => finish_reason(f)?,
        None => {
            return Err(ChatError::Protocol("choice without a finish reason".to_string()));
        },
    };
    let content = match c.message.content {
        Some(t) => t,
        None => String::new(),
    };
    Ok(Completion { role, content, finish, tool_calls: c.message.tool_calls })
}

/// Decodes a single-shot response body by its shape: an error envelope is the
/// service's error, a success envelope gives its first choice, and a body that
/// holds both members, neither, or no choice at all is a protocol error.
pub fn decode_envelope(env: Envelope) -> (r: Result<Completion, ChatError>)
    ensures
        env.error is Some && env.choices is None ==> r == Err::<Completion, ChatError>(
            service_error(env.error.unwrap()),
        ),
        env.error is None && env.choices is Some && env.choices.unwrap()@.len() > 0 ==> if decodable_choice(
            env.choices.unwrap()@[0],
        ) {
            r is Ok && decodes_to(r->Ok_0, env.choices.unwrap()@[0])
        } else {
            fails_protocol(r)
        },
        env.error is None && env.choices is Some && env.choices.unwrap()@.len() == 0 ==> fails_protocol(r),
        env.error is Some && env.choices is Some ==> fails_protocol(r),
        env.error is None && env.choices is None ==> fails_protocol(r),
{
    match (env.error, env.choices) {
        (Some(e), None) => Err(ChatError::Service { message: e.message, code: e.code }),
        (None, Some(mut cs)) => {
            if cs.len() == 0 {
                Err(ChatError::Protocol("success envelope without a choice".to_string()))
            } else {
                decode_choice(cs.remove(0))
            }
        },
        (Some(_), Some(_)) => Err(ChatError::Protocol("body holds both envelopes".to_string())),
        (None, None) => Err(ChatError::Protocol("body matches no envelope".to_string())),
    }
}

} // verus!
