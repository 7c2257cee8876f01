use vstd::prelude::*;

verus! {

/// Everything that can go wrong in building or running a conversation.
#[derive(Clone, Debug)]
pub enum ChatError {
    /// Settings out of range, reported when they are made.
    Validation(String),
    /// The exchange with the service broke off (connection, timeout, TLS).
    Transport(String),
    /// The service answered with its error envelope; message and code as sent.
    Service { message: String, code: Option<String> },
    /// The answer has no known shape, or names an unknown finish reason.
    Protocol(String),
    /// A send was started while another one on the same conversation is open.
    Busy,
}

impl ChatError {
    pub open spec fn is_protocol(&self) -> bool {
        self is Protocol
    }
}

} // verus!
