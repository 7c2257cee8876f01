use vstd::prelude::*;

verus! {

/// The author of one turn of a dialogue.
#[derive(Clone, Copy, Debug, PartialEq, Eq, Structural)]
pub enum Role {
    System,
    Assistant,
    User,
    Tool,
}

/// The literal that stands for a role on the wire.
pub open spec fn role_text(r: Role) -> Seq<char> {
    match r {
        Role::System => "system"@,
        Role::Assistant => "assistant"@,
        Role::User => "user"@,
        Role::Tool => "tool"@,
    }
}

impl Role {
    /// The wire literal of this role.
    pub fn to_text(&self) -> (r: String)
        ensures
            r@ == role_text(*self),
    {
        match self {
            Role::System => "system".to_string(),
            Role::Assistant => "assistant".to_string(),
            Role::User => "user".to_string(),
            Role::Tool => "tool".to_string(),
        }
    }
}

} // verus!
