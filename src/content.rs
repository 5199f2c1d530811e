//! Plain enumerations of conversation content.
use vstd::prelude::*;

verus! {

/// The sender or recipient of messages and data in a conversation.
#[derive(Clone, Copy, Debug, PartialEq, Eq, Structural)]
#[non_exhaustive]
pub enum Role {
    Assistant,
    User,
}

} // verus!
