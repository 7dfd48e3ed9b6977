//! Where progress messages go.

use vstd::prelude::*;

verus! {

/// A message goes to the console, or to the console and the chat webhook.
#[derive(Debug, Clone, Copy, PartialEq, Eq, Structural)]
pub enum PrintType {
    SLACK,
    DEFAULT,
}

impl PrintType {
    /// Whether a message of this kind is also sent to the webhook.
    pub fn notifies(&self) -> (r: bool)
        ensures
            r == (*self == PrintType::SLACK),
    {
        match self {
            PrintType::SLACK => true,
            PrintType::DEFAULT => false,
        }
    }
}

} // verus!
