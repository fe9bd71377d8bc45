//! The value that travels through the rotation pipeline.

use vstd::prelude::*;

verus! {

/// A short status text. It has no identity beyond its characters, and it is
/// never changed once made.
#[derive(Debug, PartialEq, Eq)]
pub struct PresenceValue {
    text: String,
}

impl View for PresenceValue {
    type V = Seq<char>;

    closed spec fn view(&self) -> Seq<char> {
        self.text@
    }
}

impl PresenceValue {
    /// Wraps a status text.
    pub fn new(text: String) -> (value: Self)
        ensures
            value@ == text@,
    {
        PresenceValue { text }
    }

    /// The status text.
    pub fn as_str(&self) -> (text: &str)
        ensures
            text@ == self@,
    {
        self.text.as_str()
    }

    /// Gives the status text back.
    pub fn into_string(self) -> (text: String)
        ensures
            text@ == self@,
    {
        self.text
    }
}

impl Clone for PresenceValue {
    fn clone(&self) -> (copy: Self)
        ensures
            copy == *self,
            copy@ == self@,
    {
        PresenceValue { text: self.text.clone() }
    }
}

} // verus!
