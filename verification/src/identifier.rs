//! The name key that addresses catalog entries.

use crate::json::text_eq;
use std::sync::Arc;
use vstd::prelude::*;

verus! {

/// An immutable, cheaply shared name. Two identifiers are the same key exactly
/// when their texts are equal.
#[derive(Debug, Eq, Hash)]
pub struct Identifier(Arc<String>);

impl View for Identifier {
    type V = Seq<char>;

    closed spec fn view(&self) -> Seq<char> {
        (*self.0)@
    }
}

impl Identifier {
    /// Makes the identifier whose text is `s`.
    pub fn new(s: &str) -> (id: Identifier)
        ensures
            id@ == s@,
    {
        Identifier(Arc::new(s.to_owned()))
    }

    /// The text of the identifier.
    pub fn as_str(&self) -> (s: &str)
        ensures
            s@ == self@,
    {
        self.0.as_str()
    }
}

impl std::ops::Deref for Identifier {
    type Target = String;

    fn deref(&self) -> (text: &String)
        ensures
            text@ == self@,
    {
        &self.0
    }
}

impl Clone for Identifier {
    /// Another handle on the same text.
    fn clone(&self) -> (copy: Identifier)
        ensures
            copy@ == self@,
    {
        Identifier(self.0.clone())
    }
}

impl PartialEq for Identifier {
    fn eq(&self, other: &Identifier) -> (equal: bool) {
        text_eq(self.as_str(), other.as_str())
    }
}

impl vstd::std_specs::cmp::PartialEqSpecImpl for Identifier {
    open spec fn obeys_eq_spec() -> bool {
        true
    }

    open spec fn eq_spec(&self, other: &Identifier) -> bool {
        self@ == other@
    }
}

} // verus!
