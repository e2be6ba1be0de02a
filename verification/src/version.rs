//! The interpreter version an environment is bound to.

use vstd::prelude::*;

verus! {

/// An interpreter version as the resolver names it: the implementation kind
/// and the semantic version in one canonical text. The engine never looks
/// inside; it only asks whether two versions are the same.
#[derive(Debug)]
pub struct InterpreterVersion {
    /// The canonical text of the version.
    pub text: String,
}

impl View for InterpreterVersion {
    type V = Seq<char>;

    open spec fn view(&self) -> Seq<char> {
        self.text@
    }
}

impl InterpreterVersion {
    /// The version that the resolver wrote as `text`.
    pub fn new(text: &str) -> (version: InterpreterVersion)
        ensures
            version@ == text@,
    {
        InterpreterVersion { text: text.to_owned() }
    }

    /// The canonical text.
    pub fn as_str(&self) -> (text: &str)
        ensures
            text@ == self@,
    {
        self.text.as_str()
    }
}

impl Clone for InterpreterVersion {
    fn clone(&self) -> (copy: InterpreterVersion)
        ensures
            copy@ == self@,
    {
        InterpreterVersion { text: self.text.clone() }
    }
}

impl PartialEq for InterpreterVersion {
    fn eq(&self, other: &InterpreterVersion) -> (same: bool) {
        self.text == other.text
    }
}

impl vstd::std_specs::cmp::PartialEqSpecImpl for InterpreterVersion {
    open spec fn obeys_eq_spec() -> bool {
        true
    }

    open spec fn eq_spec(&self, other: &InterpreterVersion) -> bool {
        self@ == other@
    }
}

impl Eq for InterpreterVersion {}

} // verus!
