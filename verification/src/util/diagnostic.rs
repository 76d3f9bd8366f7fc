//! Errors that are reported at a place in the declaration.

use vstd::prelude::*;

verus! {

/// An error, tied to the identifier at which it is reported.
#[derive(Debug, PartialEq, Eq)]
pub struct Diagnostic {
    /// The identifier whose place in the declaration the error points at.
    pub at: String,
    pub message: String,
}

/// The mathematical value of a [`Diagnostic`].
pub ghost struct DiagnosticView {
    pub at: Seq<char>,
    pub message: Seq<char>,
}

impl View for Diagnostic {
    type V = DiagnosticView;

    open spec fn view(&self) -> DiagnosticView {
        DiagnosticView { at: self.at@, message: self.message@ }
    }
}

impl DeepView for Diagnostic {
    type V = DiagnosticView;

    open spec fn deep_view(&self) -> DiagnosticView {
        self@
    }
}

impl Diagnostic {
    /// The error `message`, reported at `at`.
    pub fn new(at: &str, message: &str) -> (r: Diagnostic)
        ensures
            r@ == (DiagnosticView { at: at@, message: message@ }),
    {
        Diagnostic { at: at.to_owned(), message: message.to_owned() }
    }

    /// The text of the error.
    pub fn to_string(&self) -> (r: String)
        ensures
            r@ == self.message@,
    {
        self.message.clone()
    }
}

} // verus!
