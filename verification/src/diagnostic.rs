//! Diagnostics: values that describe an error in the source. Building one never
//! changes the course of a parse.

use crate::token::TextRange;
use vstd::prelude::*;
use vstd::string::StringExecFns;

verus! {

/// A range of the source with a note on it.
#[derive(Clone, PartialEq, Eq, Debug)]
pub struct Label {
    pub range: TextRange,
    pub text: String,
}

/// The mathematical value of a [`Label`].
pub struct LabelView {
    pub range: TextRange,
    pub text: Seq<char>,
}

impl View for Label {
    type V = LabelView;

    open spec fn view(&self) -> LabelView {
        LabelView { range: self.range, text: self.text@ }
    }
}

/// An error report: a message, the primary label, and further labels.
#[derive(Clone, PartialEq, Eq, Debug)]
pub struct Diagnostic {
    pub message: String,
    pub primary: Option<Label>,
    pub secondary: Vec<Label>,
}

/// The mathematical value of a [`Diagnostic`].
pub struct DiagnosticView {
    pub message: Seq<char>,
    pub primary: Option<LabelView>,
    pub secondary: Seq<LabelView>,
}

impl DiagnosticView {
    /// A report with the given message and no label.
    pub open spec fn new(message: Seq<char>) -> DiagnosticView {
        DiagnosticView { message, primary: None, secondary: Seq::empty() }
    }

    /// The report with its primary label set.
    pub open spec fn primary(self, range: TextRange, text: Seq<char>) -> DiagnosticView {
        DiagnosticView { primary: Some(LabelView { range, text }), ..self }
    }

    /// The report with one more secondary label.
    pub open spec fn secondary(self, range: TextRange, text: Seq<char>) -> DiagnosticView {
        DiagnosticView { secondary: self.secondary.push(LabelView { range, text }), ..self }
    }
}

impl View for Diagnostic {
    type V = DiagnosticView;

    open spec fn view(&self) -> DiagnosticView {
        DiagnosticView {
            message: self.message@,
            primary: match self.primary {
                Some(l) => Some(l@),
                None => None,
            },
            secondary: self.secondary@.map_values(|l: Label| l@),
        }
    }
}

impl Diagnostic {
    /// Starts a report with the given message.
    pub fn error(message: &str) -> (r: Diagnostic)
        ensures
            r@ == DiagnosticView::new(message@),
    {
        let r = Diagnostic { message: String::from_str(message), primary: None, secondary: Vec::new() };
        proof {
            assert(r@.secondary =~= Seq::empty());
        }
        r
    }

    /// Sets the primary label: the range the report is about, and a note on it.
    pub fn primary(self, range: TextRange, text: &str) -> (r: Diagnostic)
        ensures
            r@ == self@.primary(range, text@),
    {
        let Diagnostic { message, primary: _, secondary } = self;
        Diagnostic { message, primary: Some(Label { range, text: String::from_str(text) }), secondary }
    }

    /// Adds a secondary label.
    pub fn secondary(self, range: TextRange, text: &str) -> (r: Diagnostic)
        ensures
            r@ == self@.secondary(range, text@),
    {
        let Diagnostic { message, primary, secondary } = self;
        let mut labels = secondary;
        let label = Label { range, text: String::from_str(text) };
        labels.push(label);
        let r = Diagnostic { message, primary, secondary: labels };
        proof {
            assert(r@.secondary =~= self@.secondary.push(LabelView { range, text: text@ }));
        }
        r
    }
}

/// The views of a sequence of diagnostics.
pub open spec fn diagnostic_views(errors: Seq<Diagnostic>) -> Seq<DiagnosticView> {
    errors.map_values(|d: Diagnostic| d@)
}

} // verus!
