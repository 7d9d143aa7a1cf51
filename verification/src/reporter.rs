use crate::span::Span;
use vstd::prelude::*;

verus! {

/// Whether a label marks the place of a mistake or a place that helps to
/// understand it.
#[derive(Debug, Copy, Clone, PartialEq, Eq, Structural)]
pub enum LabelStyle {
    Primary,
    Secondary,
}

/// A remark on one span of the source text.
#[derive(Debug, Clone, PartialEq, Eq)]
pub struct Label {
    pub style: LabelStyle,
    pub span: Span,
    pub message: String,
}

/// What is shown to the user for one mistake: a message, and remarks on the
/// spans that it is about.
#[derive(Debug, Clone, PartialEq, Eq)]
pub struct Diagnostic {
    pub message: String,
    pub labels: Vec<Label>,
}

/// A remark on a span as a mathematical value.
pub struct LabelView {
    pub style: LabelStyle,
    pub span: Span,
    pub message: Seq<char>,
}

/// A diagnostic as a mathematical value.
pub struct DiagnosticView {
    pub message: Seq<char>,
    pub labels: Seq<LabelView>,
}

impl DeepView for Label {
    type V = LabelView;

    open spec fn deep_view(&self) -> LabelView {
        LabelView { style: self.style, span: self.span, message: self.message@ }
    }
}

impl DeepView for Diagnostic {
    type V = DiagnosticView;

    open spec fn deep_view(&self) -> DiagnosticView {
        DiagnosticView { message: self.message@, labels: self.labels.deep_view() }
    }
}

/// Mistakes that can be shown to the user.
pub trait Report {
    /// What is shown for the mistake.
    spec fn spec_diagnostic(&self) -> DiagnosticView;

    /// Writes down what is shown for the mistake.
    fn diagnostic(&self) -> (diagnostic: Diagnostic)
        ensures
            diagnostic.deep_view() == self.spec_diagnostic(),
    ;
}

/// A remark without words on the place of a mistake.
pub open spec fn spec_mark(span: Span) -> LabelView {
    LabelView { style: LabelStyle::Primary, span, message: Seq::empty() }
}

/// A remark without words on the place of a mistake.
pub fn mark(span: Span) -> (label: Label)
    ensures
        label.deep_view() == spec_mark(span),
{
    Label { style: LabelStyle::Primary, span, message: String::new() }
}

} // verus!
