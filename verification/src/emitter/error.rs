use crate::reporter::{Diagnostic, DiagnosticView, Label, LabelStyle, LabelView, Report};
use crate::span::Span;
use crate::text::{decimal, write_decimal};
use vstd::prelude::*;
use vstd::string::StringExecFns;

verus! {

/// What can be wrong with a program that is being emitted.
#[derive(Debug, Clone, PartialEq, Eq)]
pub enum Error {
    /// A label is defined a second time: where, and where it was defined
    /// first.
    LabelDefinedMoreThanOnce {
        label: String,
        current_label_span: Span,
        previously_defined_label_span: Span,
    },
    /// A label is used at `span` and defined nowhere.
    CannotFindLabel { label: String, span: Span },
    /// The image is longer than the size that was asked for.
    BinaryTooLarge { current_size: usize, requested_size: usize },
}

/// An emission error as a mathematical value.
pub enum ErrorView {
    LabelDefinedMoreThanOnce {
        label: Seq<char>,
        current_label_span: Span,
        previously_defined_label_span: Span,
    },
    CannotFindLabel { label: Seq<char>, span: Span },
    BinaryTooLarge { current_size: usize, requested_size: usize },
}

impl View for Error {
    type V = ErrorView;

    open spec fn view(&self) -> ErrorView {
        match self {
            Error::LabelDefinedMoreThanOnce {
                label,
                current_label_span,
                previously_defined_label_span,
            } => ErrorView::LabelDefinedMoreThanOnce {
                label: label@,
                current_label_span: *current_label_span,
                previously_defined_label_span: *previously_defined_label_span,
            },
            Error::CannotFindLabel { label, span } => ErrorView::CannotFindLabel {
                label: label@,
                span: *span,
            },
            Error::BinaryTooLarge { current_size, requested_size } => ErrorView::BinaryTooLarge {
                current_size: *current_size,
                requested_size: *requested_size,
            },
        }
    }
}

impl DeepView for Error {
    type V = ErrorView;

    open spec fn deep_view(&self) -> ErrorView {
        self@
    }
}

impl ErrorView {
    /// What is shown for the error.
    pub open spec fn diagnostic(self) -> DiagnosticView {
        match self {
            ErrorView::LabelDefinedMoreThanOnce {
                label,
                current_label_span,
                previously_defined_label_span,
            } => DiagnosticView {
                message: "label `"@ + label + "` is defined multiple times"@,
                labels: seq![
                    LabelView {
                        style: LabelStyle::Primary,
                        span: current_label_span,
                        message: "`"@ + label + "` redefined here"@,
                    },
                    LabelView {
                        style: LabelStyle::Secondary,
                        span: previously_defined_label_span,
                        message: "previous definition of the label `"@ + label + "` here"@,
                    },
                ],
            },
            ErrorView::CannotFindLabel { label, span } => DiagnosticView {
                message: "cannot find label `"@ + label + "` in this scope"@,
                labels: seq![
                    LabelView {
                        style: LabelStyle::Primary,
                        span,
                        message: "not found in this scope"@,
                    },
                ],
            },
            ErrorView::BinaryTooLarge { current_size, requested_size } => DiagnosticView {
                message: "binary of size "@ + decimal(current_size as nat)
                    + " does not fit within the requested size constraint of "@ + decimal(
                    requested_size as nat,
                ),
                labels: Seq::empty(),
            },
        }
    }
}

/// A text made of three parts.
fn join(before: &str, middle: &str, after: &str) -> (text: String)
    ensures
        text@ == before@ + middle@ + after@,
{
    let mut text = before.to_owned();
    text.append(middle);
    text.append(after);
    text
}

impl Report for Error {
    open spec fn spec_diagnostic(&self) -> DiagnosticView {
        self@.diagnostic()
    }

    fn diagnostic(&self) -> (diagnostic: Diagnostic) {
        match self {
            Error::LabelDefinedMoreThanOnce {
                label,
                current_label_span,
                previously_defined_label_span,
            } => {
                let mut labels = Vec::new();
                let redefined = Label {
                    style: LabelStyle::Primary,
                    span: *current_label_span,
                    message: join("`", label.as_str(), "` redefined here"),
                };
                let previous = Label {
                    style: LabelStyle::Secondary,
                    span: *previously_defined_label_span,
                    message: join("previous definition of the label `", label.as_str(), "` here"),
                };
                labels.push(redefined);
                labels.push(previous);
                proof {
                    assert(labels.deep_view() =~= seq![redefined.deep_view(), previous.deep_view()]);
                }
                Diagnostic {
                    message: join("label `", label.as_str(), "` is defined multiple times"),
                    labels,
                }
            },
            Error::CannotFindLabel { label, span } => {
                let mut labels = Vec::new();
                let missing = Label {
                    style: LabelStyle::Primary,
                    span: *span,
                    message: "not found in this scope".to_owned(),
                };
                labels.push(missing);
                proof {
                    assert(labels.deep_view() =~= seq![missing.deep_view()]);
                }
                Diagnostic {
                    message: join("cannot find label `", label.as_str(), "` in this scope"),
                    labels,
                }
            },
            Error::BinaryTooLarge { current_size, requested_size } => {
                let mut message = "binary of size ".to_owned();
                write_decimal(&mut message, *current_size);
                message.append(" does not fit within the requested size constraint of ");
                write_decimal(&mut message, *requested_size);
                let labels: Vec<Label> = Vec::new();
                proof {
                    assert(labels.deep_view() =~= Seq::empty());
                }
                Diagnostic { message, labels }
            },
        }
    }
}

} // verus!
