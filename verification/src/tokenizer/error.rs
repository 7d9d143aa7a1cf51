use crate::reporter::{mark, spec_mark, Diagnostic, DiagnosticView, Report};
use crate::span::Span;
use vstd::prelude::*;
use vstd::string::StringExecFns;

verus! {

/// What can be wrong with the text of a token.
#[derive(Debug, Clone, PartialEq, Eq, Structural)]
pub enum Error {
    /// A data literal holds a character that is no hexadecimal digit, or ends
    /// in the middle of a byte: `digit` is the character, `span` its place.
    DigitInvalid { digit: char, span: Span },
    /// A `#` with no digit after it.
    DigitExpected { span: Span },
    /// A `:` or `@` with no name after it.
    IdentifierExpected { span: Span },
}

impl Report for Error {
    open spec fn spec_diagnostic(&self) -> DiagnosticView {
        match self {
            Error::DigitInvalid { digit, span } => DiagnosticView {
                message: "invalid digit `"@.push(*digit) + "` in a data literal"@,
                labels: seq![spec_mark(*span)],
            },
            Error::DigitExpected { span } => DiagnosticView {
                message: "expected a digit"@,
                labels: seq![spec_mark(*span)],
            },
            Error::IdentifierExpected { span } => DiagnosticView {
                message: "expected an identifier"@,
                labels: seq![spec_mark(*span)],
            },
        }
    }

    fn diagnostic(&self) -> (diagnostic: Diagnostic) {
        let (message, span) = match self {
            Error::DigitInvalid { digit, span } => {
                let mut message = "invalid digit `".to_owned();
                message.push(*digit);
                message.append("` in a data literal");
                (message, *span)
            },
            Error::DigitExpected { span } => ("expected a digit".to_owned(), *span),
            Error::IdentifierExpected { span } => ("expected an identifier".to_owned(), *span),
        };
        let mut labels = Vec::new();
        labels.push(mark(span));
        proof {
            assert(labels.deep_view() =~= seq![spec_mark(span)]);
        }
        Diagnostic { message, labels }
    }
}

} // verus!
