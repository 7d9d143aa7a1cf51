use yotasm::emitter;
use yotasm::reporter::{mark, Diagnostic, Label, LabelStyle, Report};
use yotasm::span::{Location, Span};
use yotasm::tokenizer;

fn span(from: usize, to: usize) -> Span {
    Span { file_id: 1, from: Location { offset: from }, to: Location { offset: to } }
}

fn primary(from: usize, to: usize, message: &str) -> Label {
    Label { style: LabelStyle::Primary, span: span(from, to), message: message.to_string() }
}

#[test]
fn mark_is_a_primary_label_without_words() {
    assert_eq!(mark(span(2, 3)), primary(2, 3, ""));
}

#[test]
fn lexical_errors_mark_their_span() {
    assert_eq!(
        tokenizer::Error::DigitInvalid { digit: 'g', span: span(1, 2) }.diagnostic(),
        Diagnostic {
            message: "invalid digit `g` in a data literal".to_string(),
            labels: vec![primary(1, 2, "")],
        }
    );
    assert_eq!(
        tokenizer::Error::DigitExpected { span: span(0, 1) }.diagnostic(),
        Diagnostic { message: "expected a digit".to_string(), labels: vec![primary(0, 1, "")] }
    );
    assert_eq!(
        tokenizer::Error::IdentifierExpected { span: span(4, 5) }.diagnostic(),
        Diagnostic {
            message: "expected an identifier".to_string(),
            labels: vec![primary(4, 5, "")],
        }
    );
}

#[test]
fn repeated_label_shows_both_definitions() {
    let error = emitter::Error::LabelDefinedMoreThanOnce {
        label: "loop".to_string(),
        current_label_span: span(9, 14),
        previously_defined_label_span: span(0, 5),
    };
    assert_eq!(
        error.diagnostic(),
        Diagnostic {
            message: "label `loop` is defined multiple times".to_string(),
            labels: vec![
                primary(9, 14, "`loop` redefined here"),
                Label {
                    style: LabelStyle::Secondary,
                    span: span(0, 5),
                    message: "previous definition of the label `loop` here".to_string(),
                },
            ],
        }
    );
}

#[test]
fn missing_label_shows_its_use() {
    let error = emitter::Error::CannotFindLabel { label: "missing".to_string(), span: span(3, 11) };
    assert_eq!(
        error.diagnostic(),
        Diagnostic {
            message: "cannot find label `missing` in this scope".to_string(),
            labels: vec![primary(3, 11, "not found in this scope")],
        }
    );
}

#[test]
fn oversized_image_shows_both_sizes_in_decimal() {
    let error = emitter::Error::BinaryTooLarge { current_size: 1205, requested_size: 90 };
    assert_eq!(
        error.diagnostic(),
        Diagnostic {
            message: "binary of size 1205 does not fit within the requested size constraint of 90"
                .to_string(),
            labels: vec![],
        }
    );
    let error = emitter::Error::BinaryTooLarge { current_size: 5, requested_size: 0 };
    assert_eq!(
        error.diagnostic().message,
        "binary of size 5 does not fit within the requested size constraint of 0"
    );
}
