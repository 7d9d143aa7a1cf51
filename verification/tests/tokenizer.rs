use yotasm::instruction::{InstructionKind, Operand, OperandSize, Operation, PlainOperation, StackOperation};
use yotasm::span::{Location, Span, Spanned};
use yotasm::tokenizer::{
    is_delimiter, is_digit, is_whitespace, lex, locate, parse_data_literal, parse_identifier,
    scan, to_digit, tokenize, Error, Token,
};

fn span(file_id: usize, from: usize, to: usize) -> Span {
    Span { file_id, from: Location { offset: from }, to: Location { offset: to } }
}

fn at<T>(node: T, from: usize, to: usize) -> Spanned<T> {
    Spanned { node, span: span(0, from, to) }
}

fn brk() -> InstructionKind {
    InstructionKind { operation: Operation::Plain(PlainOperation::Brk), conditional: false }
}

#[test]
fn hexadecimal_digits_in_both_cases() {
    assert_eq!(to_digit("0"), Some(0));
    assert_eq!(to_digit("9"), Some(9));
    assert_eq!(to_digit("a"), Some(10));
    assert_eq!(to_digit("f"), Some(15));
    assert_eq!(to_digit("A"), Some(10));
    assert_eq!(to_digit("F"), Some(15));
    assert_eq!(to_digit("g"), None);
    assert_eq!(to_digit("G"), None);
    assert_eq!(to_digit(""), None);
    assert_eq!(to_digit(" "), None);
    assert!(is_digit("7"));
    assert!(is_digit("c"));
    assert!(!is_digit("x"));
    assert!(!is_digit(""));
}

#[test]
fn white_space_is_space_tab_and_line_breaks() {
    for symbol in [" ", "\t", "\n", "\r", "\r\n"] {
        assert!(is_whitespace(symbol));
        assert!(is_delimiter(symbol));
    }
    for symbol in ["a", ";", ":", "#", "@", "{", "}", ""] {
        assert!(!is_whitespace(symbol));
        assert!(!is_delimiter(symbol));
    }
}

#[test]
fn scan_gives_each_cluster_its_span() {
    let symbols = scan("a\r\nb", 7);
    assert_eq!(
        symbols,
        vec![
            Spanned { node: "a", span: span(7, 0, 1) },
            Spanned { node: "\r\n", span: span(7, 1, 3) },
            Spanned { node: "b", span: span(7, 3, 4) },
        ]
    );
}

#[test]
fn scan_keeps_combining_marks_with_their_base() {
    let symbols = scan("e\u{301}x", 0);
    assert_eq!(symbols, vec![at("e\u{301}", 0, 2), at("x", 2, 3)]);
}

#[test]
fn scan_of_nothing_is_nothing() {
    assert_eq!(scan("", 3), Vec::<Spanned<&str>>::new());
}

#[test]
fn locate_counts_code_points() {
    let symbols = locate(&["ab", "c", "\u{e9}\u{e9}\u{e9}"], 2);
    assert_eq!(
        symbols,
        vec![
            Spanned { node: "ab", span: span(2, 0, 2) },
            Spanned { node: "c", span: span(2, 2, 3) },
            Spanned { node: "\u{e9}\u{e9}\u{e9}", span: span(2, 3, 6) },
        ]
    );
}

#[test]
fn tokenize_label_instruction_and_reference() {
    let tokens = tokenize(":start brk @start", 0).unwrap();
    assert_eq!(
        tokens,
        vec![
            at(Token::LabelDefinition("start".to_string()), 0, 6),
            at(Token::PrimitiveInstruction(brk()), 7, 10),
            at(Token::LabelLiteral("start".to_string()), 11, 17),
        ]
    );
}

#[test]
fn tokenize_of_nothing_is_nothing() {
    assert_eq!(tokenize("", 0), Ok(vec![]));
    assert_eq!(tokenize(" \t\r\n\n", 0), Ok(vec![]));
    assert_eq!(tokenize("; only a comment", 0), Ok(vec![]));
}

#[test]
fn bare_word_is_a_subroutine_jump() {
    assert_eq!(tokenize("main", 0), Ok(vec![at(Token::SubroutineJump("main".to_string()), 0, 4)]));
    assert_eq!(tokenize("{", 0), Ok(vec![at(Token::SubroutineJump("{".to_string()), 0, 1)]));
}

#[test]
fn mnemonics_become_instructions() {
    let add = InstructionKind {
        operation: Operation::Stack(StackOperation::Add, Operand::Data(OperandSize::Two)),
        conditional: true,
    };
    assert_eq!(
        tokenize("add2?\tbrk", 0),
        Ok(vec![
            at(Token::PrimitiveInstruction(add), 0, 5),
            at(Token::PrimitiveInstruction(brk()), 6, 9),
        ])
    );
}

#[test]
fn data_literal_reads_digit_pairs() {
    assert_eq!(
        tokenize("#0a1B", 0),
        Ok(vec![at(Token::DataLiteral(vec![0x0a, 0x1b]), 0, 5)])
    );
    assert_eq!(tokenize("#ff\n", 0), Ok(vec![at(Token::DataLiteral(vec![0xff]), 0, 3)]));
}

#[test]
fn comment_runs_to_the_end_of_the_line() {
    assert_eq!(
        tokenize("brk ; stop here :x #zz\nbrk", 0),
        Ok(vec![
            at(Token::PrimitiveInstruction(brk()), 0, 3),
            at(Token::PrimitiveInstruction(brk()), 23, 26),
        ])
    );
    assert_eq!(
        tokenize("; first\r\nbrk", 0),
        Ok(vec![at(Token::PrimitiveInstruction(brk()), 9, 12)])
    );
}

#[test]
fn semicolon_inside_a_word_starts_no_comment() {
    assert_eq!(
        tokenize("a;b c", 0),
        Ok(vec![
            at(Token::SubroutineJump("a;b".to_string()), 0, 3),
            at(Token::SubroutineJump("c".to_string()), 4, 5),
        ])
    );
}

#[test]
fn hash_without_digits_expects_a_digit() {
    assert_eq!(tokenize("#", 0), Err(vec![Error::DigitExpected { span: span(0, 0, 1) }]));
    assert_eq!(tokenize("# 12", 0).unwrap_err()[0], Error::DigitExpected { span: span(0, 0, 1) });
}

#[test]
fn character_that_is_no_digit_is_invalid() {
    assert_eq!(
        tokenize("#g", 0),
        Err(vec![Error::DigitInvalid { digit: 'g', span: span(0, 1, 2) }])
    );
    assert_eq!(
        tokenize("#12x4", 0),
        Err(vec![Error::DigitInvalid { digit: 'x', span: span(0, 3, 4) }])
    );
}

#[test]
fn dangling_digit_is_invalid() {
    assert_eq!(
        tokenize("#abc", 0),
        Err(vec![Error::DigitInvalid { digit: 'c', span: span(0, 3, 4) }])
    );
    assert_eq!(
        tokenize("#a", 0),
        Err(vec![Error::DigitInvalid { digit: 'a', span: span(0, 1, 2) }])
    );
}

#[test]
fn marker_without_name_expects_an_identifier() {
    assert_eq!(tokenize(":", 0), Err(vec![Error::IdentifierExpected { span: span(0, 0, 1) }]));
    assert_eq!(tokenize("@ x", 0), Err(vec![Error::IdentifierExpected { span: span(0, 0, 1) }]));
}

#[test]
fn every_mistake_is_reported() {
    assert_eq!(
        tokenize(": brk #zz @\n#1 #", 4),
        Err(vec![
            Error::IdentifierExpected { span: span(4, 0, 1) },
            Error::DigitInvalid { digit: 'z', span: span(4, 7, 8) },
            Error::IdentifierExpected { span: span(4, 10, 11) },
            Error::DigitInvalid { digit: '1', span: span(4, 13, 14) },
            Error::DigitExpected { span: span(4, 15, 16) },
        ])
    );
}

#[test]
fn lexing_goes_on_at_the_next_delimiter() {
    assert_eq!(
        tokenize("#1x:y brk", 0),
        Err(vec![Error::DigitInvalid { digit: 'x', span: span(0, 2, 3) }])
    );
}

#[test]
fn lex_takes_symbols_as_they_are() {
    let symbols = vec![at(":", 0, 1), at("a", 1, 2), at(" ", 2, 3), at("n", 3, 4), at("o", 4, 5), at("p", 5, 6)];
    let nop = InstructionKind { operation: Operation::Plain(PlainOperation::Nop), conditional: false };
    assert_eq!(
        lex(&symbols),
        Ok(vec![
            at(Token::LabelDefinition("a".to_string()), 0, 2),
            at(Token::PrimitiveInstruction(nop), 3, 6),
        ])
    );
}

#[test]
fn parse_identifier_stops_at_the_delimiter() {
    let symbols = scan("@ab cd", 0);
    let mut i = 0;
    assert_eq!(parse_identifier(&symbols, &mut i, true), Ok(at("ab".to_string(), 0, 3)));
    assert_eq!(i, 3);
    let mut i = 4;
    assert_eq!(parse_identifier(&symbols, &mut i, false), Ok(at("cd".to_string(), 4, 6)));
    assert_eq!(i, 6);
    let mut i = 3;
    assert_eq!(
        parse_identifier(&symbols, &mut i, false),
        Err(Error::IdentifierExpected { span: span(0, 3, 4) })
    );
    assert_eq!(i, 3);
}

#[test]
fn parse_data_literal_stops_at_the_delimiter() {
    let symbols = scan("#0102 #3", 0);
    let mut i = 0;
    assert_eq!(parse_data_literal(&symbols, &mut i), Ok(at(vec![1u8, 2u8], 0, 5)));
    assert_eq!(i, 5);
    let mut i = 6;
    assert_eq!(
        parse_data_literal(&symbols, &mut i),
        Err(Error::DigitInvalid { digit: '3', span: span(0, 7, 8) })
    );
    assert_eq!(i, 8);
}
