use crate::instruction::kind_for;
use crate::span::{Span, Spanned};
use vstd::prelude::*;

pub mod error;
pub mod grammar;
pub mod scanner;
pub mod token;

pub use error::Error;
pub use grammar::{
    byte_of, bytes_between, digits_end, errors_from, gap_end, hex_value, is_char, is_hex_digit,
    is_marker, lemma_digits_end, lemma_gap_end_bounds, lemma_run_end, no_empty_symbol, run_end,
    same_file, spec_is_delimiter, spec_is_digit, spec_is_line_break, spec_is_whitespace,
    spec_lex, spec_parse_data_literal, spec_parse_identifier, Symbols, text_between, token_at,
    token_end, tokens_from,
};
pub use scanner::{grapheme_clusters, locate, scan, spec_locate, symbol_at};
pub use token::{Token, TokenView};

verus! {

fn first_char(symbol: &str) -> (first: Option<char>)
    ensures
        first == if symbol@.len() > 0 {
            Some(symbol@[0])
        } else {
            None
        },
{
    if symbol.unicode_len() > 0 {
        Some(symbol.get_char(0))
    } else {
        None
    }
}

fn holds_only(symbol: &str, c: char) -> (only: bool)
    ensures
        only == is_char(symbol@, c),
{
    symbol.unicode_len() == 1 && symbol.get_char(0) == c
}

/// Whether a symbol starts with a hexadecimal digit.
pub fn is_digit(symbol: &str) -> (digit: bool)
    ensures
        digit == spec_is_digit(symbol@),
{
    to_digit(symbol).is_some()
}

/// The value of the hexadecimal digit that a symbol starts with, if it
/// starts with one.
pub fn to_digit(symbol: &str) -> (value: Option<u8>)
    ensures
        value is Some == spec_is_digit(symbol@),
        value matches Some(v) ==> v == hex_value(symbol@[0]),
{
    match first_char(symbol) {
        Some(c) => {
            if '0' <= c && c <= '9' {
                Some((c as u32 - '0' as u32) as u8)
            } else if 'a' <= c && c <= 'f' {
                Some((c as u32 - 'a' as u32 + 10) as u8)
            } else if 'A' <= c && c <= 'F' {
                Some((c as u32 - 'A' as u32 + 10) as u8)
            } else {
                None
            }
        },
        None => None,
    }
}

/// Whether a symbol is white space.
pub fn is_whitespace(symbol: &str) -> (blank: bool)
    ensures
        blank == spec_is_whitespace(symbol@),
{
    match first_char(symbol) {
        Some(c) => c == ' ' || c == '\t' || c == '\n' || c == '\r',
        None => false,
    }
}

/// Whether a symbol ends the token before it.
pub fn is_delimiter(symbol: &str) -> (delimiter: bool)
    ensures
        delimiter == spec_is_delimiter(symbol@),
{
    is_whitespace(symbol)
}

fn is_line_break(symbol: &str) -> (line_break: bool)
    ensures
        line_break == spec_is_line_break(symbol@),
{
    match first_char(symbol) {
        Some(c) => c == '\n' || c == '\r',
        None => false,
    }
}

/// Reads a name: the symbols from `*i`, or from the one after it when
/// `skip_first` is set, up to the next delimiter. Leaves `*i` at that
/// delimiter.
pub fn parse_identifier(symbols: &[Spanned<&str>], i: &mut usize, skip_first: bool) -> (result:
    Result<Spanned<String>, Error>)
    requires
        *old(i) < symbols.len(),
        same_file(symbols.deep_view()),
    ensures
        *final(i) == run_end(
            symbols.deep_view(),
            if skip_first {
                *old(i) + 1
            } else {
                *old(i) as int
            },
        ),
        match result {
            Ok(name) => spec_parse_identifier(symbols.deep_view(), *old(i) as int, skip_first)
                == Ok::<Spanned<Seq<char>>, Error>(name.deep_view()),
            Err(error) => spec_parse_identifier(symbols.deep_view(), *old(i) as int, skip_first)
                == Err::<Spanned<Seq<char>>, Error>(error),
        },
{
    let ghost view = symbols.deep_view();
    let first = symbols[*i].span;
    let mut last = first;
    let mut label = String::new();
    let start: usize = if skip_first {
        *i + 1
    } else {
        *i
    };
    let mut end: usize = start;
    while end < symbols.len() && !is_delimiter(symbols[end].node)
        invariant
            view == symbols.deep_view(),
            start <= end <= symbols.len(),
            forall|k: int| start <= k < end ==> !spec_is_delimiter(#[trigger] view[k].node),
            label@ == text_between(view, start as int, end as int),
            last == if end > start {
                view[end - 1].span
            } else {
                first
            },
            first.file_id == last.file_id,
            same_file(view),
            0 <= *old(i) < symbols.len(),
            first == view[*old(i) as int].span,
        decreases symbols.len() - end,
    {
        proof {
            assert(view[*old(i) as int].span.file_id == view[end as int].span.file_id);
        }
        label.append(symbols[end].node);
        last = symbols[end].span;
        end += 1;
    }
    proof {
        lemma_run_end(view, start as int, end as int);
    }
    *i = end;
    if end == start {
        Err(Error::IdentifierExpected { span: first })
    } else {
        Ok(Spanned { node: label, span: Span::combine(&first, &last) })
    }
}

/// Reads a data literal: the digits after the `#` at `*i`, two to a byte.
/// Leaves `*i` at the next delimiter, whether or not the literal is right.
pub fn parse_data_literal(symbols: &[Spanned<&str>], i: &mut usize) -> (result: Result<
    Spanned<Vec<u8>>,
    Error,
>)
    requires
        *old(i) < symbols.len(),
        same_file(symbols.deep_view()),
        no_empty_symbol(symbols.deep_view()),
    ensures
        *final(i) == run_end(symbols.deep_view(), *old(i) + 1),
        match result {
            Ok(bytes) => spec_parse_data_literal(symbols.deep_view(), *old(i) as int) == Ok::<
                Spanned<Seq<u8>>,
                Error,
            >(bytes.deep_view()),
            Err(error) => spec_parse_data_literal(symbols.deep_view(), *old(i) as int) == Err::<
                Spanned<Seq<u8>>,
                Error,
            >(error),
        },
{
    let ghost view = symbols.deep_view();
    let first = symbols[*i].span;
    let mut last = first;
    let mut upper: Option<u8> = None;
    let mut bytes: Vec<u8> = Vec::new();
    let start: usize = *i + 1;
    let mut end: usize = start;
    loop
        invariant_except_break
            upper is Some <==> (end - start) % 2 == 1,
            upper matches Some(value) ==> value == hex_value(view[end - 1].node[0]),
            bytes@ == bytes_between(view, start as int, end - (end - start) % 2),
        invariant
            view == symbols.deep_view(),
            start <= end <= symbols.len(),
            forall|k: int| start <= k < end ==> spec_is_digit(#[trigger] view[k].node),
            last == if end > start {
                view[end - 1].span
            } else {
                first
            },
            first.file_id == last.file_id,
            same_file(view),
            0 <= *old(i) < symbols.len(),
            start == *old(i) + 1,
            first == view[*old(i) as int].span,
        ensures
            end == symbols.len() || !spec_is_digit(view[end as int].node),
            upper is Some <==> (end - start) % 2 == 1,
            bytes@ == bytes_between(view, start as int, end - (end - start) % 2),
        decreases symbols.len() - end,
    {
        if end >= symbols.len() {
            break ;
        }
        let digit = match to_digit(symbols[end].node) {
            Some(digit) => digit,
            None => {
                break ;
            },
        };
        proof {
            assert(view[*old(i) as int].span.file_id == view[end as int].span.file_id);
        }
        match upper {
            Some(value) => {
                bytes.push(value * 16 + digit);
                upper = None;
            },
            None => {
                upper = Some(digit);
            },
        }
        last = symbols[end].span;
        end += 1;
    }
    proof {
        lemma_digits_end(view, start as int, end as int);
    }
    let mut stop: usize = end;
    while stop < symbols.len() && !is_delimiter(symbols[stop].node)
        invariant
            view == symbols.deep_view(),
            end <= stop <= symbols.len(),
            forall|k: int| end <= k < stop ==> !spec_is_delimiter(#[trigger] view[k].node),
        decreases symbols.len() - stop,
    {
        stop += 1;
    }
    proof {
        assert forall|k: int| start <= k < stop implies !spec_is_delimiter(
            #[trigger] view[k].node,
        ) by {
            if k < end {
                assert(spec_is_digit(view[k].node));
            }
        }
        lemma_run_end(view, start as int, stop as int);
    }
    *i = stop;
    if stop > end {
        let symbol = symbols[end].node;
        proof {
            assert(view[end as int].node.len() > 0);
        }
        Err(Error::DigitInvalid { digit: symbol.get_char(0), span: symbols[end].span })
    } else if end == start {
        Err(Error::DigitExpected { span: first })
    } else if upper.is_some() {
        let symbol = symbols[end - 1].node;
        proof {
            assert(view[end - 1].node.len() > 0);
        }
        Err(Error::DigitInvalid { digit: symbol.get_char(0), span: last })
    } else {
        proof {
            assert(bytes.deep_view() =~= bytes@);
        }
        Ok(Spanned { node: bytes, span: Span::combine(&first, &last) })
    }
}

/// Skips white space and comments: the place of the first symbol at or after
/// `from` that starts a token, or the end of the input.
fn skip_gap(symbols: &[Spanned<&str>], from: usize) -> (at: usize)
    requires
        from <= symbols.len(),
    ensures
        at == gap_end(symbols.deep_view(), from as int, false),
        from <= at <= symbols.len(),
{
    let ghost view = symbols.deep_view();
    let mut at: usize = from;
    let mut in_comment = false;
    proof {
        lemma_gap_end_bounds(view, from as int, false);
    }
    loop
        invariant
            view == symbols.deep_view(),
            from <= at <= symbols.len(),
            gap_end(view, at as int, in_comment) == gap_end(view, from as int, false),
        ensures
            !in_comment,
            at == gap_end(view, from as int, false),
        decreases symbols.len() - at,
    {
        if at >= symbols.len() {
            in_comment = false;
            break ;
        }
        let symbol = symbols[at].node;
        if in_comment {
            in_comment = !is_line_break(symbol);
        } else if is_whitespace(symbol) {
        } else if holds_only(symbol, ';') {
            in_comment = true;
        } else {
            break ;
        }
        at += 1;
    }
    at
}

/// The tokens of a sequence of symbols that a scanner has read from one
/// file. Nothing stops at the first mistake: every token that is wrong is
/// reported, and no token is returned if one is.
pub fn lex(symbols: &[Spanned<&str>]) -> (result: Result<Vec<Spanned<Token>>, Vec<Error>>)
    requires
        same_file(symbols.deep_view()),
        no_empty_symbol(symbols.deep_view()),
    ensures
        match result {
            Ok(tokens) => spec_lex(symbols.deep_view()) == Ok::<
                Seq<Spanned<TokenView>>,
                Seq<Error>,
            >(tokens.deep_view()),
            Err(errors) => spec_lex(symbols.deep_view()) == Err::<
                Seq<Spanned<TokenView>>,
                Seq<Error>,
            >(errors@),
        },
{
    let ghost view = symbols.deep_view();
    let mut tokens: Vec<Spanned<Token>> = Vec::new();
    let mut errors: Vec<Error> = Vec::new();
    let mut i: usize = 0;
    proof {
        assert(tokens.deep_view() =~= Seq::empty());
    }
    loop
        invariant
            view == symbols.deep_view(),
            same_file(view),
            no_empty_symbol(view),
            i <= symbols.len(),
            tokens.deep_view() + tokens_from(view, i as int) == tokens_from(view, 0),
            errors@ + errors_from(view, i as int) == errors_from(view, 0),
        ensures
            tokens.deep_view() == tokens_from(view, 0),
            errors@ == errors_from(view, 0),
        decreases symbols.len() - i,
    {
        let ghost from = i as int;
        let at = skip_gap(symbols, i);
        if at >= symbols.len() {
            proof {
                assert(tokens.deep_view() + Seq::empty() =~= tokens.deep_view());
                assert(errors@ + Seq::empty() =~= errors@);
            }
            break ;
        }
        let ghost before = tokens.deep_view();
        let ghost wrong = errors@;
        let ghost rest = tokens_from(view, token_end(view, at as int));
        let ghost rest_wrong = errors_from(view, token_end(view, at as int));
        let symbol = symbols[at].node;
        i = at;
        let lexed: Result<Spanned<Token>, Error> = if holds_only(symbol, ':') {
            match parse_identifier(symbols, &mut i, true) {
                Ok(name) => Ok(Spanned { node: Token::LabelDefinition(name.node), span: name.span }),
                Err(error) => Err(error),
            }
        } else if holds_only(symbol, '@') {
            match parse_identifier(symbols, &mut i, true) {
                Ok(name) => Ok(Spanned { node: Token::LabelLiteral(name.node), span: name.span }),
                Err(error) => Err(error),
            }
        } else if holds_only(symbol, '#') {
            match parse_data_literal(symbols, &mut i) {
                Ok(bytes) => {
                    proof {
                        assert(bytes.node.deep_view() =~= bytes.node@);
                    }
                    Ok(Spanned { node: Token::DataLiteral(bytes.node), span: bytes.span })
                },
                Err(error) => Err(error),
            }
        } else {
            match parse_identifier(symbols, &mut i, false) {
                Ok(word) => {
                    let node = match kind_for(word.node.as_str()) {
                        Some(kind) => Token::PrimitiveInstruction(kind),
                        None => Token::SubroutineJump(word.node),
                    };
                    Ok(Spanned { node, span: word.span })
                },
                Err(error) => Err(error),
            }
        };
        proof {
            lemma_gap_end_bounds(view, from, false);
            lemma_run_end(view, at + 1, at + 1);
            assert(i == token_end(view, at as int));
            assert(at < i <= symbols.len());
        }
        match lexed {
            Ok(token) => {
                proof {
                    assert(token_at(view, at as int) == Ok::<Spanned<TokenView>, Error>(
                        token.deep_view(),
                    ));
                }
                tokens.push(token);
                proof {
                    assert(tokens.deep_view() =~= before.push(token.deep_view()));
                    assert(before.push(token.deep_view()) + rest =~= before + (seq![
                        token.deep_view(),
                    ] + rest));
                }
            },
            Err(error) => {
                proof {
                    assert(token_at(view, at as int) == Err::<Spanned<TokenView>, Error>(error));
                }
                errors.push(error);
                proof {
                    assert(wrong.push(error) + rest_wrong =~= wrong + (seq![error] + rest_wrong));
                }
            },
        }
    }
    if errors.len() == 0 {
        Ok(tokens)
    } else {
        Err(errors)
    }
}

/// The tokens of a source text, or everything that is wrong with them.
pub fn tokenize(input_string: &str, file_id: usize) -> (result: Result<
    Vec<Spanned<Token>>,
    Vec<Error>,
>)
    ensures
        match result {
            Ok(tokens) => spec_lex(spec_locate(grapheme_clusters(input_string@), file_id)) == Ok::<
                Seq<Spanned<TokenView>>,
                Seq<Error>,
            >(tokens.deep_view()),
            Err(errors) => spec_lex(spec_locate(grapheme_clusters(input_string@), file_id))
                == Err::<Seq<Spanned<TokenView>>, Seq<Error>>(errors@),
        },
{
    let symbols = scan(input_string, file_id);
    lex(symbols.as_slice())
}

} // verus!
