use super::{Error, TokenView};
use crate::instruction::kind_of;
use crate::span::{Span, Spanned};
use vstd::prelude::*;

verus! {

/// Whether a character is a hexadecimal digit, in either case.
pub open spec fn is_hex_digit(c: char) -> bool {
    '0' <= c <= '9' || 'a' <= c <= 'f' || 'A' <= c <= 'F'
}

/// The value of a hexadecimal digit.
pub open spec fn hex_value(c: char) -> int {
    if '0' <= c <= '9' {
        c as int - '0' as int
    } else if 'a' <= c <= 'f' {
        c as int - 'a' as int + 10
    } else {
        c as int - 'A' as int + 10
    }
}

/// Whether a symbol starts with a hexadecimal digit.
pub open spec fn spec_is_digit(symbol: Seq<char>) -> bool {
    symbol.len() > 0 && is_hex_digit(symbol[0])
}

/// Whether a symbol is white space: a space, a tab, or a line break in any
/// of its forms.
pub open spec fn spec_is_whitespace(symbol: Seq<char>) -> bool {
    symbol.len() > 0 && (symbol[0] == ' ' || symbol[0] == '\t' || symbol[0] == '\n' || symbol[0]
        == '\r')
}

/// Whether a symbol ends a line.
pub open spec fn spec_is_line_break(symbol: Seq<char>) -> bool {
    symbol.len() > 0 && (symbol[0] == '\n' || symbol[0] == '\r')
}

/// Whether a symbol ends the token before it.
pub open spec fn spec_is_delimiter(symbol: Seq<char>) -> bool {
    spec_is_whitespace(symbol)
}

/// Whether a symbol is the one given character and nothing else.
pub open spec fn is_char(symbol: Seq<char>, c: char) -> bool {
    symbol.len() == 1 && symbol[0] == c
}

/// What the scanner hands to the lexer, as a mathematical value: the
/// characters of each symbol and the place it was read from.
pub type Symbols = Seq<Spanned<Seq<char>>>;

/// Whether all symbols were read from one file.
pub open spec fn same_file(symbols: Symbols) -> bool {
    forall|i: int, j: int|
        0 <= i < symbols.len() && 0 <= j < symbols.len() ==> symbols[i].span.file_id
            == symbols[j].span.file_id
}

/// Whether every symbol holds at least one character.
pub open spec fn no_empty_symbol(symbols: Symbols) -> bool {
    forall|i: int| 0 <= i < symbols.len() ==> (#[trigger] symbols[i]).node.len() > 0
}

/// The end of the run of symbols that starts at `from` and holds no
/// delimiter: the place of the first delimiter at or after `from`, or the
/// end of the input.
pub open spec fn run_end(symbols: Symbols, from: int) -> int
    decreases symbols.len() - from,
{
    if from < 0 || from >= symbols.len() || spec_is_delimiter(symbols[from].node) {
        from
    } else {
        run_end(symbols, from + 1)
    }
}

/// The end of the run of digits that starts at `from`.
pub open spec fn digits_end(symbols: Symbols, from: int) -> int
    decreases symbols.len() - from,
{
    if from < 0 || from >= symbols.len() || !spec_is_digit(symbols[from].node) {
        from
    } else {
        digits_end(symbols, from + 1)
    }
}

/// The characters of the symbols from `from` up to, not including, `to`.
pub open spec fn text_between(symbols: Symbols, from: int, to: int) -> Seq<char>
    decreases to - from,
{
    if from >= to {
        Seq::empty()
    } else {
        text_between(symbols, from, to - 1) + symbols[to - 1].node
    }
}

/// The byte that two digits write, the first one in the upper half.
pub open spec fn byte_of(upper: Seq<char>, lower: Seq<char>) -> u8 {
    (16 * hex_value(upper[0]) + hex_value(lower[0])) as u8
}

/// The bytes that the digits from `from` up to `to` write, two digits to a
/// byte.
pub open spec fn bytes_between(symbols: Symbols, from: int, to: int) -> Seq<u8>
    decreases to - from,
{
    if to - from < 2 {
        Seq::empty()
    } else {
        bytes_between(symbols, from, to - 2).push(
            byte_of(symbols[to - 2].node, symbols[to - 1].node),
        )
    }
}

/// The name that starts at `at`, or after the marker at `at` when
/// `skip_first` is set: all symbols up to the next delimiter. Its span
/// reaches from the symbol at `at` to the last symbol of the name.
pub open spec fn spec_parse_identifier(symbols: Symbols, at: int, skip_first: bool) -> Result<
    Spanned<Seq<char>>,
    Error,
> {
    let start = if skip_first {
        at + 1
    } else {
        at
    };
    let end = run_end(symbols, start);
    if end <= start {
        Err(Error::IdentifierExpected { span: symbols[at].span })
    } else {
        Ok(
            Spanned {
                node: text_between(symbols, start, end),
                span: Span::spec_combine(symbols[at].span, symbols[end - 1].span),
            },
        )
    }
}

/// The data literal whose `#` stands at `at`. The digits after it must come
/// in pairs and reach up to the next delimiter.
pub open spec fn spec_parse_data_literal(symbols: Symbols, at: int) -> Result<
    Spanned<Seq<u8>>,
    Error,
> {
    let start = at + 1;
    let end = digits_end(symbols, start);
    if end < symbols.len() && !spec_is_delimiter(symbols[end].node) {
        Err(Error::DigitInvalid { digit: symbols[end].node[0], span: symbols[end].span })
    } else if end == start {
        Err(Error::DigitExpected { span: symbols[at].span })
    } else if (end - start) % 2 == 1 {
        Err(Error::DigitInvalid { digit: symbols[end - 1].node[0], span: symbols[end - 1].span })
    } else {
        Ok(
            Spanned {
                node: bytes_between(symbols, start, end),
                span: Span::spec_combine(symbols[at].span, symbols[end - 1].span),
            },
        )
    }
}

/// Whether a symbol is one of the three markers that start a token of their
/// own kind.
pub open spec fn is_marker(symbol: Seq<char>) -> bool {
    is_char(symbol, ':') || is_char(symbol, '@') || is_char(symbol, '#')
}

/// The token that starts at `at`, or what is wrong with it.
pub open spec fn token_at(symbols: Symbols, at: int) -> Result<Spanned<TokenView>, Error> {
    let symbol = symbols[at].node;
    if is_char(symbol, ':') {
        match spec_parse_identifier(symbols, at, true) {
            Ok(name) => Ok(Spanned { node: TokenView::LabelDefinition(name.node), span: name.span }),
            Err(error) => Err(error),
        }
    } else if is_char(symbol, '@') {
        match spec_parse_identifier(symbols, at, true) {
            Ok(name) => Ok(Spanned { node: TokenView::LabelLiteral(name.node), span: name.span }),
            Err(error) => Err(error),
        }
    } else if is_char(symbol, '#') {
        match spec_parse_data_literal(symbols, at) {
            Ok(bytes) => Ok(Spanned { node: TokenView::DataLiteral(bytes.node), span: bytes.span }),
            Err(error) => Err(error),
        }
    } else {
        match spec_parse_identifier(symbols, at, false) {
            Ok(word) => Ok(
                Spanned {
                    node: match kind_of(word.node) {
                        Some(kind) => TokenView::PrimitiveInstruction(kind),
                        None => TokenView::SubroutineJump(word.node),
                    },
                    span: word.span,
                },
            ),
            Err(error) => Err(error),
        }
    }
}

/// Where the token that starts at `at` ends: at the next delimiter, right or
/// wrong.
pub open spec fn token_end(symbols: Symbols, at: int) -> int {
    if is_marker(symbols[at].node) {
        run_end(symbols, at + 1)
    } else {
        run_end(symbols, at)
    }
}

/// Where the gap that starts at `from` ends: the place of the first symbol
/// that is neither white space nor part of a comment, or the end of the
/// input. A comment starts at a `;` in a gap and ends with the line.
pub open spec fn gap_end(symbols: Symbols, from: int, in_comment: bool) -> int
    decreases symbols.len() - from,
{
    if from < 0 || from >= symbols.len() {
        from
    } else if in_comment {
        gap_end(symbols, from + 1, !spec_is_line_break(symbols[from].node))
    } else if spec_is_whitespace(symbols[from].node) {
        gap_end(symbols, from + 1, false)
    } else if is_char(symbols[from].node, ';') {
        gap_end(symbols, from + 1, true)
    } else {
        from
    }
}

/// The tokens that stand at or after `from`, in order, without those that
/// are wrong.
pub open spec fn tokens_from(symbols: Symbols, from: int) -> Seq<Spanned<TokenView>>
    decreases symbols.len() - from,
{
    let at = gap_end(symbols, from, false);
    if from < 0 || at < from || at >= symbols.len() {
        Seq::empty()
    } else {
        let rest = if at < token_end(symbols, at) <= symbols.len() {
            tokens_from(symbols, token_end(symbols, at))
        } else {
            Seq::empty()
        };
        match token_at(symbols, at) {
            Ok(token) => seq![token] + rest,
            Err(_) => rest,
        }
    }
}

/// What is wrong with the tokens that stand at or after `from`, in order.
pub open spec fn errors_from(symbols: Symbols, from: int) -> Seq<Error>
    decreases symbols.len() - from,
{
    let at = gap_end(symbols, from, false);
    if from < 0 || at < from || at >= symbols.len() {
        Seq::empty()
    } else {
        let rest = if at < token_end(symbols, at) <= symbols.len() {
            errors_from(symbols, token_end(symbols, at))
        } else {
            Seq::empty()
        };
        match token_at(symbols, at) {
            Ok(_) => rest,
            Err(error) => seq![error] + rest,
        }
    }
}

/// The tokens of a sequence of symbols, or everything that is wrong with
/// them.
pub open spec fn spec_lex(symbols: Symbols) -> Result<Seq<Spanned<TokenView>>, Seq<Error>> {
    if errors_from(symbols, 0).len() == 0 {
        Ok(tokens_from(symbols, 0))
    } else {
        Err(errors_from(symbols, 0))
    }
}

/// A run that holds no delimiter between `from` and `to` ends where the run
/// from `to` ends.
pub proof fn lemma_run_end(symbols: Symbols, from: int, to: int)
    requires
        0 <= from <= to <= symbols.len(),
        forall|k: int| from <= k < to ==> !spec_is_delimiter(#[trigger] symbols[k].node),
    ensures
        run_end(symbols, from) == run_end(symbols, to),
        to <= run_end(symbols, to) <= symbols.len(),
    decreases symbols.len() - from,
{
    if from < to {
        lemma_run_end(symbols, from + 1, to);
    } else {
        if to < symbols.len() && !spec_is_delimiter(symbols[to].node) {
            lemma_run_end(symbols, to + 1, to + 1);
        }
    }
}

/// A run of digits between `from` and `to` ends where the run from `to`
/// ends.
pub proof fn lemma_digits_end(symbols: Symbols, from: int, to: int)
    requires
        0 <= from <= to <= symbols.len(),
        forall|k: int| from <= k < to ==> spec_is_digit(#[trigger] symbols[k].node),
    ensures
        digits_end(symbols, from) == digits_end(symbols, to),
        to <= digits_end(symbols, to) <= symbols.len(),
    decreases symbols.len() - from,
{
    if from < to {
        lemma_digits_end(symbols, from + 1, to);
    } else {
        if to < symbols.len() && spec_is_digit(symbols[to].node) {
            lemma_digits_end(symbols, to + 1, to + 1);
        }
    }
}

/// The gap that starts at `from` ends where the gap from any place inside it
/// ends.
pub proof fn lemma_gap_end_bounds(symbols: Symbols, from: int, in_comment: bool)
    requires
        0 <= from <= symbols.len(),
    ensures
        from <= gap_end(symbols, from, in_comment) <= symbols.len(),
        gap_end(symbols, from, in_comment) < symbols.len() ==> !spec_is_delimiter(
            symbols[gap_end(symbols, from, in_comment)].node,
        ),
    decreases symbols.len() - from,
{
    if from < symbols.len() {
        if in_comment {
            lemma_gap_end_bounds(symbols, from + 1, !spec_is_line_break(symbols[from].node));
        } else if spec_is_whitespace(symbols[from].node) {
            lemma_gap_end_bounds(symbols, from + 1, false);
        } else if is_char(symbols[from].node, ';') {
            lemma_gap_end_bounds(symbols, from + 1, true);
        }
    }
}

} // verus!
