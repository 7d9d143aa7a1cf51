use crate::instruction::InstructionKind;
use crate::span::{Span, Spanned, Spanning};
use vstd::prelude::*;

verus! {

/// One lexical unit of an assembly source.
#[derive(Debug, Clone, PartialEq, Eq)]
pub enum Token {
    /// An instruction of the machine, written as its mnemonic.
    PrimitiveInstruction(InstructionKind),
    /// A bare word: a call of the subroutine at the label of that name.
    SubroutineJump(String),
    /// Bytes to push, written as pairs of hexadecimal digits after `#`.
    DataLiteral(Vec<u8>),
    /// A name after `:`, bound to the position of what follows it.
    LabelDefinition(String),
    /// A name after `@`: the address of the label, pushed as a value.
    LabelLiteral(String),
}

/// A token as a mathematical value.
pub enum TokenView {
    PrimitiveInstruction(InstructionKind),
    SubroutineJump(Seq<char>),
    DataLiteral(Seq<u8>),
    LabelDefinition(Seq<char>),
    LabelLiteral(Seq<char>),
}

impl View for Token {
    type V = TokenView;

    open spec fn view(&self) -> TokenView {
        match self {
            Token::PrimitiveInstruction(kind) => TokenView::PrimitiveInstruction(*kind),
            Token::SubroutineJump(label) => TokenView::SubroutineJump(label@),
            Token::DataLiteral(bytes) => TokenView::DataLiteral(bytes@),
            Token::LabelDefinition(label) => TokenView::LabelDefinition(label@),
            Token::LabelLiteral(label) => TokenView::LabelLiteral(label@),
        }
    }
}

impl DeepView for Token {
    type V = TokenView;

    open spec fn deep_view(&self) -> TokenView {
        self@
    }
}

impl Spanning for Token {
    fn spanning(self, span: Span) -> (spanned: Spanned<Token>) {
        Spanned { node: self, span }
    }
}

} // verus!
