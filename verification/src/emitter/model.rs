use super::atom::{
    constant_total, dependent_total, rendered, AddressView, AddressableKind, AtomView,
    ConstantKindView, Offset,
};
use super::error::ErrorView;
use super::stream::AtomStreamView;
use crate::argument_parser::YotType;
use crate::span::{Span, Spanned};
use crate::tokenizer::TokenView;
use vstd::prelude::*;

verus! {

/// What is wrong with the addresses of a sequence of atoms: one error for
/// each address that is still a name, in the order of the atoms.
pub open spec fn unresolved(atoms: Seq<AtomView>) -> Seq<ErrorView>
    decreases atoms.len(),
{
    if atoms.len() == 0 {
        Seq::empty()
    } else {
        match atoms.last() {
            AtomView::Addressable(AddressView::Deferred(label), _) => unresolved(
                atoms.drop_last(),
            ).push(ErrorView::CannotFindLabel { label: label.node, span: label.span }),
            _ => unresolved(atoms.drop_last()),
        }
    }
}

/// The image of a sequence of atoms for a machine whose addresses are
/// `width` bytes wide, or the labels that it lacks.
pub open spec fn spec_render(atoms: Seq<AtomView>, width: int) -> Result<Seq<u8>, Seq<ErrorView>> {
    if unresolved(atoms).len() == 0 {
        Ok(rendered(atoms, width))
    } else {
        Err(unresolved(atoms))
    }
}

/// The atom that a token becomes. The definition of a label becomes none:
/// it takes no room in the image.
pub open spec fn atom_of(token: Spanned<TokenView>) -> Option<AtomView> {
    match token.node {
        TokenView::PrimitiveInstruction(kind) => Some(
            AtomView::Constant(ConstantKindView::PrimitiveInstruction(kind)),
        ),
        TokenView::SubroutineJump(label) => Some(
            AtomView::Addressable(
                AddressView::Deferred(Spanned { node: label, span: token.span }),
                AddressableKind::SubroutineJump,
            ),
        ),
        TokenView::DataLiteral(data) => Some(AtomView::Constant(ConstantKindView::DataLiteral(data))),
        TokenView::LabelDefinition(_) => None,
        TokenView::LabelLiteral(label) => Some(
            AtomView::Addressable(
                AddressView::Deferred(Spanned { node: label, span: token.span }),
                AddressableKind::LabelLiteral,
            ),
        ),
    }
}

/// The atoms that a sequence of tokens becomes, in order, with every
/// address still a name.
pub open spec fn atomized(tokens: Seq<Spanned<TokenView>>) -> Seq<AtomView>
    decreases tokens.len(),
{
    if tokens.len() == 0 {
        Seq::empty()
    } else {
        match atom_of(tokens.last()) {
            Some(atom) => atomized(tokens.drop_last()).push(atom),
            None => atomized(tokens.drop_last()),
        }
    }
}

/// Whether the size of what a sequence of tokens becomes can be held.
pub open spec fn fits(tokens: Seq<Spanned<TokenView>>) -> bool {
    &&& constant_total(atomized(tokens)) <= usize::MAX
    &&& dependent_total(atomized(tokens)) <= usize::MAX
}

/// The place after a sequence of tokens: the size of what they become.
pub open spec fn position(tokens: Seq<Spanned<TokenView>>) -> Offset {
    Offset {
        constant: constant_total(atomized(tokens)) as usize,
        yot_type_dependent: dependent_total(atomized(tokens)) as usize,
    }
}

/// The labels that a sequence of tokens defines: each name is bound, where
/// it is first defined, to the place after the tokens before it.
pub open spec fn label_table(tokens: Seq<Spanned<TokenView>>) -> Map<Seq<char>, (Offset, Span)>
    decreases tokens.len(),
{
    if tokens.len() == 0 {
        Map::empty()
    } else {
        let earlier = label_table(tokens.drop_last());
        match tokens.last().node {
            TokenView::LabelDefinition(label) => if earlier.contains_key(label) {
                earlier
            } else {
                earlier.insert(label, (position(tokens.drop_last()), tokens.last().span))
            },
            _ => earlier,
        }
    }
}

/// What is wrong with the definitions of labels in a sequence of tokens:
/// one error for each definition of a name that is defined before it, with
/// the span of the first definition of the name.
pub open spec fn duplicates(tokens: Seq<Spanned<TokenView>>) -> Seq<ErrorView>
    decreases tokens.len(),
{
    if tokens.len() == 0 {
        Seq::empty()
    } else {
        let earlier = label_table(tokens.drop_last());
        match tokens.last().node {
            TokenView::LabelDefinition(label) => if earlier.contains_key(label) {
                duplicates(tokens.drop_last()).push(
                    ErrorView::LabelDefinedMoreThanOnce {
                        label,
                        current_label_span: tokens.last().span,
                        previously_defined_label_span: earlier[label].1,
                    },
                )
            } else {
                duplicates(tokens.drop_last())
            },
            _ => duplicates(tokens.drop_last()),
        }
    }
}

/// The atoms of a sequence of tokens with the addresses of its own labels
/// looked up.
pub open spec fn resolved_atoms(tokens: Seq<Spanned<TokenView>>) -> Seq<AtomView> {
    atomized(tokens).map_values(|atom: AtomView| atom.resolved(label_table(tokens)))
}

/// What a sequence of tokens becomes: its atoms, every address resolved to
/// a place counted from the first token, or everything that is wrong with
/// its labels: first the definitions that repeat a name, then the names
/// that are used and not defined.
pub open spec fn spec_emit_tokens(tokens: Seq<Spanned<TokenView>>) -> Result<
    AtomStreamView,
    Seq<ErrorView>,
> {
    let errors = duplicates(tokens) + unresolved(resolved_atoms(tokens));
    if errors.len() == 0 {
        Ok(AtomStreamView { atoms: resolved_atoms(tokens), offset: position(tokens) })
    } else {
        Err(errors)
    }
}

/// The place of the first atom after the prologue: two addresses.
pub open spec fn prologue_offset() -> Offset {
    Offset { constant: 0, yot_type_dependent: 2 }
}

/// The atoms that every image starts with: the first value of the stack
/// pointer, and the address of the first byte after the two.
pub open spec fn prologue(yot_type: YotType, initial_stack_pointer: u64) -> Seq<AtomView> {
    seq![
        AtomView::Constant(ConstantKindView::AddressLiteral(initial_stack_pointer)),
        AtomView::Constant(ConstantKindView::AddressLiteral((2 * yot_type.spec_bytes()) as u64)),
    ]
}

/// All atoms of an image: the prologue, and the atoms of the tokens with
/// every address moved on by the size of the prologue, so that it counts
/// from the start of the image.
pub open spec fn image_atoms(
    tokens: Seq<Spanned<TokenView>>,
    yot_type: YotType,
    initial_stack_pointer: u64,
) -> Seq<AtomView> {
    prologue(yot_type, initial_stack_pointer) + resolved_atoms(tokens).map_values(
        |atom: AtomView| atom.shifted(prologue_offset()),
    )
}

/// The number of bytes of the image of a sequence of tokens, before it is
/// padded.
pub open spec fn spec_image_size(tokens: Seq<Spanned<TokenView>>, yot_type: YotType) -> int {
    constant_total(atomized(tokens)) + (dependent_total(atomized(tokens)) + 2)
        * yot_type.spec_bytes()
}

/// An image brought to an exact size: filled up with zero bytes at its end,
/// or refused if it is longer already.
pub open spec fn spec_pad(binary: Seq<u8>, size: usize) -> Result<Seq<u8>, ErrorView> {
    if binary.len() > size {
        Err(
            ErrorView::BinaryTooLarge {
                current_size: binary.len() as usize,
                requested_size: size,
            },
        )
    } else {
        Ok(binary + Seq::new((size - binary.len()) as nat, |i: int| 0u8))
    }
}

/// The image of a sequence of tokens, or everything that is wrong with
/// them. The labels are looked at first; only an image whose labels are in
/// order is held against the size that was asked for.
pub open spec fn spec_emit(
    tokens: Seq<Spanned<TokenView>>,
    yot_type: YotType,
    initial_stack_pointer: u64,
    exact_binary_size: Option<usize>,
) -> Result<Seq<u8>, Seq<ErrorView>> {
    match spec_emit_tokens(tokens) {
        Err(errors) => Err(errors),
        Ok(_) => {
            let binary = rendered(
                image_atoms(tokens, yot_type, initial_stack_pointer),
                yot_type.spec_bytes(),
            );
            match exact_binary_size {
                None => Ok(binary),
                Some(size) => match spec_pad(binary, size) {
                    Ok(padded) => Ok(padded),
                    Err(error) => Err(seq![error]),
                },
            }
        },
    }
}

} // verus!
