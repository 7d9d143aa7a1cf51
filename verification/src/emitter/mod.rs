use crate::argument_parser::YotType;
use crate::instruction::opcode_for;
use crate::span::Spanned;
use crate::tokenizer::Token;
use vstd::prelude::*;

pub mod atom;
pub mod error;
pub mod label;
pub mod laws;
pub mod model;
pub mod stream;

pub use atom::{
    Address, AddressView, AddressableKind, Atom, AtomView, ConstantKind, ConstantKindView, Offset,
    PUSH_OPCODE, SUBROUTINE_JUMP_OPCODE,
};
pub use error::{Error, ErrorView};
pub use label::LabelTable;
use laws::{
    lemma_image_renders, lemma_prefix_fits, lemma_take_step, lemma_totals_nonnegative,
    lemma_totals_push, lemma_unresolved,
};
pub use model::{
    atom_of, atomized, duplicates, fits, image_atoms, label_table, position, prologue,
    prologue_offset, resolved_atoms, spec_emit, spec_emit_tokens, spec_image_size, spec_pad,
    spec_render, unresolved,
};
pub use stream::{AtomStream, AtomStreamView};

verus! {

/// The errors for the addresses among the atoms that are still names.
fn missing_labels(atoms: &[Atom]) -> (errors: Vec<Error>)
    ensures
        errors.deep_view() == unresolved(atoms.deep_view()),
{
    let ghost view = atoms.deep_view();
    let mut errors: Vec<Error> = Vec::new();
    let mut i: usize = 0;
    proof {
        assert(view.take(0) =~= Seq::empty());
        assert(errors.deep_view() =~= Seq::empty());
    }
    while i < atoms.len()
        invariant
            view == atoms.deep_view(),
            i <= atoms.len(),
            errors.deep_view() == unresolved(view.take(i as int)),
        decreases atoms.len() - i,
    {
        proof {
            lemma_take_step(view, i as int);
        }
        let ghost before = errors.deep_view();
        match &atoms[i] {
            Atom::Addressable(Address::Deferred(label), _) => {
                let error = Error::CannotFindLabel { label: label.node.clone(), span: label.span };
                errors.push(error);
                proof {
                    assert(errors.deep_view() =~= before.push(error.deep_view()));
                }
            },
            _ => {},
        }
        i += 1;
    }
    proof {
        assert(view.take(atoms.len() as int) =~= view);
    }
    errors
}

/// Appends the lowest `width` bytes of a value to an image, the most
/// significant of them first: as they are, or each after a push opcode.
fn write_address(binary: &mut Vec<u8>, value: u64, width: usize, pushed: bool)
    ensures
        final(binary)@ == old(binary)@ + if pushed {
            atom::pushed_address(value as int, width as int)
        } else {
            atom::address_bytes(value as int, width as int)
        },
    decreases width,
{
    if width > 0 {
        write_address(binary, value / 256, width - 1, pushed);
        let ghost before = binary@;
        if pushed {
            binary.push(PUSH_OPCODE);
        }
        binary.push((value % 256) as u8);
        proof {
            if pushed {
                assert(binary@ =~= old(binary)@ + atom::pushed_address(
                    value as int,
                    width as int,
                ));
            } else {
                assert(binary@ =~= old(binary)@ + atom::address_bytes(value as int, width as int));
            }
        }
    } else {
        proof {
            assert(binary@ =~= old(binary)@ + Seq::<u8>::empty());
        }
    }
}

/// Appends the code that pushes the bytes of a data literal to an image.
fn write_data(binary: &mut Vec<u8>, data: &Vec<u8>)
    ensures
        final(binary)@ == old(binary)@ + atom::pushed_data(data@),
{
    let mut i: usize = 0;
    proof {
        assert(data@.take(0) =~= Seq::empty());
        assert(binary@ =~= old(binary)@ + Seq::<u8>::empty());
    }
    while i < data.len()
        invariant
            i <= data.len(),
            binary@ == old(binary)@ + atom::pushed_data(data@.take(i as int)),
        decreases data.len() - i,
    {
        proof {
            lemma_take_step(data@, i as int);
        }
        binary.push(PUSH_OPCODE);
        binary.push(data[i]);
        proof {
            assert(binary@ =~= old(binary)@ + atom::pushed_data(data@.take(i + 1)));
        }
        i += 1;
    }
    proof {
        assert(data@.take(data.len() as int) =~= data@);
    }
}

/// Writes the image of a sequence of atoms for the given machine. Every
/// address among them must be resolved: if one is not, nothing is written
/// and each of them is reported.
pub fn render(atoms: &[Atom], yot_type: YotType) -> (result: Result<Vec<u8>, Vec<Error>>)
    requires
        forall|i: int|
            0 <= i < atoms.len() ==> (#[trigger] atoms.deep_view()[i]).renders(
                yot_type.spec_bytes(),
            ),
    ensures
        match result {
            Ok(binary) => spec_render(atoms.deep_view(), yot_type.spec_bytes()) == Ok::<
                Seq<u8>,
                Seq<ErrorView>,
            >(binary@),
            Err(errors) => spec_render(atoms.deep_view(), yot_type.spec_bytes()) == Err::<
                Seq<u8>,
                Seq<ErrorView>,
            >(errors.deep_view()),
        },
{
    let errors = missing_labels(atoms);
    if errors.len() > 0 {
        return Err(errors);
    }
    let ghost view = atoms.deep_view();
    let ghost width = yot_type.spec_bytes();
    let mut binary: Vec<u8> = Vec::new();
    let mut i: usize = 0;
    proof {
        assert(view.take(0) =~= Seq::empty());
    }
    while i < atoms.len()
        invariant
            view == atoms.deep_view(),
            width == yot_type.spec_bytes(),
            i <= atoms.len(),
            binary@ == atom::rendered(view.take(i as int), width),
            forall|i: int| 0 <= i < atoms.len() ==> (#[trigger] view[i]).renders(width),
        decreases atoms.len() - i,
    {
        proof {
            lemma_take_step(view, i as int);
            assert(view[i as int].renders(width));
        }
        match &atoms[i] {
            Atom::Constant(ConstantKind::PrimitiveInstruction(kind)) => {
                binary.push(opcode_for(kind));
            },
            Atom::Constant(ConstantKind::DataLiteral(data)) => {
                write_data(&mut binary, data);
            },
            Atom::Constant(ConstantKind::AddressLiteral(address)) => {
                write_address(&mut binary, *address, yot_type.bytes(), false);
            },
            Atom::Addressable(Address::Resolved(offset), kind) => {
                let address = offset.render(yot_type);
                write_address(&mut binary, address as u64, yot_type.bytes(), true);
                match kind {
                    AddressableKind::LabelLiteral => {},
                    AddressableKind::SubroutineJump => {
                        binary.push(SUBROUTINE_JUMP_OPCODE);
                    },
                }
            },
            Atom::Addressable(Address::Deferred(_), _) => {},
        }
        proof {
            assert(binary@ =~= atom::rendered(view.take(i as int), width) + view[i as int].bytes(
                width,
            ));
        }
        i += 1;
    }
    proof {
        assert(view.take(atoms.len() as int) =~= view);
    }
    Ok(binary)
}

/// Turns tokens into atoms and resolves the addresses of the labels that
/// the tokens define. Nothing stops at the first mistake: every definition
/// that repeats a name and every name that is used and not defined is
/// reported, and no atoms are returned if there is one.
pub fn emit_tokens(tokens: &[Spanned<Token>]) -> (result: Result<AtomStream, Vec<Error>>)
    requires
        fits(tokens.deep_view()),
    ensures
        match result {
            Ok(stream) => spec_emit_tokens(tokens.deep_view()) == Ok::<
                AtomStreamView,
                Seq<ErrorView>,
            >(stream@),
            Err(errors) => spec_emit_tokens(tokens.deep_view()) == Err::<
                AtomStreamView,
                Seq<ErrorView>,
            >(errors.deep_view()),
        },
{
    let ghost view = tokens.deep_view();
    let mut errors: Vec<Error> = Vec::new();
    let mut atom_stream = AtomStream::new();
    let mut label_definitions = LabelTable::new();
    let mut i: usize = 0;
    proof {
        assert(view.take(0) =~= Seq::empty());
        assert(errors.deep_view() =~= Seq::empty());
    }
    while i < tokens.len()
        invariant
            view == tokens.deep_view(),
            fits(view),
            i <= tokens.len(),
            atom_stream@.atoms == atomized(view.take(i as int)),
            atom_stream@.offset == position(view.take(i as int)),
            label_definitions@ == label_table(view.take(i as int)),
            errors.deep_view() == duplicates(view.take(i as int)),
        decreases tokens.len() - i,
    {
        let ghost before = errors.deep_view();
        proof {
            lemma_take_step(view, i as int);
            lemma_prefix_fits(view, i as int);
            lemma_prefix_fits(view, i + 1);
            match atom_of(view[i as int]) {
                Some(atom) => {
                    lemma_totals_push(atomized(view.take(i as int)), atom);
                },
                None => {},
            }
        }
        let token = &tokens[i];
        match &token.node {
            Token::PrimitiveInstruction(instruction_kind) => {
                atom_stream.push_primitive_instruction(*instruction_kind);
            },
            Token::SubroutineJump(label) => {
                atom_stream.push_subroutine_jump(label.clone(), token.span);
            },
            Token::DataLiteral(byte_vector) => {
                let data = byte_vector.clone();
                proof {
                    assert(data@ =~= byte_vector@);
                }
                atom_stream.push_data_literal(data);
            },
            Token::LabelDefinition(label) => {
                if let Some(previous_span) = label_definitions.define(
                    label.clone(),
                    atom_stream.offset(),
                    token.span,
                ) {
                    let error = Error::LabelDefinedMoreThanOnce {
                        label: label.clone(),
                        current_label_span: token.span,
                        previously_defined_label_span: previous_span,
                    };
                    errors.push(error);
                    proof {
                        assert(errors.deep_view() =~= before.push(error.deep_view()));
                    }
                }
            },
            Token::LabelLiteral(label) => {
                atom_stream.push_label_literal(label.clone(), token.span);
            },
        }
        i += 1;
    }
    proof {
        assert(view.take(tokens.len() as int) =~= view);
    }
    let looked_up = atom_stream.resolved(&label_definitions);
    let atoms = looked_up.atoms().as_slice();
    proof {
        assert(atoms.deep_view() =~= looked_up@.atoms);
    }
    let mut missing = missing_labels(atoms);
    let ghost first = errors.deep_view();
    let ghost second = missing.deep_view();
    errors.append(&mut missing);
    proof {
        assert(errors.deep_view() =~= first + second);
    }
    if errors.len() == 0 {
        Ok(looked_up)
    } else {
        Err(errors)
    }
}

/// Brings an image to an exact size: fills it up with zero bytes at its
/// end, or refuses it, unchanged, if it is longer already.
pub fn pad(binary: &mut Vec<u8>, size: usize) -> (result: Result<(), Error>)
    ensures
        match result {
            Ok(_) => spec_pad(old(binary)@, size) == Ok::<Seq<u8>, ErrorView>(final(binary)@),
            Err(error) => spec_pad(old(binary)@, size) == Err::<Seq<u8>, ErrorView>(error@)
                && final(binary)@ == old(binary)@,
        },
{
    if binary.len() > size {
        Err(Error::BinaryTooLarge { current_size: binary.len(), requested_size: size })
    } else {
        proof {
            assert(binary@ =~= old(binary)@ + Seq::new(0nat, |i: int| 0u8));
        }
        while binary.len() < size
            invariant
                old(binary)@.len() <= binary@.len() <= size,
                binary@ == old(binary)@ + Seq::new(
                    (binary@.len() - old(binary)@.len()) as nat,
                    |i: int| 0u8,
                ),
            decreases size - binary.len(),
        {
            binary.push(0);
            proof {
                assert(binary@ =~= old(binary)@ + Seq::new(
                    (binary@.len() - old(binary)@.len()) as nat,
                    |i: int| 0u8,
                ));
            }
        }
        Ok(())
    }
}

/// Writes the image of a program for the given machine: the first value of
/// the stack pointer, the address of the first instruction, and the code,
/// in which every label stands for its address in the image. With an exact
/// size, the image is filled up to it with zero bytes, or refused if it is
/// longer. Every mistake in the labels is reported, not the first only,
/// and nothing is written if there is one. A value that is wider than an
/// address of the machine, be it the stack pointer or the address of a
/// label, is written with its lowest bytes only. The image must be short
/// enough for a `usize` to hold its length, which `image_size` tells.
pub fn emit(
    tokens: &[Spanned<Token>],
    yot_type: YotType,
    initial_stack_pointer: u64,
    exact_binary_size: Option<usize>,
) -> (result: Result<Vec<u8>, Vec<Error>>)
    requires
        spec_image_size(tokens.deep_view(), yot_type) <= usize::MAX,
    ensures
        match result {
            Ok(binary) => spec_emit(
                tokens.deep_view(),
                yot_type,
                initial_stack_pointer,
                exact_binary_size,
            ) == Ok::<Seq<u8>, Seq<ErrorView>>(binary@),
            Err(errors) => spec_emit(
                tokens.deep_view(),
                yot_type,
                initial_stack_pointer,
                exact_binary_size,
            ) == Err::<Seq<u8>, Seq<ErrorView>>(errors.deep_view()),
        },
{
    let ghost view = tokens.deep_view();
    proof {
        lemma_image_renders(view, yot_type, initial_stack_pointer);
    }
    let mut atom_stream = AtomStream::new();
    atom_stream.push_address_literal(initial_stack_pointer);
    atom_stream.push_address_literal(yot_type.bytes() as u64 * 2);
    proof {
        assert(atom_stream@.atoms =~= prologue(yot_type, initial_stack_pointer));
    }
    let nested_atom_stream = match emit_tokens(tokens) {
        Ok(stream) => stream,
        Err(errors) => {
            return Err(errors);
        },
    };
    atom_stream.extend(nested_atom_stream.offseted(atom_stream.offset()));
    let atoms = atom_stream.atoms().as_slice();
    proof {
        let image = image_atoms(view, yot_type, initial_stack_pointer);
        assert(atoms.deep_view() =~= image);
        lemma_unresolved(resolved_atoms(view));
        lemma_unresolved(image);
        assert forall|k: int| 0 <= k < image.len() implies !(#[trigger] image[k]).is_deferred() by {
            if k >= 2 {
                assert(!resolved_atoms(view)[k - 2].is_deferred());
            }
        }
    }
    let mut binary = match render(atoms, yot_type) {
        Ok(binary) => binary,
        Err(errors) => {
            return Err(errors);
        },
    };
    if let Some(size) = exact_binary_size {
        match pad(&mut binary, size) {
            Ok(_) => {},
            Err(error) => {
                let mut errors: Vec<Error> = Vec::new();
                errors.push(error);
                proof {
                    assert(errors.deep_view() =~= seq![error@]);
                }
                return Err(errors);
            },
        }
    }
    Ok(binary)
}

/// The number of bytes that the image of a program takes on the given
/// machine before it is padded, or `None` if no `usize` can hold it.
pub fn image_size(tokens: &[Spanned<Token>], yot_type: YotType) -> (size: Option<usize>)
    ensures
        match size {
            Some(bytes) => bytes == spec_image_size(tokens.deep_view(), yot_type),
            None => spec_image_size(tokens.deep_view(), yot_type) > usize::MAX,
        },
{
    let ghost view = tokens.deep_view();
    let ghost width = yot_type.spec_bytes();
    let mut constant: usize = 0;
    let mut dependent: usize = 2;
    let mut i: usize = 0;
    proof {
        assert(view.take(0) =~= Seq::empty());
    }
    while i < tokens.len()
        invariant
            view == tokens.deep_view(),
            width == yot_type.spec_bytes(),
            i <= tokens.len(),
            constant == atom::constant_total(atomized(view.take(i as int))),
            dependent == atom::dependent_total(atomized(view.take(i as int))) + 2,
        decreases tokens.len() - i,
    {
        proof {
            lemma_take_step(view, i as int);
            lemma_prefix_fits(view, i + 1);
            lemma_totals_nonnegative(atomized(view));
            match atom_of(view[i as int]) {
                Some(atom) => {
                    lemma_totals_push(atomized(view.take(i as int)), atom);
                },
                None => {},
            }
            assert(atom::dependent_total(atomized(view)) + 2 <= (atom::dependent_total(
                atomized(view),
            ) + 2) * width) by (nonlinear_arith)
                requires
                    width >= 1,
                    atom::dependent_total(atomized(view)) >= 0,
            ;
        }
        let (bytes, addresses): (Option<usize>, usize) = match &tokens[i].node {
            Token::PrimitiveInstruction(_) => (Some(1), 0),
            Token::SubroutineJump(_) => (Some(1), 2),
            Token::DataLiteral(data) => (data.len().checked_mul(2), 0),
            Token::LabelDefinition(_) => (Some(0), 0),
            Token::LabelLiteral(_) => (Some(0), 2),
        };
        let bytes = match bytes {
            Some(bytes) => bytes,
            None => {
                return None;
            },
        };
        constant = match constant.checked_add(bytes) {
            Some(sum) => sum,
            None => {
                return None;
            },
        };
        dependent = match dependent.checked_add(addresses) {
            Some(sum) => sum,
            None => {
                return None;
            },
        };
        i += 1;
    }
    proof {
        assert(view.take(tokens.len() as int) =~= view);
    }
    match dependent.checked_mul(yot_type.bytes()) {
        Some(product) => constant.checked_add(product),
        None => None,
    }
}

} // verus!
