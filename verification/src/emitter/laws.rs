use super::atom::{
    address_bytes, constant_total, dependent_total, pushed_address, pushed_data, rendered,
    AddressView, AtomView, ConstantKindView,
};
use super::model::{
    atom_of, atomized, duplicates, fits, image_atoms, label_table, position, prologue,
    prologue_offset, resolved_atoms, spec_emit, spec_emit_tokens, spec_image_size, unresolved,
};
use crate::argument_parser::YotType;
use crate::span::Spanned;
use crate::tokenizer::{Token, TokenView};
use vstd::prelude::*;

verus! {

/// The first `i + 1` items of a sequence are its first `i` items and the
/// one at `i`.
pub proof fn lemma_take_step<T>(items: Seq<T>, i: int)
    requires
        0 <= i < items.len(),
    ensures
        items.take(i + 1).drop_last() == items.take(i),
        items.take(i + 1).last() == items[i],
        items.take(i + 1) == items.take(i).push(items[i]),
{
    assert(items.take(i + 1).drop_last() =~= items.take(i));
    assert(items.take(i + 1) =~= items.take(i).push(items[i]));
}

/// A sequence of atoms with one more at its end takes the room of both.
pub proof fn lemma_totals_push(atoms: Seq<AtomView>, atom: AtomView)
    ensures
        constant_total(atoms.push(atom)) == constant_total(atoms)
            + atom.constant_size(),
        dependent_total(atoms.push(atom)) == dependent_total(atoms)
            + atom.dependent_size(),
        atom.constant_size() >= 0,
        atom.dependent_size() >= 0,
{
    assert(atoms.push(atom).drop_last() =~= atoms);
}

/// The tokens up to `i` take no more room than all of them.
pub proof fn lemma_prefix_fits(tokens: Seq<Spanned<TokenView>>, i: int)
    requires
        0 <= i <= tokens.len(),
    ensures
        0 <= constant_total(atomized(tokens.take(i))) <= constant_total(
            atomized(tokens),
        ),
        0 <= dependent_total(atomized(tokens.take(i))) <= dependent_total(
            atomized(tokens),
        ),
    decreases tokens.len() - i,
{
    if i == tokens.len() {
        assert(tokens.take(i) =~= tokens);
        lemma_totals_nonnegative(atomized(tokens));
    } else {
        lemma_prefix_fits(tokens, i + 1);
        lemma_take_step(tokens, i);
        lemma_totals_nonnegative(atomized(tokens.take(i)));
        match atom_of(tokens[i]) {
            Some(atom) => {
                lemma_totals_push(atomized(tokens.take(i)), atom);
            },
            None => {},
        }
    }
}

/// No sequence of atoms takes less than no room.
pub proof fn lemma_totals_nonnegative(atoms: Seq<AtomView>)
    ensures
        0 <= constant_total(atoms),
        0 <= dependent_total(atoms),
    decreases atoms.len(),
{
    if atoms.len() > 0 {
        lemma_totals_nonnegative(atoms.drop_last());
    }
}

/// No address is left a name exactly if no error is found for one.
pub proof fn lemma_unresolved(atoms: Seq<AtomView>)
    ensures
        unresolved(atoms).len() == 0 <==> forall|k: int|
            0 <= k < atoms.len() ==> !(#[trigger] atoms[k]).is_deferred(),
    decreases atoms.len(),
{
    if atoms.len() > 0 {
        lemma_unresolved(atoms.drop_last());
        if unresolved(atoms).len() == 0 {
            assert forall|k: int| 0 <= k < atoms.len() implies !(#[trigger] atoms[k]).is_deferred() by {
                if k < atoms.len() - 1 {
                    assert(atoms.drop_last()[k] == atoms[k]);
                }
            }
        } else {
            if !atoms.last().is_deferred() {
                let k = choose|k: int|
                    0 <= k < atoms.drop_last().len() && (#[trigger] atoms.drop_last()[k]).is_deferred();
                assert(atoms[k].is_deferred());
            }
        }
    }
}

/// Every place that a label of a sequence of tokens is bound to lies
/// within the room that the tokens take.
pub proof fn lemma_table_within(tokens: Seq<Spanned<TokenView>>, label: Seq<char>)
    requires
        fits(tokens),
        label_table(tokens).contains_key(label),
    ensures
        label_table(tokens)[label].0.constant <= constant_total(atomized(tokens)),
        label_table(tokens)[label].0.yot_type_dependent <= dependent_total(
            atomized(tokens),
        ),
    decreases tokens.len(),
{
    if tokens.len() > 0 {
        let earlier = tokens.drop_last();
        assert(earlier =~= tokens.take(tokens.len() - 1));
        lemma_prefix_fits(tokens, tokens.len() - 1);
        if label_table(earlier).contains_key(label) {
            lemma_table_within(earlier, label);
        }
    }
}

/// Before its addresses are looked up, a sequence of tokens holds no
/// resolved address.
pub proof fn lemma_atomized_deferred(tokens: Seq<Spanned<TokenView>>, k: int)
    requires
        0 <= k < atomized(tokens).len(),
    ensures
        !(atomized(tokens)[k] matches AtomView::Addressable(AddressView::Resolved(_), _)),
    decreases tokens.len(),
{
    if tokens.len() > 0 {
        if k < atomized(tokens.drop_last()).len() {
            lemma_atomized_deferred(tokens.drop_last(), k);
        }
    }
}

/// Every atom of an image can be moved by the prologue and then written:
/// no address in it lies beyond the end of the image.
pub proof fn lemma_image_renders(
    tokens: Seq<Spanned<TokenView>>,
    yot_type: YotType,
    initial_stack_pointer: u64,
)
    requires
        spec_image_size(tokens, yot_type) <= usize::MAX,
    ensures
        fits(tokens),
        prologue_offset().can_add(position(tokens)),
        forall|k: int|
            0 <= k < resolved_atoms(tokens).len() ==> (#[trigger] resolved_atoms(
                tokens,
            )[k]).can_shift(prologue_offset()),
        forall|k: int|
            0 <= k < image_atoms(tokens, yot_type, initial_stack_pointer).len() ==> (
            #[trigger] image_atoms(tokens, yot_type, initial_stack_pointer)[k]).renders(
                yot_type.spec_bytes(),
            ),
{
    let width = yot_type.spec_bytes();
    let constant = constant_total(atomized(tokens));
    let dependent = dependent_total(atomized(tokens));
    lemma_totals_nonnegative(atomized(tokens));
    assert(dependent + 2 <= (dependent + 2) * width) by (nonlinear_arith)
        requires
            width >= 1,
            dependent >= 0,
    ;
    let atoms = resolved_atoms(tokens);
    let moved = atoms.map_values(|atom: AtomView| atom.shifted(prologue_offset()));
    let image = image_atoms(tokens, yot_type, initial_stack_pointer);
    assert forall|k: int| 0 <= k < atoms.len() implies (#[trigger] atoms[k]).can_shift(
        prologue_offset(),
    ) && moved[k].renders(width) by {
        lemma_atomized_deferred(tokens, k);
        match atomized(tokens)[k] {
            AtomView::Addressable(AddressView::Deferred(label), _) => {
                if label_table(tokens).contains_key(label.node) {
                    lemma_table_within(tokens, label.node);
                    let place = label_table(tokens)[label.node].0;
                    assert((place.yot_type_dependent + 2) * width <= (dependent + 2) * width)
                        by (nonlinear_arith)
                        requires
                            width >= 1,
                            place.yot_type_dependent <= dependent,
                    ;
                }
            },
            _ => {},
        }
    }
    assert forall|k: int| 0 <= k < image.len() implies (#[trigger] image[k]).renders(width) by {
        if k >= 2 {
            assert(image[k] == moved[k - 2]);
            assert(atoms[k - 2].can_shift(prologue_offset()));
        }
    }
}

/// Whether a sequence of tokens defines no label and uses none: it holds
/// instructions and data only.
pub open spec fn label_free(tokens: Seq<Spanned<TokenView>>) -> bool {
    forall|i: int|
        0 <= i < tokens.len() ==> (#[trigger] tokens[i]).node is PrimitiveInstruction
            || tokens[i].node is DataLiteral
}

/// Tokens without labels become constant atoms and repeat no definition.
proof fn lemma_label_free_atoms(tokens: Seq<Spanned<TokenView>>)
    requires
        label_free(tokens),
    ensures
        duplicates(tokens).len() == 0,
        forall|k: int| 0 <= k < atomized(tokens).len() ==> (#[trigger] atomized(tokens)[k]) is Constant,
    decreases tokens.len(),
{
    if tokens.len() > 0 {
        assert(tokens.last() == tokens[tokens.len() - 1]);
        assert forall|i: int| 0 <= i < tokens.drop_last().len() implies (
        #[trigger] tokens.drop_last()[i]).node is PrimitiveInstruction
            || tokens.drop_last()[i].node is DataLiteral by {
            assert(tokens.drop_last()[i] == tokens[i]);
        }
        lemma_label_free_atoms(tokens.drop_last());
    }
}

/// A program that defines no label and uses none has nothing wrong with its
/// labels: its atoms are emitted, its image is written whenever no size is
/// asked for, and refused at most for being longer than the size that is.
pub proof fn lemma_label_free_emits(
    tokens: Seq<Spanned<TokenView>>,
    yot_type: YotType,
    initial_stack_pointer: u64,
    exact_binary_size: Option<usize>,
)
    requires
        label_free(tokens),
    ensures
        spec_emit_tokens(tokens) is Ok,
        spec_emit(tokens, yot_type, initial_stack_pointer, None) is Ok,
        spec_emit(tokens, yot_type, initial_stack_pointer, exact_binary_size) matches Err(errors)
            ==> errors.len() == 1 && errors[0] is BinaryTooLarge,
{
    lemma_label_free_atoms(tokens);
    lemma_unresolved(resolved_atoms(tokens));
    assert forall|k: int| 0 <= k < resolved_atoms(tokens).len() implies !(
    #[trigger] resolved_atoms(tokens)[k]).is_deferred() by {
        assert(atomized(tokens)[k] is Constant);
    }
    assert(duplicates(tokens) + unresolved(resolved_atoms(tokens)) =~= Seq::empty());
}

/// Emission repeats itself: the image depends on what the tokens hold and
/// on nothing else, so two runs on tokens that hold the same, on the same
/// machine, give the same bytes or the same errors.
pub proof fn lemma_emission_repeats(
    first: &[Spanned<Token>],
    second: &[Spanned<Token>],
    yot_type: YotType,
    initial_stack_pointer: u64,
    exact_binary_size: Option<usize>,
)
    requires
        first.deep_view() == second.deep_view(),
    ensures
        spec_emit(first.deep_view(), yot_type, initial_stack_pointer, exact_binary_size)
            == spec_emit(second.deep_view(), yot_type, initial_stack_pointer, exact_binary_size),
{
}

/// An address takes as many bytes as it is wide, and twice as many when
/// each byte is pushed.
pub proof fn lemma_address_length(value: int, width: int)
    requires
        0 <= width,
    ensures
        address_bytes(value, width).len() == width,
        pushed_address(value, width).len() == 2 * width,
    decreases width,
{
    if width > 0 {
        lemma_address_length(value / 256, width - 1);
    }
}

/// A data literal takes two bytes for each of its own.
pub proof fn lemma_data_length(data: Seq<u8>)
    ensures
        pushed_data(data).len() == 2 * data.len(),
    decreases data.len(),
{
    if data.len() > 0 {
        lemma_data_length(data.drop_last());
    }
}

/// An atom whose address is resolved is written in as many bytes as its
/// size says.
pub proof fn lemma_bytes_length(atom: AtomView, width: int)
    requires
        0 <= width,
        !atom.is_deferred(),
    ensures
        atom.bytes(width).len() == atom.constant_size() + atom.dependent_size() * width,
{
    match atom {
        AtomView::Constant(ConstantKindView::DataLiteral(data)) => {
            lemma_data_length(data);
        },
        AtomView::Constant(ConstantKindView::AddressLiteral(address)) => {
            lemma_address_length(address as int, width);
        },
        AtomView::Addressable(AddressView::Resolved(offset), _) => {
            lemma_address_length(offset.spec_render(width), width);
        },
        _ => {},
    }
}

/// Atoms whose addresses are all resolved are written in as many bytes as
/// their sizes say.
pub proof fn lemma_rendered_length(atoms: Seq<AtomView>, width: int)
    requires
        0 <= width,
        forall|k: int| 0 <= k < atoms.len() ==> !(#[trigger] atoms[k]).is_deferred(),
    ensures
        rendered(atoms, width).len() == constant_total(atoms) + dependent_total(atoms) * width,
    decreases atoms.len(),
{
    if atoms.len() > 0 {
        assert forall|k: int| 0 <= k < atoms.drop_last().len() implies !(
        #[trigger] atoms.drop_last()[k]).is_deferred() by {
            assert(atoms.drop_last()[k] == atoms[k]);
        }
        lemma_rendered_length(atoms.drop_last(), width);
        assert(atoms.last() == atoms[atoms.len() - 1]);
        lemma_bytes_length(atoms.last(), width);
        assert((dependent_total(atoms.drop_last()) + atoms.last().dependent_size()) * width
            == dependent_total(atoms.drop_last()) * width + atoms.last().dependent_size() * width)
            by (nonlinear_arith);
    }
}

/// Two sequences of atoms that agree in the sizes of their atoms take the
/// same room.
proof fn lemma_totals_agree(left: Seq<AtomView>, right: Seq<AtomView>)
    requires
        left.len() == right.len(),
        forall|k: int|
            0 <= k < left.len() ==> (#[trigger] left[k]).constant_size() == right[k].constant_size()
                && left[k].dependent_size() == right[k].dependent_size(),
    ensures
        constant_total(left) == constant_total(right),
        dependent_total(left) == dependent_total(right),
    decreases left.len(),
{
    if left.len() > 0 {
        assert forall|k: int| 0 <= k < left.drop_last().len() implies (
        #[trigger] left.drop_last()[k]).constant_size() == right.drop_last()[k].constant_size()
            && left.drop_last()[k].dependent_size() == right.drop_last()[k].dependent_size() by {
            assert(left.drop_last()[k] == left[k]);
            assert(right.drop_last()[k] == right[k]);
        }
        lemma_totals_agree(left.drop_last(), right.drop_last());
        assert(left.last() == left[left.len() - 1]);
    }
}

/// Atoms put after others take the room of both.
proof fn lemma_totals_concat(left: Seq<AtomView>, right: Seq<AtomView>)
    ensures
        constant_total(left + right) == constant_total(left) + constant_total(right),
        dependent_total(left + right) == dependent_total(left) + dependent_total(right),
    decreases right.len(),
{
    if right.len() == 0 {
        assert(left + right =~= left);
    } else {
        assert((left + right).drop_last() =~= left + right.drop_last());
        lemma_totals_concat(left, right.drop_last());
    }
}

/// The image of a program whose labels are in order is as long, before it
/// is padded, as the sizes of its tokens say: the constant bytes, and an
/// address width for each address unit of the tokens and two more for the
/// prologue.
pub proof fn lemma_image_length(
    tokens: Seq<Spanned<TokenView>>,
    yot_type: YotType,
    initial_stack_pointer: u64,
)
    requires
        spec_emit_tokens(tokens) is Ok,
    ensures
        rendered(
            image_atoms(tokens, yot_type, initial_stack_pointer),
            yot_type.spec_bytes(),
        ).len() == spec_image_size(tokens, yot_type),
{
    let width = yot_type.spec_bytes();
    let first = prologue(yot_type, initial_stack_pointer);
    let atoms = resolved_atoms(tokens);
    let moved = atoms.map_values(|atom: AtomView| atom.shifted(prologue_offset()));
    let image = image_atoms(tokens, yot_type, initial_stack_pointer);
    lemma_unresolved(atoms);
    assert forall|k: int| 0 <= k < image.len() implies !(#[trigger] image[k]).is_deferred() by {
        if k >= 2 {
            assert(!atoms[k - 2].is_deferred());
        }
    }
    lemma_rendered_length(image, width);
    lemma_totals_concat(first, moved);
    lemma_totals_agree(moved, atomized(tokens));
    assert(first =~= Seq::<AtomView>::empty().push(first[0]).push(first[1]));
    lemma_totals_push(Seq::<AtomView>::empty(), first[0]);
    lemma_totals_push(Seq::<AtomView>::empty().push(first[0]), first[1]);
    assert((dependent_total(atomized(tokens)) + 2) * width == dependent_total(atomized(tokens))
        * width + 2 * width) by (nonlinear_arith);
    assert((2 + dependent_total(atomized(tokens))) * width == dependent_total(atomized(tokens))
        * width + 2 * width) by (nonlinear_arith);
}

/// The place of an emitted stream is the size of its atoms: looking an
/// address up changes the bytes of an atom, not their number.
pub proof fn lemma_emitted_stream_balanced(tokens: Seq<Spanned<TokenView>>)
    requires
        fits(tokens),
    ensures
        spec_emit_tokens(tokens) matches Ok(stream) ==> stream.balanced(),
{
    lemma_totals_nonnegative(atomized(tokens));
    lemma_totals_agree(resolved_atoms(tokens), atomized(tokens));
}

/// A name that no token defines is not in the table of labels.
pub proof fn lemma_undefined_label(tokens: Seq<Spanned<TokenView>>, label: Seq<char>)
    requires
        forall|i: int|
            0 <= i < tokens.len() ==> (#[trigger] tokens[i]).node != TokenView::LabelDefinition(
                label,
            ),
    ensures
        !label_table(tokens).contains_key(label),
    decreases tokens.len(),
{
    if tokens.len() > 0 {
        assert(tokens.last() == tokens[tokens.len() - 1]);
        assert forall|i: int| 0 <= i < tokens.drop_last().len() implies (
        #[trigger] tokens.drop_last()[i]).node != TokenView::LabelDefinition(label) by {
            assert(tokens.drop_last()[i] == tokens[i]);
        }
        lemma_undefined_label(tokens.drop_last(), label);
    }
}

/// A label stands for the place of what follows its first definition: the
/// table binds it to the size of the tokens before that definition, and
/// the address written for it, which counts from the start of the image,
/// is the length of the image of those tokens.
pub proof fn lemma_label_address(
    tokens: Seq<Spanned<TokenView>>,
    yot_type: YotType,
    label: Seq<char>,
    at: int,
)
    requires
        spec_image_size(tokens, yot_type) <= usize::MAX,
        0 <= at < tokens.len(),
        tokens[at].node == TokenView::LabelDefinition(label),
        forall|i: int| 0 <= i < at ==> (#[trigger] tokens[i]).node != TokenView::LabelDefinition(label),
    ensures
        label_table(tokens).contains_key(label),
        label_table(tokens)[label] == (position(tokens.take(at)), tokens[at].span),
        prologue_offset().spec_add(position(tokens.take(at))).spec_render(yot_type.spec_bytes())
            == spec_image_size(tokens.take(at), yot_type),
    decreases tokens.len(),
{
    let width = yot_type.spec_bytes();
    let earlier = tokens.drop_last();
    lemma_totals_nonnegative(atomized(tokens));
    assert(dependent_total(atomized(tokens)) + 2 <= (dependent_total(atomized(tokens)) + 2)
        * width) by (nonlinear_arith)
        requires
            width >= 1,
            dependent_total(atomized(tokens)) >= 0,
    ;
    lemma_prefix_fits(tokens, at);
    if at == tokens.len() - 1 {
        assert(earlier =~= tokens.take(at));
        assert forall|i: int| 0 <= i < earlier.len() implies (#[trigger] earlier[i]).node
            != TokenView::LabelDefinition(label) by {
            assert(earlier[i] == tokens[i]);
        }
        lemma_undefined_label(earlier, label);
    } else {
        assert(earlier.take(at) =~= tokens.take(at));
        assert(earlier[at] == tokens[at]);
        assert forall|i: int| 0 <= i < at implies (#[trigger] earlier[i]).node
            != TokenView::LabelDefinition(label) by {
            assert(earlier[i] == tokens[i]);
        }
        assert(earlier =~= tokens.take(tokens.len() - 1));
        lemma_prefix_fits(tokens, tokens.len() - 1);
        lemma_totals_nonnegative(atomized(earlier));
        assert((dependent_total(atomized(earlier)) + 2) * width <= (dependent_total(
            atomized(tokens),
        ) + 2) * width) by (nonlinear_arith)
            requires
                width >= 1,
                dependent_total(atomized(earlier)) <= dependent_total(atomized(tokens)),
        ;
        lemma_label_address(earlier, yot_type, label, at);
    }
}

} // verus!
