use super::atom::{
    constant_total, dependent_total, Address, AddressView, AddressableKind, Atom, AtomView,
    ConstantKind, ConstantKindView, Offset,
};
use super::label::LabelTable;
use crate::instruction::InstructionKind;
use crate::span::{Span, Spanned};
use vstd::prelude::*;

verus! {

/// Pending output: the atoms in the order in which they will be written,
/// and the place that the next atom will have.
#[derive(Debug, Clone, PartialEq, Eq)]
pub struct AtomStream {
    atoms: Vec<Atom>,
    offset: Offset,
}

/// Pending output as a mathematical value.
pub struct AtomStreamView {
    pub atoms: Seq<AtomView>,
    pub offset: Offset,
}

impl AtomView {
    /// The atom moved by an offset: a resolved address is that much
    /// further, everything else stays.
    pub open spec fn shifted(self, by: Offset) -> AtomView {
        match self {
            AtomView::Addressable(AddressView::Resolved(offset), kind) => AtomView::Addressable(
                AddressView::Resolved(by.spec_add(offset)),
                kind,
            ),
            _ => self,
        }
    }

    /// Whether the atom can be moved by an offset without leaving what a
    /// place can hold.
    pub open spec fn can_shift(self, by: Offset) -> bool {
        self matches AtomView::Addressable(AddressView::Resolved(offset), _) ==> by.can_add(offset)
    }

    /// The atom with its address looked up: a name that the table binds
    /// becomes the place it is bound to, everything else stays.
    pub open spec fn resolved(self, table: Map<Seq<char>, (Offset, Span)>) -> AtomView {
        match self {
            AtomView::Addressable(AddressView::Deferred(label), kind) => if table.contains_key(
                label.node,
            ) {
                AtomView::Addressable(AddressView::Resolved(table[label.node].0), kind)
            } else {
                self
            },
            _ => self,
        }
    }
}

impl AtomStreamView {
    /// Whether an atom can be appended without leaving what a place can
    /// hold.
    pub open spec fn can_push(self, atom: AtomView) -> bool {
        &&& self.offset.constant + atom.constant_size() <= usize::MAX
        &&& self.offset.yot_type_dependent + atom.dependent_size() <= usize::MAX
    }

    /// The stream with an atom appended: the place moves on by the size of
    /// the atom.
    pub open spec fn pushed(self, atom: AtomView) -> AtomStreamView {
        AtomStreamView {
            atoms: self.atoms.push(atom),
            offset: Offset {
                constant: (self.offset.constant + atom.constant_size()) as usize,
                yot_type_dependent: (self.offset.yot_type_dependent
                    + atom.dependent_size()) as usize,
            },
        }
    }

    /// Whether the place of the stream is the size of its atoms.
    pub open spec fn balanced(self) -> bool {
        &&& self.offset.constant == constant_total(self.atoms)
        &&& self.offset.yot_type_dependent == dependent_total(self.atoms)
    }
}

/// A copy of an atom.
fn copy_atom(atom: &Atom) -> (copy: Atom)
    ensures
        copy.deep_view() == atom.deep_view(),
{
    match atom {
        Atom::Constant(ConstantKind::PrimitiveInstruction(kind)) => Atom::Constant(
            ConstantKind::PrimitiveInstruction(*kind),
        ),
        Atom::Constant(ConstantKind::DataLiteral(data)) => {
            let copy = data.clone();
            proof {
                assert(copy@ =~= data@);
            }
            Atom::Constant(ConstantKind::DataLiteral(copy))
        },
        Atom::Constant(ConstantKind::AddressLiteral(address)) => Atom::Constant(
            ConstantKind::AddressLiteral(*address),
        ),
        Atom::Addressable(Address::Deferred(label), kind) => Atom::Addressable(
            Address::Deferred(Spanned { node: label.node.clone(), span: label.span }),
            *kind,
        ),
        Atom::Addressable(Address::Resolved(offset), kind) => Atom::Addressable(
            Address::Resolved(*offset),
            *kind,
        ),
    }
}

impl View for AtomStream {
    type V = AtomStreamView;

    closed spec fn view(&self) -> AtomStreamView {
        AtomStreamView { atoms: self.atoms.deep_view(), offset: self.offset }
    }
}

impl AtomStream {
    /// A stream without atoms, at the start of the image.
    pub fn new() -> (stream: AtomStream)
        ensures
            stream@ == (AtomStreamView {
                atoms: Seq::empty(),
                offset: Offset { constant: 0, yot_type_dependent: 0 },
            }),
    {
        let stream = AtomStream { atoms: Vec::new(), offset: Offset::new() };
        proof {
            assert(stream.atoms.deep_view() =~= Seq::empty());
        }
        stream
    }

    fn push(&mut self, atom: Atom)
        requires
            old(self)@.can_push(atom.deep_view()),
        ensures
            final(self)@ == old(self)@.pushed(atom.deep_view()),
    {
        let ghost before = self.atoms.deep_view();
        let constant: usize = match &atom {
            Atom::Constant(ConstantKind::PrimitiveInstruction(_)) => 1,
            Atom::Constant(ConstantKind::DataLiteral(data)) => data.len() * 2,
            Atom::Constant(ConstantKind::AddressLiteral(_)) => 0,
            Atom::Addressable(_, AddressableKind::LabelLiteral) => 0,
            Atom::Addressable(_, AddressableKind::SubroutineJump) => 1,
        };
        let dependent: usize = match &atom {
            Atom::Constant(ConstantKind::AddressLiteral(_)) => 1,
            Atom::Constant(_) => 0,
            Atom::Addressable(_, _) => 2,
        };
        self.offset.constant += constant;
        self.offset.yot_type_dependent += dependent;
        self.atoms.push(atom);
        proof {
            assert(self.atoms.deep_view() =~= before.push(atom.deep_view()));
        }
    }

    /// Appends an instruction: one byte.
    pub fn push_primitive_instruction(&mut self, instruction_kind: InstructionKind)
        requires
            old(self)@.can_push(
                AtomView::Constant(ConstantKindView::PrimitiveInstruction(instruction_kind)),
            ),
        ensures
            final(self)@ == old(self)@.pushed(
                AtomView::Constant(ConstantKindView::PrimitiveInstruction(instruction_kind)),
            ),
    {
        self.push(Atom::Constant(ConstantKind::PrimitiveInstruction(instruction_kind)));
    }

    /// Appends a data literal: two bytes for each of its own.
    pub fn push_data_literal(&mut self, data: Vec<u8>)
        requires
            old(self)@.can_push(AtomView::Constant(ConstantKindView::DataLiteral(data@))),
        ensures
            final(self)@ == old(self)@.pushed(
                AtomView::Constant(ConstantKindView::DataLiteral(data@)),
            ),
    {
        self.push(Atom::Constant(ConstantKind::DataLiteral(data)));
    }

    /// Appends a value as wide as an address.
    pub fn push_address_literal(&mut self, address: u64)
        requires
            old(self)@.can_push(AtomView::Constant(ConstantKindView::AddressLiteral(address))),
        ensures
            final(self)@ == old(self)@.pushed(
                AtomView::Constant(ConstantKindView::AddressLiteral(address)),
            ),
    {
        self.push(Atom::Constant(ConstantKind::AddressLiteral(address)));
    }

    /// Appends the address of a label, to be pushed: two bytes for each
    /// byte of an address.
    pub fn push_label_literal(&mut self, label: String, span: Span)
        requires
            old(self)@.can_push(
                AtomView::Addressable(
                    AddressView::Deferred(Spanned { node: label@, span }),
                    AddressableKind::LabelLiteral,
                ),
            ),
        ensures
            final(self)@ == old(self)@.pushed(
                AtomView::Addressable(
                    AddressView::Deferred(Spanned { node: label@, span }),
                    AddressableKind::LabelLiteral,
                ),
            ),
    {
        self.push(
            Atom::Addressable(
                Address::Deferred(Spanned { node: label, span }),
                AddressableKind::LabelLiteral,
            ),
        );
    }

    /// Appends the call of a label: its address, to be pushed, and one
    /// byte more for the call.
    pub fn push_subroutine_jump(&mut self, label: String, span: Span)
        requires
            old(self)@.can_push(
                AtomView::Addressable(
                    AddressView::Deferred(Spanned { node: label@, span }),
                    AddressableKind::SubroutineJump,
                ),
            ),
        ensures
            final(self)@ == old(self)@.pushed(
                AtomView::Addressable(
                    AddressView::Deferred(Spanned { node: label@, span }),
                    AddressableKind::SubroutineJump,
                ),
            ),
    {
        self.push(
            Atom::Addressable(
                Address::Deferred(Spanned { node: label, span }),
                AddressableKind::SubroutineJump,
            ),
        );
    }

    /// The stream with every resolved address moved by an offset. Its own
    /// place stays.
    pub fn offseted(&self, offset: Offset) -> (moved: AtomStream)
        requires
            forall|i: int| 0 <= i < self@.atoms.len() ==> (#[trigger] self@.atoms[i]).can_shift(offset),
        ensures
            moved@.atoms == self@.atoms.map_values(|atom: AtomView| atom.shifted(offset)),
            moved@.offset == self@.offset,
    {
        let ghost view = self.atoms.deep_view();
        let mut atoms: Vec<Atom> = Vec::new();
        let mut i: usize = 0;
        proof {
            assert(view == self@.atoms);
        }
        while i < self.atoms.len()
            invariant
                view == self.atoms.deep_view(),
                i <= self.atoms.len(),
                atoms.len() == i,
                forall|k: int| 0 <= k < i ==> (#[trigger] atoms[k]).deep_view() == view[k].shifted(offset),
                forall|k: int| 0 <= k < view.len() ==> (#[trigger] view[k]).can_shift(offset),
            decreases self.atoms.len() - i,
        {
            proof {
                assert(view[i as int].can_shift(offset));
            }
            let atom = match &self.atoms[i] {
                Atom::Addressable(Address::Resolved(o), kind) => Atom::Addressable(
                    Address::Resolved(offset.add(*o)),
                    *kind,
                ),
                other => copy_atom(other),
            };
            atoms.push(atom);
            i += 1;
        }
        let moved = AtomStream { atoms, offset: self.offset };
        proof {
            assert(moved.atoms.deep_view() =~= view.map_values(
                |atom: AtomView| atom.shifted(offset),
            ));
        }
        moved
    }

    /// The stream with every address looked up in a table of labels: a name
    /// that the table binds becomes the place it is bound to.
    pub fn resolved(self, label_definitions: &LabelTable) -> (looked_up: AtomStream)
        ensures
            looked_up@.atoms == self@.atoms.map_values(
                |atom: AtomView| atom.resolved(label_definitions@),
            ),
            looked_up@.offset == self@.offset,
    {
        let ghost view = self.atoms.deep_view();
        let mut atoms: Vec<Atom> = Vec::new();
        let mut i: usize = 0;
        while i < self.atoms.len()
            invariant
                view == self.atoms.deep_view(),
                i <= self.atoms.len(),
                atoms.len() == i,
                forall|k: int|
                    0 <= k < i ==> (#[trigger] atoms[k]).deep_view() == view[k].resolved(
                        label_definitions@,
                    ),
            decreases self.atoms.len() - i,
        {
            let atom = match &self.atoms[i] {
                Atom::Addressable(Address::Deferred(label), kind) => {
                    match label_definitions.get(label.node.as_str()) {
                        Some((offset, _)) => Atom::Addressable(Address::Resolved(offset), *kind),
                        None => copy_atom(&self.atoms[i]),
                    }
                },
                other => copy_atom(other),
            };
            atoms.push(atom);
            i += 1;
        }
        let looked_up = AtomStream { atoms, offset: self.offset };
        proof {
            assert(looked_up.atoms.deep_view() =~= view.map_values(
                |atom: AtomView| atom.resolved(label_definitions@),
            ));
        }
        looked_up
    }

    /// Appends the atoms of another stream and moves the place on by the
    /// place of that stream.
    pub fn extend(&mut self, other: AtomStream)
        requires
            old(self)@.offset.can_add(other@.offset),
        ensures
            final(self)@.atoms == old(self)@.atoms + other@.atoms,
            final(self)@.offset == old(self)@.offset.spec_add(other@.offset),
    {
        let ghost before = self.atoms.deep_view();
        let ghost added = other.atoms.deep_view();
        let mut other = other;
        self.atoms.append(&mut other.atoms);
        self.offset = self.offset.add(other.offset);
        proof {
            assert(self.atoms.deep_view() =~= before + added);
        }
    }

    /// The atoms of the stream, in order.
    pub fn atoms(&self) -> (atoms: &Vec<Atom>)
        ensures
            atoms.deep_view() == self@.atoms,
    {
        &self.atoms
    }

    /// The place that the next atom will have.
    pub fn offset(&self) -> (offset: Offset)
        ensures
            offset == self@.offset,
    {
        self.offset
    }
}

} // verus!
