use crate::argument_parser::YotType;
use crate::instruction::InstructionKind;
use crate::span::Spanned;
use vstd::prelude::*;

verus! {

/// The opcode that pushes the byte after it.
pub const PUSH_OPCODE: u8 = 0x20;

/// The opcode that calls the subroutine at the address pushed before it.
pub const SUBROUTINE_JUMP_OPCODE: u8 = 0x72;

/// A place in the image before the width of an address is known: a number
/// of bytes, and a number of address widths on top of them.
#[derive(Debug, Copy, Clone, PartialEq, Eq, Structural)]
pub struct Offset {
    pub constant: usize,
    pub yot_type_dependent: usize,
}

/// A piece of output whose bytes depend on no label.
#[derive(Debug, Clone, PartialEq, Eq)]
pub enum ConstantKind {
    /// One instruction: its opcode.
    PrimitiveInstruction(InstructionKind),
    /// Bytes to push: each one after a push opcode.
    DataLiteral(Vec<u8>),
    /// A value as wide as an address, written as it is.
    AddressLiteral(u64),
}

/// What is done with the address of a label.
#[derive(Debug, Copy, Clone, PartialEq, Eq, Structural)]
pub enum AddressableKind {
    /// It is pushed.
    LabelLiteral,
    /// It is pushed and then called.
    SubroutineJump,
}

/// The address of a label: at first its name, later its place.
#[derive(Debug, Clone, PartialEq, Eq)]
pub enum Address {
    Deferred(Spanned<String>),
    Resolved(Offset),
}

/// One piece of pending output.
#[derive(Debug, Clone, PartialEq, Eq)]
pub enum Atom {
    Constant(ConstantKind),
    Addressable(Address, AddressableKind),
}

/// A constant piece of output as a mathematical value.
pub enum ConstantKindView {
    PrimitiveInstruction(InstructionKind),
    DataLiteral(Seq<u8>),
    AddressLiteral(u64),
}

/// The address of a label as a mathematical value.
pub enum AddressView {
    Deferred(Spanned<Seq<char>>),
    Resolved(Offset),
}

/// A piece of pending output as a mathematical value.
pub enum AtomView {
    Constant(ConstantKindView),
    Addressable(AddressView, AddressableKind),
}

impl DeepView for ConstantKind {
    type V = ConstantKindView;

    open spec fn deep_view(&self) -> ConstantKindView {
        match self {
            ConstantKind::PrimitiveInstruction(kind) => ConstantKindView::PrimitiveInstruction(
                *kind,
            ),
            ConstantKind::DataLiteral(bytes) => ConstantKindView::DataLiteral(bytes@),
            ConstantKind::AddressLiteral(address) => ConstantKindView::AddressLiteral(*address),
        }
    }
}

impl DeepView for Address {
    type V = AddressView;

    open spec fn deep_view(&self) -> AddressView {
        match self {
            Address::Deferred(label) => AddressView::Deferred(label.deep_view()),
            Address::Resolved(offset) => AddressView::Resolved(*offset),
        }
    }
}

impl DeepView for Atom {
    type V = AtomView;

    open spec fn deep_view(&self) -> AtomView {
        match self {
            Atom::Constant(kind) => AtomView::Constant(kind.deep_view()),
            Atom::Addressable(address, kind) => AtomView::Addressable(address.deep_view(), *kind),
        }
    }
}

impl Offset {
    /// The place as a number of bytes, for a machine whose addresses are
    /// `width` bytes wide.
    pub open spec fn spec_render(self, width: int) -> int {
        self.constant + self.yot_type_dependent * width
    }

    /// The sum of two places, part by part.
    pub open spec fn spec_add(self, rhs: Offset) -> Offset {
        Offset {
            constant: (self.constant + rhs.constant) as usize,
            yot_type_dependent: (self.yot_type_dependent + rhs.yot_type_dependent) as usize,
        }
    }

    /// Whether the sum of two places can be held.
    pub open spec fn can_add(self, rhs: Offset) -> bool {
        &&& self.constant + rhs.constant <= usize::MAX
        &&& self.yot_type_dependent + rhs.yot_type_dependent <= usize::MAX
    }

    /// The start of the image.
    pub fn new() -> (offset: Offset)
        ensures
            offset == (Offset { constant: 0, yot_type_dependent: 0 }),
    {
        Offset { constant: 0, yot_type_dependent: 0 }
    }

    /// The place as a number of bytes on the given machine.
    pub fn render(&self, yot_type: YotType) -> (bytes: usize)
        requires
            self.spec_render(yot_type.spec_bytes()) <= usize::MAX,
        ensures
            bytes == self.spec_render(yot_type.spec_bytes()),
    {
        let width = yot_type.bytes();
        assert(self.yot_type_dependent * width <= self.spec_render(width as int)) by (nonlinear_arith)
            requires
                self.spec_render(width as int) == self.constant + self.yot_type_dependent * width,
        ;
        self.constant + self.yot_type_dependent * width
    }

    /// The sum of two places, part by part.
    pub fn add(self, rhs: Offset) -> (sum: Offset)
        requires
            self.can_add(rhs),
        ensures
            sum == self.spec_add(rhs),
    {
        Offset {
            constant: self.constant + rhs.constant,
            yot_type_dependent: self.yot_type_dependent + rhs.yot_type_dependent,
        }
    }
}

/// The lowest `width` bytes of a value, the most significant of them first.
pub open spec fn address_bytes(value: int, width: int) -> Seq<u8>
    decreases width,
{
    if width <= 0 {
        Seq::empty()
    } else {
        address_bytes(value / 256, width - 1).push((value % 256) as u8)
    }
}

/// The code that pushes the lowest `width` bytes of a value, the most
/// significant of them first: a push opcode before each byte.
pub open spec fn pushed_address(value: int, width: int) -> Seq<u8>
    decreases width,
{
    if width <= 0 {
        Seq::empty()
    } else {
        pushed_address(value / 256, width - 1).push(PUSH_OPCODE).push((value % 256) as u8)
    }
}

/// The code that pushes the bytes of a data literal in order: a push opcode
/// before each byte.
pub open spec fn pushed_data(data: Seq<u8>) -> Seq<u8>
    decreases data.len(),
{
    if data.len() == 0 {
        Seq::empty()
    } else {
        pushed_data(data.drop_last()).push(PUSH_OPCODE).push(data.last())
    }
}

impl AtomView {
    /// The bytes that the atom takes whatever the width of an address.
    pub open spec fn constant_size(self) -> int {
        match self {
            AtomView::Constant(ConstantKindView::PrimitiveInstruction(_)) => 1,
            AtomView::Constant(ConstantKindView::DataLiteral(data)) => 2 * (data.len() as int),
            AtomView::Constant(ConstantKindView::AddressLiteral(_)) => 0,
            AtomView::Addressable(_, AddressableKind::LabelLiteral) => 0,
            AtomView::Addressable(_, AddressableKind::SubroutineJump) => 1,
        }
    }

    /// The address widths that the atom takes on top of its constant bytes.
    pub open spec fn dependent_size(self) -> int {
        match self {
            AtomView::Constant(ConstantKindView::PrimitiveInstruction(_)) => 0,
            AtomView::Constant(ConstantKindView::DataLiteral(_)) => 0,
            AtomView::Constant(ConstantKindView::AddressLiteral(_)) => 1,
            AtomView::Addressable(_, _) => 2,
        }
    }

    /// The bytes of the atom in an image for a machine whose addresses are
    /// `width` bytes wide. An address that is not resolved gives none.
    pub open spec fn bytes(self, width: int) -> Seq<u8> {
        match self {
            AtomView::Constant(ConstantKindView::PrimitiveInstruction(kind)) => seq![
                kind.opcode() as u8,
            ],
            AtomView::Constant(ConstantKindView::DataLiteral(data)) => pushed_data(data),
            AtomView::Constant(ConstantKindView::AddressLiteral(address)) => address_bytes(
                address as int,
                width,
            ),
            AtomView::Addressable(
                AddressView::Resolved(offset),
                AddressableKind::LabelLiteral,
            ) => pushed_address(offset.spec_render(width), width),
            AtomView::Addressable(
                AddressView::Resolved(offset),
                AddressableKind::SubroutineJump,
            ) => pushed_address(offset.spec_render(width), width).push(SUBROUTINE_JUMP_OPCODE),
            AtomView::Addressable(AddressView::Deferred(_), _) => Seq::empty(),
        }
    }

    /// Whether the atom is an address that is still a name.
    pub open spec fn is_deferred(self) -> bool {
        self matches AtomView::Addressable(AddressView::Deferred(_), _)
    }

    /// Whether the place that the atom refers to, if it refers to one, can
    /// be held as a number of bytes on a machine of the given width.
    pub open spec fn renders(self, width: int) -> bool {
        self matches AtomView::Addressable(AddressView::Resolved(offset), _)
            ==> offset.spec_render(width) <= usize::MAX
    }
}

/// The constant bytes that a sequence of atoms takes.
pub open spec fn constant_total(atoms: Seq<AtomView>) -> int
    decreases atoms.len(),
{
    if atoms.len() == 0 {
        0
    } else {
        constant_total(atoms.drop_last()) + atoms.last().constant_size()
    }
}

/// The address widths that a sequence of atoms takes.
pub open spec fn dependent_total(atoms: Seq<AtomView>) -> int
    decreases atoms.len(),
{
    if atoms.len() == 0 {
        0
    } else {
        dependent_total(atoms.drop_last()) + atoms.last().dependent_size()
    }
}

/// The bytes of a sequence of atoms, one atom after the other.
pub open spec fn rendered(atoms: Seq<AtomView>, width: int) -> Seq<u8>
    decreases atoms.len(),
{
    if atoms.len() == 0 {
        Seq::empty()
    } else {
        rendered(atoms.drop_last(), width) + atoms.last().bytes(width)
    }
}

} // verus!
