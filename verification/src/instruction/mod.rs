use crate::text::same_text;
use vstd::prelude::*;

pub mod table;

verus! {

/// The mnemonic of every opcode byte, in opcode order. An empty entry marks a
/// byte that encodes no instruction.
pub const MNEMONICS: [&'static str; 256] = [
    "brk", "", "inc^", "", "fcm1", "drp1", "swp1", "rtf1", "inc1", "eqz1", "add1", "adc1", "bnt1", "ior1", "shl1", "rtl1",
    "nop", "", "dec^", "", "fcm2", "drp2", "swp2", "rtf2", "inc2", "eqz2", "add2", "adc2", "bnt2", "ior2", "shl2", "rtl2",
    "jmp", "drp^", "eqz^", "", "fcm4", "drp4", "swp4", "rtf4", "inc4", "eqz4", "add4", "adc4", "bnt4", "ior4", "shl4", "rtl4",
    "jsr", "dup^", "nez^", "", "fcm8", "drp8", "swp8", "rtf8", "inc8", "eqz8", "add8", "adc8", "bnt8", "ior8", "shl8", "rtl8",
    "nip", "swp^", "add^", "sts1", "stm1", "dup1", "ovr1", "rtb1", "dec1", "nez1", "sub1", "sbb1", "and1", "xor1", "shr1", "rtr1",
    "dsp", "ovr^", "sub^", "sts2", "stm2", "dup2", "ovr2", "rtb2", "dec2", "nez2", "sub2", "sbb2", "and2", "xor2", "shr2", "rtr2",
    "sei", "rtf^", "adc^", "sts4", "stm4", "dup4", "ovr4", "rtb4", "dec4", "nez4", "sub4", "sbb4", "and4", "xor4", "shr4", "rtr4",
    "cli", "rtb^", "sbb^", "sts8", "stm8", "dup8", "ovr8", "rtb8", "dec8", "nez8", "sub8", "sbb8", "and8", "xor8", "shr8", "rtr8",
    "brk?", "", "inc^?", "", "fcm1?", "drp1?", "swp1?", "rtf1?", "inc1?", "eqz1?", "add1?", "adc1?", "bnt1?", "ior1?", "shl1?", "rtl1?",
    "nop?", "", "dec^?", "", "fcm2?", "drp2?", "swp2?", "rtf2?", "inc2?", "eqz2?", "add2?", "adc2?", "bnt2?", "ior2?", "shl2?", "rtl2?",
    "jmp?", "drp^?", "eqz^?", "", "fcm4?", "drp4?", "swp4?", "rtf4?", "inc4?", "eqz4?", "add4?", "adc4?", "bnt4?", "ior4?", "shl4?", "rtl4?",
    "jsr?", "dup^?", "nez^?", "", "fcm8?", "drp8?", "swp8?", "rtf8?", "inc8?", "eqz8?", "add8?", "adc8?", "bnt8?", "ior8?", "shl8?", "rtl8?",
    "nip?", "swp^?", "add^?", "sts1?", "stm1?", "dup1?", "ovr1?", "rtb1?", "dec1?", "nez1?", "sub1?", "sbb1?", "and1?", "xor1?", "shr1?", "rtr1?",
    "dsp?", "ovr^?", "sub^?", "sts2?", "stm2?", "dup2?", "ovr2?", "rtb2?", "dec2?", "nez2?", "sub2?", "sbb2?", "and2?", "xor2?", "shr2?", "rtr2?",
    "sei?", "rtf^?", "adc^?", "sts4?", "stm4?", "dup4?", "ovr4?", "rtb4?", "dec4?", "nez4?", "sub4?", "sbb4?", "and4?", "xor4?", "shr4?", "rtr4?",
    "cli?", "rtb^?", "sbb^?", "sts8?", "stm8?", "dup8?", "ovr8?", "rtb8?", "dec8?", "nez8?", "sub8?", "sbb8?", "and8?", "xor8?", "shr8?", "rtr8?",
];

/// Added to an opcode to make the instruction conditional.
pub const CONDITIONAL_BIT: u8 = 0x80;

/// The distance between the opcodes of two neighbouring sizes of one operation.
pub const SIZE_STEP: u8 = 0x10;

/// The size in bytes of the operand that a sized instruction works on.
#[derive(Debug, Copy, Clone, PartialEq, Eq, Structural)]
pub enum OperandSize {
    One,
    Two,
    Four,
    Eight,
}

/// What an instruction that exists for both stacks works on: a sized operand
/// on the data stack, or the address stack.
#[derive(Debug, Copy, Clone, PartialEq, Eq, Structural)]
pub enum Operand {
    Data(OperandSize),
    Address,
}

/// The operations that take no operand of their own and so have a single
/// form, named by the stem of their mnemonic.
#[derive(Debug, Copy, Clone, PartialEq, Eq, Structural)]
pub enum PlainOperation {
    Brk,
    Nop,
    Jmp,
    Jsr,
    Nip,
    Dsp,
    Sei,
    Cli,
}

/// The operations that exist once for each operand size on the data stack.
#[derive(Debug, Copy, Clone, PartialEq, Eq, Structural)]
pub enum SizedOperation {
    Sts,
    Fcm,
    Stm,
    Bnt,
    And,
    Ior,
    Xor,
    Shl,
    Shr,
    Rtl,
    Rtr,
}

/// The operations that exist once for each operand size on the data stack
/// and once more for the address stack.
#[derive(Debug, Copy, Clone, PartialEq, Eq, Structural)]
pub enum StackOperation {
    Drp,
    Dup,
    Swp,
    Ovr,
    Rtf,
    Rtb,
    Inc,
    Dec,
    Eqz,
    Nez,
    Add,
    Sub,
    Adc,
    Sbb,
}

/// One operation of the instruction set, with what it works on.
#[derive(Debug, Copy, Clone, PartialEq, Eq, Structural)]
pub enum Operation {
    Plain(PlainOperation),
    Sized(SizedOperation, OperandSize),
    Stack(StackOperation, Operand),
}

/// An operation together with its conditional-execution flag: exactly what
/// one opcode byte encodes.
#[derive(Debug, Copy, Clone, PartialEq, Eq, Structural)]
pub struct InstructionKind {
    pub operation: Operation,
    pub conditional: bool,
}

impl OperandSize {
    /// The position of the size among the four: how many rows of the opcode
    /// table lie between the one-byte variant and this one.
    pub open spec fn index(self) -> int {
        match self {
            OperandSize::One => 0,
            OperandSize::Two => 1,
            OperandSize::Four => 2,
            OperandSize::Eight => 3,
        }
    }

    /// The digit that names the size in a mnemonic.
    pub open spec fn symbol(self) -> char {
        match self {
            OperandSize::One => '1',
            OperandSize::Two => '2',
            OperandSize::Four => '4',
            OperandSize::Eight => '8',
        }
    }

    /// The size at a given position among the four.
    pub open spec fn at(index: int) -> OperandSize {
        if index == 0 {
            OperandSize::One
        } else if index == 1 {
            OperandSize::Two
        } else if index == 2 {
            OperandSize::Four
        } else {
            OperandSize::Eight
        }
    }
}

impl Operand {
    /// The character that names the operand in a mnemonic.
    pub open spec fn symbol(self) -> char {
        match self {
            Operand::Data(size) => size.symbol(),
            Operand::Address => '^',
        }
    }
}

impl PlainOperation {
    /// The three letters of the mnemonic.
    pub open spec fn letters(self) -> (char, char, char) {
        match self {
            PlainOperation::Brk => ('b', 'r', 'k'),
            PlainOperation::Nop => ('n', 'o', 'p'),
            PlainOperation::Jmp => ('j', 'm', 'p'),
            PlainOperation::Jsr => ('j', 's', 'r'),
            PlainOperation::Nip => ('n', 'i', 'p'),
            PlainOperation::Dsp => ('d', 's', 'p'),
            PlainOperation::Sei => ('s', 'e', 'i'),
            PlainOperation::Cli => ('c', 'l', 'i'),
        }
    }

    /// The opcode of the unconditional instruction.
    pub open spec fn slot(self) -> int {
        match self {
            PlainOperation::Brk => 0x00,
            PlainOperation::Nop => 0x10,
            PlainOperation::Jmp => 0x20,
            PlainOperation::Jsr => 0x30,
            PlainOperation::Nip => 0x40,
            PlainOperation::Dsp => 0x50,
            PlainOperation::Sei => 0x60,
            PlainOperation::Cli => 0x70,
        }
    }

    /// The operation whose unconditional instruction has the given opcode.
    pub open spec fn at(slot: int) -> Option<PlainOperation> {
        if slot == 0x00 {
            Some(PlainOperation::Brk)
        } else if slot == 0x10 {
            Some(PlainOperation::Nop)
        } else if slot == 0x20 {
            Some(PlainOperation::Jmp)
        } else if slot == 0x30 {
            Some(PlainOperation::Jsr)
        } else if slot == 0x40 {
            Some(PlainOperation::Nip)
        } else if slot == 0x50 {
            Some(PlainOperation::Dsp)
        } else if slot == 0x60 {
            Some(PlainOperation::Sei)
        } else if slot == 0x70 {
            Some(PlainOperation::Cli)
        } else {
            None
        }
    }
}

impl SizedOperation {
    /// The three letters that every mnemonic of the operation starts with.
    pub open spec fn letters(self) -> (char, char, char) {
        match self {
            SizedOperation::Sts => ('s', 't', 's'),
            SizedOperation::Fcm => ('f', 'c', 'm'),
            SizedOperation::Stm => ('s', 't', 'm'),
            SizedOperation::Bnt => ('b', 'n', 't'),
            SizedOperation::And => ('a', 'n', 'd'),
            SizedOperation::Ior => ('i', 'o', 'r'),
            SizedOperation::Xor => ('x', 'o', 'r'),
            SizedOperation::Shl => ('s', 'h', 'l'),
            SizedOperation::Shr => ('s', 'h', 'r'),
            SizedOperation::Rtl => ('r', 't', 'l'),
            SizedOperation::Rtr => ('r', 't', 'r'),
        }
    }

    /// The opcode of the unconditional one-byte variant.
    pub open spec fn slot(self) -> int {
        match self {
            SizedOperation::Sts => 0x43,
            SizedOperation::Fcm => 0x04,
            SizedOperation::Stm => 0x44,
            SizedOperation::Bnt => 0x0c,
            SizedOperation::And => 0x4c,
            SizedOperation::Ior => 0x0d,
            SizedOperation::Xor => 0x4d,
            SizedOperation::Shl => 0x0e,
            SizedOperation::Shr => 0x4e,
            SizedOperation::Rtl => 0x0f,
            SizedOperation::Rtr => 0x4f,
        }
    }

    /// The operation whose unconditional one-byte variant has the given
    /// opcode.
    pub open spec fn at(slot: int) -> Option<SizedOperation> {
        if slot == 0x43 {
            Some(SizedOperation::Sts)
        } else if slot == 0x04 {
            Some(SizedOperation::Fcm)
        } else if slot == 0x44 {
            Some(SizedOperation::Stm)
        } else if slot == 0x0c {
            Some(SizedOperation::Bnt)
        } else if slot == 0x4c {
            Some(SizedOperation::And)
        } else if slot == 0x0d {
            Some(SizedOperation::Ior)
        } else if slot == 0x4d {
            Some(SizedOperation::Xor)
        } else if slot == 0x0e {
            Some(SizedOperation::Shl)
        } else if slot == 0x4e {
            Some(SizedOperation::Shr)
        } else if slot == 0x0f {
            Some(SizedOperation::Rtl)
        } else if slot == 0x4f {
            Some(SizedOperation::Rtr)
        } else {
            None
        }
    }
}

impl StackOperation {
    /// The three letters that every mnemonic of the operation starts with.
    pub open spec fn letters(self) -> (char, char, char) {
        match self {
            StackOperation::Drp => ('d', 'r', 'p'),
            StackOperation::Dup => ('d', 'u', 'p'),
            StackOperation::Swp => ('s', 'w', 'p'),
            StackOperation::Ovr => ('o', 'v', 'r'),
            StackOperation::Rtf => ('r', 't', 'f'),
            StackOperation::Rtb => ('r', 't', 'b'),
            StackOperation::Inc => ('i', 'n', 'c'),
            StackOperation::Dec => ('d', 'e', 'c'),
            StackOperation::Eqz => ('e', 'q', 'z'),
            StackOperation::Nez => ('n', 'e', 'z'),
            StackOperation::Add => ('a', 'd', 'd'),
            StackOperation::Sub => ('s', 'u', 'b'),
            StackOperation::Adc => ('a', 'd', 'c'),
            StackOperation::Sbb => ('s', 'b', 'b'),
        }
    }

    /// The opcode of the unconditional one-byte variant.
    pub open spec fn slot(self) -> int {
        match self {
            StackOperation::Drp => 0x05,
            StackOperation::Dup => 0x45,
            StackOperation::Swp => 0x06,
            StackOperation::Ovr => 0x46,
            StackOperation::Rtf => 0x07,
            StackOperation::Rtb => 0x47,
            StackOperation::Inc => 0x08,
            StackOperation::Dec => 0x48,
            StackOperation::Eqz => 0x09,
            StackOperation::Nez => 0x49,
            StackOperation::Add => 0x0a,
            StackOperation::Sub => 0x4a,
            StackOperation::Adc => 0x0b,
            StackOperation::Sbb => 0x4b,
        }
    }

    /// The opcode of the unconditional address-stack variant.
    pub open spec fn address_slot(self) -> int {
        match self {
            StackOperation::Drp => 0x21,
            StackOperation::Dup => 0x31,
            StackOperation::Swp => 0x41,
            StackOperation::Ovr => 0x51,
            StackOperation::Rtf => 0x61,
            StackOperation::Rtb => 0x71,
            StackOperation::Inc => 0x02,
            StackOperation::Dec => 0x12,
            StackOperation::Eqz => 0x22,
            StackOperation::Nez => 0x32,
            StackOperation::Add => 0x42,
            StackOperation::Sub => 0x52,
            StackOperation::Adc => 0x62,
            StackOperation::Sbb => 0x72,
        }
    }

    /// The operation whose unconditional one-byte variant has the given
    /// opcode.
    pub open spec fn at(slot: int) -> Option<StackOperation> {
        if slot == 0x05 {
            Some(StackOperation::Drp)
        } else if slot == 0x45 {
            Some(StackOperation::Dup)
        } else if slot == 0x06 {
            Some(StackOperation::Swp)
        } else if slot == 0x46 {
            Some(StackOperation::Ovr)
        } else if slot == 0x07 {
            Some(StackOperation::Rtf)
        } else if slot == 0x47 {
            Some(StackOperation::Rtb)
        } else if slot == 0x08 {
            Some(StackOperation::Inc)
        } else if slot == 0x48 {
            Some(StackOperation::Dec)
        } else if slot == 0x09 {
            Some(StackOperation::Eqz)
        } else if slot == 0x49 {
            Some(StackOperation::Nez)
        } else if slot == 0x0a {
            Some(StackOperation::Add)
        } else if slot == 0x4a {
            Some(StackOperation::Sub)
        } else if slot == 0x0b {
            Some(StackOperation::Adc)
        } else if slot == 0x4b {
            Some(StackOperation::Sbb)
        } else {
            None
        }
    }

    /// The operation whose unconditional address-stack variant has the given
    /// opcode.
    pub open spec fn at_address(slot: int) -> Option<StackOperation> {
        if slot == 0x21 {
            Some(StackOperation::Drp)
        } else if slot == 0x31 {
            Some(StackOperation::Dup)
        } else if slot == 0x41 {
            Some(StackOperation::Swp)
        } else if slot == 0x51 {
            Some(StackOperation::Ovr)
        } else if slot == 0x61 {
            Some(StackOperation::Rtf)
        } else if slot == 0x71 {
            Some(StackOperation::Rtb)
        } else if slot == 0x02 {
            Some(StackOperation::Inc)
        } else if slot == 0x12 {
            Some(StackOperation::Dec)
        } else if slot == 0x22 {
            Some(StackOperation::Eqz)
        } else if slot == 0x32 {
            Some(StackOperation::Nez)
        } else if slot == 0x42 {
            Some(StackOperation::Add)
        } else if slot == 0x52 {
            Some(StackOperation::Sub)
        } else if slot == 0x62 {
            Some(StackOperation::Adc)
        } else if slot == 0x72 {
            Some(StackOperation::Sbb)
        } else {
            None
        }
    }
}

impl Operation {
    /// The three letters that every mnemonic of the operation starts with.
    pub open spec fn letters(self) -> (char, char, char) {
        match self {
            Operation::Plain(operation) => operation.letters(),
            Operation::Sized(operation, _) => operation.letters(),
            Operation::Stack(operation, _) => operation.letters(),
        }
    }

    /// What the operation works on, if it comes in more than one variant.
    pub open spec fn operand(self) -> Option<Operand> {
        match self {
            Operation::Plain(_) => None,
            Operation::Sized(_, size) => Some(Operand::Data(size)),
            Operation::Stack(_, operand) => Some(operand),
        }
    }

    /// The opcode of the unconditional form of the operation: each size of an
    /// operand lies one step above the size before it.
    pub open spec fn slot(self) -> int {
        match self {
            Operation::Plain(operation) => operation.slot(),
            Operation::Sized(operation, size) => operation.slot() + 0x10 * size.index(),
            Operation::Stack(operation, Operand::Data(size)) => operation.slot() + 0x10
                * size.index(),
            Operation::Stack(operation, Operand::Address) => operation.address_slot(),
        }
    }

    /// The operation whose unconditional form has the given opcode, if the
    /// byte encodes one. The low four bits of an opcode give the column of
    /// the table it stands in; the first three columns hold the operations
    /// without a size, and in the others the size counts the rows above the
    /// one-byte variant.
    pub open spec fn at(slot: int) -> Option<Operation> {
        let size = OperandSize::at((slot / 0x10) % 4);
        let one_byte = slot - 0x10 * ((slot / 0x10) % 4);
        if slot % 0x10 < 3 {
            if let Some(operation) = PlainOperation::at(slot) {
                Some(Operation::Plain(operation))
            } else if let Some(operation) = StackOperation::at_address(slot) {
                Some(Operation::Stack(operation, Operand::Address))
            } else {
                None
            }
        } else if let Some(operation) = SizedOperation::at(one_byte) {
            Some(Operation::Sized(operation, size))
        } else if let Some(operation) = StackOperation::at(one_byte) {
            Some(Operation::Stack(operation, Operand::Data(size)))
        } else {
            None
        }
    }
}

impl InstructionKind {
    /// The opcode byte that encodes the instruction.
    pub open spec fn opcode(self) -> int {
        self.operation.slot() + if self.conditional {
            0x80int
        } else {
            0int
        }
    }

    /// The text that names the instruction in a source file: the three
    /// letters of the operation, the operand's character if there is one,
    /// and `?` if it is conditional.
    pub open spec fn mnemonic(self) -> Seq<char> {
        let (first, second, third) = self.operation.letters();
        let stem = seq![first, second, third];
        let named = match self.operation.operand() {
            Some(operand) => stem.push(operand.symbol()),
            None => stem,
        };
        if self.conditional {
            named.push('?')
        } else {
            named
        }
    }

    /// The instruction that an opcode byte encodes, if it encodes one.
    pub open spec fn at(opcode: u8) -> Option<InstructionKind> {
        match Operation::at(opcode as int % 0x80) {
            Some(operation) => Some(InstructionKind { operation, conditional: opcode >= 0x80 }),
            None => None,
        }
    }
}

/// The text that the table must hold for an opcode: the mnemonic of the
/// instruction it encodes, or nothing.
pub open spec fn mnemonic_at(opcode: u8) -> Seq<char> {
    match InstructionKind::at(opcode) {
        Some(kind) => kind.mnemonic(),
        None => Seq::empty(),
    }
}

/// The instruction that a mnemonic names, if it names one.
pub open spec fn kind_of(text: Seq<char>) -> Option<InstructionKind> {
    if exists|kind: InstructionKind| kind.mnemonic() == text {
        Some(choose|kind: InstructionKind| kind.mnemonic() == text)
    } else {
        None
    }
}

fn size_index(size: OperandSize) -> (index: u8)
    ensures
        index == size.index(),
{
    match size {
        OperandSize::One => 0,
        OperandSize::Two => 1,
        OperandSize::Four => 2,
        OperandSize::Eight => 3,
    }
}

fn size_at(index: u8) -> (size: OperandSize)
    ensures
        size == OperandSize::at(index as int),
{
    if index == 0 {
        OperandSize::One
    } else if index == 1 {
        OperandSize::Two
    } else if index == 2 {
        OperandSize::Four
    } else {
        OperandSize::Eight
    }
}

fn plain_slot(operation: PlainOperation) -> (slot: u8)
    ensures
        slot == operation.slot(),
{
    match operation {
        PlainOperation::Brk => 0x00,
        PlainOperation::Nop => 0x10,
        PlainOperation::Jmp => 0x20,
        PlainOperation::Jsr => 0x30,
        PlainOperation::Nip => 0x40,
        PlainOperation::Dsp => 0x50,
        PlainOperation::Sei => 0x60,
        PlainOperation::Cli => 0x70,
    }
}

fn sized_slot(operation: SizedOperation) -> (slot: u8)
    ensures
        slot == operation.slot(),
{
    match operation {
        SizedOperation::Sts => 0x43,
        SizedOperation::Fcm => 0x04,
        SizedOperation::Stm => 0x44,
        SizedOperation::Bnt => 0x0c,
        SizedOperation::And => 0x4c,
        SizedOperation::Ior => 0x0d,
        SizedOperation::Xor => 0x4d,
        SizedOperation::Shl => 0x0e,
        SizedOperation::Shr => 0x4e,
        SizedOperation::Rtl => 0x0f,
        SizedOperation::Rtr => 0x4f,
    }
}

fn stack_slot(operation: StackOperation) -> (slot: u8)
    ensures
        slot == operation.slot(),
{
    match operation {
        StackOperation::Drp => 0x05,
        StackOperation::Dup => 0x45,
        StackOperation::Swp => 0x06,
        StackOperation::Ovr => 0x46,
        StackOperation::Rtf => 0x07,
        StackOperation::Rtb => 0x47,
        StackOperation::Inc => 0x08,
        StackOperation::Dec => 0x48,
        StackOperation::Eqz => 0x09,
        StackOperation::Nez => 0x49,
        StackOperation::Add => 0x0a,
        StackOperation::Sub => 0x4a,
        StackOperation::Adc => 0x0b,
        StackOperation::Sbb => 0x4b,
    }
}

fn stack_address_slot(operation: StackOperation) -> (slot: u8)
    ensures
        slot == operation.address_slot(),
{
    match operation {
        StackOperation::Drp => 0x21,
        StackOperation::Dup => 0x31,
        StackOperation::Swp => 0x41,
        StackOperation::Ovr => 0x51,
        StackOperation::Rtf => 0x61,
        StackOperation::Rtb => 0x71,
        StackOperation::Inc => 0x02,
        StackOperation::Dec => 0x12,
        StackOperation::Eqz => 0x22,
        StackOperation::Nez => 0x32,
        StackOperation::Add => 0x42,
        StackOperation::Sub => 0x52,
        StackOperation::Adc => 0x62,
        StackOperation::Sbb => 0x72,
    }
}

fn plain_at(slot: u8) -> (operation: Option<PlainOperation>)
    ensures
        operation == PlainOperation::at(slot as int),
{
    if slot == 0x00 {
        Some(PlainOperation::Brk)
    } else if slot == 0x10 {
        Some(PlainOperation::Nop)
    } else if slot == 0x20 {
        Some(PlainOperation::Jmp)
    } else if slot == 0x30 {
        Some(PlainOperation::Jsr)
    } else if slot == 0x40 {
        Some(PlainOperation::Nip)
    } else if slot == 0x50 {
        Some(PlainOperation::Dsp)
    } else if slot == 0x60 {
        Some(PlainOperation::Sei)
    } else if slot == 0x70 {
        Some(PlainOperation::Cli)
    } else {
        None
    }
}

fn sized_at(slot: u8) -> (operation: Option<SizedOperation>)
    ensures
        operation == SizedOperation::at(slot as int),
{
    if slot == 0x43 {
        Some(SizedOperation::Sts)
    } else if slot == 0x04 {
        Some(SizedOperation::Fcm)
    } else if slot == 0x44 {
        Some(SizedOperation::Stm)
    } else if slot == 0x0c {
        Some(SizedOperation::Bnt)
    } else if slot == 0x4c {
        Some(SizedOperation::And)
    } else if slot == 0x0d {
        Some(SizedOperation::Ior)
    } else if slot == 0x4d {
        Some(SizedOperation::Xor)
    } else if slot == 0x0e {
        Some(SizedOperation::Shl)
    } else if slot == 0x4e {
        Some(SizedOperation::Shr)
    } else if slot == 0x0f {
        Some(SizedOperation::Rtl)
    } else if slot == 0x4f {
        Some(SizedOperation::Rtr)
    } else {
        None
    }
}

fn stack_at(slot: u8) -> (operation: Option<StackOperation>)
    ensures
        operation == StackOperation::at(slot as int),
{
    if slot == 0x05 {
        Some(StackOperation::Drp)
    } else if slot == 0x45 {
        Some(StackOperation::Dup)
    } else if slot == 0x06 {
        Some(StackOperation::Swp)
    } else if slot == 0x46 {
        Some(StackOperation::Ovr)
    } else if slot == 0x07 {
        Some(StackOperation::Rtf)
    } else if slot == 0x47 {
        Some(StackOperation::Rtb)
    } else if slot == 0x08 {
        Some(StackOperation::Inc)
    } else if slot == 0x48 {
        Some(StackOperation::Dec)
    } else if slot == 0x09 {
        Some(StackOperation::Eqz)
    } else if slot == 0x49 {
        Some(StackOperation::Nez)
    } else if slot == 0x0a {
        Some(StackOperation::Add)
    } else if slot == 0x4a {
        Some(StackOperation::Sub)
    } else if slot == 0x0b {
        Some(StackOperation::Adc)
    } else if slot == 0x4b {
        Some(StackOperation::Sbb)
    } else {
        None
    }
}

fn stack_at_address(slot: u8) -> (operation: Option<StackOperation>)
    ensures
        operation == StackOperation::at_address(slot as int),
{
    if slot == 0x21 {
        Some(StackOperation::Drp)
    } else if slot == 0x31 {
        Some(StackOperation::Dup)
    } else if slot == 0x41 {
        Some(StackOperation::Swp)
    } else if slot == 0x51 {
        Some(StackOperation::Ovr)
    } else if slot == 0x61 {
        Some(StackOperation::Rtf)
    } else if slot == 0x71 {
        Some(StackOperation::Rtb)
    } else if slot == 0x02 {
        Some(StackOperation::Inc)
    } else if slot == 0x12 {
        Some(StackOperation::Dec)
    } else if slot == 0x22 {
        Some(StackOperation::Eqz)
    } else if slot == 0x32 {
        Some(StackOperation::Nez)
    } else if slot == 0x42 {
        Some(StackOperation::Add)
    } else if slot == 0x52 {
        Some(StackOperation::Sub)
    } else if slot == 0x62 {
        Some(StackOperation::Adc)
    } else if slot == 0x72 {
        Some(StackOperation::Sbb)
    } else {
        None
    }
}

/// Encodes an instruction as its opcode byte.
pub fn opcode_for(kind: &InstructionKind) -> (opcode: u8)
    ensures
        opcode == kind.opcode(),
{
    let slot: u8 = match kind.operation {
        Operation::Plain(operation) => plain_slot(operation),
        Operation::Sized(operation, size) => sized_slot(operation) + SIZE_STEP * size_index(size),
        Operation::Stack(operation, Operand::Data(size)) => stack_slot(operation) + SIZE_STEP
            * size_index(size),
        Operation::Stack(operation, Operand::Address) => stack_address_slot(operation),
    };
    if kind.conditional {
        slot + CONDITIONAL_BIT
    } else {
        slot
    }
}

fn operation_at(slot: u8) -> (operation: Option<Operation>)
    requires
        slot < 0x80,
    ensures
        operation == Operation::at(slot as int),
{
    let rows: u8 = (slot / SIZE_STEP) % 4;
    let size = size_at(rows);
    let one_byte: u8 = slot - SIZE_STEP * rows;
    if slot % SIZE_STEP < 3 {
        if let Some(operation) = plain_at(slot) {
            Some(Operation::Plain(operation))
        } else if let Some(operation) = stack_at_address(slot) {
            Some(Operation::Stack(operation, Operand::Address))
        } else {
            None
        }
    } else if let Some(operation) = sized_at(one_byte) {
        Some(Operation::Sized(operation, size))
    } else if let Some(operation) = stack_at(one_byte) {
        Some(Operation::Stack(operation, Operand::Data(size)))
    } else {
        None
    }
}

/// Decodes an opcode byte: the instruction it encodes, or `None` for a byte
/// that encodes none.
pub fn kind_at(opcode: u8) -> (kind: Option<InstructionKind>)
    ensures
        kind == InstructionKind::at(opcode),
{
    match operation_at(opcode % CONDITIONAL_BIT) {
        Some(operation) => Some(
            InstructionKind { operation, conditional: opcode >= CONDITIONAL_BIT },
        ),
        None => None,
    }
}

/// Looks a mnemonic up in the table: the instruction it names, or `None` if
/// the table does not hold it.
pub fn kind_for(mnemonic: &str) -> (kind: Option<InstructionKind>)
    ensures
        kind == kind_of(mnemonic@),
{
    let mut opcode: u8 = 0;
    loop
        invariant
            forall|below: u8| below < opcode ==> MNEMONICS@[below as int]@ != mnemonic@,
        decreases 256 - opcode,
    {
        if same_text(MNEMONICS[opcode as usize], mnemonic) {
            let kind = kind_at(opcode);
            proof {
                table::lemma_table(opcode);
                if kind is Some {
                    let found = kind->0;
                    let chosen = choose|kind: InstructionKind| kind.mnemonic() == mnemonic@;
                    table::lemma_mnemonic_injective(found, chosen);
                } else {
                    assert forall|any: InstructionKind| any.mnemonic() != mnemonic@ by {
                        assert(any.mnemonic().len() >= 3);
                    }
                }
            }
            return kind;
        }
        if opcode == 255 {
            proof {
                assert forall|any: InstructionKind| any.mnemonic() != mnemonic@ by {
                    table::lemma_at_opcode(any);
                    table::lemma_table(any.opcode() as u8);
                }
            }
            return None;
        }
        opcode += 1;
    }
}

} // verus!
