use super::{
    kind_of, mnemonic_at, InstructionKind, Operand, Operation, PlainOperation, SizedOperation,
    StackOperation, MNEMONICS,
};
use vstd::prelude::*;

verus! {

/// Where the plain operations stand in the table.
proof fn lemma_plain_slot(operation: PlainOperation)
    ensures
        0 <= operation.slot() < 0x80,
        operation.slot() % 0x10 == 0,
        PlainOperation::at(operation.slot()) == Some(operation),
{
}

/// Where the one-byte variants of the sized operations stand in the table.
proof fn lemma_sized_slot(operation: SizedOperation)
    ensures
        3 <= operation.slot() % 0x10,
        operation.slot() / 0x10 == 0 || operation.slot() / 0x10 == 4,
        SizedOperation::at(operation.slot()) == Some(operation),
{
}

/// Where the variants of the operations on both stacks stand in the table.
proof fn lemma_stack_slot(operation: StackOperation)
    ensures
        3 <= operation.slot() % 0x10,
        operation.slot() / 0x10 == 0 || operation.slot() / 0x10 == 4,
        SizedOperation::at(operation.slot()) is None,
        StackOperation::at(operation.slot()) == Some(operation),
        0 <= operation.address_slot() < 0x80,
        operation.address_slot() % 0x10 == 1 || operation.address_slot() % 0x10 == 2,
        PlainOperation::at(operation.address_slot()) is None,
        StackOperation::at_address(operation.address_slot()) == Some(operation),
{
}

/// A slot that lies `rows` rows of the table below a one-byte slot.
proof fn lemma_rows(one_byte: int, rows: int)
    requires
        0 <= rows < 4,
        0 <= one_byte,
        one_byte / 0x10 == 0 || one_byte / 0x10 == 4,
    ensures
        (one_byte + 0x10 * rows) % 0x10 == one_byte % 0x10,
        ((one_byte + 0x10 * rows) / 0x10) % 4 == rows,
        0 <= one_byte + 0x10 * rows < 0x80,
{
}

/// Decoding the slot of an operation gives the operation back.
proof fn lemma_at_slot(operation: Operation)
    ensures
        0 <= operation.slot() < 0x80,
        Operation::at(operation.slot()) == Some(operation),
{
    match operation {
        Operation::Plain(plain) => {
            lemma_plain_slot(plain);
        },
        Operation::Sized(sized, size) => {
            lemma_sized_slot(sized);
            lemma_rows(sized.slot(), size.index());
        },
        Operation::Stack(stack, Operand::Data(size)) => {
            lemma_stack_slot(stack);
            lemma_rows(stack.slot(), size.index());
        },
        Operation::Stack(stack, Operand::Address) => {
            lemma_stack_slot(stack);
        },
    }
}

/// A slot that decodes to an operation is the slot of that operation.
proof fn lemma_slot_at(slot: int)
    requires
        0 <= slot < 0x80,
    ensures
        Operation::at(slot) matches Some(operation) ==> operation.slot() == slot,
{
    let rows = (slot / 0x10) % 4;
    let one_byte = slot - 0x10 * rows;
    assert(0 <= rows < 4);
    match Operation::at(slot) {
        Some(Operation::Plain(plain)) => {
            assert(PlainOperation::at(slot) == Some(plain));
        },
        Some(Operation::Sized(sized, size)) => {
            assert(SizedOperation::at(one_byte) == Some(sized));
            assert(size.index() == rows);
        },
        Some(Operation::Stack(stack, Operand::Data(size))) => {
            assert(StackOperation::at(one_byte) == Some(stack));
            assert(size.index() == rows);
        },
        Some(Operation::Stack(stack, Operand::Address)) => {
            assert(StackOperation::at_address(slot) == Some(stack));
        },
        None => {},
    }
}

/// Decoding the opcode of an instruction gives the instruction back, and
/// every opcode is a byte.
pub proof fn lemma_at_opcode(kind: InstructionKind)
    ensures
        0 <= kind.opcode() < 256,
        InstructionKind::at(kind.opcode() as u8) == Some(kind),
{
    lemma_at_slot(kind.operation);
}

/// An opcode that decodes to an instruction is the opcode of that
/// instruction.
pub proof fn lemma_opcode_at(opcode: u8)
    ensures
        InstructionKind::at(opcode) matches Some(kind) ==> kind.opcode() == opcode,
{
    lemma_slot_at(opcode as int % 0x80);
}

/// The characters of a mnemonic, place by place.
proof fn lemma_mnemonic_shape(kind: InstructionKind)
    ensures
        kind.mnemonic().len() == 3 + (if kind.operation.operand() is Some {
            1int
        } else {
            0int
        }) + (if kind.conditional {
            1int
        } else {
            0int
        }),
        kind.mnemonic()[0] == kind.operation.letters().0,
        kind.mnemonic()[1] == kind.operation.letters().1,
        kind.mnemonic()[2] == kind.operation.letters().2,
        kind.operation.operand() matches Some(operand) ==> kind.mnemonic()[3] == operand.symbol()
            && operand.symbol() != '?',
        kind.conditional ==> kind.mnemonic().last() == '?',
        kind.operation.letters().2 != '?',
{
}

/// Operations that share their three letters are of one family.
proof fn lemma_letters_injective(left: Operation, right: Operation)
    requires
        left.letters() == right.letters(),
    ensures
        match (left, right) {
            (Operation::Plain(l), Operation::Plain(r)) => l == r,
            (Operation::Sized(l, _), Operation::Sized(r, _)) => l == r,
            (Operation::Stack(l, _), Operation::Stack(r, _)) => l == r,
            _ => false,
        },
{
}

/// Two instructions with the same mnemonic are the same instruction.
pub proof fn lemma_mnemonic_injective(left: InstructionKind, right: InstructionKind)
    requires
        left.mnemonic() == right.mnemonic(),
    ensures
        left == right,
{
    lemma_mnemonic_shape(left);
    lemma_mnemonic_shape(right);
    assert(left.operation.letters() == right.operation.letters());
    lemma_letters_injective(left.operation, right.operation);
}

proof fn lemma_row_0()
    ensures
        forall|opcode: u8| 0x00 <= opcode < 0x00 + 16 ==> MNEMONICS@[opcode as int]@ == mnemonic_at(opcode),
{
    reveal_strlit("brk");
    reveal_strlit("");
    reveal_strlit("inc^");
    reveal_strlit("fcm1");
    reveal_strlit("drp1");
    reveal_strlit("swp1");
    reveal_strlit("rtf1");
    reveal_strlit("inc1");
    reveal_strlit("eqz1");
    reveal_strlit("add1");
    reveal_strlit("adc1");
    reveal_strlit("bnt1");
    reveal_strlit("ior1");
    reveal_strlit("shl1");
    reveal_strlit("rtl1");
    assert(MNEMONICS@[0x00]@ =~= mnemonic_at(0x00));
    assert(MNEMONICS@[0x01]@ =~= mnemonic_at(0x01));
    assert(MNEMONICS@[0x02]@ =~= mnemonic_at(0x02));
    assert(MNEMONICS@[0x03]@ =~= mnemonic_at(0x03));
    assert(MNEMONICS@[0x04]@ =~= mnemonic_at(0x04));
    assert(MNEMONICS@[0x05]@ =~= mnemonic_at(0x05));
    assert(MNEMONICS@[0x06]@ =~= mnemonic_at(0x06));
    assert(MNEMONICS@[0x07]@ =~= mnemonic_at(0x07));
    assert(MNEMONICS@[0x08]@ =~= mnemonic_at(0x08));
    assert(MNEMONICS@[0x09]@ =~= mnemonic_at(0x09));
    assert(MNEMONICS@[0x0a]@ =~= mnemonic_at(0x0a));
    assert(MNEMONICS@[0x0b]@ =~= mnemonic_at(0x0b));
    assert(MNEMONICS@[0x0c]@ =~= mnemonic_at(0x0c));
    assert(MNEMONICS@[0x0d]@ =~= mnemonic_at(0x0d));
    assert(MNEMONICS@[0x0e]@ =~= mnemonic_at(0x0e));
    assert(MNEMONICS@[0x0f]@ =~= mnemonic_at(0x0f));
}

proof fn lemma_row_1()
    ensures
        forall|opcode: u8| 0x10 <= opcode < 0x10 + 16 ==> MNEMONICS@[opcode as int]@ == mnemonic_at(opcode),
{
    reveal_strlit("nop");
    reveal_strlit("");
    reveal_strlit("dec^");
    reveal_strlit("fcm2");
    reveal_strlit("drp2");
    reveal_strlit("swp2");
    reveal_strlit("rtf2");
    reveal_strlit("inc2");
    reveal_strlit("eqz2");
    reveal_strlit("add2");
    reveal_strlit("adc2");
    reveal_strlit("bnt2");
    reveal_strlit("ior2");
    reveal_strlit("shl2");
    reveal_strlit("rtl2");
    assert(MNEMONICS@[0x10]@ =~= mnemonic_at(0x10));
    assert(MNEMONICS@[0x11]@ =~= mnemonic_at(0x11));
    assert(MNEMONICS@[0x12]@ =~= mnemonic_at(0x12));
    assert(MNEMONICS@[0x13]@ =~= mnemonic_at(0x13));
    assert(MNEMONICS@[0x14]@ =~= mnemonic_at(0x14));
    assert(MNEMONICS@[0x15]@ =~= mnemonic_at(0x15));
    assert(MNEMONICS@[0x16]@ =~= mnemonic_at(0x16));
    assert(MNEMONICS@[0x17]@ =~= mnemonic_at(0x17));
    assert(MNEMONICS@[0x18]@ =~= mnemonic_at(0x18));
    assert(MNEMONICS@[0x19]@ =~= mnemonic_at(0x19));
    assert(MNEMONICS@[0x1a]@ =~= mnemonic_at(0x1a));
    assert(MNEMONICS@[0x1b]@ =~= mnemonic_at(0x1b));
    assert(MNEMONICS@[0x1c]@ =~= mnemonic_at(0x1c));
    assert(MNEMONICS@[0x1d]@ =~= mnemonic_at(0x1d));
    assert(MNEMONICS@[0x1e]@ =~= mnemonic_at(0x1e));
    assert(MNEMONICS@[0x1f]@ =~= mnemonic_at(0x1f));
}

proof fn lemma_row_2()
    ensures
        forall|opcode: u8| 0x20 <= opcode < 0x20 + 16 ==> MNEMONICS@[opcode as int]@ == mnemonic_at(opcode),
{
    reveal_strlit("");
    reveal_strlit("jmp");
    reveal_strlit("drp^");
    reveal_strlit("eqz^");
    reveal_strlit("fcm4");
    reveal_strlit("drp4");
    reveal_strlit("swp4");
    reveal_strlit("rtf4");
    reveal_strlit("inc4");
    reveal_strlit("eqz4");
    reveal_strlit("add4");
    reveal_strlit("adc4");
    reveal_strlit("bnt4");
    reveal_strlit("ior4");
    reveal_strlit("shl4");
    reveal_strlit("rtl4");
    assert(MNEMONICS@[0x20]@ =~= mnemonic_at(0x20));
    assert(MNEMONICS@[0x21]@ =~= mnemonic_at(0x21));
    assert(MNEMONICS@[0x22]@ =~= mnemonic_at(0x22));
    assert(MNEMONICS@[0x23]@ =~= mnemonic_at(0x23));
    assert(MNEMONICS@[0x24]@ =~= mnemonic_at(0x24));
    assert(MNEMONICS@[0x25]@ =~= mnemonic_at(0x25));
    assert(MNEMONICS@[0x26]@ =~= mnemonic_at(0x26));
    assert(MNEMONICS@[0x27]@ =~= mnemonic_at(0x27));
    assert(MNEMONICS@[0x28]@ =~= mnemonic_at(0x28));
    assert(MNEMONICS@[0x29]@ =~= mnemonic_at(0x29));
    assert(MNEMONICS@[0x2a]@ =~= mnemonic_at(0x2a));
    assert(MNEMONICS@[0x2b]@ =~= mnemonic_at(0x2b));
    assert(MNEMONICS@[0x2c]@ =~= mnemonic_at(0x2c));
    assert(MNEMONICS@[0x2d]@ =~= mnemonic_at(0x2d));
    assert(MNEMONICS@[0x2e]@ =~= mnemonic_at(0x2e));
    assert(MNEMONICS@[0x2f]@ =~= mnemonic_at(0x2f));
}

proof fn lemma_row_3()
    ensures
        forall|opcode: u8| 0x30 <= opcode < 0x30 + 16 ==> MNEMONICS@[opcode as int]@ == mnemonic_at(opcode),
{
    reveal_strlit("");
    reveal_strlit("jsr");
    reveal_strlit("dup^");
    reveal_strlit("nez^");
    reveal_strlit("fcm8");
    reveal_strlit("drp8");
    reveal_strlit("swp8");
    reveal_strlit("rtf8");
    reveal_strlit("inc8");
    reveal_strlit("eqz8");
    reveal_strlit("add8");
    reveal_strlit("adc8");
    reveal_strlit("bnt8");
    reveal_strlit("ior8");
    reveal_strlit("shl8");
    reveal_strlit("rtl8");
    assert(MNEMONICS@[0x30]@ =~= mnemonic_at(0x30));
    assert(MNEMONICS@[0x31]@ =~= mnemonic_at(0x31));
    assert(MNEMONICS@[0x32]@ =~= mnemonic_at(0x32));
    assert(MNEMONICS@[0x33]@ =~= mnemonic_at(0x33));
    assert(MNEMONICS@[0x34]@ =~= mnemonic_at(0x34));
    assert(MNEMONICS@[0x35]@ =~= mnemonic_at(0x35));
    assert(MNEMONICS@[0x36]@ =~= mnemonic_at(0x36));
    assert(MNEMONICS@[0x37]@ =~= mnemonic_at(0x37));
    assert(MNEMONICS@[0x38]@ =~= mnemonic_at(0x38));
    assert(MNEMONICS@[0x39]@ =~= mnemonic_at(0x39));
    assert(MNEMONICS@[0x3a]@ =~= mnemonic_at(0x3a));
    assert(MNEMONICS@[0x3b]@ =~= mnemonic_at(0x3b));
    assert(MNEMONICS@[0x3c]@ =~= mnemonic_at(0x3c));
    assert(MNEMONICS@[0x3d]@ =~= mnemonic_at(0x3d));
    assert(MNEMONICS@[0x3e]@ =~= mnemonic_at(0x3e));
    assert(MNEMONICS@[0x3f]@ =~= mnemonic_at(0x3f));
}

proof fn lemma_row_4()
    ensures
        forall|opcode: u8| 0x40 <= opcode < 0x40 + 16 ==> MNEMONICS@[opcode as int]@ == mnemonic_at(opcode),
{
    reveal_strlit("nip");
    reveal_strlit("swp^");
    reveal_strlit("add^");
    reveal_strlit("sts1");
    reveal_strlit("stm1");
    reveal_strlit("dup1");
    reveal_strlit("ovr1");
    reveal_strlit("rtb1");
    reveal_strlit("dec1");
    reveal_strlit("nez1");
    reveal_strlit("sub1");
    reveal_strlit("sbb1");
    reveal_strlit("and1");
    reveal_strlit("xor1");
    reveal_strlit("shr1");
    reveal_strlit("rtr1");
    assert(MNEMONICS@[0x40]@ =~= mnemonic_at(0x40));
    assert(MNEMONICS@[0x41]@ =~= mnemonic_at(0x41));
    assert(MNEMONICS@[0x42]@ =~= mnemonic_at(0x42));
    assert(MNEMONICS@[0x43]@ =~= mnemonic_at(0x43));
    assert(MNEMONICS@[0x44]@ =~= mnemonic_at(0x44));
    assert(MNEMONICS@[0x45]@ =~= mnemonic_at(0x45));
    assert(MNEMONICS@[0x46]@ =~= mnemonic_at(0x46));
    assert(MNEMONICS@[0x47]@ =~= mnemonic_at(0x47));
    assert(MNEMONICS@[0x48]@ =~= mnemonic_at(0x48));
    assert(MNEMONICS@[0x49]@ =~= mnemonic_at(0x49));
    assert(MNEMONICS@[0x4a]@ =~= mnemonic_at(0x4a));
    assert(MNEMONICS@[0x4b]@ =~= mnemonic_at(0x4b));
    assert(MNEMONICS@[0x4c]@ =~= mnemonic_at(0x4c));
    assert(MNEMONICS@[0x4d]@ =~= mnemonic_at(0x4d));
    assert(MNEMONICS@[0x4e]@ =~= mnemonic_at(0x4e));
    assert(MNEMONICS@[0x4f]@ =~= mnemonic_at(0x4f));
}

proof fn lemma_row_5()
    ensures
        forall|opcode: u8| 0x50 <= opcode < 0x50 + 16 ==> MNEMONICS@[opcode as int]@ == mnemonic_at(opcode),
{
    reveal_strlit("dsp");
    reveal_strlit("ovr^");
    reveal_strlit("sub^");
    reveal_strlit("sts2");
    reveal_strlit("stm2");
    reveal_strlit("dup2");
    reveal_strlit("ovr2");
    reveal_strlit("rtb2");
    reveal_strlit("dec2");
    reveal_strlit("nez2");
    reveal_strlit("sub2");
    reveal_strlit("sbb2");
    reveal_strlit("and2");
    reveal_strlit("xor2");
    reveal_strlit("shr2");
    reveal_strlit("rtr2");
    assert(MNEMONICS@[0x50]@ =~= mnemonic_at(0x50));
    assert(MNEMONICS@[0x51]@ =~= mnemonic_at(0x51));
    assert(MNEMONICS@[0x52]@ =~= mnemonic_at(0x52));
    assert(MNEMONICS@[0x53]@ =~= mnemonic_at(0x53));
    assert(MNEMONICS@[0x54]@ =~= mnemonic_at(0x54));
    assert(MNEMONICS@[0x55]@ =~= mnemonic_at(0x55));
    assert(MNEMONICS@[0x56]@ =~= mnemonic_at(0x56));
    assert(MNEMONICS@[0x57]@ =~= mnemonic_at(0x57));
    assert(MNEMONICS@[0x58]@ =~= mnemonic_at(0x58));
    assert(MNEMONICS@[0x59]@ =~= mnemonic_at(0x59));
    assert(MNEMONICS@[0x5a]@ =~= mnemonic_at(0x5a));
    assert(MNEMONICS@[0x5b]@ =~= mnemonic_at(0x5b));
    assert(MNEMONICS@[0x5c]@ =~= mnemonic_at(0x5c));
    assert(MNEMONICS@[0x5d]@ =~= mnemonic_at(0x5d));
    assert(MNEMONICS@[0x5e]@ =~= mnemonic_at(0x5e));
    assert(MNEMONICS@[0x5f]@ =~= mnemonic_at(0x5f));
}

proof fn lemma_row_6()
    ensures
        forall|opcode: u8| 0x60 <= opcode < 0x60 + 16 ==> MNEMONICS@[opcode as int]@ == mnemonic_at(opcode),
{
    reveal_strlit("sei");
    reveal_strlit("rtf^");
    reveal_strlit("adc^");
    reveal_strlit("sts4");
    reveal_strlit("stm4");
    reveal_strlit("dup4");
    reveal_strlit("ovr4");
    reveal_strlit("rtb4");
    reveal_strlit("dec4");
    reveal_strlit("nez4");
    reveal_strlit("sub4");
    reveal_strlit("sbb4");
    reveal_strlit("and4");
    reveal_strlit("xor4");
    reveal_strlit("shr4");
    reveal_strlit("rtr4");
    assert(MNEMONICS@[0x60]@ =~= mnemonic_at(0x60));
    assert(MNEMONICS@[0x61]@ =~= mnemonic_at(0x61));
    assert(MNEMONICS@[0x62]@ =~= mnemonic_at(0x62));
    assert(MNEMONICS@[0x63]@ =~= mnemonic_at(0x63));
    assert(MNEMONICS@[0x64]@ =~= mnemonic_at(0x64));
    assert(MNEMONICS@[0x65]@ =~= mnemonic_at(0x65));
    assert(MNEMONICS@[0x66]@ =~= mnemonic_at(0x66));
    assert(MNEMONICS@[0x67]@ =~= mnemonic_at(0x67));
    assert(MNEMONICS@[0x68]@ =~= mnemonic_at(0x68));
    assert(MNEMONICS@[0x69]@ =~= mnemonic_at(0x69));
    assert(MNEMONICS@[0x6a]@ =~= mnemonic_at(0x6a));
    assert(MNEMONICS@[0x6b]@ =~= mnemonic_at(0x6b));
    assert(MNEMONICS@[0x6c]@ =~= mnemonic_at(0x6c));
    assert(MNEMONICS@[0x6d]@ =~= mnemonic_at(0x6d));
    assert(MNEMONICS@[0x6e]@ =~= mnemonic_at(0x6e));
    assert(MNEMONICS@[0x6f]@ =~= mnemonic_at(0x6f));
}

proof fn lemma_row_7()
    ensures
        forall|opcode: u8| 0x70 <= opcode < 0x70 + 16 ==> MNEMONICS@[opcode as int]@ == mnemonic_at(opcode),
{
    reveal_strlit("cli");
    reveal_strlit("rtb^");
    reveal_strlit("sbb^");
    reveal_strlit("sts8");
    reveal_strlit("stm8");
    reveal_strlit("dup8");
    reveal_strlit("ovr8");
    reveal_strlit("rtb8");
    reveal_strlit("dec8");
    reveal_strlit("nez8");
    reveal_strlit("sub8");
    reveal_strlit("sbb8");
    reveal_strlit("and8");
    reveal_strlit("xor8");
    reveal_strlit("shr8");
    reveal_strlit("rtr8");
    assert(MNEMONICS@[0x70]@ =~= mnemonic_at(0x70));
    assert(MNEMONICS@[0x71]@ =~= mnemonic_at(0x71));
    assert(MNEMONICS@[0x72]@ =~= mnemonic_at(0x72));
    assert(MNEMONICS@[0x73]@ =~= mnemonic_at(0x73));
    assert(MNEMONICS@[0x74]@ =~= mnemonic_at(0x74));
    assert(MNEMONICS@[0x75]@ =~= mnemonic_at(0x75));
    assert(MNEMONICS@[0x76]@ =~= mnemonic_at(0x76));
    assert(MNEMONICS@[0x77]@ =~= mnemonic_at(0x77));
    assert(MNEMONICS@[0x78]@ =~= mnemonic_at(0x78));
    assert(MNEMONICS@[0x79]@ =~= mnemonic_at(0x79));
    assert(MNEMONICS@[0x7a]@ =~= mnemonic_at(0x7a));
    assert(MNEMONICS@[0x7b]@ =~= mnemonic_at(0x7b));
    assert(MNEMONICS@[0x7c]@ =~= mnemonic_at(0x7c));
    assert(MNEMONICS@[0x7d]@ =~= mnemonic_at(0x7d));
    assert(MNEMONICS@[0x7e]@ =~= mnemonic_at(0x7e));
    assert(MNEMONICS@[0x7f]@ =~= mnemonic_at(0x7f));
}

proof fn lemma_row_8()
    ensures
        forall|opcode: u8| 0x80 <= opcode < 0x80 + 16 ==> MNEMONICS@[opcode as int]@ == mnemonic_at(opcode),
{
    reveal_strlit("brk?");
    reveal_strlit("");
    reveal_strlit("inc^?");
    reveal_strlit("fcm1?");
    reveal_strlit("drp1?");
    reveal_strlit("swp1?");
    reveal_strlit("rtf1?");
    reveal_strlit("inc1?");
    reveal_strlit("eqz1?");
    reveal_strlit("add1?");
    reveal_strlit("adc1?");
    reveal_strlit("bnt1?");
    reveal_strlit("ior1?");
    reveal_strlit("shl1?");
    reveal_strlit("rtl1?");
    assert(MNEMONICS@[0x80]@ =~= mnemonic_at(0x80));
    assert(MNEMONICS@[0x81]@ =~= mnemonic_at(0x81));
    assert(MNEMONICS@[0x82]@ =~= mnemonic_at(0x82));
    assert(MNEMONICS@[0x83]@ =~= mnemonic_at(0x83));
    assert(MNEMONICS@[0x84]@ =~= mnemonic_at(0x84));
    assert(MNEMONICS@[0x85]@ =~= mnemonic_at(0x85));
    assert(MNEMONICS@[0x86]@ =~= mnemonic_at(0x86));
    assert(MNEMONICS@[0x87]@ =~= mnemonic_at(0x87));
    assert(MNEMONICS@[0x88]@ =~= mnemonic_at(0x88));
    assert(MNEMONICS@[0x89]@ =~= mnemonic_at(0x89));
    assert(MNEMONICS@[0x8a]@ =~= mnemonic_at(0x8a));
    assert(MNEMONICS@[0x8b]@ =~= mnemonic_at(0x8b));
    assert(MNEMONICS@[0x8c]@ =~= mnemonic_at(0x8c));
    assert(MNEMONICS@[0x8d]@ =~= mnemonic_at(0x8d));
    assert(MNEMONICS@[0x8e]@ =~= mnemonic_at(0x8e));
    assert(MNEMONICS@[0x8f]@ =~= mnemonic_at(0x8f));
}

proof fn lemma_row_9()
    ensures
        forall|opcode: u8| 0x90 <= opcode < 0x90 + 16 ==> MNEMONICS@[opcode as int]@ == mnemonic_at(opcode),
{
    reveal_strlit("nop?");
    reveal_strlit("");
    reveal_strlit("dec^?");
    reveal_strlit("fcm2?");
    reveal_strlit("drp2?");
    reveal_strlit("swp2?");
    reveal_strlit("rtf2?");
    reveal_strlit("inc2?");
    reveal_strlit("eqz2?");
    reveal_strlit("add2?");
    reveal_strlit("adc2?");
    reveal_strlit("bnt2?");
    reveal_strlit("ior2?");
    reveal_strlit("shl2?");
    reveal_strlit("rtl2?");
    assert(MNEMONICS@[0x90]@ =~= mnemonic_at(0x90));
    assert(MNEMONICS@[0x91]@ =~= mnemonic_at(0x91));
    assert(MNEMONICS@[0x92]@ =~= mnemonic_at(0x92));
    assert(MNEMONICS@[0x93]@ =~= mnemonic_at(0x93));
    assert(MNEMONICS@[0x94]@ =~= mnemonic_at(0x94));
    assert(MNEMONICS@[0x95]@ =~= mnemonic_at(0x95));
    assert(MNEMONICS@[0x96]@ =~= mnemonic_at(0x96));
    assert(MNEMONICS@[0x97]@ =~= mnemonic_at(0x97));
    assert(MNEMONICS@[0x98]@ =~= mnemonic_at(0x98));
    assert(MNEMONICS@[0x99]@ =~= mnemonic_at(0x99));
    assert(MNEMONICS@[0x9a]@ =~= mnemonic_at(0x9a));
    assert(MNEMONICS@[0x9b]@ =~= mnemonic_at(0x9b));
    assert(MNEMONICS@[0x9c]@ =~= mnemonic_at(0x9c));
    assert(MNEMONICS@[0x9d]@ =~= mnemonic_at(0x9d));
    assert(MNEMONICS@[0x9e]@ =~= mnemonic_at(0x9e));
    assert(MNEMONICS@[0x9f]@ =~= mnemonic_at(0x9f));
}

proof fn lemma_row_a()
    ensures
        forall|opcode: u8| 0xa0 <= opcode < 0xa0 + 16 ==> MNEMONICS@[opcode as int]@ == mnemonic_at(opcode),
{
    reveal_strlit("");
    reveal_strlit("jmp?");
    reveal_strlit("drp^?");
    reveal_strlit("eqz^?");
    reveal_strlit("fcm4?");
    reveal_strlit("drp4?");
    reveal_strlit("swp4?");
    reveal_strlit("rtf4?");
    reveal_strlit("inc4?");
    reveal_strlit("eqz4?");
    reveal_strlit("add4?");
    reveal_strlit("adc4?");
    reveal_strlit("bnt4?");
    reveal_strlit("ior4?");
    reveal_strlit("shl4?");
    reveal_strlit("rtl4?");
    assert(MNEMONICS@[0xa0]@ =~= mnemonic_at(0xa0));
    assert(MNEMONICS@[0xa1]@ =~= mnemonic_at(0xa1));
    assert(MNEMONICS@[0xa2]@ =~= mnemonic_at(0xa2));
    assert(MNEMONICS@[0xa3]@ =~= mnemonic_at(0xa3));
    assert(MNEMONICS@[0xa4]@ =~= mnemonic_at(0xa4));
    assert(MNEMONICS@[0xa5]@ =~= mnemonic_at(0xa5));
    assert(MNEMONICS@[0xa6]@ =~= mnemonic_at(0xa6));
    assert(MNEMONICS@[0xa7]@ =~= mnemonic_at(0xa7));
    assert(MNEMONICS@[0xa8]@ =~= mnemonic_at(0xa8));
    assert(MNEMONICS@[0xa9]@ =~= mnemonic_at(0xa9));
    assert(MNEMONICS@[0xaa]@ =~= mnemonic_at(0xaa));
    assert(MNEMONICS@[0xab]@ =~= mnemonic_at(0xab));
    assert(MNEMONICS@[0xac]@ =~= mnemonic_at(0xac));
    assert(MNEMONICS@[0xad]@ =~= mnemonic_at(0xad));
    assert(MNEMONICS@[0xae]@ =~= mnemonic_at(0xae));
    assert(MNEMONICS@[0xaf]@ =~= mnemonic_at(0xaf));
}

proof fn lemma_row_b()
    ensures
        forall|opcode: u8| 0xb0 <= opcode < 0xb0 + 16 ==> MNEMONICS@[opcode as int]@ == mnemonic_at(opcode),
{
    reveal_strlit("");
    reveal_strlit("jsr?");
    reveal_strlit("dup^?");
    reveal_strlit("nez^?");
    reveal_strlit("fcm8?");
    reveal_strlit("drp8?");
    reveal_strlit("swp8?");
    reveal_strlit("rtf8?");
    reveal_strlit("inc8?");
    reveal_strlit("eqz8?");
    reveal_strlit("add8?");
    reveal_strlit("adc8?");
    reveal_strlit("bnt8?");
    reveal_strlit("ior8?");
    reveal_strlit("shl8?");
    reveal_strlit("rtl8?");
    assert(MNEMONICS@[0xb0]@ =~= mnemonic_at(0xb0));
    assert(MNEMONICS@[0xb1]@ =~= mnemonic_at(0xb1));
    assert(MNEMONICS@[0xb2]@ =~= mnemonic_at(0xb2));
    assert(MNEMONICS@[0xb3]@ =~= mnemonic_at(0xb3));
    assert(MNEMONICS@[0xb4]@ =~= mnemonic_at(0xb4));
    assert(MNEMONICS@[0xb5]@ =~= mnemonic_at(0xb5));
    assert(MNEMONICS@[0xb6]@ =~= mnemonic_at(0xb6));
    assert(MNEMONICS@[0xb7]@ =~= mnemonic_at(0xb7));
    assert(MNEMONICS@[0xb8]@ =~= mnemonic_at(0xb8));
    assert(MNEMONICS@[0xb9]@ =~= mnemonic_at(0xb9));
    assert(MNEMONICS@[0xba]@ =~= mnemonic_at(0xba));
    assert(MNEMONICS@[0xbb]@ =~= mnemonic_at(0xbb));
    assert(MNEMONICS@[0xbc]@ =~= mnemonic_at(0xbc));
    assert(MNEMONICS@[0xbd]@ =~= mnemonic_at(0xbd));
    assert(MNEMONICS@[0xbe]@ =~= mnemonic_at(0xbe));
    assert(MNEMONICS@[0xbf]@ =~= mnemonic_at(0xbf));
}

proof fn lemma_row_c()
    ensures
        forall|opcode: u8| 0xc0 <= opcode < 0xc0 + 16 ==> MNEMONICS@[opcode as int]@ == mnemonic_at(opcode),
{
    reveal_strlit("nip?");
    reveal_strlit("swp^?");
    reveal_strlit("add^?");
    reveal_strlit("sts1?");
    reveal_strlit("stm1?");
    reveal_strlit("dup1?");
    reveal_strlit("ovr1?");
    reveal_strlit("rtb1?");
    reveal_strlit("dec1?");
    reveal_strlit("nez1?");
    reveal_strlit("sub1?");
    reveal_strlit("sbb1?");
    reveal_strlit("and1?");
    reveal_strlit("xor1?");
    reveal_strlit("shr1?");
    reveal_strlit("rtr1?");
    assert(MNEMONICS@[0xc0]@ =~= mnemonic_at(0xc0));
    assert(MNEMONICS@[0xc1]@ =~= mnemonic_at(0xc1));
    assert(MNEMONICS@[0xc2]@ =~= mnemonic_at(0xc2));
    assert(MNEMONICS@[0xc3]@ =~= mnemonic_at(0xc3));
    assert(MNEMONICS@[0xc4]@ =~= mnemonic_at(0xc4));
    assert(MNEMONICS@[0xc5]@ =~= mnemonic_at(0xc5));
    assert(MNEMONICS@[0xc6]@ =~= mnemonic_at(0xc6));
    assert(MNEMONICS@[0xc7]@ =~= mnemonic_at(0xc7));
    assert(MNEMONICS@[0xc8]@ =~= mnemonic_at(0xc8));
    assert(MNEMONICS@[0xc9]@ =~= mnemonic_at(0xc9));
    assert(MNEMONICS@[0xca]@ =~= mnemonic_at(0xca));
    assert(MNEMONICS@[0xcb]@ =~= mnemonic_at(0xcb));
    assert(MNEMONICS@[0xcc]@ =~= mnemonic_at(0xcc));
    assert(MNEMONICS@[0xcd]@ =~= mnemonic_at(0xcd));
    assert(MNEMONICS@[0xce]@ =~= mnemonic_at(0xce));
    assert(MNEMONICS@[0xcf]@ =~= mnemonic_at(0xcf));
}

proof fn lemma_row_d()
    ensures
        forall|opcode: u8| 0xd0 <= opcode < 0xd0 + 16 ==> MNEMONICS@[opcode as int]@ == mnemonic_at(opcode),
{
    reveal_strlit("dsp?");
    reveal_strlit("ovr^?");
    reveal_strlit("sub^?");
    reveal_strlit("sts2?");
    reveal_strlit("stm2?");
    reveal_strlit("dup2?");
    reveal_strlit("ovr2?");
    reveal_strlit("rtb2?");
    reveal_strlit("dec2?");
    reveal_strlit("nez2?");
    reveal_strlit("sub2?");
    reveal_strlit("sbb2?");
    reveal_strlit("and2?");
    reveal_strlit("xor2?");
    reveal_strlit("shr2?");
    reveal_strlit("rtr2?");
    assert(MNEMONICS@[0xd0]@ =~= mnemonic_at(0xd0));
    assert(MNEMONICS@[0xd1]@ =~= mnemonic_at(0xd1));
    assert(MNEMONICS@[0xd2]@ =~= mnemonic_at(0xd2));
    assert(MNEMONICS@[0xd3]@ =~= mnemonic_at(0xd3));
    assert(MNEMONICS@[0xd4]@ =~= mnemonic_at(0xd4));
    assert(MNEMONICS@[0xd5]@ =~= mnemonic_at(0xd5));
    assert(MNEMONICS@[0xd6]@ =~= mnemonic_at(0xd6));
    assert(MNEMONICS@[0xd7]@ =~= mnemonic_at(0xd7));
    assert(MNEMONICS@[0xd8]@ =~= mnemonic_at(0xd8));
    assert(MNEMONICS@[0xd9]@ =~= mnemonic_at(0xd9));
    assert(MNEMONICS@[0xda]@ =~= mnemonic_at(0xda));
    assert(MNEMONICS@[0xdb]@ =~= mnemonic_at(0xdb));
    assert(MNEMONICS@[0xdc]@ =~= mnemonic_at(0xdc));
    assert(MNEMONICS@[0xdd]@ =~= mnemonic_at(0xdd));
    assert(MNEMONICS@[0xde]@ =~= mnemonic_at(0xde));
    assert(MNEMONICS@[0xdf]@ =~= mnemonic_at(0xdf));
}

proof fn lemma_row_e()
    ensures
        forall|opcode: u8| 0xe0 <= opcode < 0xe0 + 16 ==> MNEMONICS@[opcode as int]@ == mnemonic_at(opcode),
{
    reveal_strlit("sei?");
    reveal_strlit("rtf^?");
    reveal_strlit("adc^?");
    reveal_strlit("sts4?");
    reveal_strlit("stm4?");
    reveal_strlit("dup4?");
    reveal_strlit("ovr4?");
    reveal_strlit("rtb4?");
    reveal_strlit("dec4?");
    reveal_strlit("nez4?");
    reveal_strlit("sub4?");
    reveal_strlit("sbb4?");
    reveal_strlit("and4?");
    reveal_strlit("xor4?");
    reveal_strlit("shr4?");
    reveal_strlit("rtr4?");
    assert(MNEMONICS@[0xe0]@ =~= mnemonic_at(0xe0));
    assert(MNEMONICS@[0xe1]@ =~= mnemonic_at(0xe1));
    assert(MNEMONICS@[0xe2]@ =~= mnemonic_at(0xe2));
    assert(MNEMONICS@[0xe3]@ =~= mnemonic_at(0xe3));
    assert(MNEMONICS@[0xe4]@ =~= mnemonic_at(0xe4));
    assert(MNEMONICS@[0xe5]@ =~= mnemonic_at(0xe5));
    assert(MNEMONICS@[0xe6]@ =~= mnemonic_at(0xe6));
    assert(MNEMONICS@[0xe7]@ =~= mnemonic_at(0xe7));
    assert(MNEMONICS@[0xe8]@ =~= mnemonic_at(0xe8));
    assert(MNEMONICS@[0xe9]@ =~= mnemonic_at(0xe9));
    assert(MNEMONICS@[0xea]@ =~= mnemonic_at(0xea));
    assert(MNEMONICS@[0xeb]@ =~= mnemonic_at(0xeb));
    assert(MNEMONICS@[0xec]@ =~= mnemonic_at(0xec));
    assert(MNEMONICS@[0xed]@ =~= mnemonic_at(0xed));
    assert(MNEMONICS@[0xee]@ =~= mnemonic_at(0xee));
    assert(MNEMONICS@[0xef]@ =~= mnemonic_at(0xef));
}

proof fn lemma_row_f()
    ensures
        forall|opcode: u8| 0xf0 <= opcode < 0xf0 + 16 ==> MNEMONICS@[opcode as int]@ == mnemonic_at(opcode),
{
    reveal_strlit("cli?");
    reveal_strlit("rtb^?");
    reveal_strlit("sbb^?");
    reveal_strlit("sts8?");
    reveal_strlit("stm8?");
    reveal_strlit("dup8?");
    reveal_strlit("ovr8?");
    reveal_strlit("rtb8?");
    reveal_strlit("dec8?");
    reveal_strlit("nez8?");
    reveal_strlit("sub8?");
    reveal_strlit("sbb8?");
    reveal_strlit("and8?");
    reveal_strlit("xor8?");
    reveal_strlit("shr8?");
    reveal_strlit("rtr8?");
    assert(MNEMONICS@[0xf0]@ =~= mnemonic_at(0xf0));
    assert(MNEMONICS@[0xf1]@ =~= mnemonic_at(0xf1));
    assert(MNEMONICS@[0xf2]@ =~= mnemonic_at(0xf2));
    assert(MNEMONICS@[0xf3]@ =~= mnemonic_at(0xf3));
    assert(MNEMONICS@[0xf4]@ =~= mnemonic_at(0xf4));
    assert(MNEMONICS@[0xf5]@ =~= mnemonic_at(0xf5));
    assert(MNEMONICS@[0xf6]@ =~= mnemonic_at(0xf6));
    assert(MNEMONICS@[0xf7]@ =~= mnemonic_at(0xf7));
    assert(MNEMONICS@[0xf8]@ =~= mnemonic_at(0xf8));
    assert(MNEMONICS@[0xf9]@ =~= mnemonic_at(0xf9));
    assert(MNEMONICS@[0xfa]@ =~= mnemonic_at(0xfa));
    assert(MNEMONICS@[0xfb]@ =~= mnemonic_at(0xfb));
    assert(MNEMONICS@[0xfc]@ =~= mnemonic_at(0xfc));
    assert(MNEMONICS@[0xfd]@ =~= mnemonic_at(0xfd));
    assert(MNEMONICS@[0xfe]@ =~= mnemonic_at(0xfe));
    assert(MNEMONICS@[0xff]@ =~= mnemonic_at(0xff));
}

/// The table holds, at every opcode, the mnemonic of the instruction that the
/// opcode encodes, and an empty entry where it encodes none.
pub proof fn lemma_table(opcode: u8)
    ensures
        MNEMONICS@[opcode as int]@ == mnemonic_at(opcode),
{
    lemma_row_0();
    lemma_row_1();
    lemma_row_2();
    lemma_row_3();
    lemma_row_4();
    lemma_row_5();
    lemma_row_6();
    lemma_row_7();
    lemma_row_8();
    lemma_row_9();
    lemma_row_a();
    lemma_row_b();
    lemma_row_c();
    lemma_row_d();
    lemma_row_e();
    lemma_row_f();
}

/// Every mnemonic that the table holds names an instruction, and the opcode
/// of that instruction is the place at which the table holds the mnemonic.
pub proof fn lemma_mnemonic_round_trip(opcode: u8)
    requires
        MNEMONICS@[opcode as int]@.len() > 0,
    ensures
        kind_of(MNEMONICS@[opcode as int]@) matches Some(kind) && kind.opcode() == opcode,
{
    lemma_table(opcode);
    lemma_opcode_at(opcode);
    let listed = InstructionKind::at(opcode)->0;
    let named = choose|kind: InstructionKind| kind.mnemonic() == MNEMONICS@[opcode as int]@;
    lemma_mnemonic_injective(listed, named);
}

/// The table holds the mnemonic of every instruction at its opcode, and the
/// mnemonic names that instruction and no other.
pub proof fn lemma_kind_round_trip(kind: InstructionKind)
    ensures
        0 <= kind.opcode() < 256,
        MNEMONICS@[kind.opcode()]@ == kind.mnemonic(),
        kind_of(kind.mnemonic()) == Some(kind),
{
    lemma_at_opcode(kind);
    lemma_table(kind.opcode() as u8);
    let named = choose|other: InstructionKind| other.mnemonic() == kind.mnemonic();
    lemma_mnemonic_injective(kind, named);
}

} // verus!
