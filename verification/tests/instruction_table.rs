use yotasm::instruction::{
    kind_at, kind_for, opcode_for, InstructionKind, Operand, OperandSize, Operation,
    PlainOperation, SizedOperation, StackOperation, MNEMONICS,
};

fn plain(operation: PlainOperation) -> InstructionKind {
    InstructionKind { operation: Operation::Plain(operation), conditional: false }
}

#[test]
fn every_mnemonic_round_trips_to_its_opcode() {
    let mut named = 0;
    for (opcode, mnemonic) in MNEMONICS.iter().enumerate() {
        if mnemonic.is_empty() {
            assert_eq!(kind_at(opcode as u8), None);
            continue;
        }
        named += 1;
        let kind = kind_for(mnemonic).unwrap();
        assert_eq!(opcode_for(&kind) as usize, opcode, "{}", mnemonic);
        assert_eq!(kind_at(opcode as u8), Some(kind));
    }
    assert_eq!(named, 244);
}

#[test]
fn table_has_the_listed_entries() {
    assert_eq!(MNEMONICS.len(), 256);
    assert_eq!(MNEMONICS[0x00], "brk");
    assert_eq!(MNEMONICS[0x01], "");
    assert_eq!(MNEMONICS[0x02], "inc^");
    assert_eq!(MNEMONICS[0x20], "jmp");
    assert_eq!(MNEMONICS[0x43], "sts1");
    assert_eq!(MNEMONICS[0x72], "sbb^");
    assert_eq!(MNEMONICS[0x7f], "rtr8");
    assert_eq!(MNEMONICS[0x80], "brk?");
    assert_eq!(MNEMONICS[0x9a], "add2?");
    assert_eq!(MNEMONICS[0xff], "rtr8?");
}

#[test]
fn break_encodes_to_zero() {
    assert_eq!(opcode_for(&plain(PlainOperation::Brk)), 0x00);
    assert_eq!(kind_for("brk"), Some(plain(PlainOperation::Brk)));
}

#[test]
fn plain_operations_take_one_row_each() {
    assert_eq!(opcode_for(&plain(PlainOperation::Nop)), 0x10);
    assert_eq!(opcode_for(&plain(PlainOperation::Jmp)), 0x20);
    assert_eq!(opcode_for(&plain(PlainOperation::Jsr)), 0x30);
    assert_eq!(opcode_for(&plain(PlainOperation::Nip)), 0x40);
    assert_eq!(opcode_for(&plain(PlainOperation::Dsp)), 0x50);
    assert_eq!(opcode_for(&plain(PlainOperation::Sei)), 0x60);
    assert_eq!(opcode_for(&plain(PlainOperation::Cli)), 0x70);
}

#[test]
fn sizes_are_one_row_apart() {
    let sizes = [OperandSize::One, OperandSize::Two, OperandSize::Four, OperandSize::Eight];
    for (row, size) in sizes.iter().enumerate() {
        let add = InstructionKind {
            operation: Operation::Stack(StackOperation::Add, Operand::Data(*size)),
            conditional: false,
        };
        assert_eq!(opcode_for(&add) as usize, 0x0a + 0x10 * row);
        let sts = InstructionKind {
            operation: Operation::Sized(SizedOperation::Sts, *size),
            conditional: false,
        };
        assert_eq!(opcode_for(&sts) as usize, 0x43 + 0x10 * row);
    }
}

#[test]
fn conditional_adds_the_high_bit() {
    let kind = InstructionKind {
        operation: Operation::Stack(StackOperation::Add, Operand::Data(OperandSize::Two)),
        conditional: true,
    };
    assert_eq!(opcode_for(&kind), 0x9a);
    assert_eq!(kind_for("add2?"), Some(kind));
    assert_eq!(kind_at(0x9a), Some(kind));
}

#[test]
fn address_stack_variants_have_their_own_slots() {
    let sbb = InstructionKind {
        operation: Operation::Stack(StackOperation::Sbb, Operand::Address),
        conditional: false,
    };
    assert_eq!(opcode_for(&sbb), 0x72);
    assert_eq!(kind_for("sbb^"), Some(sbb));
    let drp = InstructionKind {
        operation: Operation::Stack(StackOperation::Drp, Operand::Address),
        conditional: true,
    };
    assert_eq!(opcode_for(&drp), 0xa1);
    assert_eq!(kind_for("drp^?"), Some(drp));
}

#[test]
fn unknown_mnemonics_name_nothing() {
    assert_eq!(kind_for(""), None);
    assert_eq!(kind_for("start"), None);
    assert_eq!(kind_for("BRK"), None);
    assert_eq!(kind_for("brk1"), None);
    assert_eq!(kind_for("add"), None);
    assert_eq!(kind_for("add3"), None);
    assert_eq!(kind_for("sts^"), None);
    assert_eq!(kind_for("brk??"), None);
}

#[test]
fn unused_bytes_decode_to_nothing() {
    for opcode in [0x01u8, 0x11, 0x03, 0x13, 0x23, 0x33, 0x81, 0x91, 0x83, 0x93, 0xa3, 0xb3] {
        assert_eq!(kind_at(opcode), None);
        assert_eq!(MNEMONICS[opcode as usize], "");
    }
}
