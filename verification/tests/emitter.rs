use yotasm::argument_parser::YotType;
use yotasm::emitter::{
    emit, emit_tokens, image_size, pad, render, Address, AddressableKind, Atom, AtomStream,
    ConstantKind, Error, LabelTable, Offset,
};
use yotasm::instruction::{InstructionKind, Operation, PlainOperation};
use yotasm::span::{Location, Span, Spanned, Spanning};
use yotasm::tokenizer::{tokenize, Token};

fn span(from: usize, to: usize) -> Span {
    Span { file_id: 0, from: Location { offset: from }, to: Location { offset: to } }
}

fn plain(operation: PlainOperation) -> InstructionKind {
    InstructionKind { operation: Operation::Plain(operation), conditional: false }
}

fn example() -> Vec<Spanned<Token>> {
    vec![
        Token::LabelDefinition("start".to_string()).spanning(span(0, 6)),
        Token::PrimitiveInstruction(plain(PlainOperation::Brk)).spanning(span(7, 10)),
        Token::LabelLiteral("start".to_string()).spanning(span(11, 17)),
    ]
}

#[test]
fn duplicate_label_is_reported_once_with_both_spans() {
    let tokens = vec![
        Token::LabelDefinition("a".to_string()).spanning(span(0, 2)),
        Token::LabelDefinition("a".to_string()).spanning(span(3, 5)),
    ];
    assert_eq!(
        emit(&tokens, YotType::Y8, 0, None),
        Err(vec![Error::LabelDefinedMoreThanOnce {
            label: "a".to_string(),
            current_label_span: span(3, 5),
            previously_defined_label_span: span(0, 2),
        }])
    );
}

#[test]
fn first_definition_of_a_label_stays() {
    let tokens = vec![
        Token::LabelDefinition("a".to_string()).spanning(span(0, 2)),
        Token::PrimitiveInstruction(plain(PlainOperation::Nop)).spanning(span(3, 6)),
        Token::LabelDefinition("a".to_string()).spanning(span(7, 9)),
        Token::LabelDefinition("a".to_string()).spanning(span(10, 12)),
    ];
    assert_eq!(
        emit_tokens(&tokens).err().unwrap(),
        vec![
            Error::LabelDefinedMoreThanOnce {
                label: "a".to_string(),
                current_label_span: span(7, 9),
                previously_defined_label_span: span(0, 2),
            },
            Error::LabelDefinedMoreThanOnce {
                label: "a".to_string(),
                current_label_span: span(10, 12),
                previously_defined_label_span: span(0, 2),
            },
        ]
    );
}

#[test]
fn undefined_label_is_reported_once() {
    let tokens = vec![Token::LabelLiteral("missing".to_string()).spanning(span(0, 8))];
    assert_eq!(
        emit(&tokens, YotType::Y8, 0, None),
        Err(vec![Error::CannotFindLabel { label: "missing".to_string(), span: span(0, 8) }])
    );
}

#[test]
fn all_label_mistakes_are_reported_together() {
    let tokens = vec![
        Token::SubroutineJump("f".to_string()).spanning(span(0, 1)),
        Token::LabelDefinition("a".to_string()).spanning(span(2, 4)),
        Token::LabelLiteral("g".to_string()).spanning(span(5, 7)),
        Token::LabelDefinition("a".to_string()).spanning(span(8, 10)),
        Token::LabelLiteral("a".to_string()).spanning(span(11, 13)),
    ];
    assert_eq!(
        emit(&tokens, YotType::Y16, 0, Some(1)),
        Err(vec![
            Error::LabelDefinedMoreThanOnce {
                label: "a".to_string(),
                current_label_span: span(8, 10),
                previously_defined_label_span: span(2, 4),
            },
            Error::CannotFindLabel { label: "f".to_string(), span: span(0, 1) },
            Error::CannotFindLabel { label: "g".to_string(), span: span(5, 7) },
        ])
    );
}

#[test]
fn end_to_end_example() {
    assert_eq!(emit(&example(), YotType::Y8, 0x10, None), Ok(vec![0x10, 0x02, 0x00, 0x20, 0x02]));
}

#[test]
fn exact_size_too_small_is_refused() {
    assert_eq!(
        emit(&example(), YotType::Y8, 0x10, Some(3)),
        Err(vec![Error::BinaryTooLarge { current_size: 5, requested_size: 3 }])
    );
}

#[test]
fn exact_size_pads_with_zeros() {
    assert_eq!(
        emit(&example(), YotType::Y8, 0x10, Some(8)),
        Ok(vec![0x10, 0x02, 0x00, 0x20, 0x02, 0x00, 0x00, 0x00])
    );
    assert_eq!(emit(&example(), YotType::Y8, 0x10, Some(5)), Ok(vec![0x10, 0x02, 0x00, 0x20, 0x02]));
}

#[test]
fn emission_repeats_itself() {
    for yot_type in [YotType::Y8, YotType::Y16, YotType::Y32, YotType::Y64] {
        let first = emit(&example(), yot_type, 0x1234, Some(64));
        let second = emit(&example(), yot_type, 0x1234, Some(64));
        assert!(first.is_ok());
        assert_eq!(first, second);
    }
}

#[test]
fn tokens_without_labels_always_emit() {
    let tokens = vec![
        Token::PrimitiveInstruction(plain(PlainOperation::Nop)).spanning(span(0, 3)),
        Token::DataLiteral(vec![0xab, 0xcd]).spanning(span(4, 9)),
        Token::PrimitiveInstruction(plain(PlainOperation::Brk)).spanning(span(10, 13)),
    ];
    assert_eq!(
        emit(&tokens, YotType::Y8, 0, None),
        Ok(vec![0x00, 0x02, 0x10, 0x20, 0xab, 0x20, 0xcd, 0x00])
    );
    assert_eq!(emit(&[], YotType::Y8, 9, None), Ok(vec![0x09, 0x02]));
}

#[test]
fn addresses_are_written_most_significant_byte_first() {
    assert_eq!(
        emit(&example(), YotType::Y16, 0x1234, None),
        Ok(vec![0x12, 0x34, 0x00, 0x04, 0x00, 0x20, 0x00, 0x20, 0x04])
    );
    assert_eq!(
        emit(&[], YotType::Y32, 0x0102_0304, None),
        Ok(vec![0x01, 0x02, 0x03, 0x04, 0x00, 0x00, 0x00, 0x08])
    );
    assert_eq!(
        emit(&[], YotType::Y64, 0x0102_0304_0506_0708, None),
        Ok(vec![1, 2, 3, 4, 5, 6, 7, 8, 0, 0, 0, 0, 0, 0, 0, 16])
    );
}

#[test]
fn stack_pointer_keeps_its_low_bytes() {
    assert_eq!(emit(&[], YotType::Y8, 0x1234, None), Ok(vec![0x34, 0x02]));
    assert_eq!(emit(&[], YotType::Y16, 0x0012_3456, None), Ok(vec![0x34, 0x56, 0x00, 0x04]));
}

#[test]
fn call_of_a_label_defined_later() {
    let tokens = vec![
        Token::SubroutineJump("f".to_string()).spanning(span(0, 1)),
        Token::PrimitiveInstruction(plain(PlainOperation::Nop)).spanning(span(2, 5)),
        Token::LabelDefinition("f".to_string()).spanning(span(6, 8)),
        Token::PrimitiveInstruction(plain(PlainOperation::Brk)).spanning(span(9, 12)),
    ];
    assert_eq!(
        emit(&tokens, YotType::Y8, 0xff, None),
        Ok(vec![0xff, 0x02, 0x20, 0x06, 0x72, 0x10, 0x00])
    );
    assert_eq!(
        emit(&tokens, YotType::Y16, 0xff, None),
        Ok(vec![0x00, 0xff, 0x00, 0x04, 0x20, 0x00, 0x20, 0x0a, 0x72, 0x10, 0x00])
    );
}

#[test]
fn source_text_to_image() {
    let tokens = tokenize(":start brk @start", 0).unwrap();
    assert_eq!(emit(&tokens, YotType::Y8, 0x10, None), Ok(vec![0x10, 0x02, 0x00, 0x20, 0x02]));
}

#[test]
fn image_size_is_the_length_of_the_image() {
    for yot_type in [YotType::Y8, YotType::Y16, YotType::Y32, YotType::Y64] {
        let size = image_size(&example(), yot_type).unwrap();
        assert_eq!(size, emit(&example(), yot_type, 0, None).unwrap().len());
    }
    assert_eq!(image_size(&example(), YotType::Y8), Some(5));
    assert_eq!(image_size(&example(), YotType::Y64), Some(33));
    assert_eq!(image_size(&[], YotType::Y16), Some(4));
}

#[test]
fn offset_renders_for_each_width() {
    assert_eq!(Offset::new(), Offset { constant: 0, yot_type_dependent: 0 });
    let offset = Offset { constant: 3, yot_type_dependent: 5 };
    assert_eq!(offset.render(YotType::Y8), 8);
    assert_eq!(offset.render(YotType::Y16), 13);
    assert_eq!(offset.render(YotType::Y32), 23);
    assert_eq!(offset.render(YotType::Y64), 43);
    assert_eq!(
        offset.add(Offset { constant: 1, yot_type_dependent: 2 }),
        Offset { constant: 4, yot_type_dependent: 7 }
    );
}

#[test]
fn stream_counts_the_room_of_its_atoms() {
    let mut stream = AtomStream::new();
    assert_eq!(stream.offset(), Offset { constant: 0, yot_type_dependent: 0 });
    stream.push_primitive_instruction(plain(PlainOperation::Nop));
    assert_eq!(stream.offset(), Offset { constant: 1, yot_type_dependent: 0 });
    stream.push_data_literal(vec![1, 2, 3]);
    assert_eq!(stream.offset(), Offset { constant: 7, yot_type_dependent: 0 });
    stream.push_address_literal(9);
    assert_eq!(stream.offset(), Offset { constant: 7, yot_type_dependent: 1 });
    stream.push_label_literal("a".to_string(), span(0, 1));
    assert_eq!(stream.offset(), Offset { constant: 7, yot_type_dependent: 3 });
    stream.push_subroutine_jump("b".to_string(), span(2, 3));
    assert_eq!(stream.offset(), Offset { constant: 8, yot_type_dependent: 5 });
    assert_eq!(
        stream.atoms(),
        &vec![
            Atom::Constant(ConstantKind::PrimitiveInstruction(plain(PlainOperation::Nop))),
            Atom::Constant(ConstantKind::DataLiteral(vec![1, 2, 3])),
            Atom::Constant(ConstantKind::AddressLiteral(9)),
            Atom::Addressable(
                Address::Deferred("a".to_string().spanning(span(0, 1))),
                AddressableKind::LabelLiteral
            ),
            Atom::Addressable(
                Address::Deferred("b".to_string().spanning(span(2, 3))),
                AddressableKind::SubroutineJump
            ),
        ]
    );
}

#[test]
fn stream_resolves_moves_and_extends() {
    let mut table = LabelTable::new();
    assert_eq!(table.define("a".to_string(), Offset { constant: 4, yot_type_dependent: 1 }, span(0, 1)), None);
    assert_eq!(
        table.define("a".to_string(), Offset { constant: 9, yot_type_dependent: 9 }, span(5, 6)),
        Some(span(0, 1))
    );
    assert_eq!(table.get("a"), Some((Offset { constant: 4, yot_type_dependent: 1 }, span(0, 1))));
    assert_eq!(table.get("b"), None);

    let mut stream = AtomStream::new();
    stream.push_label_literal("a".to_string(), span(2, 3));
    stream.push_subroutine_jump("b".to_string(), span(4, 5));
    let resolved = stream.resolved(&table);
    assert_eq!(resolved.offset(), Offset { constant: 1, yot_type_dependent: 4 });
    assert_eq!(
        resolved.atoms(),
        &vec![
            Atom::Addressable(
                Address::Resolved(Offset { constant: 4, yot_type_dependent: 1 }),
                AddressableKind::LabelLiteral
            ),
            Atom::Addressable(
                Address::Deferred("b".to_string().spanning(span(4, 5))),
                AddressableKind::SubroutineJump
            ),
        ]
    );
    let moved = resolved.offseted(Offset { constant: 10, yot_type_dependent: 2 });
    assert_eq!(moved.offset(), Offset { constant: 1, yot_type_dependent: 4 });
    assert_eq!(
        moved.atoms()[0],
        Atom::Addressable(
            Address::Resolved(Offset { constant: 14, yot_type_dependent: 3 }),
            AddressableKind::LabelLiteral
        )
    );
    assert_eq!(moved.atoms()[1], resolved.atoms()[1]);

    let mut first = AtomStream::new();
    first.push_address_literal(1);
    first.extend(moved);
    assert_eq!(first.offset(), Offset { constant: 1, yot_type_dependent: 5 });
    assert_eq!(first.atoms().len(), 3);
}

#[test]
fn render_writes_each_kind_of_atom() {
    let atoms = vec![
        Atom::Constant(ConstantKind::PrimitiveInstruction(plain(PlainOperation::Jsr))),
        Atom::Constant(ConstantKind::DataLiteral(vec![0x01, 0x02])),
        Atom::Constant(ConstantKind::AddressLiteral(0xabcd)),
        Atom::Addressable(
            Address::Resolved(Offset { constant: 0x0100, yot_type_dependent: 1 }),
            AddressableKind::LabelLiteral,
        ),
        Atom::Addressable(
            Address::Resolved(Offset { constant: 3, yot_type_dependent: 0 }),
            AddressableKind::SubroutineJump,
        ),
    ];
    assert_eq!(
        render(&atoms, YotType::Y16),
        Ok(vec![
            0x30, 0x20, 0x01, 0x20, 0x02, 0xab, 0xcd, 0x20, 0x01, 0x20, 0x02, 0x20, 0x00, 0x20,
            0x03, 0x72
        ])
    );
}

#[test]
fn render_reports_every_deferred_address() {
    let atoms = vec![
        Atom::Addressable(
            Address::Deferred("x".to_string().spanning(span(0, 1))),
            AddressableKind::LabelLiteral,
        ),
        Atom::Constant(ConstantKind::AddressLiteral(1)),
        Atom::Addressable(
            Address::Deferred("y".to_string().spanning(span(2, 3))),
            AddressableKind::SubroutineJump,
        ),
    ];
    assert_eq!(
        render(&atoms, YotType::Y8),
        Err(vec![
            Error::CannotFindLabel { label: "x".to_string(), span: span(0, 1) },
            Error::CannotFindLabel { label: "y".to_string(), span: span(2, 3) },
        ])
    );
}

#[test]
fn pad_fills_or_refuses() {
    let mut binary = vec![1, 2, 3];
    assert_eq!(pad(&mut binary, 5), Ok(()));
    assert_eq!(binary, vec![1, 2, 3, 0, 0]);
    assert_eq!(pad(&mut binary, 5), Ok(()));
    assert_eq!(binary, vec![1, 2, 3, 0, 0]);
    assert_eq!(pad(&mut binary, 4), Err(Error::BinaryTooLarge { current_size: 5, requested_size: 4 }));
    assert_eq!(binary, vec![1, 2, 3, 0, 0]);
}
