use yotasm::argument_parser::{parse_yot_type, Error, YotType};

#[test]
fn four_names_are_machines() {
    assert_eq!(parse_yot_type("yot-8"), Ok(YotType::Y8));
    assert_eq!(parse_yot_type("yot-16"), Ok(YotType::Y16));
    assert_eq!(parse_yot_type("yot-32"), Ok(YotType::Y32));
    assert_eq!(parse_yot_type("yot-64"), Ok(YotType::Y64));
}

#[test]
fn other_names_are_invalid() {
    for name in ["", "yot", "yot-", "yot-128", "YOT-8", "yot-8 ", "8"] {
        assert_eq!(parse_yot_type(name), Err(Error::YotTypeInvalid));
    }
}

#[test]
fn widths_in_bytes() {
    assert_eq!(YotType::Y8.bytes(), 1);
    assert_eq!(YotType::Y16.bytes(), 2);
    assert_eq!(YotType::Y32.bytes(), 4);
    assert_eq!(YotType::Y64.bytes(), 8);
}

#[test]
fn invalid_machine_has_a_message() {
    assert_eq!(Error::YotTypeInvalid.message(), "invalid Yot type");
}
