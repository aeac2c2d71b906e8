use pbjson_build::descriptor::{EnumDescriptor, EnumVariantDescriptor};
use pbjson_build::error::DecodeError;

fn variant(name: &str, number: i32) -> EnumVariantDescriptor {
    EnumVariantDescriptor {
        name: name.to_string(),
        number,
    }
}

fn color() -> EnumDescriptor {
    EnumDescriptor {
        variants: vec![variant("RED", 0), variant("CRIMSON", 0), variant("BLUE", 1)],
    }
}

#[test]
fn color_scenario() {
    let color = color();
    assert_eq!(color.encode(0), "RED");
    assert_eq!(color.decode("CRIMSON"), Ok(0));
    assert_eq!(color.decode("5"), Err(DecodeError::UnrecognizedEnumValue));
}

#[test]
fn encode_yields_the_first_declared_name() {
    let color = color();
    assert_eq!(color.encode(0), "RED");
    assert_eq!(color.encode(1), "BLUE");
    // Declaration order decides, not numeric order.
    let reversed = EnumDescriptor {
        variants: vec![variant("HIGH", 9), variant("LOW", 1), variant("TOP", 9), variant("BOTTOM", 1)],
    };
    assert_eq!(reversed.encode(9), "HIGH");
    assert_eq!(reversed.encode(1), "LOW");
}

#[test]
fn encode_never_fails() {
    let color = color();
    assert_eq!(color.encode(5), "5");
    assert_eq!(color.encode(-3), "-3");
    assert_eq!(color.encode(i32::MAX), "2147483647");
    assert_eq!(color.encode(i32::MIN), "-2147483648");
    let empty = EnumDescriptor { variants: Vec::new() };
    assert_eq!(empty.encode(0), "0");
}

#[test]
fn decode_accepts_every_alias_and_the_decimal_form() {
    let color = color();
    assert_eq!(color.decode("RED"), Ok(0));
    assert_eq!(color.decode("CRIMSON"), Ok(0));
    assert_eq!(color.decode("BLUE"), Ok(1));
    assert_eq!(color.decode("0"), Ok(0));
    assert_eq!(color.decode("1"), Ok(1));
    assert_eq!(color.decode("+1"), Ok(1));
    assert_eq!(color.decode("01"), Ok(1));
}

#[test]
fn decode_rejects_what_names_no_variant() {
    let color = color();
    for text in ["", "red", "Red", "GREEN", "2", "-1", "1.0", "4294967297", "99999999999999999999999999"] {
        assert_eq!(color.decode(text), Err(DecodeError::UnrecognizedEnumValue));
    }
}

#[test]
fn decode_number_takes_declared_discriminants_only() {
    let color = color();
    assert_eq!(color.decode_number(0), Ok(0));
    assert_eq!(color.decode_number(1), Ok(1));
    assert_eq!(color.decode_number(2), Err(DecodeError::UnrecognizedEnumValue));
    assert_eq!(color.decode_number(-1), Err(DecodeError::UnrecognizedEnumValue));
    assert_eq!(color.decode_number(4294967296), Err(DecodeError::UnrecognizedEnumValue));
    assert_eq!(color.decode_number(i64::MIN), Err(DecodeError::UnrecognizedEnumValue));
    let negative = EnumDescriptor {
        variants: vec![variant("BELOW", -7)],
    };
    assert_eq!(negative.decode_number(-7), Ok(-7));
    assert_eq!(negative.decode("-7"), Ok(-7));
    assert_eq!(negative.encode(-7), "BELOW");
}

#[test]
fn find_number_and_find_name() {
    let color = color();
    assert_eq!(color.find_number(0), Some(0));
    assert_eq!(color.find_number(1), Some(2));
    assert_eq!(color.find_number(2), None);
    assert_eq!(color.find_name("CRIMSON"), Some(1));
    assert_eq!(color.find_name("crimson"), None);
}

#[test]
fn declared_discriminants_survive_the_round_trip() {
    let color = color();
    for number in [0, 1] {
        let text = color.encode(number);
        assert_eq!(color.decode(&text), Ok(number));
    }
}

#[test]
fn error_messages() {
    assert_eq!(DecodeError::UnrecognizedEnumValue.message(), "unrecognized enum value");
    assert_eq!(DecodeError::TypeMismatch.message(), "type mismatch");
}
