use dex_model::error::Parse;
use dex_model::types::{ShortyDescriptor, ShortyFieldType, ShortyReturnType, Type};

#[test]
fn a_lone_return_tag_has_no_parameters() {
    let descriptor = ShortyDescriptor::from_str("V").unwrap();
    assert_eq!(ShortyReturnType::Void, descriptor.return_type());
    assert!(descriptor.field_types().is_empty());
}

#[test]
fn the_empty_shorty_descriptor_is_an_error() {
    match ShortyDescriptor::from_str("") {
        Err(Parse::InvalidShortyDescriptor(carried)) => assert_eq!("", carried),
        other => panic!("{:?}", other),
    }
}

#[test]
fn every_tag_is_read_at_its_position() {
    let descriptor = ShortyDescriptor::from_str("LZBSCIJFDL").unwrap();
    assert_eq!(ShortyReturnType::Reference, descriptor.return_type());
    assert_eq!(
        &[
            ShortyFieldType::Boolean,
            ShortyFieldType::Byte,
            ShortyFieldType::Short,
            ShortyFieldType::Char,
            ShortyFieldType::Int,
            ShortyFieldType::Long,
            ShortyFieldType::Float,
            ShortyFieldType::Double,
            ShortyFieldType::Reference,
        ][..],
        descriptor.field_types()
    );
}

#[test]
fn an_unknown_parameter_tag_is_reported() {
    for (descriptor, offender) in [
        ("VX", 'X'),
        ("IIx", 'x'),
        ("VV", 'V'),
        ("LL[", '['),
        ("ZI;J", ';'),
        ("VIqJr", 'q'),
        ("V\u{e9}", '\u{e9}'),
        ("DZZZZZZZZZZ ", ' '),
    ] {
        match ShortyDescriptor::from_str(descriptor) {
            Err(Parse::InvalidShortyType(c)) => assert_eq!(offender, c),
            other => panic!("{:?} gives {:?}", descriptor, other),
        }
    }
}

#[test]
fn an_unknown_return_tag_is_reported() {
    for (descriptor, offender) in [("X", 'X'), ("[I", '['), ("vI", 'v'), ("?Q", '?')] {
        match ShortyDescriptor::from_str(descriptor) {
            Err(Parse::InvalidShortyType(c)) => assert_eq!(offender, c),
            other => panic!("{:?} gives {:?}", descriptor, other),
        }
    }
}

#[test]
fn return_tags_are_read_from_characters() {
    let cases = [
        ('V', ShortyReturnType::Void),
        ('Z', ShortyReturnType::Boolean),
        ('B', ShortyReturnType::Byte),
        ('S', ShortyReturnType::Short),
        ('C', ShortyReturnType::Char),
        ('I', ShortyReturnType::Int),
        ('J', ShortyReturnType::Long),
        ('F', ShortyReturnType::Float),
        ('D', ShortyReturnType::Double),
        ('L', ShortyReturnType::Reference),
    ];
    for (c, tag) in cases {
        assert_eq!(tag, ShortyReturnType::from_char(c).unwrap());
    }
    for c in ['v', '[', ';', 'A', ' ', '\u{0}'] {
        match ShortyReturnType::from_char(c) {
            Err(Parse::InvalidShortyType(carried)) => assert_eq!(c, carried),
            other => panic!("{:?}", other),
        }
    }
}

#[test]
fn parameter_tags_are_read_from_characters() {
    let cases = [
        ('Z', ShortyFieldType::Boolean),
        ('B', ShortyFieldType::Byte),
        ('S', ShortyFieldType::Short),
        ('C', ShortyFieldType::Char),
        ('I', ShortyFieldType::Int),
        ('J', ShortyFieldType::Long),
        ('F', ShortyFieldType::Float),
        ('D', ShortyFieldType::Double),
        ('L', ShortyFieldType::Reference),
    ];
    for (c, tag) in cases {
        assert_eq!(tag, ShortyFieldType::from_char(c).unwrap());
    }
    for c in ['V', 'z', '[', ';', 'A'] {
        match ShortyFieldType::from_char(c) {
            Err(Parse::InvalidShortyType(carried)) => assert_eq!(c, carried),
            other => panic!("{:?}", other),
        }
    }
}

#[test]
fn a_type_has_a_return_kind() {
    assert_eq!(ShortyReturnType::Void, ShortyReturnType::from(Type::Void));
    assert_eq!(ShortyReturnType::Boolean, ShortyReturnType::from(Type::Boolean));
    assert_eq!(ShortyReturnType::Byte, ShortyReturnType::from(Type::Byte));
    assert_eq!(ShortyReturnType::Short, ShortyReturnType::from(Type::Short));
    assert_eq!(ShortyReturnType::Char, ShortyReturnType::from(Type::Char));
    assert_eq!(ShortyReturnType::Int, ShortyReturnType::from(Type::Int));
    assert_eq!(ShortyReturnType::Long, ShortyReturnType::from(Type::Long));
    assert_eq!(ShortyReturnType::Float, ShortyReturnType::from(Type::Float));
    assert_eq!(ShortyReturnType::Double, ShortyReturnType::from(Type::Double));
    assert_eq!(
        ShortyReturnType::Reference,
        ShortyReturnType::from(Type::FullyQualifiedName(String::from("a/B;")))
    );
    assert_eq!(
        ShortyReturnType::Reference,
        ShortyReturnType::from(Type::Array { dimensions: 1, array_type: Box::new(Type::Int) })
    );
    assert_eq!(ShortyReturnType::Long, ShortyReturnType::of(&Type::Long));
}

#[test]
fn a_type_has_a_parameter_kind_unless_it_is_void() {
    assert_eq!(None, ShortyFieldType::of(&Type::Void));
    assert_eq!(Some(ShortyFieldType::Boolean), ShortyFieldType::of(&Type::Boolean));
    assert_eq!(Some(ShortyFieldType::Byte), ShortyFieldType::of(&Type::Byte));
    assert_eq!(Some(ShortyFieldType::Short), ShortyFieldType::of(&Type::Short));
    assert_eq!(Some(ShortyFieldType::Char), ShortyFieldType::of(&Type::Char));
    assert_eq!(Some(ShortyFieldType::Int), ShortyFieldType::of(&Type::Int));
    assert_eq!(Some(ShortyFieldType::Long), ShortyFieldType::of(&Type::Long));
    assert_eq!(Some(ShortyFieldType::Float), ShortyFieldType::of(&Type::Float));
    assert_eq!(Some(ShortyFieldType::Double), ShortyFieldType::of(&Type::Double));
    assert_eq!(
        Some(ShortyFieldType::Reference),
        ShortyFieldType::of(&Type::FullyQualifiedName(String::new()))
    );
    assert_eq!(
        Some(ShortyFieldType::Reference),
        ShortyFieldType::of(&Type::Array { dimensions: 2, array_type: Box::new(Type::Byte) })
    );
}

#[test]
fn a_parameter_kind_widens_to_a_return_kind() {
    let cases = [
        (ShortyFieldType::Boolean, ShortyReturnType::Boolean),
        (ShortyFieldType::Byte, ShortyReturnType::Byte),
        (ShortyFieldType::Short, ShortyReturnType::Short),
        (ShortyFieldType::Char, ShortyReturnType::Char),
        (ShortyFieldType::Int, ShortyReturnType::Int),
        (ShortyFieldType::Long, ShortyReturnType::Long),
        (ShortyFieldType::Float, ShortyReturnType::Float),
        (ShortyFieldType::Double, ShortyReturnType::Double),
        (ShortyFieldType::Reference, ShortyReturnType::Reference),
    ];
    for (narrow, wide) in cases {
        assert_eq!(wide, ShortyReturnType::from(narrow));
    }
}

#[test]
fn str_parse_reaches_the_shorty_parser() {
    let parsed: Result<ShortyDescriptor, Parse> = "IL".parse();
    let descriptor = parsed.unwrap();
    assert_eq!(ShortyReturnType::Int, descriptor.return_type());
    assert_eq!(&[ShortyFieldType::Reference][..], descriptor.field_types());
}
