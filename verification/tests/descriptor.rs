use dex_model::error::Parse;
use dex_model::types::Type;

fn parse(s: &str) -> Type {
    match Type::from_str(s) {
        Ok(t) => t,
        Err(e) => panic!("{:?} does not parse: {:?}", s, e),
    }
}

fn type_error(s: &str) -> String {
    match Type::from_str(s) {
        Err(Parse::InvalidTypeDescriptor(carried)) => carried,
        other => panic!("{:?} gives {:?}", s, other),
    }
}

#[test]
fn primitive_tags_parse_and_display_as_keywords() {
    let cases = [
        ("V", "void"),
        ("Z", "boolean"),
        ("B", "byte"),
        ("S", "short"),
        ("C", "char"),
        ("I", "int"),
        ("J", "long"),
        ("F", "float"),
        ("D", "double"),
    ];
    for (tag, keyword) in cases {
        assert_eq!(keyword, parse(tag).to_string());
    }
    assert!(matches!(parse("V"), Type::Void));
    assert!(matches!(parse("Z"), Type::Boolean));
    assert!(matches!(parse("B"), Type::Byte));
    assert!(matches!(parse("S"), Type::Short));
    assert!(matches!(parse("C"), Type::Char));
    assert!(matches!(parse("I"), Type::Int));
    assert!(matches!(parse("J"), Type::Long));
    assert!(matches!(parse("F"), Type::Float));
    assert!(matches!(parse("D"), Type::Double));
}

#[test]
fn what_follows_a_primitive_tag_is_not_looked_at() {
    assert!(matches!(parse("Ixyz"), Type::Int));
    assert!(matches!(parse("V["), Type::Void));
    assert!(matches!(parse("DD"), Type::Double));
}

#[test]
fn an_array_counts_its_brackets() {
    match parse("[I") {
        Type::Array { dimensions, array_type } => {
            assert_eq!(1, dimensions);
            assert!(matches!(*array_type, Type::Int));
        }
        other => panic!("{:?}", other),
    }
    match parse("[[[J") {
        Type::Array { dimensions, array_type } => {
            assert_eq!(3, dimensions);
            assert!(matches!(*array_type, Type::Long));
        }
        other => panic!("{:?}", other),
    }
}

#[test]
fn an_array_of_arrays_is_one_array() {
    for n in 1usize..40 {
        let descriptor = format!("{}{}", "[".repeat(n), "Ljava/lang/String;");
        match parse(&descriptor) {
            Type::Array { dimensions, array_type } => {
                assert_eq!(n, dimensions);
                match *array_type {
                    Type::FullyQualifiedName(name) => assert_eq!("java/lang/String;", name),
                    other => panic!("{:?}", other),
                }
            }
            other => panic!("{:?}", other),
        }
    }
}

#[test]
fn brackets_before_an_array_descriptor_add_dimensions() {
    let inner = "[[Z";
    let outer = format!("{}{}", "[".repeat(3), inner);
    match (parse(inner), parse(&outer)) {
        (
            Type::Array { dimensions: few, array_type: a },
            Type::Array { dimensions: many, array_type: b },
        ) => {
            assert_eq!(2, few);
            assert_eq!(5, many);
            assert!(matches!(*a, Type::Boolean));
            assert!(matches!(*b, Type::Boolean));
        }
        other => panic!("{:?}", other),
    }
}

#[test]
fn an_array_may_have_more_than_255_dimensions() {
    let descriptor = format!("{}I", "[".repeat(300));
    match parse(&descriptor) {
        Type::Array { dimensions, array_type } => {
            assert_eq!(300, dimensions);
            assert!(matches!(*array_type, Type::Int));
        }
        other => panic!("{:?}", other),
    }
    assert_eq!("int[300]", parse(&descriptor).to_string());
}

#[test]
fn an_unterminated_array_is_an_error() {
    assert_eq!("[", type_error("["));
    assert_eq!("[[[", type_error("[[["));
}

#[test]
fn the_empty_descriptor_is_an_error() {
    assert_eq!("", type_error(""));
}

#[test]
fn an_unknown_tag_is_an_error() {
    assert_eq!("X", type_error("X"));
    assert_eq!("v", type_error("v"));
    assert_eq!("]I", type_error("]I"));
    assert_eq!(" I", type_error(" I"));
    assert_eq!("\u{e9}", type_error("\u{e9}"));
}

#[test]
fn an_error_in_the_element_carries_the_element() {
    assert_eq!("X", type_error("[X"));
    assert_eq!("Q;", type_error("[[[Q;"));
    assert_eq!("\u{e9}I", type_error("[\u{e9}I"));
}

#[test]
fn a_reference_keeps_all_that_follows_the_tag() {
    match parse("Lcom/example/Foo;") {
        Type::FullyQualifiedName(name) => assert_eq!("com/example/Foo;", name),
        other => panic!("{:?}", other),
    }
    match parse("L") {
        Type::FullyQualifiedName(name) => assert_eq!("", name),
        other => panic!("{:?}", other),
    }
    match parse("Lno/terminator") {
        Type::FullyQualifiedName(name) => assert_eq!("no/terminator", name),
        other => panic!("{:?}", other),
    }
    match parse("L[I;L") {
        Type::FullyQualifiedName(name) => assert_eq!("[I;L", name),
        other => panic!("{:?}", other),
    }
    match parse("Lcaf\u{e9}/\u{1f600};") {
        Type::FullyQualifiedName(name) => assert_eq!("caf\u{e9}/\u{1f600};", name),
        other => panic!("{:?}", other),
    }
}

#[test]
fn a_reference_displays_as_its_name() {
    assert_eq!("com/example/Foo;", parse("Lcom/example/Foo;").to_string());
    assert_eq!("", parse("L").to_string());
}

#[test]
fn an_array_displays_its_element_and_its_dimensions() {
    assert_eq!("int[1]", parse("[I").to_string());
    assert_eq!("boolean[2]", parse("[[Z").to_string());
    assert_eq!("java/lang/Object;[3]", parse("[[[Ljava/lang/Object;").to_string());
    assert_eq!("double[10]", parse(&format!("{}D", "[".repeat(10))).to_string());
    assert_eq!("byte[12]", parse(&format!("{}B", "[".repeat(12))).to_string());
    assert_eq!("char[109]", parse(&format!("{}C", "[".repeat(109))).to_string());
}

#[test]
fn a_built_type_displays_like_a_parsed_one() {
    let built = Type::Array { dimensions: 7, array_type: Box::new(Type::Short) };
    assert_eq!("short[7]", built.to_string());
    let nested = Type::Array { dimensions: 2, array_type: Box::new(built) };
    assert_eq!("short[7][2]", nested.to_string());
    let none = Type::Array { dimensions: 0, array_type: Box::new(Type::Void) };
    assert_eq!("void[0]", none.to_string());
    let wide = Type::Array { dimensions: 1_000_000, array_type: Box::new(Type::Float) };
    assert_eq!("float[1000000]", wide.to_string());
    assert_eq!("x", Type::FullyQualifiedName(String::from("x")).to_string());
}

#[test]
fn str_parse_reaches_the_parser() {
    let parsed: Result<Type, Parse> = "[[I".parse();
    match parsed {
        Ok(Type::Array { dimensions, .. }) => assert_eq!(2, dimensions),
        other => panic!("{:?}", other),
    }
    let failed: Result<Type, Parse> = "".parse();
    assert!(matches!(failed, Err(Parse::InvalidTypeDescriptor(_))));
}

#[test]
fn a_clone_displays_like_its_source() {
    let source = parse("[[Lcom/example/Foo;");
    let copy = source.clone();
    assert_eq!(source.to_string(), copy.to_string());
    assert_eq!("com/example/Foo;[2]", copy.to_string());
    assert_eq!("long", parse("J").clone().to_string());
}
