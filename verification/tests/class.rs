use dex_model::types::{
    AccessFlags, Annotation, AnnotationsDirectory, Array, Class, EncodedAnnotation, Type, Value,
    Visibility,
};

/// A stand-in for the body of a class.
#[derive(Debug, PartialEq)]
struct Body {
    static_fields: Vec<u32>,
}

#[test]
fn a_class_without_optional_parts_reports_none() {
    let class: Class<Body> =
        Class::new(17, AccessFlags::empty(), None, Vec::new(), None, None, None, None);
    assert_eq!(17, class.class_index());
    assert!(class.access_flags().is_empty());
    assert_eq!(None, class.superclass_index());
    assert!(class.interfaces().is_empty());
    assert_eq!(None, class.source_file_index());
    assert!(class.annotations().is_none());
    assert!(class.class_data().is_none());
    assert!(class.static_values().is_none());
}

#[test]
fn static_values_come_back_unchanged() {
    let values = Array::new(vec![Value::Int(7), Value::Null, Value::Boolean(true)]);
    let class: Class<Body> = Class::new(
        1,
        AccessFlags::from_bits_truncate(AccessFlags::ACC_PUBLIC),
        None,
        Vec::new(),
        None,
        None,
        None,
        Some(values),
    );
    let values = class.static_values().unwrap();
    assert_eq!(3, values.len());
    assert!(matches!(values.values()[0], Value::Int(7)));
    assert!(matches!(values.values()[1], Value::Null));
    assert!(matches!(values.values()[2], Value::Boolean(true)));
}

#[test]
fn a_class_keeps_all_its_parts() {
    let directory = AnnotationsDirectory::new(
        vec![Annotation::new(Visibility::System, EncodedAnnotation::new(40, Vec::new()))],
        Vec::new(),
        Vec::new(),
        Vec::new(),
    );
    let class = Class::new(
        5,
        AccessFlags::from_bits_truncate(AccessFlags::ACC_PUBLIC | AccessFlags::ACC_FINAL),
        Some(2),
        vec![
            Type::from_str("Ljava/lang/Runnable;").unwrap(),
            Type::from_str("Ljava/io/Closeable;").unwrap(),
        ],
        Some(31),
        Some(directory),
        Some(Body { static_fields: vec![1, 2] }),
        Some(Array::new(vec![Value::Long(9)])),
    );
    assert_eq!(5, class.class_index());
    assert_eq!(0x11, class.access_flags().bits());
    assert_eq!("public final", class.access_flags().to_string());
    assert_eq!(Some(2), class.superclass_index());
    let interfaces: Vec<String> = class.interfaces().iter().map(|t| t.to_string()).collect();
    assert_eq!(vec!["java/lang/Runnable;", "java/io/Closeable;"], interfaces);
    assert_eq!(Some(31), class.source_file_index());
    let annotations = class.annotations().unwrap();
    assert_eq!(1, annotations.class_annotations().len());
    assert_eq!(40, annotations.class_annotations()[0].type_index());
    assert_eq!(Some(&Body { static_fields: vec![1, 2] }), class.class_data());
    assert_eq!(1, class.static_values().unwrap().len());
    assert!(matches!(class.static_values().unwrap().values()[0], Value::Long(9)));
}

#[test]
fn an_empty_array_of_static_values_is_not_an_absent_one() {
    let class: Class<()> = Class::new(
        0,
        AccessFlags::empty(),
        Some(0),
        Vec::new(),
        Some(0),
        None,
        Some(()),
        Some(Array::new(Vec::new())),
    );
    assert_eq!(Some(0), class.superclass_index());
    assert_eq!(Some(0), class.source_file_index());
    assert_eq!(Some(&()), class.class_data());
    assert_eq!(0, class.static_values().unwrap().len());
}

#[test]
fn static_values_are_a_prefix_of_the_fields_values() {
    let class: Class<Body> = Class::new(
        1,
        AccessFlags::empty(),
        None,
        Vec::new(),
        None,
        None,
        Some(Body { static_fields: vec![10, 11, 12, 13] }),
        Some(Array::new(vec![Value::Int(7), Value::String(3)])),
    );
    let reference = Type::from_str("Ljava/lang/String;").unwrap();
    // within the prefix: the value that was given, whatever the type says
    assert!(matches!(class.static_value(0, &Type::Int), Some(Value::Int(7))));
    assert!(matches!(class.static_value(1, &reference), Some(Value::String(3))));
    assert!(matches!(class.static_value(1, &Type::Void), Some(Value::String(3))));
    // behind the prefix: the zero value of the type
    assert!(matches!(class.static_value(2, &Type::Int), Some(Value::Int(0))));
    assert!(matches!(class.static_value(2, &Type::Boolean), Some(Value::Boolean(false))));
    assert!(matches!(class.static_value(3, &reference), Some(Value::Null)));
    assert!(matches!(class.static_value(3, &Type::Long), Some(Value::Long(0))));
    assert!(matches!(class.static_value(usize::MAX, &Type::Double), Some(Value::Double(0))));
    assert!(class.static_value(2, &Type::Void).is_none());
}

#[test]
fn without_static_values_every_field_starts_as_zero() {
    let class: Class<Body> =
        Class::new(1, AccessFlags::empty(), None, Vec::new(), None, None, None, None);
    assert!(matches!(class.static_value(0, &Type::Byte), Some(Value::Byte(0))));
    assert!(matches!(class.static_value(0, &Type::Char), Some(Value::Char(0))));
    assert!(matches!(class.static_value(5, &Type::Short), Some(Value::Short(0))));
    assert!(matches!(class.static_value(5, &Type::Float), Some(Value::Float(0))));
    let array = Type::from_str("[I").unwrap();
    assert!(matches!(class.static_value(9, &array), Some(Value::Null)));
}

fn shared_between_threads<T: Send + Sync>() {}

#[test]
fn the_model_can_be_read_from_many_threads() {
    shared_between_threads::<Class<Body>>();
    shared_between_threads::<Type>();
    shared_between_threads::<Value>();
    shared_between_threads::<Array>();
    shared_between_threads::<AnnotationsDirectory>();
    shared_between_threads::<AccessFlags>();
}
