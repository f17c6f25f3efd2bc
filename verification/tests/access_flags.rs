use dex_model::types::{AccessFlags, FlagOwner};

#[test]
fn it_can_display_access() {
    let access = AccessFlags::from_bits_truncate(AccessFlags::ACC_PUBLIC);

    let display = access.to_string();

    assert_eq!("public", display);
}

#[test]
fn it_can_display_mixed_access_bitflags() {
    let access = AccessFlags::from_bits_truncate(
        AccessFlags::ACC_PUBLIC | AccessFlags::ACC_DECLARED_SYNCHRONIZED,
    );

    let display = access.to_string();

    assert_eq!("public synchronized", display);
}

#[test]
fn it_can_display_mixed_access_bitflags_protected_static_abstract() {
    let access = AccessFlags::from_bits_truncate(
        AccessFlags::ACC_PROTECTED | AccessFlags::ACC_ABSTRACT | AccessFlags::ACC_STATIC,
    );

    let display = access.to_string();

    assert_eq!("protected static abstract", display);
}

#[test]
fn it_can_display_mixed_access_bitflags_public_interface_abstract_annotation() {
    let access = AccessFlags::from_bits_truncate(
        AccessFlags::ACC_PUBLIC
            | AccessFlags::ACC_INTERFACE
            | AccessFlags::ACC_ABSTRACT
            | AccessFlags::ACC_ANNOTATION,
    );

    let display = access.to_string();

    assert_eq!("public abstract interface", display);
}

#[test]
fn the_empty_set_displays_as_nothing() {
    assert_eq!("", AccessFlags::empty().to_string());
    assert!(AccessFlags::empty().is_empty());
    assert_eq!(0, AccessFlags::empty().bits());
}

#[test]
fn every_flag_displays_in_table_order() {
    assert_eq!(
        "public private protected static final synchronized volatile bridge transient varargs \
         native abstract interface strict synthetic enum constructor synchronized",
        AccessFlags::all().to_string()
    );
    assert_eq!(0x37fff, AccessFlags::all().bits());
}

#[test]
fn each_flag_displays_as_its_keyword() {
    let cases: [(u32, &str); 17] = [
        (AccessFlags::ACC_PUBLIC, "public"),
        (AccessFlags::ACC_PRIVATE, "private"),
        (AccessFlags::ACC_PROTECTED, "protected"),
        (AccessFlags::ACC_STATIC, "static"),
        (AccessFlags::ACC_FINAL, "final"),
        (AccessFlags::ACC_SYNCHRONIZED, "synchronized"),
        (AccessFlags::ACC_VOLATILE, "volatile bridge"),
        (AccessFlags::ACC_TRANSIENT, "transient varargs"),
        (AccessFlags::ACC_NATIVE, "native"),
        (AccessFlags::ACC_INTERFACE, "interface"),
        (AccessFlags::ACC_ABSTRACT, "abstract"),
        (AccessFlags::ACC_STRICT, "strict"),
        (AccessFlags::ACC_SYNTHETIC, "synthetic"),
        (AccessFlags::ACC_ANNOTATION, ""),
        (AccessFlags::ACC_ENUM, "enum"),
        (AccessFlags::ACC_CONSTRUCTOR, "constructor"),
        (AccessFlags::ACC_DECLARED_SYNCHRONIZED, "synchronized"),
    ];
    for (mask, keyword) in cases {
        assert_eq!(keyword, AccessFlags::from_bits_truncate(mask).to_string());
    }
}

#[test]
fn a_shared_bit_displays_both_names() {
    assert_eq!(AccessFlags::ACC_VOLATILE, AccessFlags::ACC_BRIDGE);
    assert_eq!(AccessFlags::ACC_TRANSIENT, AccessFlags::ACC_VARARGS);
    let access = AccessFlags::from_bits_truncate(AccessFlags::ACC_BRIDGE | AccessFlags::ACC_VARARGS);
    assert_eq!("volatile bridge transient varargs", access.to_string());
}

#[test]
fn both_synchronized_flags_display_twice() {
    let access = AccessFlags::from_bits_truncate(
        AccessFlags::ACC_SYNCHRONIZED | AccessFlags::ACC_DECLARED_SYNCHRONIZED,
    );
    assert_eq!("synchronized synchronized", access.to_string());
}

#[test]
fn the_annotation_flag_is_never_displayed() {
    for bits in [0u32, 0x1, 0x409, 0x37fff, 0x30000, 0x5c3] {
        let with = AccessFlags::from_bits_truncate(bits | AccessFlags::ACC_ANNOTATION);
        let without = AccessFlags::from_bits_truncate(bits & !AccessFlags::ACC_ANNOTATION);
        assert_eq!(without.to_string(), with.to_string());
        assert!(!with.to_string().contains("annotation"));
    }
}

#[test]
fn display_order_does_not_follow_union_order() {
    let a = AccessFlags::from_bits_truncate(AccessFlags::ACC_STATIC);
    let b = AccessFlags::from_bits_truncate(AccessFlags::ACC_PUBLIC);
    let c = AccessFlags::from_bits_truncate(AccessFlags::ACC_FINAL);
    assert_eq!("public static final", a.union(b).union(c).to_string());
    assert_eq!("public static final", c.union(b).union(a).to_string());
    assert_eq!(a.union(b), b.union(a));
}

#[test]
fn from_bits_refuses_bits_without_a_name() {
    assert_eq!(None, AccessFlags::from_bits(0x8000));
    assert_eq!(None, AccessFlags::from_bits(0x40000));
    assert_eq!(None, AccessFlags::from_bits(0xffff_ffff));
    assert_eq!(Some(0x3), AccessFlags::from_bits(0x3).map(|f| f.bits()));
    assert_eq!(Some(0), AccessFlags::from_bits(0).map(|f| f.bits()));
    assert_eq!(Some(0x37fff), AccessFlags::from_bits(0x37fff).map(|f| f.bits()));
}

#[test]
fn from_bits_truncate_drops_bits_without_a_name() {
    assert_eq!(0x1, AccessFlags::from_bits_truncate(0x8001).bits());
    assert_eq!(0x37fff, AccessFlags::from_bits_truncate(0xffff_ffff).bits());
    assert_eq!(0, AccessFlags::from_bits_truncate(0x8000).bits());
    assert_eq!("public", AccessFlags::from_bits_truncate(0x8001).to_string());
}

#[test]
fn membership_union_intersection_and_difference() {
    let a = AccessFlags::from_bits_truncate(AccessFlags::ACC_PUBLIC | AccessFlags::ACC_FINAL);
    let b = AccessFlags::from_bits_truncate(AccessFlags::ACC_FINAL | AccessFlags::ACC_STATIC);

    assert!(a.contains(AccessFlags::ACC_PUBLIC));
    assert!(a.contains(AccessFlags::ACC_PUBLIC | AccessFlags::ACC_FINAL));
    assert!(!a.contains(AccessFlags::ACC_STATIC));
    assert!(!a.contains(AccessFlags::ACC_PUBLIC | AccessFlags::ACC_STATIC));
    assert!(a.contains(0));

    assert!(a.intersects(AccessFlags::ACC_PUBLIC | AccessFlags::ACC_STATIC));
    assert!(!a.intersects(AccessFlags::ACC_STATIC));
    assert!(!a.intersects(0));

    assert_eq!(0x19, a.union(b).bits());
    assert_eq!(0x10, a.intersection(b).bits());
    assert_eq!(0x1, a.difference(b).bits());
    assert_eq!(0x8, b.difference(a).bits());
    assert!(!a.is_empty());
    assert!(a.intersection(AccessFlags::empty()).is_empty());
}

#[test]
fn flag_values_are_those_of_the_format() {
    assert_eq!(0x1, AccessFlags::ACC_PUBLIC);
    assert_eq!(0x2, AccessFlags::ACC_PRIVATE);
    assert_eq!(0x4, AccessFlags::ACC_PROTECTED);
    assert_eq!(0x8, AccessFlags::ACC_STATIC);
    assert_eq!(0x10, AccessFlags::ACC_FINAL);
    assert_eq!(0x20, AccessFlags::ACC_SYNCHRONIZED);
    assert_eq!(0x40, AccessFlags::ACC_VOLATILE);
    assert_eq!(0x40, AccessFlags::ACC_BRIDGE);
    assert_eq!(0x80, AccessFlags::ACC_TRANSIENT);
    assert_eq!(0x80, AccessFlags::ACC_VARARGS);
    assert_eq!(0x100, AccessFlags::ACC_NATIVE);
    assert_eq!(0x200, AccessFlags::ACC_INTERFACE);
    assert_eq!(0x400, AccessFlags::ACC_ABSTRACT);
    assert_eq!(0x800, AccessFlags::ACC_STRICT);
    assert_eq!(0x1000, AccessFlags::ACC_SYNTHETIC);
    assert_eq!(0x2000, AccessFlags::ACC_ANNOTATION);
    assert_eq!(0x4000, AccessFlags::ACC_ENUM);
    assert_eq!(0x10000, AccessFlags::ACC_CONSTRUCTOR);
    assert_eq!(0x20000, AccessFlags::ACC_DECLARED_SYNCHRONIZED);
}

#[test]
fn a_shared_bit_displays_the_name_it_has_for_its_owner() {
    let shared = AccessFlags::from_bits_truncate(0x40 | 0x80);
    assert_eq!("volatile transient", shared.to_string_for(FlagOwner::Field));
    assert_eq!("bridge varargs", shared.to_string_for(FlagOwner::Method));
    assert_eq!("", shared.to_string_for(FlagOwner::Class));
    assert_eq!("volatile bridge transient varargs", shared.to_string());
}

#[test]
fn only_a_method_displays_as_declared_synchronized() {
    let flags = AccessFlags::from_bits_truncate(
        AccessFlags::ACC_PUBLIC | AccessFlags::ACC_DECLARED_SYNCHRONIZED,
    );
    assert_eq!("public synchronized", flags.to_string_for(FlagOwner::Method));
    assert_eq!("public", flags.to_string_for(FlagOwner::Field));
    assert_eq!("public", flags.to_string_for(FlagOwner::Class));
}

#[test]
fn flags_without_a_shared_bit_display_alike_for_every_owner() {
    for bits in [0u32, 0x1, 0x19, 0x1ff3f, 0x1f3f, 0x2000, 0x10409] {
        let flags = AccessFlags::from_bits_truncate(bits);
        for owner in [FlagOwner::Class, FlagOwner::Field, FlagOwner::Method] {
            assert_eq!(flags.to_string(), flags.to_string_for(owner));
        }
    }
}

#[test]
fn every_flag_displays_for_each_owner_in_table_order() {
    assert_eq!(
        "public private protected static final synchronized native abstract interface strict \
         synthetic enum constructor",
        AccessFlags::all().to_string_for(FlagOwner::Class)
    );
    assert_eq!(
        "public private protected static final synchronized volatile transient native abstract \
         interface strict synthetic enum constructor",
        AccessFlags::all().to_string_for(FlagOwner::Field)
    );
    assert_eq!(
        "public private protected static final synchronized bridge varargs native abstract \
         interface strict synthetic enum constructor synchronized",
        AccessFlags::all().to_string_for(FlagOwner::Method)
    );
}
