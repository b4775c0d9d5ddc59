use debug_tag::unchecked::DebugTag;

#[test]
fn unchecked_tags_are_all_equal() {
    let a = DebugTag::new();
    let b = DebugTag::new();
    let c = DebugTag::from(42);
    let d = DebugTag::from(43);
    let e = DebugTag::default();
    assert!(a == b);
    assert!(a == c);
    assert!(c == d);
    assert!(d == e);
    assert!(!(a != b));
    assert!(!(c != d));
}

#[test]
fn unchecked_copy_is_equal() {
    let a = DebugTag::new();
    let b = a.clone();
    let c = a;
    assert!(a == b);
    assert!(a == c);
}

#[test]
fn unchecked_tag_is_reflexive() {
    let a = DebugTag::new();
    assert!(a == a);
}

#[test]
fn unchecked_constants_are_equal() {
    assert!(DebugTag::from(42) == DebugTag::from(42));
    assert_eq!(DebugTag::from(0), DebugTag::from(u32::MAX));
}

#[test]
fn unchecked_tag_takes_no_space() {
    assert_eq!(std::mem::size_of::<DebugTag>(), 0);
}

#[test]
fn checked_tag_is_one_word_of_32_bits() {
    assert_eq!(std::mem::size_of::<debug_tag::DebugTag>(), 4);
}

#[test]
fn unchecked_debug_output_is_the_name() {
    assert_eq!(format!("{:?}", DebugTag::new()), "DebugTag");
}
