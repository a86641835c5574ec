use llvm_attributes::{Attribute, AttributeKind, AttributeLoc, TypeRef};

#[test]
fn enum_attribute_is_classified_and_extracted() {
    let a = Attribute::enum_attribute(0, 10);
    assert!(a.is_enum());
    assert!(!a.is_string());
    assert!(!a.is_type());
    assert_eq!(a.get_enum_kind_id(), 0);
    assert_eq!(a.get_enum_value(), 10);
}

#[test]
fn enum_attribute_keeps_extreme_values() {
    let a = Attribute::enum_attribute(u32::MAX, u64::MAX);
    assert_eq!(a.get_enum_kind_id(), u32::MAX);
    assert_eq!(a.get_enum_value(), u64::MAX);
}

#[test]
fn string_attribute_is_classified_and_extracted() {
    let a = Attribute::string_attribute(b"my_key_123".to_vec(), b"my_val".to_vec());
    assert!(a.is_string());
    assert!(!a.is_enum());
    assert!(!a.is_type());
    assert_eq!(a.get_string_kind_id(), b"my_key_123");
    assert_eq!(a.get_string_value(), b"my_val");
}

#[test]
fn string_attribute_keeps_raw_bytes() {
    let key = vec![b'k', 0, 0xff, b'z'];
    let value = vec![0xc3, 0x28, 0];
    let a = Attribute::string_attribute(key.clone(), value.clone());
    assert_eq!(a.get_string_kind_id(), key.as_slice());
    assert_eq!(a.get_string_value(), value.as_slice());
}

#[test]
fn string_attribute_may_be_empty() {
    let a = Attribute::string_attribute(Vec::new(), Vec::new());
    assert!(a.is_string());
    assert!(a.get_string_kind_id().is_empty());
    assert!(a.get_string_value().is_empty());
}

#[test]
fn type_attribute_is_classified_and_extracted() {
    let ty = TypeRef { id: 42 };
    let a = Attribute::type_attribute(74, ty);
    assert!(a.is_type());
    assert!(!a.is_enum());
    assert!(!a.is_string());
    assert_eq!(a.get_enum_kind_id(), 74);
    assert_eq!(a.get_type_value(), ty);
    assert_ne!(a.get_type_value(), TypeRef { id: 43 });
}

#[test]
fn new_matches_the_shape_constructors() {
    let a = Attribute::new(AttributeKind::Enum { kind_id: 1, value: 16 });
    assert_eq!(a, Attribute::enum_attribute(1, 16));
    let b = Attribute::new(AttributeKind::Str { key: b"k".to_vec(), value: b"v".to_vec() });
    assert_eq!(b, Attribute::string_attribute(b"k".to_vec(), b"v".to_vec()));
    let ty = TypeRef { id: 7 };
    let c = Attribute::new(AttributeKind::Type { kind_id: 2, ty });
    assert_eq!(c, Attribute::type_attribute(2, ty));
}

#[test]
fn kind_exposes_the_shape() {
    let a = Attribute::string_attribute(b"key".to_vec(), b"val".to_vec());
    match a.kind() {
        AttributeKind::Str { key, value } => {
            assert_eq!(key, &b"key".to_vec());
            assert_eq!(value, &b"val".to_vec());
        }
        other => panic!("unexpected shape {:?}", other),
    }
    let e = Attribute::enum_attribute(5, 1);
    assert_eq!(e.kind(), &AttributeKind::Enum { kind_id: 5, value: 1 });
}

#[test]
fn repeated_queries_agree() {
    let a = Attribute::enum_attribute(3, 8);
    let s = Attribute::string_attribute(b"a".to_vec(), b"b".to_vec());
    let t = Attribute::type_attribute(9, TypeRef { id: 1 });
    for _ in 0..3 {
        assert!(a.is_enum());
        assert_eq!(a.get_enum_kind_id(), 3);
        assert_eq!(a.get_enum_value(), 8);
        assert!(s.is_string());
        assert_eq!(s.get_string_kind_id(), b"a");
        assert_eq!(s.get_string_value(), b"b");
        assert!(t.is_type());
        assert_eq!(t.get_type_value(), TypeRef { id: 1 });
    }
    assert_eq!(a, Attribute::enum_attribute(3, 8));
}

#[test]
fn return_location_encodes_to_zero() {
    assert_eq!(AttributeLoc::Return.get_index(), 0);
}

#[test]
fn function_location_encodes_to_largest_index() {
    assert_eq!(AttributeLoc::Function.get_index(), u32::MAX);
}

#[test]
fn param_locations_encode_one_past_their_number() {
    assert_eq!(AttributeLoc::Param(0).get_index(), 1);
    assert_eq!(AttributeLoc::Param(1).get_index(), 2);
    assert_eq!(AttributeLoc::Param(41).get_index(), 42);
}

#[test]
fn largest_param_encodes_just_below_function() {
    assert_eq!(AttributeLoc::Param(u32::MAX - 2).get_index(), u32::MAX - 1);
    assert_ne!(
        AttributeLoc::Param(u32::MAX - 2).get_index(),
        AttributeLoc::Function.get_index()
    );
}
