use ffi_types::tag::{ScalarKind, TypeTag};
use ffi_types::types::{
    ffi_type_array_clone, ffi_type_array_create, ffi_type_array_create_empty,
    ffi_type_array_destroy, ffi_type_array_len, ffi_type_clone, ffi_type_destroy,
    ffi_type_struct_create, ffi_type_struct_create_raw, DescriptorRef, Freed, Type, TypeArray,
};

fn scalar_kind(t: &Type) -> Option<ScalarKind> {
    match t.as_raw_ptr() {
        DescriptorRef::Static(k) => Some(k),
        DescriptorRef::Heap(_) => None,
    }
}

fn member_tags(t: &Type) -> Vec<TypeTag> {
    match t.as_raw_ptr() {
        DescriptorRef::Static(_) => Vec::new(),
        DescriptorRef::Heap(d) => {
            let slots = d.elements();
            let n = ffi_type_array_len(slots);
            let mut tags = Vec::new();
            for i in 0..n {
                tags.push(slots[i].as_ref().unwrap().tag());
            }
            tags
        }
    }
}

fn all_scalars() -> Vec<(Type, ScalarKind, TypeTag)> {
    vec![
        (Type::void(), ScalarKind::Void, TypeTag::Void),
        (Type::u8(), ScalarKind::UInt8, TypeTag::UInt8),
        (Type::i8(), ScalarKind::SInt8, TypeTag::SInt8),
        (Type::u16(), ScalarKind::UInt16, TypeTag::UInt16),
        (Type::i16(), ScalarKind::SInt16, TypeTag::SInt16),
        (Type::u32(), ScalarKind::UInt32, TypeTag::UInt32),
        (Type::i32(), ScalarKind::SInt32, TypeTag::SInt32),
        (Type::u64(), ScalarKind::UInt64, TypeTag::UInt64),
        (Type::i64(), ScalarKind::SInt64, TypeTag::SInt64),
        (Type::float(), ScalarKind::Float, TypeTag::Float),
        (Type::double(), ScalarKind::Double, TypeTag::Double),
        (Type::pointer(), ScalarKind::Pointer, TypeTag::Pointer),
        (Type::longdouble(), ScalarKind::LongDouble, TypeTag::LongDouble),
        (Type::c32(), ScalarKind::ComplexFloat, TypeTag::Complex),
        (Type::c64(), ScalarKind::ComplexDouble, TypeTag::Complex),
        (Type::complex_longdouble(), ScalarKind::ComplexLongDouble, TypeTag::Complex),
    ]
}

#[test]
fn create_u64() {
    Type::u64();
}

#[test]
fn clone_u64() {
    Type::u64().clone().clone();
}

#[test]
fn create_struct() {
    Type::structure(vec![Type::i64(), Type::i64(), Type::u64()]);
}

#[test]
fn clone_struct() {
    Type::structure(vec![Type::i64(), Type::i64(), Type::u64()]).clone().clone();
}

#[test]
fn scalar_accessors_name_their_descriptor() {
    for (t, kind, tag) in all_scalars() {
        assert_eq!(scalar_kind(&t), Some(kind));
        assert_eq!(t.tag(), tag);
        assert_eq!(kind.tag(), tag);
        assert_ne!(t.tag(), TypeTag::Struct);
    }
}

#[test]
fn scalar_identity_is_stable_across_calls() {
    assert_eq!(scalar_kind(&Type::u64()), scalar_kind(&Type::u64()));
    assert_ne!(scalar_kind(&Type::u64()), scalar_kind(&Type::i64()));
    assert_eq!(scalar_kind(&Type::pointer().clone()), Some(ScalarKind::Pointer));
}

#[test]
fn two_scalar_handles_destroy_without_release() {
    for (t, kind, _) in all_scalars() {
        let second = t.clone();
        assert_eq!(scalar_kind(&second), Some(kind));
        assert_eq!(t.destroy(), Vec::<Freed>::new());
        assert_eq!(second.destroy(), Vec::<Freed>::new());
    }
}

#[test]
fn pointer_sized_integers_follow_the_target() {
    let (unsigned, signed) = match std::mem::size_of::<usize>() {
        2 => (ScalarKind::UInt16, ScalarKind::SInt16),
        4 => (ScalarKind::UInt32, ScalarKind::SInt32),
        _ => (ScalarKind::UInt64, ScalarKind::SInt64),
    };
    assert_eq!(scalar_kind(&Type::usize()), Some(unsigned));
    assert_eq!(scalar_kind(&Type::isize()), Some(signed));
}

#[test]
fn tag_codes_match_the_foreign_encoding() {
    assert_eq!(TypeTag::Void.code(), 0);
    assert_eq!(TypeTag::Int.code(), 1);
    assert_eq!(TypeTag::Float.code(), 2);
    assert_eq!(TypeTag::Double.code(), 3);
    assert_eq!(TypeTag::LongDouble.code(), 4);
    assert_eq!(TypeTag::UInt8.code(), 5);
    assert_eq!(TypeTag::SInt8.code(), 6);
    assert_eq!(TypeTag::UInt16.code(), 7);
    assert_eq!(TypeTag::SInt16.code(), 8);
    assert_eq!(TypeTag::UInt32.code(), 9);
    assert_eq!(TypeTag::SInt32.code(), 10);
    assert_eq!(TypeTag::UInt64.code(), 11);
    assert_eq!(TypeTag::SInt64.code(), 12);
    assert_eq!(TypeTag::Struct.code(), 13);
    assert_eq!(TypeTag::Pointer.code(), 14);
    assert_eq!(TypeTag::Complex.code(), 15);
}

#[test]
fn struct_clones_are_independent() {
    let original = Type::structure(vec![Type::i64(), Type::i64(), Type::u64()]);
    let first = original.clone();
    let second = first.clone();
    let expected = vec![TypeTag::SInt64, TypeTag::SInt64, TypeTag::UInt64];
    assert_eq!(member_tags(&original), expected);
    assert_eq!(member_tags(&first), expected);
    assert_eq!(member_tags(&second), expected);
    let released = vec![Freed::Array(4), Freed::Descriptor];
    assert_eq!(first.destroy(), released);
    assert_eq!(member_tags(&original), expected);
    assert_eq!(member_tags(&second), expected);
    assert_eq!(original.destroy(), released);
    assert_eq!(member_tags(&second), expected);
    assert_eq!(second.destroy(), released);
}

#[test]
fn struct_descriptor_is_built_unprepared() {
    let t = Type::structure(vec![Type::i64(), Type::i64(), Type::u64()]);
    assert_eq!(t.tag(), TypeTag::Struct);
    match t.as_raw_ptr() {
        DescriptorRef::Static(_) => panic!("a structure owns its descriptor"),
        DescriptorRef::Heap(d) => {
            assert_eq!(d.size(), 0);
            assert_eq!(d.alignment(), 0);
            assert_eq!(d.type_(), TypeTag::Struct);
            assert_eq!(d.elements().len(), 4);
            assert!(d.elements()[3].is_none());
        }
    }
}

#[test]
fn empty_array_has_length_zero() {
    let a = TypeArray::new(Vec::new());
    assert_eq!(a.len(), 0);
    assert_eq!(a.as_raw_ptr().len(), 1);
    assert!(a.as_raw_ptr()[0].is_none());
}

#[test]
fn array_slots_hold_the_members_in_order() {
    let a = TypeArray::new(vec![Type::u8(), Type::structure(vec![Type::double()]), Type::pointer()]);
    assert_eq!(a.len(), 3);
    let slots = a.as_raw_ptr();
    assert_eq!(slots.len(), 4);
    assert_eq!(scalar_kind(slots[0].as_ref().unwrap()), Some(ScalarKind::UInt8));
    assert_eq!(slots[1].as_ref().unwrap().tag(), TypeTag::Struct);
    assert_eq!(member_tags(slots[1].as_ref().unwrap()), vec![TypeTag::Double]);
    assert_eq!(scalar_kind(slots[2].as_ref().unwrap()), Some(ScalarKind::Pointer));
    assert!(slots[3].is_none());
}

#[test]
fn array_clone_keeps_length_and_members() {
    let a = TypeArray::new(vec![Type::i16(), Type::structure(vec![Type::u32(), Type::c64()])]);
    let b = a.clone();
    assert_eq!(b.len(), 2);
    assert_eq!(scalar_kind(b.as_raw_ptr()[0].as_ref().unwrap()), Some(ScalarKind::SInt16));
    assert_eq!(
        member_tags(b.as_raw_ptr()[1].as_ref().unwrap()),
        vec![TypeTag::UInt32, TypeTag::Complex]
    );
    let released = vec![Freed::Array(3), Freed::Descriptor, Freed::Array(3)];
    assert_eq!(a.destroy(), released);
    assert_eq!(b.len(), 2);
    assert_eq!(b.destroy(), released);
}

#[test]
fn nested_struct_clone_is_deep() {
    let original = Type::structure(vec![Type::structure(vec![Type::u8()]), Type::i32()]);
    let copy = original.clone();
    assert_eq!(member_tags(&copy), vec![TypeTag::Struct, TypeTag::SInt32]);
    match copy.as_raw_ptr() {
        DescriptorRef::Static(_) => panic!("a structure owns its descriptor"),
        DescriptorRef::Heap(d) => {
            let inner = d.elements()[0].as_ref().unwrap();
            assert_eq!(inner.tag(), TypeTag::Struct);
            assert_eq!(member_tags(inner), vec![TypeTag::UInt8]);
        }
    }
    let released =
        vec![Freed::Array(2), Freed::Descriptor, Freed::Array(3), Freed::Descriptor];
    assert_eq!(copy.destroy(), released);
    assert_eq!(member_tags(&original), vec![TypeTag::Struct, TypeTag::SInt32]);
    assert_eq!(original.destroy(), released);
}

#[test]
fn destroying_empty_array_releases_only_the_sentinel_slot() {
    assert_eq!(TypeArray::new(Vec::new()).destroy(), vec![Freed::Array(1)]);
}

#[test]
fn structure_from_array_absorbs_the_array() {
    let t = Type::structure_from_array(TypeArray::new(vec![Type::u64()]));
    assert_eq!(member_tags(&t), vec![TypeTag::UInt64]);
    for _ in 0..10_000 {
        let copy = t.clone();
        assert_eq!(copy.destroy(), vec![Freed::Array(2), Freed::Descriptor]);
    }
    assert_eq!(member_tags(&t), vec![TypeTag::UInt64]);
    assert_eq!(t.destroy(), vec![Freed::Array(2), Freed::Descriptor]);
}

#[test]
fn raw_array_functions_follow_the_sentinel() {
    let empty = ffi_type_array_create_empty(3);
    assert_eq!(empty.len(), 4);
    assert!(empty.iter().all(|slot| slot.is_none()));
    assert_eq!(ffi_type_array_len(&empty), 0);

    let slots = ffi_type_array_create(vec![Type::u16(), Type::i8()]);
    assert_eq!(slots.len(), 3);
    assert_eq!(ffi_type_array_len(&slots), 2);
    assert_eq!(scalar_kind(slots[0].as_ref().unwrap()), Some(ScalarKind::UInt16));
    assert_eq!(scalar_kind(slots[1].as_ref().unwrap()), Some(ScalarKind::SInt8));

    let copy = ffi_type_array_clone(&slots);
    assert_eq!(ffi_type_array_len(&copy), 2);
    assert_eq!(scalar_kind(copy[1].as_ref().unwrap()), Some(ScalarKind::SInt8));

    let mut log = vec![Freed::Descriptor];
    ffi_type_array_destroy(copy, &mut log);
    assert_eq!(log, vec![Freed::Descriptor, Freed::Array(3)]);

    let t = ffi_type_struct_create_raw(slots);
    assert_eq!(member_tags(&t), vec![TypeTag::UInt16, TypeTag::SInt8]);
    let u = ffi_type_clone(&t);
    ffi_type_destroy(t, &mut log);
    assert_eq!(
        log,
        vec![Freed::Descriptor, Freed::Array(3), Freed::Array(3), Freed::Descriptor]
    );
    assert_eq!(member_tags(&u), vec![TypeTag::UInt16, TypeTag::SInt8]);
}

#[test]
fn raw_struct_create_absorbs_members() {
    let t = ffi_type_struct_create(vec![Type::longdouble(), Type::c32(), Type::complex_longdouble()]);
    assert_eq!(
        member_tags(&t),
        vec![TypeTag::LongDouble, TypeTag::Complex, TypeTag::Complex]
    );
    match t.as_raw_ptr() {
        DescriptorRef::Static(_) => panic!("a structure owns its descriptor"),
        DescriptorRef::Heap(d) => {
            let kinds: Vec<Option<ScalarKind>> =
                d.elements().iter().flatten().map(|m| scalar_kind(m)).collect();
            assert_eq!(
                kinds,
                vec![
                    Some(ScalarKind::LongDouble),
                    Some(ScalarKind::ComplexFloat),
                    Some(ScalarKind::ComplexLongDouble)
                ]
            );
        }
    }
}
