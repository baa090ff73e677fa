use jvmti_bindings::classfile::annotation::{
    parse_annotation, parse_annotations, parse_element_value, parse_parameter_annotations,
};
use jvmti_bindings::classfile::stack_map::{
    parse_stack_map_frame, parse_stack_map_table, parse_verification_type_info,
};
use jvmti_bindings::classfile::type_annotation::{
    parse_target_info, parse_type_annotations, parse_type_path,
};
use jvmti_bindings::classfile::{
    ClassFileError, ElementValue, Reader, StackMapFrame, TargetInfo, VerificationTypeInfo,
};

fn frame(bytes: &[u8]) -> Result<StackMapFrame, ClassFileError> {
    let mut r = Reader::new(bytes);
    let res = parse_stack_map_frame(&mut r);
    if res.is_ok() {
        assert_eq!(r.remaining(), 0);
    }
    res
}

fn is_invalid<T>(res: &Result<T, ClassFileError>, name: &str) -> bool {
    matches!(res, Err(ClassFileError::InvalidAttribute(n)) if n == name)
}

#[test]
fn frame_type_63_is_same() {
    assert!(matches!(frame(&[0]), Ok(StackMapFrame::Same { offset_delta: 0 })));
    assert!(matches!(frame(&[63]), Ok(StackMapFrame::Same { offset_delta: 63 })));
}

#[test]
fn frame_type_64_is_same_locals_1_stack_item() {
    assert!(matches!(
        frame(&[64, 1]),
        Ok(StackMapFrame::SameLocals1StackItem { offset_delta: 0, stack: VerificationTypeInfo::Integer })
    ));
    assert!(matches!(
        frame(&[127, 7, 0, 5]),
        Ok(StackMapFrame::SameLocals1StackItem {
            offset_delta: 63,
            stack: VerificationTypeInfo::Object(5)
        })
    ));
    assert!(matches!(frame(&[64]), Err(ClassFileError::UnexpectedEof)));
}

#[test]
fn frame_types_128_to_246_are_refused() {
    for t in [128u8, 200, 246] {
        assert!(is_invalid(&frame(&[t, 0, 0, 0, 0]), "StackMapTable"));
    }
}

#[test]
fn frame_type_247_is_the_extended_single_item() {
    assert!(matches!(
        frame(&[247, 1, 0, 8, 0, 9]),
        Ok(StackMapFrame::SameLocals1StackItemExtended {
            offset_delta: 256,
            stack: VerificationTypeInfo::Uninitialized(9)
        })
    ));
}

#[test]
fn chop_counts_down_from_251() {
    assert!(matches!(frame(&[248, 0, 1]), Ok(StackMapFrame::Chop { offset_delta: 1, k: 3 })));
    assert!(matches!(frame(&[249, 0, 2]), Ok(StackMapFrame::Chop { offset_delta: 2, k: 2 })));
    assert!(matches!(frame(&[250, 0, 3]), Ok(StackMapFrame::Chop { offset_delta: 3, k: 1 })));
}

#[test]
fn frame_type_251_is_same_extended() {
    assert!(matches!(frame(&[251, 0xAB, 0xCD]), Ok(StackMapFrame::SameExtended { offset_delta: 0xABCD })));
    assert!(matches!(frame(&[251, 0xAB]), Err(ClassFileError::UnexpectedEof)));
}

#[test]
fn append_reads_frame_type_minus_251_locals() {
    match frame(&[252, 0, 1, 2]) {
        Ok(StackMapFrame::Append { offset_delta, locals }) => {
            assert_eq!(offset_delta, 1);
            assert_eq!(locals.len(), 1);
            assert!(matches!(locals[0], VerificationTypeInfo::Float));
        },
        other => panic!("unexpected {:?}", other),
    }
    match frame(&[254, 0, 1, 0, 3, 4]) {
        Ok(StackMapFrame::Append { locals, .. }) => {
            assert_eq!(locals.len(), 3);
            assert!(matches!(locals[0], VerificationTypeInfo::Top));
            assert!(matches!(locals[1], VerificationTypeInfo::Double));
            assert!(matches!(locals[2], VerificationTypeInfo::Long));
        },
        other => panic!("unexpected {:?}", other),
    }
    assert!(matches!(frame(&[253, 0, 1, 0]), Err(ClassFileError::UnexpectedEof)));
}

#[test]
fn full_frame_reads_both_lists() {
    match frame(&[255, 0, 9, 0, 2, 5, 6, 0, 1, 7, 0, 4]) {
        Ok(StackMapFrame::Full { offset_delta, locals, stack }) => {
            assert_eq!(offset_delta, 9);
            assert_eq!(locals.len(), 2);
            assert!(matches!(locals[0], VerificationTypeInfo::Null));
            assert!(matches!(locals[1], VerificationTypeInfo::UninitializedThis));
            assert_eq!(stack.len(), 1);
            assert!(matches!(stack[0], VerificationTypeInfo::Object(4)));
        },
        other => panic!("unexpected {:?}", other),
    }
    match frame(&[255, 0, 0, 0, 0, 0, 0]) {
        Ok(StackMapFrame::Full { locals, stack, .. }) => {
            assert!(locals.is_empty());
            assert!(stack.is_empty());
        },
        other => panic!("unexpected {:?}", other),
    }
}

#[test]
fn verification_type_tags() {
    let expect = ["Top", "Integer", "Float", "Double", "Long", "Null", "UninitializedThis"];
    for (tag, name) in expect.iter().enumerate() {
        let bytes = [tag as u8];
        let mut r = Reader::new(&bytes);
        assert_eq!(format!("{:?}", parse_verification_type_info(&mut r).unwrap()), *name);
    }
    let bytes = [9u8, 0, 0];
    let mut r = Reader::new(&bytes);
    assert!(is_invalid(&parse_verification_type_info(&mut r), "StackMapTable"));
    let bytes = [7u8, 0];
    let mut r = Reader::new(&bytes);
    assert!(matches!(parse_verification_type_info(&mut r), Err(ClassFileError::UnexpectedEof)));
}

#[test]
fn stack_map_table_reads_its_frames() {
    let bytes = [0u8, 3, 10, 249, 0, 1, 64, 0];
    let mut r = Reader::new(&bytes);
    let table = parse_stack_map_table(&mut r).unwrap();
    assert_eq!(table.entries.len(), 3);
    assert!(matches!(table.entries[0], StackMapFrame::Same { offset_delta: 10 }));
    assert!(matches!(table.entries[1], StackMapFrame::Chop { offset_delta: 1, k: 2 }));
    assert!(matches!(
        table.entries[2],
        StackMapFrame::SameLocals1StackItem { offset_delta: 0, stack: VerificationTypeInfo::Top }
    ));
    let bytes = [0u8, 2, 10, 246];
    let mut r = Reader::new(&bytes);
    assert!(is_invalid(&parse_stack_map_table(&mut r), "StackMapTable"));
}

fn value(bytes: &[u8]) -> Result<ElementValue, ClassFileError> {
    let mut r = Reader::new(bytes);
    let res = parse_element_value(&mut r);
    if res.is_ok() {
        assert_eq!(r.remaining(), 0);
    }
    res
}

#[test]
fn constant_element_values() {
    for tag in b"BCDFIJSZs" {
        match value(&[*tag, 0, 7]) {
            Ok(ElementValue::Const { tag: t, const_value_index }) => {
                assert_eq!(t, *tag);
                assert_eq!(const_value_index, 7);
            },
            other => panic!("unexpected {:?}", other),
        }
    }
}

#[test]
fn enum_and_class_element_values() {
    assert!(matches!(
        value(&[b'e', 0, 1, 0, 2]),
        Ok(ElementValue::EnumConst { type_name_index: 1, const_name_index: 2 })
    ));
    assert!(matches!(value(&[b'c', 0, 3]), Ok(ElementValue::ClassInfo { class_info_index: 3 })));
    assert!(matches!(value(&[b'e', 0, 1, 0]), Err(ClassFileError::UnexpectedEof)));
}

#[test]
fn unknown_element_value_tags_are_refused() {
    for tag in [0u8, b'A', b'b', b'E', b'x', 255] {
        assert!(is_invalid(&value(&[tag, 0, 0, 0, 0]), "annotation"));
    }
    assert!(matches!(value(&[]), Err(ClassFileError::UnexpectedEof)));
}

#[test]
fn nested_annotation_value() {
    match value(&[b'@', 0, 5, 0, 1, 0, 6, b'I', 0, 7]) {
        Ok(ElementValue::AnnotationValue(a)) => {
            assert_eq!(a.type_index, 5);
            assert_eq!(a.element_value_pairs.len(), 1);
            assert_eq!(a.element_value_pairs[0].element_name_index, 6);
            assert!(matches!(
                a.element_value_pairs[0].value,
                ElementValue::Const { tag: b'I', const_value_index: 7 }
            ));
        },
        other => panic!("unexpected {:?}", other),
    }
}

#[test]
fn array_value_with_nested_arrays() {
    match value(&[b'[', 0, 3, b's', 0, 1, b'[', 0, 0, b'[', 0, 1, b'c', 0, 2]) {
        Ok(ElementValue::ArrayValue(values)) => {
            assert_eq!(values.len(), 3);
            assert!(matches!(values[0], ElementValue::Const { tag: b's', const_value_index: 1 }));
            assert!(matches!(&values[1], ElementValue::ArrayValue(v) if v.is_empty()));
            match &values[2] {
                ElementValue::ArrayValue(v) => {
                    assert_eq!(v.len(), 1);
                    assert!(matches!(v[0], ElementValue::ClassInfo { class_info_index: 2 }));
                },
                other => panic!("unexpected {:?}", other),
            }
        },
        other => panic!("unexpected {:?}", other),
    }
    assert!(matches!(value(&[b'[', 0, 2, b's', 0, 1]), Err(ClassFileError::UnexpectedEof)));
    assert!(is_invalid(&value(&[b'[', 0, 2, b's', 0, 1, b'?']), "annotation"));
}

#[test]
fn deeply_nested_arrays_decode() {
    let depth = 200usize;
    let mut bytes = Vec::new();
    for _ in 0..depth {
        bytes.extend_from_slice(&[b'[', 0, 1]);
    }
    bytes.extend_from_slice(&[b'Z', 0, 1]);
    let mut v = value(&bytes).unwrap();
    for _ in 0..depth {
        v = match v {
            ElementValue::ArrayValue(mut inner) => {
                assert_eq!(inner.len(), 1);
                inner.pop().unwrap()
            },
            other => panic!("unexpected {:?}", other),
        };
    }
    assert!(matches!(v, ElementValue::Const { tag: b'Z', const_value_index: 1 }));
}

#[test]
fn annotation_with_two_pairs() {
    let bytes = [0u8, 9, 0, 2, 0, 1, b'B', 0, 2, 0, 3, b'e', 0, 4, 0, 5];
    let mut r = Reader::new(&bytes);
    let a = parse_annotation(&mut r).unwrap();
    assert_eq!(r.remaining(), 0);
    assert_eq!(a.type_index, 9);
    assert_eq!(a.element_value_pairs.len(), 2);
    assert_eq!(a.element_value_pairs[0].element_name_index, 1);
    assert_eq!(a.element_value_pairs[1].element_name_index, 3);
    assert!(matches!(
        a.element_value_pairs[1].value,
        ElementValue::EnumConst { type_name_index: 4, const_name_index: 5 }
    ));
    let mut r = Reader::new(&bytes[..bytes.len() - 1]);
    assert!(matches!(parse_annotation(&mut r), Err(ClassFileError::UnexpectedEof)));
}

#[test]
fn annotation_lists() {
    let bytes = [0u8, 2, 0, 1, 0, 0, 0, 2, 0, 0];
    let mut r = Reader::new(&bytes);
    let list = parse_annotations(&mut r).unwrap();
    assert_eq!(list.len(), 2);
    assert_eq!(list[0].type_index, 1);
    assert_eq!(list[1].type_index, 2);
    let bytes = [2u8, 0, 1, 0, 7, 0, 0, 0, 0];
    let mut r = Reader::new(&bytes);
    let per_parameter = parse_parameter_annotations(&mut r).unwrap();
    assert_eq!(r.remaining(), 0);
    assert_eq!(per_parameter.len(), 2);
    assert_eq!(per_parameter[0].len(), 1);
    assert_eq!(per_parameter[0][0].type_index, 7);
    assert!(per_parameter[1].is_empty());
}

fn target(target_type: u8, bytes: &[u8]) -> Result<TargetInfo, ClassFileError> {
    let mut r = Reader::new(bytes);
    let res = parse_target_info(&mut r, target_type);
    if res.is_ok() {
        assert_eq!(r.remaining(), 0);
    }
    res
}

#[test]
fn target_info_by_target_type() {
    for t in [0x00u8, 0x01] {
        assert!(matches!(target(t, &[4]), Ok(TargetInfo::TypeParameter { index: 4 })));
    }
    assert!(matches!(target(0x10, &[1, 2]), Ok(TargetInfo::Supertype { index: 0x0102 })));
    for t in [0x11u8, 0x12] {
        assert!(matches!(
            target(t, &[3, 4]),
            Ok(TargetInfo::TypeParameterBound { type_parameter_index: 3, bound_index: 4 })
        ));
    }
    for t in [0x13u8, 0x14, 0x15] {
        assert!(matches!(target(t, &[]), Ok(TargetInfo::Empty)));
    }
    assert!(matches!(target(0x16, &[9]), Ok(TargetInfo::FormalParameter { index: 9 })));
    assert!(matches!(target(0x17, &[0, 9]), Ok(TargetInfo::Throws { index: 9 })));
    for t in [0x40u8, 0x41] {
        match target(t, &[0, 1, 0, 1, 0, 2, 0, 3]) {
            Ok(TargetInfo::Localvar { table }) => {
                assert_eq!(table.len(), 1);
                assert_eq!((table[0].start_pc, table[0].length, table[0].index), (1, 2, 3));
            },
            other => panic!("unexpected {:?}", other),
        }
    }
    assert!(matches!(target(0x42, &[0, 5]), Ok(TargetInfo::Catch { exception_table_index: 5 })));
    for t in [0x43u8, 0x44, 0x45, 0x46] {
        assert!(matches!(target(t, &[0, 6]), Ok(TargetInfo::Offset { offset: 6 })));
    }
    for t in [0x47u8, 0x48, 0x49, 0x4A, 0x4B] {
        assert!(matches!(
            target(t, &[0, 7, 8]),
            Ok(TargetInfo::TypeArgument { offset: 7, type_argument_index: 8 })
        ));
    }
}

#[test]
fn other_target_types_are_refused() {
    for t in [0x02u8, 0x0F, 0x18, 0x3F, 0x4C, 0xFF] {
        assert!(is_invalid(&target(t, &[0, 0, 0, 0]), "type_annotation"));
    }
}

#[test]
fn type_path_is_counted_by_one_byte() {
    let bytes = [2u8, 0, 0, 3, 1];
    let mut r = Reader::new(&bytes);
    let path = parse_type_path(&mut r).unwrap();
    assert_eq!(path.len(), 2);
    assert_eq!((path[0].type_path_kind, path[0].type_argument_index), (0, 0));
    assert_eq!((path[1].type_path_kind, path[1].type_argument_index), (3, 1));
    let bytes = [1u8, 0];
    let mut r = Reader::new(&bytes);
    assert!(matches!(parse_type_path(&mut r), Err(ClassFileError::UnexpectedEof)));
}

#[test]
fn type_annotation_list() {
    let bytes = [
        0u8, 2, // two annotations
        0x13, 0, 0, 5, 0, 0, // empty target, no path, type 5, no pairs
        0x47, 0, 9, 1, 1, 3, 0, 0, 6, 0, 1, 0, 7, b'Z', 0, 8,
    ];
    let mut r = Reader::new(&bytes);
    let list = parse_type_annotations(&mut r).unwrap();
    assert_eq!(r.remaining(), 0);
    assert_eq!(list.len(), 2);
    assert_eq!(list[0].target_type, 0x13);
    assert!(matches!(list[0].target_info, TargetInfo::Empty));
    assert!(list[0].target_path.is_empty());
    assert_eq!(list[0].type_index, 5);
    assert!(list[0].element_value_pairs.is_empty());
    assert_eq!(list[1].target_type, 0x47);
    assert!(matches!(list[1].target_info, TargetInfo::TypeArgument { offset: 9, type_argument_index: 1 }));
    assert_eq!(list[1].target_path.len(), 1);
    assert_eq!(list[1].target_path[0].type_path_kind, 3);
    assert_eq!(list[1].type_index, 6);
    assert_eq!(list[1].element_value_pairs.len(), 1);
    assert_eq!(list[1].element_value_pairs[0].element_name_index, 7);
    let bad = [0u8, 1, 0x30, 0, 0, 0, 0, 0];
    let mut r = Reader::new(&bad);
    assert!(is_invalid(&parse_type_annotations(&mut r), "type_annotation"));
}
