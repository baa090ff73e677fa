use jvmti_bindings::classfile::constant_pool::{parse_constant_pool, parse_cp_entry};
use jvmti_bindings::classfile::{ClassFileError, ConstantPool, CpInfo, Reader};

fn pool(count: u16, entries: &[u8]) -> Result<ConstantPool, ClassFileError> {
    let mut bytes = Vec::new();
    bytes.extend_from_slice(&count.to_be_bytes());
    bytes.extend_from_slice(entries);
    let mut r = Reader::new(&bytes);
    parse_constant_pool(&mut r)
}

fn entry(bytes: &[u8]) -> Result<CpInfo, ClassFileError> {
    let mut r = Reader::new(bytes);
    parse_cp_entry(&mut r)
}

#[test]
fn count_zero_and_one_give_an_empty_pool() {
    for count in [0u16, 1] {
        let cp = pool(count, &[]).unwrap();
        assert!(matches!(cp.get(0), Err(ClassFileError::InvalidConstantPoolIndex(0))));
        assert!(matches!(cp.get(1), Err(ClassFileError::InvalidConstantPoolIndex(1))));
    }
}

#[test]
fn utf8_entry_is_decoded() {
    let cp = pool(2, &[1, 0, 4, b'T', b'e', b's', b't']).unwrap();
    assert_eq!(cp.get_utf8(1).unwrap(), "Test");
    assert!(matches!(cp.get(1), Ok(CpInfo::Utf8(s)) if s == "Test"));
}

#[test]
fn utf8_entry_of_length_zero_is_empty_text() {
    let cp = pool(2, &[1, 0, 0]).unwrap();
    assert_eq!(cp.get_utf8(1).unwrap(), "");
}

#[test]
fn utf8_of_two_byte_character_is_decoded() {
    let cp = pool(2, &[1, 0, 2, 0xC3, 0xA9]).unwrap();
    assert_eq!(cp.get_utf8(1).unwrap(), "\u{e9}");
}

#[test]
fn invalid_utf8_is_replaced_not_refused() {
    let cp = pool(2, &[1, 0, 3, b'a', 0xFF, b'b']).unwrap();
    assert_eq!(cp.get_utf8(1).unwrap(), "a\u{FFFD}b");
}

#[test]
fn integer_is_read_as_twos_complement() {
    assert!(matches!(entry(&[3, 0, 0, 0, 123]), Ok(CpInfo::Integer(123))));
    assert!(matches!(entry(&[3, 0xFF, 0xFF, 0xFF, 0xFF]), Ok(CpInfo::Integer(-1))));
    assert!(matches!(entry(&[3, 0x80, 0, 0, 0]), Ok(CpInfo::Integer(i32::MIN))));
    assert!(matches!(entry(&[3, 0x7F, 0xFF, 0xFF, 0xFF]), Ok(CpInfo::Integer(i32::MAX))));
}

#[test]
fn float_keeps_its_bits() {
    let bits = 1.5f32.to_bits();
    let mut bytes = vec![4u8];
    bytes.extend_from_slice(&bits.to_be_bytes());
    match entry(&bytes) {
        Ok(CpInfo::Float(b)) => assert_eq!(f32::from_bits(b), 1.5f32),
        other => panic!("unexpected {:?}", other),
    }
}

#[test]
fn long_is_read_as_twos_complement() {
    assert!(matches!(entry(&[5, 0, 0, 0, 1, 0, 0, 0, 2]), Ok(CpInfo::Long(0x1_0000_0002))));
    assert!(matches!(entry(&[5, 0xFF, 0xFF, 0xFF, 0xFF, 0xFF, 0xFF, 0xFF, 0xFE]), Ok(CpInfo::Long(-2))));
    assert!(matches!(entry(&[5, 0x80, 0, 0, 0, 0, 0, 0, 0]), Ok(CpInfo::Long(i64::MIN))));
    assert!(
        matches!(entry(&[5, 0x7F, 0xFF, 0xFF, 0xFF, 0xFF, 0xFF, 0xFF, 0xFF]), Ok(CpInfo::Long(i64::MAX)))
    );
}

#[test]
fn double_keeps_its_bits() {
    let bits = (-2.25f64).to_bits();
    let mut bytes = vec![6u8];
    bytes.extend_from_slice(&bits.to_be_bytes());
    match entry(&bytes) {
        Ok(CpInfo::Double(b)) => assert_eq!(f64::from_bits(b), -2.25f64),
        other => panic!("unexpected {:?}", other),
    }
}

#[test]
fn one_index_entries() {
    assert!(matches!(entry(&[7, 0x01, 0x02]), Ok(CpInfo::Class { name_index: 0x0102 })));
    assert!(matches!(entry(&[8, 0, 9]), Ok(CpInfo::String { string_index: 9 })));
    assert!(matches!(entry(&[16, 0, 5]), Ok(CpInfo::MethodType { descriptor_index: 5 })));
    assert!(matches!(entry(&[19, 0, 6]), Ok(CpInfo::Module { name_index: 6 })));
    assert!(matches!(entry(&[20, 0, 7]), Ok(CpInfo::Package { name_index: 7 })));
}

#[test]
fn two_index_entries() {
    assert!(matches!(
        entry(&[9, 0, 1, 0, 2]),
        Ok(CpInfo::Fieldref { class_index: 1, name_and_type_index: 2 })
    ));
    assert!(matches!(
        entry(&[10, 0, 3, 0, 4]),
        Ok(CpInfo::Methodref { class_index: 3, name_and_type_index: 4 })
    ));
    assert!(matches!(
        entry(&[11, 0, 5, 0, 6]),
        Ok(CpInfo::InterfaceMethodref { class_index: 5, name_and_type_index: 6 })
    ));
    assert!(matches!(
        entry(&[12, 0, 7, 0, 8]),
        Ok(CpInfo::NameAndType { name_index: 7, descriptor_index: 8 })
    ));
    assert!(matches!(
        entry(&[17, 0, 9, 0, 10]),
        Ok(CpInfo::Dynamic { bootstrap_method_attr_index: 9, name_and_type_index: 10 })
    ));
    assert!(matches!(
        entry(&[18, 0, 11, 0, 12]),
        Ok(CpInfo::InvokeDynamic { bootstrap_method_attr_index: 11, name_and_type_index: 12 })
    ));
}

#[test]
fn method_handle_entry() {
    assert!(matches!(
        entry(&[15, 6, 0x12, 0x34]),
        Ok(CpInfo::MethodHandle { reference_kind: 6, reference_index: 0x1234 })
    ));
}

#[test]
fn unknown_tags_are_refused() {
    for tag in [0u8, 2, 13, 14, 21, 255] {
        match entry(&[tag, 0, 0, 0, 0, 0, 0, 0, 0]) {
            Err(ClassFileError::InvalidConstantPoolTag(t)) => assert_eq!(t, tag),
            other => panic!("unexpected {:?}", other),
        }
    }
}

#[test]
fn unknown_tag_ends_the_pool() {
    let res = pool(3, &[7, 0, 1, 2, 0, 0]);
    assert!(matches!(res, Err(ClassFileError::InvalidConstantPoolTag(2))));
}

#[test]
fn truncated_entries_end_in_eof() {
    assert!(matches!(entry(&[]), Err(ClassFileError::UnexpectedEof)));
    assert!(matches!(entry(&[1, 0]), Err(ClassFileError::UnexpectedEof)));
    assert!(matches!(entry(&[1, 0, 3, b'a', b'b']), Err(ClassFileError::UnexpectedEof)));
    assert!(matches!(entry(&[3, 0, 0, 0]), Err(ClassFileError::UnexpectedEof)));
    assert!(matches!(entry(&[5, 0, 0, 0, 0, 0, 0, 0]), Err(ClassFileError::UnexpectedEof)));
    assert!(matches!(entry(&[7, 0]), Err(ClassFileError::UnexpectedEof)));
    assert!(matches!(entry(&[9, 0, 1, 0]), Err(ClassFileError::UnexpectedEof)));
    assert!(matches!(entry(&[15, 1, 0]), Err(ClassFileError::UnexpectedEof)));
    assert!(matches!(pool(3, &[7, 0, 1]), Err(ClassFileError::UnexpectedEof)));
    let one = [0u8];
    let mut r = Reader::new(&one);
    assert!(matches!(parse_constant_pool(&mut r), Err(ClassFileError::UnexpectedEof)));
}

#[test]
fn long_leaves_the_next_index_unresolvable() {
    // count 4: Long at 1 (and hole at 2), Class at 3
    let cp = pool(4, &[5, 0, 0, 0, 0, 0, 0, 0, 42, 7, 0, 9]).unwrap();
    assert!(matches!(cp.get(1), Ok(CpInfo::Long(42))));
    assert!(matches!(cp.get(2), Err(ClassFileError::InvalidConstantPoolIndex(2))));
    assert!(matches!(cp.get_utf8(2), Err(ClassFileError::InvalidConstantPoolIndex(2))));
    assert!(matches!(cp.get(3), Ok(CpInfo::Class { name_index: 9 })));
    assert!(matches!(cp.get(4), Err(ClassFileError::InvalidConstantPoolIndex(4))));
}

#[test]
fn double_leaves_the_next_index_unresolvable() {
    let cp = pool(4, &[6, 0x40, 0, 0, 0, 0, 0, 0, 0, 8, 0, 1]).unwrap();
    match cp.get(1) {
        Ok(CpInfo::Double(bits)) => assert_eq!(f64::from_bits(*bits), 2.0),
        other => panic!("unexpected {:?}", other),
    }
    assert!(matches!(cp.get(2), Err(ClassFileError::InvalidConstantPoolIndex(2))));
    assert!(matches!(cp.get(3), Ok(CpInfo::String { string_index: 1 })));
}

#[test]
fn long_in_the_last_slot_still_leaves_a_hole() {
    // count 2: the Long takes index 1 and the hole index 2
    let cp = pool(2, &[5, 0, 0, 0, 0, 0, 0, 0, 1]).unwrap();
    assert!(matches!(cp.get(1), Ok(CpInfo::Long(1))));
    assert!(matches!(cp.get(2), Err(ClassFileError::InvalidConstantPoolIndex(2))));
    assert!(matches!(cp.get(3), Err(ClassFileError::InvalidConstantPoolIndex(3))));
}

#[test]
fn index_zero_and_past_the_end_are_refused() {
    let cp = pool(2, &[7, 0, 1]).unwrap();
    assert!(matches!(cp.get(0), Err(ClassFileError::InvalidConstantPoolIndex(0))));
    assert!(matches!(cp.get(2), Err(ClassFileError::InvalidConstantPoolIndex(2))));
    assert!(matches!(cp.get(u16::MAX), Err(ClassFileError::InvalidConstantPoolIndex(65535))));
}

#[test]
fn get_utf8_refuses_other_kinds() {
    let cp = pool(3, &[7, 0, 2, 1, 0, 1, b'x']).unwrap();
    assert!(matches!(cp.get_utf8(1), Err(ClassFileError::InvalidConstantPoolIndex(1))));
    assert_eq!(cp.get_utf8(2).unwrap(), "x");
    assert!(matches!(cp.get_utf8(0), Err(ClassFileError::InvalidConstantPoolIndex(0))));
}

#[test]
fn pool_reads_no_further_than_its_entries() {
    let bytes = [0u8, 2, 7, 0, 1, 0xAA, 0xBB];
    let mut r = Reader::new(&bytes);
    let cp = parse_constant_pool(&mut r).unwrap();
    assert!(matches!(cp.get(1), Ok(CpInfo::Class { name_index: 1 })));
    assert_eq!(r.remaining(), 2);
}
