use jvmti_bindings::classfile::attribute::AttributeKind;
use jvmti_bindings::classfile::attribute_body::parse_attribute_body;
use jvmti_bindings::classfile::attribute_decode::{parse_attribute, parse_attributes};
use jvmti_bindings::classfile::attribute_name::attribute_kind_of;
use jvmti_bindings::classfile::constant_pool::parse_constant_pool;
use jvmti_bindings::classfile::{AttributeInfo, ClassFileError, ConstantPool, Reader};

const NAMES: [&str; 34] = [
    "ConstantValue",
    "Code",
    "StackMapTable",
    "Exceptions",
    "InnerClasses",
    "EnclosingMethod",
    "Synthetic",
    "Signature",
    "SourceFile",
    "SourceDebugExtension",
    "LineNumberTable",
    "LocalVariableTable",
    "LocalVariableTypeTable",
    "Deprecated",
    "RuntimeVisibleAnnotations",
    "RuntimeInvisibleAnnotations",
    "RuntimeVisibleParameterAnnotations",
    "RuntimeInvisibleParameterAnnotations",
    "RuntimeVisibleTypeAnnotations",
    "RuntimeInvisibleTypeAnnotations",
    "AnnotationDefault",
    "BootstrapMethods",
    "MethodParameters",
    "Module",
    "ModulePackages",
    "ModuleMainClass",
    "ModuleHashes",
    "ModuleTarget",
    "ModuleResolution",
    "NestHost",
    "NestMembers",
    "Record",
    "PermittedSubclasses",
    "Mystery",
];

/// A pool whose entry `i + 1` is the text `NAMES[i]`, and whose last entry is a Class.
fn names_pool() -> ConstantPool {
    let mut bytes = Vec::new();
    bytes.extend_from_slice(&((NAMES.len() + 2) as u16).to_be_bytes());
    for name in NAMES {
        bytes.push(1);
        bytes.extend_from_slice(&(name.len() as u16).to_be_bytes());
        bytes.extend_from_slice(name.as_bytes());
    }
    bytes.extend_from_slice(&[7, 0, 1]);
    let mut r = Reader::new(&bytes);
    parse_constant_pool(&mut r).unwrap()
}

fn index_of(name: &str) -> u16 {
    (NAMES.iter().position(|n| *n == name).unwrap() + 1) as u16
}

fn attr_bytes(name: &str, declared: u32, body: &[u8]) -> Vec<u8> {
    let mut out = Vec::new();
    out.extend_from_slice(&index_of(name).to_be_bytes());
    out.extend_from_slice(&declared.to_be_bytes());
    out.extend_from_slice(body);
    out
}

fn attr(name: &str, body: &[u8]) -> Vec<u8> {
    attr_bytes(name, body.len() as u32, body)
}

fn decode_one(bytes: &[u8]) -> Result<AttributeInfo, ClassFileError> {
    let cp = names_pool();
    let mut r = Reader::new(bytes);
    parse_attribute(&mut r, &cp)
}

fn decode(name: &str, body: &[u8]) -> Result<AttributeInfo, ClassFileError> {
    decode_one(&attr(name, body))
}

fn invalid(res: Result<AttributeInfo, ClassFileError>, name: &str) -> bool {
    matches!(res, Err(ClassFileError::InvalidAttribute(n)) if n == name)
}

#[test]
fn every_known_name_has_its_kind() {
    let kinds: Vec<String> = NAMES.iter().map(|n| format!("{:?}", attribute_kind_of(n))).collect();
    for (i, name) in NAMES.iter().enumerate() {
        if *name == "Mystery" {
            assert_eq!(kinds[i], "Unknown");
        } else {
            assert_eq!(&kinds[i], name);
        }
    }
}

#[test]
fn names_match_exactly() {
    assert!(matches!(attribute_kind_of("Code"), AttributeKind::Code));
    assert!(matches!(attribute_kind_of("code"), AttributeKind::Unknown));
    assert!(matches!(attribute_kind_of("Code "), AttributeKind::Unknown));
    assert!(matches!(attribute_kind_of(""), AttributeKind::Unknown));
    assert!(matches!(attribute_kind_of("Unknown"), AttributeKind::Unknown));
    assert!(matches!(attribute_kind_of("Records"), AttributeKind::Unknown));
}

#[test]
fn constant_value_with_exact_length() {
    assert!(matches!(
        decode("ConstantValue", &[0, 11]),
        Ok(AttributeInfo::ConstantValue { constantvalue_index: 11 })
    ));
}

#[test]
fn declared_length_one_byte_longer_is_invalid_attribute() {
    let bytes = attr_bytes("ConstantValue", 3, &[0, 11, 0]);
    assert!(invalid(decode_one(&bytes), "ConstantValue"));
    let bytes = attr_bytes("SourceFile", 3, &[0, 11, 0xFF]);
    assert!(invalid(decode_one(&bytes), "SourceFile"));
    let bytes = attr_bytes("Exceptions", 5, &[0, 1, 0, 2, 0]);
    assert!(invalid(decode_one(&bytes), "Exceptions"));
}

#[test]
fn declared_length_one_byte_shorter_runs_out_of_bytes() {
    let bytes = attr_bytes("ConstantValue", 1, &[0, 11]);
    assert!(matches!(decode_one(&bytes), Err(ClassFileError::UnexpectedEof)));
    let bytes = attr_bytes("Exceptions", 3, &[0, 1, 0, 2]);
    assert!(matches!(decode_one(&bytes), Err(ClassFileError::UnexpectedEof)));
}

#[test]
fn body_longer_than_the_buffer_is_eof() {
    let bytes = attr_bytes("ConstantValue", 2, &[0]);
    assert!(matches!(decode_one(&bytes), Err(ClassFileError::UnexpectedEof)));
    let bytes = attr_bytes("Mystery", u32::MAX, &[0, 1, 2]);
    assert!(matches!(decode_one(&bytes), Err(ClassFileError::UnexpectedEof)));
}

#[test]
fn truncated_header_is_eof() {
    assert!(matches!(decode_one(&[]), Err(ClassFileError::UnexpectedEof)));
    assert!(matches!(decode_one(&[0, 1]), Err(ClassFileError::UnexpectedEof)));
    assert!(matches!(decode_one(&[0, 1, 0, 0, 0]), Err(ClassFileError::UnexpectedEof)));
}

#[test]
fn name_must_resolve_to_text() {
    let class_index = (NAMES.len() + 1) as u16;
    let mut bytes = Vec::new();
    bytes.extend_from_slice(&class_index.to_be_bytes());
    bytes.extend_from_slice(&[0, 0, 0, 0]);
    match decode_one(&bytes) {
        Err(ClassFileError::InvalidConstantPoolIndex(i)) => assert_eq!(i, class_index),
        other => panic!("unexpected {:?}", other),
    }
    assert!(matches!(
        decode_one(&[0, 0, 0, 0, 0, 0]),
        Err(ClassFileError::InvalidConstantPoolIndex(0))
    ));
    assert!(matches!(
        decode_one(&[0xFF, 0xFF, 0, 0, 0, 0]),
        Err(ClassFileError::InvalidConstantPoolIndex(0xFFFF))
    ));
}

#[test]
fn name_is_resolved_before_the_body_is_read() {
    // bad name and a body that is not there: the name's error comes first
    assert!(matches!(
        decode_one(&[0, 0, 0, 0, 0, 9]),
        Err(ClassFileError::InvalidConstantPoolIndex(0))
    ));
}

#[test]
fn unknown_attribute_keeps_name_and_bytes() {
    match decode("Mystery", b"data") {
        Ok(AttributeInfo::Unknown { name, info }) => {
            assert_eq!(name, "Mystery");
            assert_eq!(info, b"data".to_vec());
        },
        other => panic!("unexpected {:?}", other),
    }
    match decode("Mystery", &[]) {
        Ok(AttributeInfo::Unknown { name, info }) => {
            assert_eq!(name, "Mystery");
            assert!(info.is_empty());
        },
        other => panic!("unexpected {:?}", other),
    }
}

#[test]
fn source_debug_extension_takes_the_body_as_it_is() {
    match decode("SourceDebugExtension", b"debug") {
        Ok(AttributeInfo::SourceDebugExtension { debug_extension }) => {
            assert_eq!(debug_extension, b"debug".to_vec())
        },
        other => panic!("unexpected {:?}", other),
    }
}

#[test]
fn markers_have_no_body() {
    assert!(matches!(decode("Synthetic", &[]), Ok(AttributeInfo::Synthetic)));
    assert!(matches!(decode("Deprecated", &[]), Ok(AttributeInfo::Deprecated)));
    assert!(invalid(decode("Synthetic", &[0]), "Synthetic"));
    assert!(invalid(decode("Deprecated", &[1, 2]), "Deprecated"));
}

#[test]
fn single_index_attributes() {
    assert!(matches!(decode("Signature", &[0, 5]), Ok(AttributeInfo::Signature { signature_index: 5 })));
    assert!(matches!(decode("SourceFile", &[1, 0]), Ok(AttributeInfo::SourceFile { sourcefile_index: 256 })));
    assert!(matches!(
        decode("ModuleMainClass", &[0, 7]),
        Ok(AttributeInfo::ModuleMainClass { main_class_index: 7 })
    ));
    assert!(matches!(
        decode("ModuleTarget", &[0, 8]),
        Ok(AttributeInfo::ModuleTarget { target_platform_index: 8 })
    ));
    assert!(matches!(
        decode("ModuleResolution", &[0, 3]),
        Ok(AttributeInfo::ModuleResolution { resolution_flags: 3 })
    ));
    assert!(matches!(decode("NestHost", &[0, 9]), Ok(AttributeInfo::NestHost { host_class_index: 9 })));
    assert!(matches!(
        decode("EnclosingMethod", &[0, 1, 0, 2]),
        Ok(AttributeInfo::EnclosingMethod { class_index: 1, method_index: 2 })
    ));
}

#[test]
fn index_lists() {
    match decode("Exceptions", &[0, 2, 0, 5, 0, 6]) {
        Ok(AttributeInfo::Exceptions { exception_index_table }) => {
            assert_eq!(exception_index_table, vec![5, 6])
        },
        other => panic!("unexpected {:?}", other),
    }
    match decode("ModulePackages", &[0, 1, 1, 1]) {
        Ok(AttributeInfo::ModulePackages { packages }) => assert_eq!(packages, vec![257]),
        other => panic!("unexpected {:?}", other),
    }
    match decode("NestMembers", &[0, 0]) {
        Ok(AttributeInfo::NestMembers { classes }) => assert!(classes.is_empty()),
        other => panic!("unexpected {:?}", other),
    }
    match decode("PermittedSubclasses", &[0, 3, 0, 1, 0, 2, 0, 3]) {
        Ok(AttributeInfo::PermittedSubclasses { classes }) => assert_eq!(classes, vec![1, 2, 3]),
        other => panic!("unexpected {:?}", other),
    }
    assert!(matches!(decode("Exceptions", &[0, 2, 0, 5]), Err(ClassFileError::UnexpectedEof)));
}

#[test]
fn tables_of_records() {
    match decode("InnerClasses", &[0, 1, 0, 1, 0, 2, 0, 3, 0, 4]) {
        Ok(AttributeInfo::InnerClasses { classes }) => {
            assert_eq!(classes.len(), 1);
            assert_eq!(classes[0].inner_class_info_index, 1);
            assert_eq!(classes[0].outer_class_info_index, 2);
            assert_eq!(classes[0].inner_name_index, 3);
            assert_eq!(classes[0].inner_class_access_flags, 4);
        },
        other => panic!("unexpected {:?}", other),
    }
    match decode("LineNumberTable", &[0, 2, 0, 0, 0, 10, 0, 4, 0, 11]) {
        Ok(AttributeInfo::LineNumberTable { entries }) => {
            assert_eq!(entries.len(), 2);
            assert_eq!((entries[0].start_pc, entries[0].line_number), (0, 10));
            assert_eq!((entries[1].start_pc, entries[1].line_number), (4, 11));
        },
        other => panic!("unexpected {:?}", other),
    }
    match decode("LocalVariableTable", &[0, 1, 0, 1, 0, 2, 0, 3, 0, 4, 0, 5]) {
        Ok(AttributeInfo::LocalVariableTable { entries }) => {
            let e = &entries[0];
            assert_eq!((e.start_pc, e.length, e.name_index, e.descriptor_index, e.index), (1, 2, 3, 4, 5));
        },
        other => panic!("unexpected {:?}", other),
    }
    match decode("LocalVariableTypeTable", &[0, 1, 0, 6, 0, 7, 0, 8, 0, 9, 0, 10]) {
        Ok(AttributeInfo::LocalVariableTypeTable { entries }) => {
            let e = &entries[0];
            assert_eq!((e.start_pc, e.length, e.name_index, e.signature_index, e.index), (6, 7, 8, 9, 10));
        },
        other => panic!("unexpected {:?}", other),
    }
    match decode("MethodParameters", &[2, 0, 1, 0, 0x10, 0, 2, 0x80, 0]) {
        Ok(AttributeInfo::MethodParameters { parameters }) => {
            assert_eq!(parameters.len(), 2);
            assert_eq!((parameters[0].name_index, parameters[0].access_flags), (1, 0x10));
            assert_eq!((parameters[1].name_index, parameters[1].access_flags), (2, 0x8000));
        },
        other => panic!("unexpected {:?}", other),
    }
}

#[test]
fn bootstrap_methods_with_arguments() {
    match decode("BootstrapMethods", &[0, 2, 0, 7, 0, 2, 0, 8, 0, 9, 0, 10, 0, 0]) {
        Ok(AttributeInfo::BootstrapMethods { methods }) => {
            assert_eq!(methods.len(), 2);
            assert_eq!(methods[0].bootstrap_method_ref, 7);
            assert_eq!(methods[0].bootstrap_arguments, vec![8, 9]);
            assert_eq!(methods[1].bootstrap_method_ref, 10);
            assert!(methods[1].bootstrap_arguments.is_empty());
        },
        other => panic!("unexpected {:?}", other),
    }
}

#[test]
fn module_hashes_with_a_hash() {
    match decode("ModuleHashes", &[0, 4, 0, 1, 0, 5, 0, 3, 0xDE, 0xAD, 0xBE]) {
        Ok(AttributeInfo::ModuleHashes { algorithm_index, modules }) => {
            assert_eq!(algorithm_index, 4);
            assert_eq!(modules.len(), 1);
            assert_eq!(modules[0].module_name_index, 5);
            assert_eq!(modules[0].hash, vec![0xDE, 0xAD, 0xBE]);
        },
        other => panic!("unexpected {:?}", other),
    }
    assert!(matches!(
        decode("ModuleHashes", &[0, 4, 0, 1, 0, 5, 0, 3, 0xDE]),
        Err(ClassFileError::UnexpectedEof)
    ));
}

#[test]
fn module_with_every_list_filled() {
    let body = [
        0, 1, 0, 0x20, 0, 2, // name, flags, version
        0, 1, 0, 3, 0, 0x40, 0, 4, // requires
        0, 1, 0, 5, 0, 0, 0, 2, 0, 6, 0, 7, // exports to two
        0, 1, 0, 8, 0, 1, 0, 0, // opens to none
        0, 2, 0, 9, 0, 10, // uses
        0, 1, 0, 11, 0, 1, 0, 12, // provides with one
    ];
    match decode("Module", &body) {
        Ok(AttributeInfo::Module(m)) => {
            assert_eq!((m.module_name_index, m.module_flags, m.module_version_index), (1, 0x20, 2));
            assert_eq!(m.requires.len(), 1);
            assert_eq!(m.requires[0].requires_index, 3);
            assert_eq!(m.requires[0].requires_flags, 0x40);
            assert_eq!(m.requires[0].requires_version_index, 4);
            assert_eq!(m.exports.len(), 1);
            assert_eq!(m.exports[0].exports_index, 5);
            assert_eq!(m.exports[0].exports_flags, 0);
            assert_eq!(m.exports[0].exports_to, vec![6, 7]);
            assert_eq!(m.opens.len(), 1);
            assert_eq!((m.opens[0].opens_index, m.opens[0].opens_flags), (8, 1));
            assert!(m.opens[0].opens_to.is_empty());
            assert_eq!(m.uses, vec![9, 10]);
            assert_eq!(m.provides.len(), 1);
            assert_eq!(m.provides[0].provides_index, 11);
            assert_eq!(m.provides[0].provides_with, vec![12]);
        },
        other => panic!("unexpected {:?}", other),
    }
    assert!(invalid(
        decode_one(&attr_bytes("Module", body.len() as u32 + 1, &[&body[..], &[0][..]].concat())),
        "Module"
    ));
    assert!(matches!(decode("Module", &body[..body.len() - 1]), Err(ClassFileError::UnexpectedEof)));
}

#[test]
fn code_with_nested_line_numbers_and_empty_stack_map() {
    let mut body = vec![0, 2, 0, 3, 0, 0, 0, 2, 0x2A, 0xB1];
    body.extend_from_slice(&[0, 1, 0, 0, 0, 2, 0, 1, 0, 9]); // one handler
    body.extend_from_slice(&[0, 2]);
    body.extend_from_slice(&attr("LineNumberTable", &[0, 1, 0, 0, 0, 7]));
    body.extend_from_slice(&attr("StackMapTable", &[0, 0]));
    match decode("Code", &body) {
        Ok(AttributeInfo::Code(code)) => {
            assert_eq!(code.max_stack, 2);
            assert_eq!(code.max_locals, 3);
            assert_eq!(code.code, vec![0x2A, 0xB1]);
            assert_eq!(code.exception_table.len(), 1);
            let h = &code.exception_table[0];
            assert_eq!((h.start_pc, h.end_pc, h.handler_pc, h.catch_type), (0, 2, 1, 9));
            assert_eq!(code.attributes.len(), 2);
            match &code.attributes[0] {
                AttributeInfo::LineNumberTable { entries } => {
                    assert_eq!(entries.len(), 1);
                    assert_eq!(entries[0].line_number, 7);
                },
                other => panic!("unexpected {:?}", other),
            }
            match &code.attributes[1] {
                AttributeInfo::StackMapTable(table) => assert!(table.entries.is_empty()),
                other => panic!("unexpected {:?}", other),
            }
        },
        other => panic!("unexpected {:?}", other),
    }
}

#[test]
fn error_inside_code_names_the_nested_attribute() {
    let mut body = vec![0, 0, 0, 0, 0, 0, 0, 0, 0, 0, 0, 1];
    body.extend_from_slice(&attr_bytes("LineNumberTable", 3, &[0, 0, 0xFF]));
    assert!(invalid(decode("Code", &body), "LineNumberTable"));
    let mut body = vec![0, 0, 0, 0, 0, 0, 0, 0, 0, 0, 0, 0, 0xFF];
    assert!(invalid(decode("Code", &body), "Code"));
    body.truncate(11);
    assert!(matches!(decode("Code", &body), Err(ClassFileError::UnexpectedEof)));
}

#[test]
fn code_longer_than_its_body_is_eof() {
    let body = vec![0, 0, 0, 0, 0, 0, 0, 9, 1, 2];
    assert!(matches!(decode("Code", &body), Err(ClassFileError::UnexpectedEof)));
}

#[test]
fn record_component_with_its_own_attribute() {
    let mut body = vec![0, 1, 0, 20, 0, 21, 0, 1];
    body.extend_from_slice(&attr("ConstantValue", &[0, 11]));
    match decode("Record", &body) {
        Ok(AttributeInfo::Record { components }) => {
            assert_eq!(components.len(), 1);
            assert_eq!(components[0].name_index, 20);
            assert_eq!(components[0].descriptor_index, 21);
            assert_eq!(components[0].attributes.len(), 1);
            assert!(matches!(
                components[0].attributes[0],
                AttributeInfo::ConstantValue { constantvalue_index: 11 }
            ));
        },
        other => panic!("unexpected {:?}", other),
    }
}

#[test]
fn record_with_two_components_and_nested_record() {
    let inner = attr("Record", &[0, 0]);
    let mut body = vec![0, 2, 0, 1, 0, 2, 0, 1];
    body.extend_from_slice(&inner);
    body.extend_from_slice(&[0, 3, 0, 4, 0, 0]);
    match decode("Record", &body) {
        Ok(AttributeInfo::Record { components }) => {
            assert_eq!(components.len(), 2);
            assert!(matches!(
                &components[0].attributes[0],
                AttributeInfo::Record { components } if components.is_empty()
            ));
            assert_eq!((components[1].name_index, components[1].descriptor_index), (3, 4));
            assert!(components[1].attributes.is_empty());
        },
        other => panic!("unexpected {:?}", other),
    }
    assert!(matches!(decode("Record", &body[..body.len() - 1]), Err(ClassFileError::UnexpectedEof)));
}

#[test]
fn attribute_list_reads_count_then_attributes() {
    let cp = names_pool();
    let mut bytes = vec![0, 2];
    bytes.extend_from_slice(&attr("Deprecated", &[]));
    bytes.extend_from_slice(&attr("Signature", &[0, 3]));
    bytes.extend_from_slice(&[0xEE]);
    let mut r = Reader::new(&bytes);
    let attrs = parse_attributes(&mut r, &cp).unwrap();
    assert_eq!(attrs.len(), 2);
    assert!(matches!(attrs[0], AttributeInfo::Deprecated));
    assert!(matches!(attrs[1], AttributeInfo::Signature { signature_index: 3 }));
    assert_eq!(r.remaining(), 1);
    let mut r = Reader::new(&bytes[..bytes.len() - 2]);
    assert!(matches!(parse_attributes(&mut r, &cp), Err(ClassFileError::UnexpectedEof)));
    let empty = [0u8, 0];
    let mut r = Reader::new(&empty);
    assert!(parse_attributes(&mut r, &cp).unwrap().is_empty());
}

#[test]
fn first_failing_attribute_decides_the_error() {
    let cp = names_pool();
    let mut bytes = vec![0, 3];
    bytes.extend_from_slice(&attr("Deprecated", &[]));
    bytes.extend_from_slice(&attr("Synthetic", &[1]));
    bytes.extend_from_slice(&attr("Deprecated", &[1]));
    let mut r = Reader::new(&bytes);
    assert!(matches!(
        parse_attributes(&mut r, &cp),
        Err(ClassFileError::InvalidAttribute(n)) if n == "Synthetic"
    ));
}

#[test]
fn body_decoder_works_on_a_body_alone() {
    let cp = names_pool();
    let body = [0u8, 9];
    let mut sub = Reader::new(&body);
    let got = parse_attribute_body(AttributeKind::NestHost, "NestHost", &mut sub, &cp);
    assert!(matches!(got, Ok(AttributeInfo::NestHost { host_class_index: 9 })));
    assert_eq!(sub.remaining(), 0);
    let body = [0u8, 9, 7];
    let mut sub = Reader::new(&body);
    let got = parse_attribute_body(AttributeKind::NestHost, "NestHost", &mut sub, &cp);
    assert!(got.is_ok());
    assert_eq!(sub.remaining(), 1);
    let mut sub = Reader::new(&body);
    match parse_attribute_body(AttributeKind::Unknown, "Anything", &mut sub, &cp) {
        Ok(AttributeInfo::Unknown { name, info }) => {
            assert_eq!(name, "Anything");
            assert_eq!(info, vec![0, 9, 7]);
        },
        other => panic!("unexpected {:?}", other),
    }
    assert_eq!(sub.remaining(), 0);
}
