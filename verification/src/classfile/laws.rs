use vstd::prelude::*;
use crate::classfile::attribute::{
    attribute_kind, spec_attribute, spec_attribute_body, spec_attribute_list, spec_attributes,
    AttributeInfoModel,
};
use crate::classfile::class::{
    spec_class_body, spec_class_file, spec_counted_members, spec_members, ClassFileModel, FieldInfo,
    FieldInfoModel, MethodInfo, MethodInfoModel, MAGIC,
};
use crate::classfile::constant_pool::{
    pool_utf8, spec_constant_pool, spec_cp_entry, spec_pool_slots, CpInfoModel, PoolModel,
};
use crate::classfile::decode::{spec_counted, spec_repeat};
use crate::classfile::error::DecodeError;
use crate::classfile::reader::{be16, be32, has_bytes};

verus! {

/// High byte of a 16-bit number.
pub open spec fn high_byte(v: u16) -> u8 {
    (v / 0x100) as u8
}

/// Low byte of a 16-bit number.
pub open spec fn low_byte(v: u16) -> u8 {
    (v % 0x100) as u8
}

/// The bytes of a minimal class file: the magic number, the two versions, a
/// constant pool of two `Class` entries, the class header, and no interfaces,
/// fields, methods or attributes.
pub open spec fn minimal_class_file(
    minor_version: u16,
    major_version: u16,
    this_name: u16,
    super_name: u16,
    access_flags: u16,
    this_class: u16,
    super_class: u16,
) -> Seq<u8> {
    seq![
        0xCAu8,
        0xFEu8,
        0xBAu8,
        0xBEu8,
        high_byte(minor_version),
        low_byte(minor_version),
        high_byte(major_version),
        low_byte(major_version),
        0u8,
        3u8,
        7u8,
        high_byte(this_name),
        low_byte(this_name),
        7u8,
        high_byte(super_name),
        low_byte(super_name),
        high_byte(access_flags),
        low_byte(access_flags),
        high_byte(this_class),
        low_byte(this_class),
        high_byte(super_class),
        low_byte(super_class),
        0u8,
        0u8,
        0u8,
        0u8,
        0u8,
        0u8,
        0u8,
        0u8,
    ]
}

/// The value of a minimal class file.
pub open spec fn minimal_class(
    minor_version: u16,
    major_version: u16,
    this_name: u16,
    super_name: u16,
    access_flags: u16,
    this_class: u16,
    super_class: u16,
) -> ClassFileModel {
    ClassFileModel {
        minor_version,
        major_version,
        constant_pool: seq![
            None,
            Some(CpInfoModel::Class { name_index: this_name }),
            Some(CpInfoModel::Class { name_index: super_name }),
        ],
        access_flags,
        this_class,
        super_class,
        interfaces: Seq::empty(),
        fields: Seq::empty(),
        methods: Seq::empty(),
        attributes: Seq::empty(),
    }
}

/// Two bytes made of a number's high and low byte are that number.
pub proof fn lemma_be16_of_bytes(s: Seq<u8>, pos: int, v: u16)
    requires
        0 <= pos,
        pos + 2 <= s.len(),
        s[pos] == high_byte(v),
        s[pos + 1] == low_byte(v),
    ensures
        be16(s, pos) == v,
{
}

/// A buffer that holds the fields of a minimal class file at their places decodes
/// to the minimal class with those fields.
proof fn lemma_minimal_layout_decodes(
    s: Seq<u8>,
    minor_version: u16,
    major_version: u16,
    this_name: u16,
    super_name: u16,
    access_flags: u16,
    this_class: u16,
    super_class: u16,
)
    requires
        s.len() == 30,
        be32(s, 0) == MAGIC,
        be16(s, 4) == minor_version,
        be16(s, 6) == major_version,
        be16(s, 8) == 3,
        s[10] == 7,
        be16(s, 11) == this_name,
        s[13] == 7,
        be16(s, 14) == super_name,
        be16(s, 16) == access_flags,
        be16(s, 18) == this_class,
        be16(s, 20) == super_class,
        be16(s, 22) == 0,
        be16(s, 24) == 0,
        be16(s, 26) == 0,
        be16(s, 28) == 0,
    ensures
        spec_class_file(s) == Ok::<ClassFileModel, DecodeError>(
            minimal_class(
                minor_version,
                major_version,
                this_name,
                super_name,
                access_flags,
                this_class,
                super_class,
            ),
        ),
{
    let first = CpInfoModel::Class { name_index: this_name };
    let second = CpInfoModel::Class { name_index: super_name };
    let pool: PoolModel = seq![None, Some(first), Some(second)];
    assert(spec_constant_pool(s, 8) == Ok::<(PoolModel, nat), DecodeError>((pool, 8nat))) by {
        assert(spec_cp_entry(s, 10) == Ok::<(CpInfoModel, nat), DecodeError>((first, 3nat)));
        assert(spec_cp_entry(s, 13) == Ok::<(CpInfoModel, nat), DecodeError>((second, 3nat)));
        reveal_with_fuel(spec_pool_slots, 3);
        assert(spec_pool_slots(s, 16, 3, 3) == Ok::<(PoolModel, nat), DecodeError>(
            (Seq::empty(), 0nat),
        ));
        assert(seq![Some(second)] + Seq::<Option<CpInfoModel>>::empty() =~= seq![Some(second)]);
        assert(spec_pool_slots(s, 13, 2, 3) == Ok::<(PoolModel, nat), DecodeError>(
            (seq![Some(second)], 3nat),
        ));
        assert(seq![Some(first)] + seq![Some(second)] =~= seq![Some(first), Some(second)]);
        assert(spec_pool_slots(s, 10, 1, 3) == Ok::<(PoolModel, nat), DecodeError>(
            (seq![Some(first), Some(second)], 6nat),
        ));
        assert(seq![None::<CpInfoModel>] + seq![Some(first), Some(second)] =~= pool);
    }
    assert(spec_counted::<u16>(s, 22) == Ok::<(Seq<u16>, nat), DecodeError>((Seq::empty(), 2nat))) by {
        assert(spec_repeat::<u16>(s, 24, 0) == Ok::<(Seq<u16>, nat), DecodeError>(
            (Seq::empty(), 0nat),
        ));
    }
    assert(spec_counted_members::<FieldInfo>(s, 24, pool) == Ok::<
        (Seq<FieldInfoModel>, nat),
        DecodeError,
    >((Seq::empty(), 2nat))) by {
        assert(spec_members::<FieldInfo>(s, 26, pool, 0) == Ok::<
            (Seq<FieldInfoModel>, nat),
            DecodeError,
        >((Seq::empty(), 0nat)));
    }
    assert(spec_counted_members::<MethodInfo>(s, 26, pool) == Ok::<
        (Seq<MethodInfoModel>, nat),
        DecodeError,
    >((Seq::empty(), 2nat))) by {
        assert(spec_members::<MethodInfo>(s, 28, pool, 0) == Ok::<
            (Seq<MethodInfoModel>, nat),
            DecodeError,
        >((Seq::empty(), 0nat)));
    }
    assert(spec_attributes(s, 28, pool) == Ok::<(Seq<AttributeInfoModel>, nat), DecodeError>(
        (Seq::empty(), 2nat),
    )) by {
        assert(spec_attribute_list(s, 30, pool, 0) == Ok::<
            (Seq<AttributeInfoModel>, nat),
            DecodeError,
        >((Seq::empty(), 0nat)));
    }
    assert(spec_class_body(s, 16, minor_version, major_version, pool) == Ok::<
        ClassFileModel,
        DecodeError,
    >(
        minimal_class(
            minor_version,
            major_version,
            this_name,
            super_name,
            access_flags,
            this_class,
            super_class,
        ),
    ));
}

/// Every minimal class file decodes, and each field of the result is the value
/// that the file was made of.
pub proof fn lemma_minimal_class_file_decodes(
    minor_version: u16,
    major_version: u16,
    this_name: u16,
    super_name: u16,
    access_flags: u16,
    this_class: u16,
    super_class: u16,
)
    ensures
        spec_class_file(
            minimal_class_file(
                minor_version,
                major_version,
                this_name,
                super_name,
                access_flags,
                this_class,
                super_class,
            ),
        ) == Ok::<ClassFileModel, DecodeError>(
            minimal_class(
                minor_version,
                major_version,
                this_name,
                super_name,
                access_flags,
                this_class,
                super_class,
            ),
        ),
{
    let s = minimal_class_file(
        minor_version,
        major_version,
        this_name,
        super_name,
        access_flags,
        this_class,
        super_class,
    );
    assert(s.len() == 30);
    assert(be32(s, 0) == MAGIC);
    lemma_be16_of_bytes(s, 4, minor_version);
    lemma_be16_of_bytes(s, 6, major_version);
    assert(be16(s, 8) == 3);
    lemma_be16_of_bytes(s, 11, this_name);
    lemma_be16_of_bytes(s, 14, super_name);
    lemma_be16_of_bytes(s, 16, access_flags);
    lemma_be16_of_bytes(s, 18, this_class);
    lemma_be16_of_bytes(s, 20, super_class);
    assert(be16(s, 22) == 0);
    assert(be16(s, 24) == 0);
    assert(be16(s, 26) == 0);
    assert(be16(s, 28) == 0);
    lemma_minimal_layout_decodes(
        s,
        minor_version,
        major_version,
        this_name,
        super_name,
        access_flags,
        this_class,
        super_class,
    );
}

/// A buffer of four or more bytes that does not start with the magic number is
/// refused, and the error carries the number found in its place.
pub proof fn lemma_wrong_magic_is_refused(s: Seq<u8>)
    requires
        s.len() >= 4,
        be32(s, 0) != MAGIC,
    ensures
        spec_class_file(s) == Err::<ClassFileModel, DecodeError>(DecodeError::InvalidMagic(be32(s, 0))),
{
}

/// The declared length of an attribute is exact. The attribute decodes only when
/// the rule for its body uses the declared bytes up to the last one, and a body
/// whose rule stops earlier is refused with the attribute's name.
pub proof fn lemma_attribute_length_is_exact(s: Seq<u8>, pos: int, cp: PoolModel)
    requires
        has_bytes(s, pos, 6),
        pool_utf8(cp, be16(s, pos)) is Ok,
        has_bytes(s, pos + 6, be32(s, pos + 2) as int),
    ensures
        ({
            let name = pool_utf8(cp, be16(s, pos))->Ok_0;
            let length = be32(s, pos + 2) as int;
            let body = s.subrange(pos + 6, pos + 6 + length);
            match spec_attribute_body(attribute_kind(name), name, body, cp) {
                Err(e) => spec_attribute(s, pos, cp) == Err::<(AttributeInfoModel, nat), DecodeError>(e),
                Ok((attribute, used)) => if used == length {
                    spec_attribute(s, pos, cp) == Ok::<(AttributeInfoModel, nat), DecodeError>(
                        (attribute, (6 + length) as nat),
                    )
                } else {
                    spec_attribute(s, pos, cp) == Err::<(AttributeInfoModel, nat), DecodeError>(
                        DecodeError::InvalidAttribute(name),
                    )
                },
            }
        }),
{
    reveal(spec_attribute);
}

} // verus!
