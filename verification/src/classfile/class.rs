use vstd::prelude::*;
use crate::classfile::attribute::{spec_attributes, AttributeInfo, AttributeInfoModel};
use crate::classfile::attribute_decode::parse_attributes;
use crate::classfile::constant_pool::{
    parse_constant_pool, spec_constant_pool, ConstantPool, PoolModel,
};
use crate::classfile::decode::{parse_counted, spec_counted};
use crate::classfile::error::{agrees, ClassFileError, DecodeError, Parse};
use crate::classfile::reader::{be16, be32, decoded, has_bytes, spec_u2, Reader};

verus! {

/// The signature that every class file starts with.
pub const MAGIC: u32 = 0xCAFEBABE;

/// A field of a class.
#[derive(Debug)]
pub struct FieldInfo {
    pub access_flags: u16,
    pub name_index: u16,
    pub descriptor_index: u16,
    pub attributes: Vec<AttributeInfo>,
}

/// Mathematical value of a [`FieldInfo`].
pub struct FieldInfoModel {
    pub access_flags: u16,
    pub name_index: u16,
    pub descriptor_index: u16,
    pub attributes: Seq<AttributeInfoModel>,
}

impl DeepView for FieldInfo {
    type V = FieldInfoModel;

    open spec fn deep_view(&self) -> FieldInfoModel {
        FieldInfoModel {
            access_flags: self.access_flags,
            name_index: self.name_index,
            descriptor_index: self.descriptor_index,
            attributes: self.attributes.deep_view(),
        }
    }
}

/// A method of a class.
#[derive(Debug)]
pub struct MethodInfo {
    pub access_flags: u16,
    pub name_index: u16,
    pub descriptor_index: u16,
    pub attributes: Vec<AttributeInfo>,
}

/// Mathematical value of a [`MethodInfo`].
pub struct MethodInfoModel {
    pub access_flags: u16,
    pub name_index: u16,
    pub descriptor_index: u16,
    pub attributes: Seq<AttributeInfoModel>,
}

impl DeepView for MethodInfo {
    type V = MethodInfoModel;

    open spec fn deep_view(&self) -> MethodInfoModel {
        MethodInfoModel {
            access_flags: self.access_flags,
            name_index: self.name_index,
            descriptor_index: self.descriptor_index,
            attributes: self.attributes.deep_view(),
        }
    }
}

/// A decoded class file: one tree, owned by its root.
#[derive(Debug)]
pub struct ClassFile {
    pub minor_version: u16,
    pub major_version: u16,
    pub constant_pool: ConstantPool,
    pub access_flags: u16,
    pub this_class: u16,
    pub super_class: u16,
    pub interfaces: Vec<u16>,
    pub fields: Vec<FieldInfo>,
    pub methods: Vec<MethodInfo>,
    pub attributes: Vec<AttributeInfo>,
}

/// Mathematical value of a [`ClassFile`].
pub struct ClassFileModel {
    pub minor_version: u16,
    pub major_version: u16,
    pub constant_pool: PoolModel,
    pub access_flags: u16,
    pub this_class: u16,
    pub super_class: u16,
    pub interfaces: Seq<u16>,
    pub fields: Seq<FieldInfoModel>,
    pub methods: Seq<MethodInfoModel>,
    pub attributes: Seq<AttributeInfoModel>,
}

impl DeepView for ClassFile {
    type V = ClassFileModel;

    open spec fn deep_view(&self) -> ClassFileModel {
        ClassFileModel {
            minor_version: self.minor_version,
            major_version: self.major_version,
            constant_pool: self.constant_pool.deep_view(),
            access_flags: self.access_flags,
            this_class: self.this_class,
            super_class: self.super_class,
            interfaces: self.interfaces.deep_view(),
            fields: self.fields.deep_view(),
            methods: self.methods.deep_view(),
            attributes: self.attributes.deep_view(),
        }
    }
}

/// A member of a class: a value whose grammar resolves names through the pool.
pub trait Member: DeepView + Sized {
    spec fn grammar(s: Seq<u8>, pos: int, cp: PoolModel) -> Parse<Self::V>;

    fn decode(r: &mut Reader, cp: &ConstantPool) -> (res: Result<Self, ClassFileError>)
        requires
            old(r).wf(),
        ensures
            decoded(
                res,
                *final(r),
                *old(r),
                Self::grammar(old(r).bytes(), old(r).offset(), cp.deep_view()),
            ),
    ;
}

/// Grammar of a field: access flags, name index, descriptor index and the
/// attribute list. The two indices are not resolved here.
pub open spec fn spec_field(s: Seq<u8>, pos: int, cp: PoolModel) -> Parse<FieldInfoModel> {
    if !has_bytes(s, pos, 6) {
        Err(DecodeError::UnexpectedEof)
    } else {
        match spec_attributes(s, pos + 6, cp) {
            Err(e) => Err(e),
            Ok((attributes, used)) => Ok(
                (
                    FieldInfoModel {
                        access_flags: be16(s, pos),
                        name_index: be16(s, pos + 2),
                        descriptor_index: be16(s, pos + 4),
                        attributes,
                    },
                    6 + used,
                ),
            ),
        }
    }
}

/// Grammar of a method: the same layout as a field.
pub open spec fn spec_method(s: Seq<u8>, pos: int, cp: PoolModel) -> Parse<MethodInfoModel> {
    if !has_bytes(s, pos, 6) {
        Err(DecodeError::UnexpectedEof)
    } else {
        match spec_attributes(s, pos + 6, cp) {
            Err(e) => Err(e),
            Ok((attributes, used)) => Ok(
                (
                    MethodInfoModel {
                        access_flags: be16(s, pos),
                        name_index: be16(s, pos + 2),
                        descriptor_index: be16(s, pos + 4),
                        attributes,
                    },
                    6 + used,
                ),
            ),
        }
    }
}

/// Grammar of `n` members in a row.
pub open spec fn spec_members<T: Member>(s: Seq<u8>, pos: int, cp: PoolModel, n: nat) -> Parse<
    Seq<T::V>,
>
    decreases n,
{
    if n == 0 {
        Ok((Seq::empty(), 0nat))
    } else {
        match spec_members::<T>(s, pos, cp, (n - 1) as nat) {
            Err(e) => Err(e),
            Ok((members, used)) => match T::grammar(s, pos + used, cp) {
                Err(e) => Err(e),
                Ok((member, len)) => Ok((members.push(member), used + len)),
            },
        }
    }
}

/// Grammar of a 16-bit count and that many members.
pub open spec fn spec_counted_members<T: Member>(s: Seq<u8>, pos: int, cp: PoolModel) -> Parse<
    Seq<T::V>,
> {
    match spec_u2(s, pos) {
        Err(e) => Err(e),
        Ok((n, _)) => match spec_members::<T>(s, pos + 2, cp, n as nat) {
            Err(e) => Err(e),
            Ok((members, used)) => Ok((members, 2 + used)),
        },
    }
}

/// Grammar of what follows the constant pool: flags, this class, super class,
/// interfaces, fields, methods and the attributes of the class.
pub open spec fn spec_class_body(
    s: Seq<u8>,
    pos: int,
    minor_version: u16,
    major_version: u16,
    constant_pool: PoolModel,
) -> Result<ClassFileModel, DecodeError> {
    if !has_bytes(s, pos, 6) {
        Err(DecodeError::UnexpectedEof)
    } else {
        match spec_counted::<u16>(s, pos + 6) {
            Err(e) => Err(e),
            Ok((interfaces, a)) => match spec_counted_members::<FieldInfo>(
                s,
                pos + 6 + a,
                constant_pool,
            ) {
                Err(e) => Err(e),
                Ok((fields, b)) => match spec_counted_members::<MethodInfo>(
                    s,
                    pos + 6 + a + b,
                    constant_pool,
                ) {
                    Err(e) => Err(e),
                    Ok((methods, c)) => match spec_attributes(s, pos + 6 + a + b + c, constant_pool) {
                        Err(e) => Err(e),
                        Ok((attributes, _)) => Ok(
                            ClassFileModel {
                                minor_version,
                                major_version,
                                constant_pool,
                                access_flags: be16(s, pos),
                                this_class: be16(s, pos + 2),
                                super_class: be16(s, pos + 4),
                                interfaces,
                                fields,
                                methods,
                                attributes,
                            },
                        ),
                    },
                },
            },
        }
    }
}

/// Grammar of a class file: the magic number, the two version numbers, the
/// constant pool and the class body. Bytes behind the class attributes are not
/// looked at.
pub open spec fn spec_class_file(s: Seq<u8>) -> Result<ClassFileModel, DecodeError> {
    if !has_bytes(s, 0, 4) {
        Err(DecodeError::UnexpectedEof)
    } else if be32(s, 0) != MAGIC {
        Err(DecodeError::InvalidMagic(be32(s, 0)))
    } else if !has_bytes(s, 4, 4) {
        Err(DecodeError::UnexpectedEof)
    } else {
        match spec_constant_pool(s, 8) {
            Err(e) => Err(e),
            Ok((constant_pool, used)) => spec_class_body(
                s,
                8int + used,
                be16(s, 4),
                be16(s, 6),
                constant_pool,
            ),
        }
    }
}

/// Once a prefix of a list of members fails, every longer list fails in the same
/// way.
pub proof fn lemma_members_fail<T: Member>(s: Seq<u8>, pos: int, cp: PoolModel, k: nat, n: nat)
    requires
        k <= n,
        spec_members::<T>(s, pos, cp, k) is Err,
    ensures
        spec_members::<T>(s, pos, cp, n) == spec_members::<T>(s, pos, cp, k),
    decreases n,
{
    if k < n {
        lemma_members_fail::<T>(s, pos, cp, k, (n - 1) as nat);
    }
}

/// Reads one field.
pub fn parse_field(r: &mut Reader, cp: &ConstantPool) -> (res: Result<FieldInfo, ClassFileError>)
    requires
        old(r).wf(),
    ensures
        decoded(res, *final(r), *old(r), spec_field(old(r).bytes(), old(r).offset(), cp.deep_view())),
{
    let access_flags: u16 = r.read_u2()?;
    let name_index: u16 = r.read_u2()?;
    let descriptor_index: u16 = r.read_u2()?;
    let attributes = parse_attributes(r, cp)?;
    Ok(FieldInfo { access_flags, name_index, descriptor_index, attributes })
}

/// Reads one method.
pub fn parse_method(r: &mut Reader, cp: &ConstantPool) -> (res: Result<MethodInfo, ClassFileError>)
    requires
        old(r).wf(),
    ensures
        decoded(
            res,
            *final(r),
            *old(r),
            spec_method(old(r).bytes(), old(r).offset(), cp.deep_view()),
        ),
{
    let access_flags: u16 = r.read_u2()?;
    let name_index: u16 = r.read_u2()?;
    let descriptor_index: u16 = r.read_u2()?;
    let attributes = parse_attributes(r, cp)?;
    Ok(MethodInfo { access_flags, name_index, descriptor_index, attributes })
}

impl Member for FieldInfo {
    open spec fn grammar(s: Seq<u8>, pos: int, cp: PoolModel) -> Parse<FieldInfoModel> {
        spec_field(s, pos, cp)
    }

    fn decode(r: &mut Reader, cp: &ConstantPool) -> (res: Result<FieldInfo, ClassFileError>) {
        parse_field(r, cp)
    }
}

impl Member for MethodInfo {
    open spec fn grammar(s: Seq<u8>, pos: int, cp: PoolModel) -> Parse<MethodInfoModel> {
        spec_method(s, pos, cp)
    }

    fn decode(r: &mut Reader, cp: &ConstantPool) -> (res: Result<MethodInfo, ClassFileError>) {
        parse_method(r, cp)
    }
}

/// Reads a 16-bit count and that many members.
pub fn parse_members<T: Member>(r: &mut Reader, cp: &ConstantPool) -> (res: Result<
    Vec<T>,
    ClassFileError,
>)
    requires
        old(r).wf(),
    ensures
        decoded(
            res,
            *final(r),
            *old(r),
            spec_counted_members::<T>(old(r).bytes(), old(r).offset(), cp.deep_view()),
        ),
{
    let n: usize = r.read_u2()? as usize;
    let mut members: Vec<T> = Vec::with_capacity(n);
    let mut i: usize = 0;
    let ghost s = old(r).bytes();
    let ghost start = old(r).offset() + 2;
    assert(members.deep_view() =~= Seq::<T::V>::empty());
    while i < n
        invariant
            i <= n,
            n <= 0xFFFF,
            r.wf(),
            r.bytes() == s,
            s == old(r).bytes(),
            start == old(r).offset() + 2,
            spec_u2(s, old(r).offset()) == Ok::<(u16, nat), DecodeError>((n as u16, 2nat)),
            r.offset() >= start,
            spec_members::<T>(s, start, cp.deep_view(), i as nat) == Ok::<
                (Seq<T::V>, nat),
                DecodeError,
            >((members.deep_view(), (r.offset() - start) as nat)),
        decreases n - i,
    {
        let ghost prev = members.deep_view();
        match T::decode(r, cp) {
            Err(e) => {
                proof {
                    lemma_members_fail::<T>(s, start, cp.deep_view(), (i + 1) as nat, n as nat);
                }
                return Err(e);
            },
            Ok(member) => {
                members.push(member);
                assert(members.deep_view() =~= prev.push(member.deep_view()));
            },
        }
        i += 1;
    }
    Ok(members)
}

impl ClassFile {
    /// Decodes a class file.
    ///
    /// Returns the whole tree or the first error; there is no partial result. A
    /// buffer that does not start with `0xCAFEBABE` is refused with the value
    /// found in its place.
    pub fn parse(bytes: &[u8]) -> (res: Result<Self, ClassFileError>)
        ensures
            agrees(res, spec_class_file(bytes@)),
            res is Ok ==> res->Ok_0.constant_pool.wf(),
            bytes@.len() < 4 ==> res is Err && res->Err_0@ == DecodeError::UnexpectedEof,
            bytes@.len() >= 4 && be32(bytes@, 0) != MAGIC ==> res is Err && res->Err_0@
                == DecodeError::InvalidMagic(be32(bytes@, 0)),
    {
        let mut r = Reader::new(bytes);
        let magic: u32 = r.read_u4()?;
        if magic != MAGIC {
            return Err(ClassFileError::InvalidMagic(magic));
        }
        let minor_version: u16 = r.read_u2()?;
        let major_version: u16 = r.read_u2()?;
        let constant_pool = parse_constant_pool(&mut r)?;
        let access_flags: u16 = r.read_u2()?;
        let this_class: u16 = r.read_u2()?;
        let super_class: u16 = r.read_u2()?;
        let interfaces = parse_counted::<u16>(&mut r)?;
        let fields = parse_members::<FieldInfo>(&mut r, &constant_pool)?;
        let methods = parse_members::<MethodInfo>(&mut r, &constant_pool)?;
        let attributes = parse_attributes(&mut r, &constant_pool)?;
        Ok(
            ClassFile {
                minor_version,
                major_version,
                constant_pool,
                access_flags,
                this_class,
                super_class,
                interfaces,
                fields,
                methods,
                attributes,
            },
        )
    }
}

} // verus!
