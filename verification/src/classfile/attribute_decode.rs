use vstd::prelude::*;
use vstd::slice::slice_to_vec;
use crate::classfile::attribute::{
    lemma_attribute_models, spec_attribute, spec_attribute_list, spec_attributes,
    spec_code_attribute, spec_record_components, AttributeInfo, AttributeInfoModel, CodeAttribute,
    RecordComponent, RecordComponentModel,
};
use crate::classfile::attribute_body::parse_attribute_body;
use crate::classfile::attribute_name::attribute_kind_of;
use crate::classfile::constant_pool::{ConstantPool, PoolModel};
use crate::classfile::decode::{lemma_plain_list, parse_counted};
use crate::classfile::error::{ClassFileError, DecodeError, Parse};
use crate::classfile::reader::{decoded, spec_u2, Reader};
use crate::classfile::tables::ExceptionTableEntry;

verus! {

/// Once a prefix of an attribute list fails, every longer list fails in the same
/// way.
pub proof fn lemma_attribute_list_fails(s: Seq<u8>, pos: int, cp: PoolModel, k: nat, n: nat)
    requires
        k <= n,
        spec_attribute_list(s, pos, cp, k) is Err,
    ensures
        spec_attribute_list(s, pos, cp, n) == spec_attribute_list(s, pos, cp, k),
    decreases n,
{
    if k < n {
        lemma_attribute_list_fails(s, pos, cp, k, (n - 1) as nat);
    }
}

/// Once a prefix of a list of record components fails, every longer list fails in
/// the same way.
pub proof fn lemma_record_components_fail(s: Seq<u8>, pos: int, cp: PoolModel, k: nat, n: nat)
    requires
        k <= n,
        spec_record_components(s, pos, cp, k) is Err,
    ensures
        spec_record_components(s, pos, cp, n) == spec_record_components(s, pos, cp, k),
    decreases n,
{
    if k < n {
        lemma_record_components_fail(s, pos, cp, k, (n - 1) as nat);
    }
}

/// Grammar of the `Record` body: a 16-bit count and that many components.
pub open spec fn spec_record(s: Seq<u8>, pos: int, cp: PoolModel) -> Parse<Seq<RecordComponentModel>> {
    match spec_u2(s, pos) {
        Err(e) => Err(e),
        Ok((n, _)) => match spec_record_components(s, pos + 2, cp, n as nat) {
            Err(e) => Err(e),
            Ok((components, used)) => Ok((components, 2 + used)),
        },
    }
}

/// Reads an attribute list: the count, then each attribute with its name resolved
/// through `cp`.
pub fn parse_attributes(r: &mut Reader, cp: &ConstantPool) -> (res: Result<
    Vec<AttributeInfo>,
    ClassFileError,
>)
    requires
        old(r).wf(),
    ensures
        decoded(
            res,
            *final(r),
            *old(r),
            spec_attributes(old(r).bytes(), old(r).offset(), cp.deep_view()),
        ),
    decreases old(r).left(), 3nat,
{
    let n: usize = r.read_u2()? as usize;
    let mut attrs: Vec<AttributeInfo> = Vec::with_capacity(n);
    let mut i: usize = 0;
    let ghost s = old(r).bytes();
    let ghost start = old(r).offset() + 2;
    assert(attrs.deep_view() =~= Seq::<AttributeInfoModel>::empty());
    while i < n
        invariant
            i <= n,
            n <= 0xFFFF,
            r.wf(),
            old(r).wf(),
            r.bytes() == s,
            s == old(r).bytes(),
            start == old(r).offset() + 2,
            spec_u2(s, old(r).offset()) == Ok::<(u16, nat), DecodeError>((n as u16, 2nat)),
            r.offset() >= start,
            spec_attribute_list(s, start, cp.deep_view(), i as nat) == Ok::<
                (Seq<AttributeInfoModel>, nat),
                DecodeError,
            >((attrs.deep_view(), (r.offset() - start) as nat)),
        decreases n - i,
    {
        proof {
            reveal(spec_attribute);
            r.lemma_in_bounds();
            old(r).lemma_in_bounds();
        }
        let ghost prev = attrs.deep_view();
        match parse_attribute(r, cp) {
            Err(e) => {
                proof {
                    lemma_attribute_list_fails(s, start, cp.deep_view(), (i + 1) as nat, n as nat);
                }
                return Err(e);
            },
            Ok(attr) => {
                attrs.push(attr);
                assert(attrs.deep_view() =~= prev.push(attr.deep_view()));
            },
        }
        i += 1;
    }
    Ok(attrs)
}

/// Reads one attribute: the header, then the body inside a reader of its own that
/// holds just the declared length. A body that leaves bytes unread is an error.
pub fn parse_attribute(r: &mut Reader, cp: &ConstantPool) -> (res: Result<
    AttributeInfo,
    ClassFileError,
>)
    requires
        old(r).wf(),
    ensures
        decoded(
            res,
            *final(r),
            *old(r),
            spec_attribute(old(r).bytes(), old(r).offset(), cp.deep_view()),
        ),
    decreases old(r).left(), 1nat,
{
    proof {
        reveal(spec_attribute);
        r.lemma_in_bounds();
    }
    let name_index: u16 = r.read_u2()?;
    let length: usize = r.read_u4()? as usize;
    let name: String = cp.get_utf8(name_index)?.to_owned();
    let info = r.read_bytes(length)?;
    let mut sub = Reader::new(info);
    let kind = attribute_kind_of(name.as_str());
    let attr = parse_attribute_body(kind, name.as_str(), &mut sub, cp)?;
    if sub.remaining() != 0 {
        return Err(ClassFileError::InvalidAttribute(name));
    }
    Ok(attr)
}

/// Reads the body of a `Code` attribute.
pub fn parse_code_attribute(r: &mut Reader, cp: &ConstantPool) -> (res: Result<
    CodeAttribute,
    ClassFileError,
>)
    requires
        old(r).wf(),
    ensures
        decoded(
            res,
            *final(r),
            *old(r),
            spec_code_attribute(old(r).bytes(), old(r).offset(), cp.deep_view()),
        ),
    decreases old(r).left(), 4nat,
{
    let max_stack: u16 = r.read_u2()?;
    let max_locals: u16 = r.read_u2()?;
    let code_length: usize = r.read_u4()? as usize;
    let code = slice_to_vec(r.read_bytes(code_length)?);
    let exception_table = parse_counted::<ExceptionTableEntry>(r)?;
    let attributes = parse_attributes(r, cp)?;
    proof {
        lemma_plain_list(code);
        lemma_attribute_models(attributes);
    }
    Ok(CodeAttribute { max_stack, max_locals, code, exception_table, attributes })
}

/// Reads the body of a `Record` attribute: the count, then each component with its
/// own attribute list.
pub fn parse_record_components(r: &mut Reader, cp: &ConstantPool) -> (res: Result<
    Vec<RecordComponent>,
    ClassFileError,
>)
    requires
        old(r).wf(),
    ensures
        decoded(res, *final(r), *old(r), spec_record(old(r).bytes(), old(r).offset(), cp.deep_view())),
    decreases old(r).left(), 4nat,
{
    let n: usize = r.read_u2()? as usize;
    let mut components: Vec<RecordComponent> = Vec::with_capacity(n);
    let mut i: usize = 0;
    let ghost s = old(r).bytes();
    let ghost start = old(r).offset() + 2;
    assert(components.deep_view() =~= Seq::<RecordComponentModel>::empty());
    while i < n
        invariant
            i <= n,
            n <= 0xFFFF,
            r.wf(),
            old(r).wf(),
            r.bytes() == s,
            s == old(r).bytes(),
            start == old(r).offset() + 2,
            spec_u2(s, old(r).offset()) == Ok::<(u16, nat), DecodeError>((n as u16, 2nat)),
            r.offset() >= start,
            spec_record_components(s, start, cp.deep_view(), i as nat) == Ok::<
                (Seq<RecordComponentModel>, nat),
                DecodeError,
            >((components.deep_view(), (r.offset() - start) as nat)),
        decreases n - i,
    {
        let ghost prev = components.deep_view();
        let ghost fails = (i + 1) as nat;
        let name_index: u16 = match r.read_u2() {
            Err(e) => {
                proof {
                    lemma_record_components_fail(s, start, cp.deep_view(), fails, n as nat);
                }
                return Err(e);
            },
            Ok(index) => index,
        };
        let descriptor_index: u16 = match r.read_u2() {
            Err(e) => {
                proof {
                    lemma_record_components_fail(s, start, cp.deep_view(), fails, n as nat);
                }
                return Err(e);
            },
            Ok(index) => index,
        };
        match parse_attributes(r, cp) {
            Err(e) => {
                proof {
                    lemma_record_components_fail(s, start, cp.deep_view(), fails, n as nat);
                }
                return Err(e);
            },
            Ok(attributes) => {
                proof {
                    lemma_attribute_models(attributes);
                }
                let component = RecordComponent { name_index, descriptor_index, attributes };
                components.push(component);
                assert(components.deep_view() =~= prev.push(component.deep_view()));
            },
        }
        i += 1;
    }
    Ok(components)
}

} // verus!
