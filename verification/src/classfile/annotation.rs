use vstd::prelude::*;
use crate::classfile::decode::{
    parse_counted, parse_counted_u1, spec_counted, spec_counted_u1, Decode,
};
use crate::classfile::error::{ClassFileError, DecodeError, Parse};
use crate::classfile::reader::{be16, bytes_left, decoded, has_bytes, spec_u1, spec_u2, Reader};

verus! {

/// An annotation: its type and its element-value pairs.
#[derive(Debug)]
pub struct Annotation {
    pub type_index: u16,
    pub element_value_pairs: Vec<ElementValuePair>,
}

/// One named element of an annotation.
#[derive(Debug)]
pub struct ElementValuePair {
    pub element_name_index: u16,
    pub value: ElementValue,
}

/// The value of an annotation element.
#[derive(Debug)]
pub enum ElementValue {
    /// A constant of a primitive type or a string; `tag` is one of `BCDFIJSZs`.
    Const { tag: u8, const_value_index: u16 },
    EnumConst { type_name_index: u16, const_name_index: u16 },
    ClassInfo { class_info_index: u16 },
    AnnotationValue(Annotation),
    ArrayValue(Vec<ElementValue>),
}

/// Mathematical value of an [`Annotation`].
pub struct AnnotationModel {
    pub type_index: u16,
    pub element_value_pairs: Seq<ElementValuePairModel>,
}

/// Mathematical value of an [`ElementValuePair`].
pub struct ElementValuePairModel {
    pub element_name_index: u16,
    pub value: ElementValueModel,
}

/// Mathematical value of an [`ElementValue`].
pub enum ElementValueModel {
    Const { tag: u8, const_value_index: u16 },
    EnumConst { type_name_index: u16, const_name_index: u16 },
    ClassInfo { class_info_index: u16 },
    AnnotationValue(AnnotationModel),
    ArrayValue(Seq<ElementValueModel>),
}

/// Model of an element value.
pub open spec fn element_value_model(v: ElementValue) -> ElementValueModel
    decreases v,
{
    match v {
        ElementValue::Const { tag, const_value_index } => ElementValueModel::Const {
            tag,
            const_value_index,
        },
        ElementValue::EnumConst { type_name_index, const_name_index } => ElementValueModel::EnumConst {
            type_name_index,
            const_name_index,
        },
        ElementValue::ClassInfo { class_info_index } => ElementValueModel::ClassInfo {
            class_info_index,
        },
        ElementValue::AnnotationValue(a) => ElementValueModel::AnnotationValue(annotation_model(a)),
        ElementValue::ArrayValue(values) => ElementValueModel::ArrayValue(
            element_value_models(values@),
        ),
    }
}

/// Models of the element values of an array, in order.
pub open spec fn element_value_models(s: Seq<ElementValue>) -> Seq<ElementValueModel>
    decreases s,
{
    Seq::new(
        s.len(),
        |i: int|
            if 0 <= i < s.len() {
                element_value_model(s[i])
            } else {
                arbitrary()
            },
    )
}

/// Model of an annotation.
pub open spec fn annotation_model(a: Annotation) -> AnnotationModel
    decreases a,
{
    AnnotationModel {
        type_index: a.type_index,
        element_value_pairs: pair_models(a.element_value_pairs@),
    }
}

/// Models of element-value pairs, in order.
pub open spec fn pair_models(s: Seq<ElementValuePair>) -> Seq<ElementValuePairModel>
    decreases s,
{
    Seq::new(
        s.len(),
        |i: int|
            if 0 <= i < s.len() {
                pair_model(s[i])
            } else {
                arbitrary()
            },
    )
}

/// Model of an element-value pair.
pub open spec fn pair_model(p: ElementValuePair) -> ElementValuePairModel
    decreases p,
{
    ElementValuePairModel {
        element_name_index: p.element_name_index,
        value: element_value_model(p.value),
    }
}

impl DeepView for ElementValue {
    type V = ElementValueModel;

    open spec fn deep_view(&self) -> ElementValueModel {
        element_value_model(*self)
    }
}

impl DeepView for ElementValuePair {
    type V = ElementValuePairModel;

    open spec fn deep_view(&self) -> ElementValuePairModel {
        pair_model(*self)
    }
}

impl DeepView for Annotation {
    type V = AnnotationModel;

    open spec fn deep_view(&self) -> AnnotationModel {
        annotation_model(*self)
    }
}

/// The model of a list of pairs is the list of the pairs' models.
pub proof fn lemma_pair_models(v: Vec<ElementValuePair>)
    ensures
        pair_models(v@) == v.deep_view(),
{
    assert(pair_models(v@) =~= v.deep_view());
}

/// The model of a list of element values is the list of the values' models.
pub proof fn lemma_element_value_models(v: Vec<ElementValue>)
    ensures
        element_value_models(v@) == v.deep_view(),
{
    assert(element_value_models(v@) =~= v.deep_view());
}

pub const TAG_ENUM: u8 = 101;

pub const TAG_CLASS: u8 = 99;

pub const TAG_ANNOTATION: u8 = 64;

pub const TAG_ARRAY: u8 = 91;

/// The tags of constant element values: the letters `B C D F I J S Z s`.
pub open spec fn is_const_tag(tag: u8) -> bool {
    tag == 66 || tag == 67 || tag == 68 || tag == 70 || tag == 73 || tag == 74 || tag == 83 || tag
        == 90 || tag == 115
}

/// The error for a tag that the element value grammar does not know.
pub open spec fn annotation_error() -> DecodeError {
    DecodeError::InvalidAttribute("annotation"@)
}

/// Grammar of an element value: a tag byte, then what the tag calls for. `@` holds
/// an annotation and `[` a counted list of element values.
pub open spec fn spec_element_value(s: Seq<u8>, pos: int) -> Parse<ElementValueModel>
    decreases bytes_left(s, pos), 0nat,
{
    match spec_u1(s, pos) {
        Err(e) => Err(e),
        Ok((tag, _)) => if is_const_tag(tag) {
            match spec_u2(s, pos + 1) {
                Err(e) => Err(e),
                Ok((const_value_index, _)) => Ok(
                    (ElementValueModel::Const { tag, const_value_index }, 3nat),
                ),
            }
        } else if tag == TAG_ENUM {
            if has_bytes(s, pos + 1, 4) {
                Ok(
                    (
                        ElementValueModel::EnumConst {
                            type_name_index: be16(s, pos + 1),
                            const_name_index: be16(s, pos + 3),
                        },
                        5nat,
                    ),
                )
            } else {
                Err(DecodeError::UnexpectedEof)
            }
        } else if tag == TAG_CLASS {
            match spec_u2(s, pos + 1) {
                Err(e) => Err(e),
                Ok((class_info_index, _)) => Ok(
                    (ElementValueModel::ClassInfo { class_info_index }, 3nat),
                ),
            }
        } else if tag == TAG_ANNOTATION {
            match spec_annotation(s, pos + 1) {
                Err(e) => Err(e),
                Ok((a, used)) => Ok((ElementValueModel::AnnotationValue(a), 1 + used)),
            }
        } else if tag == TAG_ARRAY {
            match spec_u2(s, pos + 1) {
                Err(e) => Err(e),
                Ok((n, _)) => match spec_element_values(s, pos + 3, n as nat) {
                    Err(e) => Err(e),
                    Ok((values, used)) => Ok((ElementValueModel::ArrayValue(values), 3 + used)),
                },
            }
        } else {
            Err(annotation_error())
        },
    }
}

/// Grammar of `n` element values in a row.
pub open spec fn spec_element_values(s: Seq<u8>, pos: int, n: nat) -> Parse<Seq<ElementValueModel>>
    decreases bytes_left(s, pos), n + 1,
{
    if n == 0 {
        Ok((Seq::empty(), 0nat))
    } else {
        match spec_element_values(s, pos, (n - 1) as nat) {
            Err(e) => Err(e),
            Ok((values, used)) => match spec_element_value(s, pos + used) {
                Err(e) => Err(e),
                Ok((value, len)) => Ok((values.push(value), used + len)),
            },
        }
    }
}

/// Grammar of an annotation: the type index, then the counted pairs.
pub open spec fn spec_annotation(s: Seq<u8>, pos: int) -> Parse<AnnotationModel>
    decreases bytes_left(s, pos), 0nat,
{
    match spec_u2(s, pos) {
        Err(e) => Err(e),
        Ok((type_index, _)) => match spec_counted_pairs(s, pos + 2) {
            Err(e) => Err(e),
            Ok((element_value_pairs, used)) => Ok(
                (AnnotationModel { type_index, element_value_pairs }, 2 + used),
            ),
        },
    }
}

/// Grammar of a 16-bit count and that many element-value pairs.
pub open spec fn spec_counted_pairs(s: Seq<u8>, pos: int) -> Parse<Seq<ElementValuePairModel>>
    decreases bytes_left(s, pos), 0nat,
{
    match spec_u2(s, pos) {
        Err(e) => Err(e),
        Ok((n, _)) => match spec_pairs(s, pos + 2, n as nat) {
            Err(e) => Err(e),
            Ok((pairs, used)) => Ok((pairs, 2 + used)),
        },
    }
}

/// Grammar of `n` element-value pairs in a row: each a name index and a value.
pub open spec fn spec_pairs(s: Seq<u8>, pos: int, n: nat) -> Parse<Seq<ElementValuePairModel>>
    decreases bytes_left(s, pos), n + 1,
{
    if n == 0 {
        Ok((Seq::empty(), 0nat))
    } else {
        match spec_pairs(s, pos, (n - 1) as nat) {
            Err(e) => Err(e),
            Ok((pairs, used)) => match spec_u2(s, pos + used) {
                Err(e) => Err(e),
                Ok((element_name_index, _)) => match spec_element_value(s, pos + used + 2) {
                    Err(e) => Err(e),
                    Ok((value, len)) => Ok(
                        (
                            pairs.push(ElementValuePairModel { element_name_index, value }),
                            used + 2 + len,
                        ),
                    ),
                },
            },
        }
    }
}

/// Once a prefix of a list of element values fails, every longer list fails in the
/// same way.
pub proof fn lemma_element_values_fail(s: Seq<u8>, pos: int, k: nat, n: nat)
    requires
        k <= n,
        spec_element_values(s, pos, k) is Err,
    ensures
        spec_element_values(s, pos, n) == spec_element_values(s, pos, k),
    decreases n,
{
    if k < n {
        lemma_element_values_fail(s, pos, k, (n - 1) as nat);
    }
}

/// Once a prefix of a list of pairs fails, every longer list fails in the same way.
pub proof fn lemma_pairs_fail(s: Seq<u8>, pos: int, k: nat, n: nat)
    requires
        k <= n,
        spec_pairs(s, pos, k) is Err,
    ensures
        spec_pairs(s, pos, n) == spec_pairs(s, pos, k),
    decreases n,
{
    if k < n {
        lemma_pairs_fail(s, pos, k, (n - 1) as nat);
    }
}

fn is_const_tag_byte(tag: u8) -> (yes: bool)
    ensures
        yes == is_const_tag(tag),
{
    tag == 66 || tag == 67 || tag == 68 || tag == 70 || tag == 73 || tag == 74 || tag == 83 || tag
        == 90 || tag == 115
}

/// Reads one element value.
pub fn parse_element_value(r: &mut Reader) -> (res: Result<ElementValue, ClassFileError>)
    requires
        old(r).wf(),
    ensures
        decoded(res, *final(r), *old(r), spec_element_value(old(r).bytes(), old(r).offset())),
    decreases old(r).left(),
{
    let tag: u8 = r.read_u1()?;
    let value = if is_const_tag_byte(tag) {
        let const_value_index: u16 = r.read_u2()?;
        ElementValue::Const { tag, const_value_index }
    } else if tag == TAG_ENUM {
        let type_name_index: u16 = r.read_u2()?;
        let const_name_index: u16 = r.read_u2()?;
        ElementValue::EnumConst { type_name_index, const_name_index }
    } else if tag == TAG_CLASS {
        let class_info_index: u16 = r.read_u2()?;
        ElementValue::ClassInfo { class_info_index }
    } else if tag == TAG_ANNOTATION {
        let annotation = parse_annotation(r)?;
        ElementValue::AnnotationValue(annotation)
    } else if tag == TAG_ARRAY {
        let n: usize = r.read_u2()? as usize;
        let mut values: Vec<ElementValue> = Vec::with_capacity(n);
        let mut i: usize = 0;
        let ghost s = old(r).bytes();
        let ghost start = old(r).offset() + 3;
        assert(values.deep_view() =~= Seq::<ElementValueModel>::empty());
        while i < n
            invariant
                i <= n,
                r.wf(),
                r.bytes() == s,
                s == old(r).bytes(),
                start == old(r).offset() + 3,
                spec_u1(s, old(r).offset()) == Ok::<(u8, nat), DecodeError>((TAG_ARRAY, 1nat)),
                spec_u2(s, old(r).offset() + 1) == Ok::<(u16, nat), DecodeError>((n as u16, 2nat)),
                n <= 0xFFFF,
                r.offset() >= start,
                old(r).wf(),
                spec_element_values(s, start, i as nat) == Ok::<(Seq<ElementValueModel>, nat), DecodeError>(
                    (values.deep_view(), (r.offset() - start) as nat),
                ),
            decreases n - i,
        {
            proof {
                r.lemma_in_bounds();
                old(r).lemma_in_bounds();
            }
            let ghost prev = values.deep_view();
            match parse_element_value(r) {
                Err(e) => {
                    proof {
                        lemma_element_values_fail(s, start, (i + 1) as nat, n as nat);
                    }
                    return Err(e);
                },
                Ok(value) => {
                    values.push(value);
                    assert(values.deep_view() =~= prev.push(value.deep_view()));
                },
            }
            i += 1;
        }
        proof {
            lemma_element_value_models(values);
        }
        ElementValue::ArrayValue(values)
    } else {
        return Err(ClassFileError::InvalidAttribute("annotation".to_owned()));
    };
    Ok(value)
}

/// Reads a 16-bit count and that many element-value pairs.
pub fn parse_element_value_pairs(r: &mut Reader) -> (res: Result<
    Vec<ElementValuePair>,
    ClassFileError,
>)
    requires
        old(r).wf(),
    ensures
        decoded(res, *final(r), *old(r), spec_counted_pairs(old(r).bytes(), old(r).offset())),
    decreases old(r).left(),
{
    let n: usize = r.read_u2()? as usize;
    let mut pairs: Vec<ElementValuePair> = Vec::with_capacity(n);
    let mut i: usize = 0;
    let ghost s = old(r).bytes();
    let ghost start = old(r).offset() + 2;
    assert(pairs.deep_view() =~= Seq::<ElementValuePairModel>::empty());
    while i < n
        invariant
            i <= n,
            r.wf(),
            r.bytes() == s,
            s == old(r).bytes(),
            start == old(r).offset() + 2,
            spec_u2(s, old(r).offset()) == Ok::<(u16, nat), DecodeError>((n as u16, 2nat)),
            n <= 0xFFFF,
            r.offset() >= start,
            old(r).wf(),
            spec_pairs(s, start, i as nat) == Ok::<(Seq<ElementValuePairModel>, nat), DecodeError>(
                (pairs.deep_view(), (r.offset() - start) as nat),
            ),
        decreases n - i,
    {
        let ghost prev = pairs.deep_view();
        let element_name_index: u16 = match r.read_u2() {
            Err(e) => {
                proof {
                    lemma_pairs_fail(s, start, (i + 1) as nat, n as nat);
                }
                return Err(e);
            },
            Ok(index) => index,
        };
        match parse_element_value(r) {
            Err(e) => {
                proof {
                    lemma_pairs_fail(s, start, (i + 1) as nat, n as nat);
                }
                return Err(e);
            },
            Ok(value) => {
                let pair = ElementValuePair { element_name_index, value };
                pairs.push(pair);
                assert(pairs.deep_view() =~= prev.push(pair.deep_view()));
            },
        }
        i += 1;
    }
    Ok(pairs)
}

/// Reads one annotation.
pub fn parse_annotation(r: &mut Reader) -> (res: Result<Annotation, ClassFileError>)
    requires
        old(r).wf(),
    ensures
        decoded(res, *final(r), *old(r), spec_annotation(old(r).bytes(), old(r).offset())),
    decreases old(r).left(),
{
    let type_index: u16 = r.read_u2()?;
    let element_value_pairs = parse_element_value_pairs(r)?;
    proof {
        lemma_pair_models(element_value_pairs);
    }
    Ok(Annotation { type_index, element_value_pairs })
}

impl Decode for Annotation {
    open spec fn grammar(s: Seq<u8>, pos: int) -> Parse<AnnotationModel> {
        spec_annotation(s, pos)
    }

    fn decode(r: &mut Reader) -> (res: Result<Annotation, ClassFileError>) {
        parse_annotation(r)
    }
}

impl Decode for Vec<Annotation> {
    open spec fn grammar(s: Seq<u8>, pos: int) -> Parse<Seq<AnnotationModel>> {
        spec_counted::<Annotation>(s, pos)
    }

    fn decode(r: &mut Reader) -> (res: Result<Vec<Annotation>, ClassFileError>) {
        parse_counted::<Annotation>(r)
    }
}

/// Reads the body of a `Runtime(In)VisibleAnnotations` attribute.
pub fn parse_annotations(r: &mut Reader) -> (res: Result<Vec<Annotation>, ClassFileError>)
    requires
        old(r).wf(),
    ensures
        decoded(res, *final(r), *old(r), spec_counted::<Annotation>(old(r).bytes(), old(r).offset())),
{
    parse_counted::<Annotation>(r)
}

/// Reads the body of a `Runtime(In)VisibleParameterAnnotations` attribute: for each
/// formal parameter a counted list of annotations.
pub fn parse_parameter_annotations(r: &mut Reader) -> (res: Result<
    Vec<Vec<Annotation>>,
    ClassFileError,
>)
    requires
        old(r).wf(),
    ensures
        decoded(
            res,
            *final(r),
            *old(r),
            spec_counted_u1::<Vec<Annotation>>(old(r).bytes(), old(r).offset()),
        ),
{
    parse_counted_u1::<Vec<Annotation>>(r)
}

} // verus!
