use vstd::prelude::*;
use crate::classfile::annotation::{
    parse_element_value_pairs, spec_counted_pairs, ElementValuePair, ElementValuePairModel,
};
use crate::classfile::decode::{
    parse_counted, parse_counted_u1, spec_counted, spec_counted_u1, Decode,
};
use crate::classfile::error::{ClassFileError, DecodeError, Parse};
use crate::classfile::reader::{be16, decoded, has_bytes, spec_u1, spec_u2, Reader};

verus! {

/// A range of bytecode in which a local variable has a value.
#[derive(Debug, Clone)]
pub struct LocalVarTarget {
    pub start_pc: u16,
    pub length: u16,
    pub index: u16,
}

impl DeepView for LocalVarTarget {
    type V = LocalVarTarget;

    open spec fn deep_view(&self) -> LocalVarTarget {
        *self
    }
}

/// One step of the path from a type to the part that is annotated.
#[derive(Debug, Clone)]
pub struct TypePathEntry {
    pub type_path_kind: u8,
    pub type_argument_index: u8,
}

impl DeepView for TypePathEntry {
    type V = TypePathEntry;

    open spec fn deep_view(&self) -> TypePathEntry {
        *self
    }
}

/// What a type annotation is attached to.
#[allow(inconsistent_fields)]
#[derive(Debug, Clone)]
pub enum TargetInfo {
    TypeParameter { index: u8 },
    Supertype { index: u16 },
    TypeParameterBound { type_parameter_index: u8, bound_index: u8 },
    Empty,
    FormalParameter { index: u8 },
    Throws { index: u16 },
    Localvar { table: Vec<LocalVarTarget> },
    Catch { exception_table_index: u16 },
    Offset { offset: u16 },
    TypeArgument { offset: u16, type_argument_index: u8 },
}

/// Mathematical value of a [`TargetInfo`].
#[allow(inconsistent_fields)]
pub enum TargetInfoModel {
    TypeParameter { index: u8 },
    Supertype { index: u16 },
    TypeParameterBound { type_parameter_index: u8, bound_index: u8 },
    Empty,
    FormalParameter { index: u8 },
    Throws { index: u16 },
    Localvar { table: Seq<LocalVarTarget> },
    Catch { exception_table_index: u16 },
    Offset { offset: u16 },
    TypeArgument { offset: u16, type_argument_index: u8 },
}

impl DeepView for TargetInfo {
    type V = TargetInfoModel;

    open spec fn deep_view(&self) -> TargetInfoModel {
        match *self {
            TargetInfo::TypeParameter { index } => TargetInfoModel::TypeParameter { index },
            TargetInfo::Supertype { index } => TargetInfoModel::Supertype { index },
            TargetInfo::TypeParameterBound {
                type_parameter_index,
                bound_index,
            } => TargetInfoModel::TypeParameterBound { type_parameter_index, bound_index },
            TargetInfo::Empty => TargetInfoModel::Empty,
            TargetInfo::FormalParameter { index } => TargetInfoModel::FormalParameter { index },
            TargetInfo::Throws { index } => TargetInfoModel::Throws { index },
            TargetInfo::Localvar { table } => TargetInfoModel::Localvar { table: table.deep_view() },
            TargetInfo::Catch { exception_table_index } => TargetInfoModel::Catch {
                exception_table_index,
            },
            TargetInfo::Offset { offset } => TargetInfoModel::Offset { offset },
            TargetInfo::TypeArgument { offset, type_argument_index } => TargetInfoModel::TypeArgument {
                offset,
                type_argument_index,
            },
        }
    }
}

/// An annotation on a use of a type.
#[derive(Debug)]
pub struct TypeAnnotation {
    pub target_type: u8,
    pub target_info: TargetInfo,
    pub target_path: Vec<TypePathEntry>,
    pub type_index: u16,
    pub element_value_pairs: Vec<ElementValuePair>,
}

/// Mathematical value of a [`TypeAnnotation`].
pub struct TypeAnnotationModel {
    pub target_type: u8,
    pub target_info: TargetInfoModel,
    pub target_path: Seq<TypePathEntry>,
    pub type_index: u16,
    pub element_value_pairs: Seq<ElementValuePairModel>,
}

impl DeepView for TypeAnnotation {
    type V = TypeAnnotationModel;

    open spec fn deep_view(&self) -> TypeAnnotationModel {
        TypeAnnotationModel {
            target_type: self.target_type,
            target_info: self.target_info.deep_view(),
            target_path: self.target_path.deep_view(),
            type_index: self.type_index,
            element_value_pairs: self.element_value_pairs.deep_view(),
        }
    }
}

impl Decode for LocalVarTarget {
    open spec fn grammar(s: Seq<u8>, pos: int) -> Parse<LocalVarTarget> {
        if has_bytes(s, pos, 6) {
            Ok(
                (
                    LocalVarTarget {
                        start_pc: be16(s, pos),
                        length: be16(s, pos + 2),
                        index: be16(s, pos + 4),
                    },
                    6nat,
                ),
            )
        } else {
            Err(DecodeError::UnexpectedEof)
        }
    }

    fn decode(r: &mut Reader) -> (res: Result<LocalVarTarget, ClassFileError>) {
        let start_pc: u16 = r.read_u2()?;
        let length: u16 = r.read_u2()?;
        let index: u16 = r.read_u2()?;
        Ok(LocalVarTarget { start_pc, length, index })
    }
}

impl Decode for TypePathEntry {
    open spec fn grammar(s: Seq<u8>, pos: int) -> Parse<TypePathEntry> {
        if has_bytes(s, pos, 2) {
            Ok((TypePathEntry { type_path_kind: s[pos], type_argument_index: s[pos + 1] }, 2nat))
        } else {
            Err(DecodeError::UnexpectedEof)
        }
    }

    fn decode(r: &mut Reader) -> (res: Result<TypePathEntry, ClassFileError>) {
        let type_path_kind: u8 = r.read_u1()?;
        let type_argument_index: u8 = r.read_u1()?;
        Ok(TypePathEntry { type_path_kind, type_argument_index })
    }
}

/// The error for a target type that the grammar does not know.
pub open spec fn type_annotation_error() -> DecodeError {
    DecodeError::InvalidAttribute("type_annotation"@)
}

/// Grammar of the target of a type annotation, which the target type selects:
/// `0x00`-`0x01` a type parameter, `0x10` a supertype, `0x11`-`0x12` a type parameter
/// bound, `0x13`-`0x15` nothing, `0x16` a formal parameter, `0x17` a throws clause,
/// `0x40`-`0x41` a local variable table, `0x42` a catch clause, `0x43`-`0x46` an
/// offset, `0x47`-`0x4B` a type argument. Other target types are errors.
pub open spec fn spec_target_info(s: Seq<u8>, pos: int, target_type: u8) -> Parse<TargetInfoModel> {
    if target_type <= 0x01 {
        match spec_u1(s, pos) {
            Err(e) => Err(e),
            Ok((index, _)) => Ok((TargetInfoModel::TypeParameter { index }, 1nat)),
        }
    } else if target_type == 0x10 {
        match spec_u2(s, pos) {
            Err(e) => Err(e),
            Ok((index, _)) => Ok((TargetInfoModel::Supertype { index }, 2nat)),
        }
    } else if target_type == 0x11 || target_type == 0x12 {
        if has_bytes(s, pos, 2) {
            Ok(
                (
                    TargetInfoModel::TypeParameterBound {
                        type_parameter_index: s[pos],
                        bound_index: s[pos + 1],
                    },
                    2nat,
                ),
            )
        } else {
            Err(DecodeError::UnexpectedEof)
        }
    } else if 0x13 <= target_type <= 0x15 {
        Ok((TargetInfoModel::Empty, 0nat))
    } else if target_type == 0x16 {
        match spec_u1(s, pos) {
            Err(e) => Err(e),
            Ok((index, _)) => Ok((TargetInfoModel::FormalParameter { index }, 1nat)),
        }
    } else if target_type == 0x17 {
        match spec_u2(s, pos) {
            Err(e) => Err(e),
            Ok((index, _)) => Ok((TargetInfoModel::Throws { index }, 2nat)),
        }
    } else if target_type == 0x40 || target_type == 0x41 {
        match spec_counted::<LocalVarTarget>(s, pos) {
            Err(e) => Err(e),
            Ok((table, used)) => Ok((TargetInfoModel::Localvar { table }, used)),
        }
    } else if target_type == 0x42 {
        match spec_u2(s, pos) {
            Err(e) => Err(e),
            Ok((exception_table_index, _)) => Ok(
                (TargetInfoModel::Catch { exception_table_index }, 2nat),
            ),
        }
    } else if 0x43 <= target_type <= 0x46 {
        match spec_u2(s, pos) {
            Err(e) => Err(e),
            Ok((offset, _)) => Ok((TargetInfoModel::Offset { offset }, 2nat)),
        }
    } else if 0x47 <= target_type <= 0x4B {
        if has_bytes(s, pos, 3) {
            Ok(
                (
                    TargetInfoModel::TypeArgument {
                        offset: be16(s, pos),
                        type_argument_index: s[pos + 2],
                    },
                    3nat,
                ),
            )
        } else {
            Err(DecodeError::UnexpectedEof)
        }
    } else {
        Err(type_annotation_error())
    }
}

/// Grammar of a type path: an 8-bit count and that many steps.
pub open spec fn spec_type_path(s: Seq<u8>, pos: int) -> Parse<Seq<TypePathEntry>> {
    spec_counted_u1::<TypePathEntry>(s, pos)
}

/// Grammar of a type annotation: target type, target, type path, type index and
/// the counted element-value pairs.
pub open spec fn spec_type_annotation(s: Seq<u8>, pos: int) -> Parse<TypeAnnotationModel> {
    match spec_u1(s, pos) {
        Err(e) => Err(e),
        Ok((target_type, _)) => match spec_target_info(s, pos + 1, target_type) {
            Err(e) => Err(e),
            Ok((target_info, a)) => match spec_type_path(s, pos + 1 + a) {
                Err(e) => Err(e),
                Ok((target_path, b)) => match spec_u2(s, pos + 1 + a + b) {
                    Err(e) => Err(e),
                    Ok((type_index, _)) => match spec_counted_pairs(s, pos + 1 + a + b + 2) {
                        Err(e) => Err(e),
                        Ok((element_value_pairs, c)) => Ok(
                            (
                                TypeAnnotationModel {
                                    target_type,
                                    target_info,
                                    target_path,
                                    type_index,
                                    element_value_pairs,
                                },
                                1 + a + b + 2 + c,
                            ),
                        ),
                    },
                },
            },
        },
    }
}

/// Reads the target of a type annotation of the given target type.
pub fn parse_target_info(r: &mut Reader, target_type: u8) -> (res: Result<TargetInfo, ClassFileError>)
    requires
        old(r).wf(),
    ensures
        decoded(
            res,
            *final(r),
            *old(r),
            spec_target_info(old(r).bytes(), old(r).offset(), target_type),
        ),
{
    let info = if target_type <= 0x01 {
        TargetInfo::TypeParameter { index: r.read_u1()? }
    } else if target_type == 0x10 {
        TargetInfo::Supertype { index: r.read_u2()? }
    } else if target_type == 0x11 || target_type == 0x12 {
        let type_parameter_index: u8 = r.read_u1()?;
        let bound_index: u8 = r.read_u1()?;
        TargetInfo::TypeParameterBound { type_parameter_index, bound_index }
    } else if 0x13 <= target_type && target_type <= 0x15 {
        TargetInfo::Empty
    } else if target_type == 0x16 {
        TargetInfo::FormalParameter { index: r.read_u1()? }
    } else if target_type == 0x17 {
        TargetInfo::Throws { index: r.read_u2()? }
    } else if target_type == 0x40 || target_type == 0x41 {
        let table = parse_counted::<LocalVarTarget>(r)?;
        TargetInfo::Localvar { table }
    } else if target_type == 0x42 {
        TargetInfo::Catch { exception_table_index: r.read_u2()? }
    } else if 0x43 <= target_type && target_type <= 0x46 {
        TargetInfo::Offset { offset: r.read_u2()? }
    } else if 0x47 <= target_type && target_type <= 0x4B {
        let offset: u16 = r.read_u2()?;
        let type_argument_index: u8 = r.read_u1()?;
        TargetInfo::TypeArgument { offset, type_argument_index }
    } else {
        return Err(ClassFileError::InvalidAttribute("type_annotation".to_owned()));
    };
    Ok(info)
}

/// Reads a type path.
pub fn parse_type_path(r: &mut Reader) -> (res: Result<Vec<TypePathEntry>, ClassFileError>)
    requires
        old(r).wf(),
    ensures
        decoded(res, *final(r), *old(r), spec_type_path(old(r).bytes(), old(r).offset())),
{
    parse_counted_u1::<TypePathEntry>(r)
}

impl Decode for TypeAnnotation {
    open spec fn grammar(s: Seq<u8>, pos: int) -> Parse<TypeAnnotationModel> {
        spec_type_annotation(s, pos)
    }

    fn decode(r: &mut Reader) -> (res: Result<TypeAnnotation, ClassFileError>) {
        let target_type: u8 = r.read_u1()?;
        let target_info = parse_target_info(r, target_type)?;
        let target_path = parse_type_path(r)?;
        let type_index: u16 = r.read_u2()?;
        let element_value_pairs = parse_element_value_pairs(r)?;
        Ok(TypeAnnotation { target_type, target_info, target_path, type_index, element_value_pairs })
    }
}

/// Reads the body of a `Runtime(In)VisibleTypeAnnotations` attribute.
pub fn parse_type_annotations(r: &mut Reader) -> (res: Result<Vec<TypeAnnotation>, ClassFileError>)
    requires
        old(r).wf(),
    ensures
        decoded(
            res,
            *final(r),
            *old(r),
            spec_counted::<TypeAnnotation>(old(r).bytes(), old(r).offset()),
        ),
{
    parse_counted::<TypeAnnotation>(r)
}

} // verus!
