use vstd::prelude::*;
use crate::classfile::decode::{parse_counted, parse_repeat, spec_counted, spec_repeat, Decode};
use crate::classfile::error::{ClassFileError, DecodeError, Parse};
use crate::classfile::reader::{decoded, spec_u1, spec_u2, Reader};

verus! {

/// The verifier's type of one local variable or operand stack entry.
#[derive(Debug, Clone)]
pub enum VerificationTypeInfo {
    Top,
    Integer,
    Float,
    Double,
    Long,
    Null,
    UninitializedThis,
    /// Constant pool index of the class.
    Object(u16),
    /// Bytecode offset of the `new` instruction.
    Uninitialized(u16),
}

impl DeepView for VerificationTypeInfo {
    type V = VerificationTypeInfo;

    open spec fn deep_view(&self) -> VerificationTypeInfo {
        *self
    }
}

/// One frame of a stack map table.
#[allow(inconsistent_fields)]
#[derive(Debug, Clone)]
pub enum StackMapFrame {
    Same { offset_delta: u16 },
    SameLocals1StackItem { offset_delta: u16, stack: VerificationTypeInfo },
    SameLocals1StackItemExtended { offset_delta: u16, stack: VerificationTypeInfo },
    Chop { offset_delta: u16, k: u8 },
    SameExtended { offset_delta: u16 },
    Append { offset_delta: u16, locals: Vec<VerificationTypeInfo> },
    Full { offset_delta: u16, locals: Vec<VerificationTypeInfo>, stack: Vec<VerificationTypeInfo> },
}

/// Mathematical value of a [`StackMapFrame`].
#[allow(inconsistent_fields)]
pub enum StackMapFrameModel {
    Same { offset_delta: u16 },
    SameLocals1StackItem { offset_delta: u16, stack: VerificationTypeInfo },
    SameLocals1StackItemExtended { offset_delta: u16, stack: VerificationTypeInfo },
    Chop { offset_delta: u16, k: u8 },
    SameExtended { offset_delta: u16 },
    Append { offset_delta: u16, locals: Seq<VerificationTypeInfo> },
    Full { offset_delta: u16, locals: Seq<VerificationTypeInfo>, stack: Seq<VerificationTypeInfo> },
}

impl DeepView for StackMapFrame {
    type V = StackMapFrameModel;

    open spec fn deep_view(&self) -> StackMapFrameModel {
        match *self {
            StackMapFrame::Same { offset_delta } => StackMapFrameModel::Same { offset_delta },
            StackMapFrame::SameLocals1StackItem {
                offset_delta,
                stack,
            } => StackMapFrameModel::SameLocals1StackItem { offset_delta, stack },
            StackMapFrame::SameLocals1StackItemExtended {
                offset_delta,
                stack,
            } => StackMapFrameModel::SameLocals1StackItemExtended { offset_delta, stack },
            StackMapFrame::Chop { offset_delta, k } => StackMapFrameModel::Chop { offset_delta, k },
            StackMapFrame::SameExtended { offset_delta } => StackMapFrameModel::SameExtended {
                offset_delta,
            },
            StackMapFrame::Append { offset_delta, locals } => StackMapFrameModel::Append {
                offset_delta,
                locals: locals.deep_view(),
            },
            StackMapFrame::Full { offset_delta, locals, stack } => StackMapFrameModel::Full {
                offset_delta,
                locals: locals.deep_view(),
                stack: stack.deep_view(),
            },
        }
    }
}

/// The `StackMapTable` attribute: the frames in file order.
#[derive(Debug, Clone)]
pub struct StackMapTableAttribute {
    pub entries: Vec<StackMapFrame>,
}

/// Mathematical value of a [`StackMapTableAttribute`].
pub struct StackMapTableModel {
    pub entries: Seq<StackMapFrameModel>,
}

impl DeepView for StackMapTableAttribute {
    type V = StackMapTableModel;

    open spec fn deep_view(&self) -> StackMapTableModel {
        StackMapTableModel { entries: self.entries.deep_view() }
    }
}

/// The error for a tag that the stack map grammar does not know.
pub open spec fn stack_map_error() -> DecodeError {
    DecodeError::InvalidAttribute("StackMapTable"@)
}

/// Grammar of a verification type: a tag from 0 to 8, and for the tags 7 and 8 a
/// 16-bit operand.
pub open spec fn spec_verification_type_info(s: Seq<u8>, pos: int) -> Parse<VerificationTypeInfo> {
    match spec_u1(s, pos) {
        Err(e) => Err(e),
        Ok((tag, _)) => if tag == 0 {
            Ok((VerificationTypeInfo::Top, 1nat))
        } else if tag == 1 {
            Ok((VerificationTypeInfo::Integer, 1nat))
        } else if tag == 2 {
            Ok((VerificationTypeInfo::Float, 1nat))
        } else if tag == 3 {
            Ok((VerificationTypeInfo::Double, 1nat))
        } else if tag == 4 {
            Ok((VerificationTypeInfo::Long, 1nat))
        } else if tag == 5 {
            Ok((VerificationTypeInfo::Null, 1nat))
        } else if tag == 6 {
            Ok((VerificationTypeInfo::UninitializedThis, 1nat))
        } else if tag == 7 || tag == 8 {
            match spec_u2(s, pos + 1) {
                Err(e) => Err(e),
                Ok((operand, _)) => if tag == 7 {
                    Ok((VerificationTypeInfo::Object(operand), 3nat))
                } else {
                    Ok((VerificationTypeInfo::Uninitialized(operand), 3nat))
                },
            }
        } else {
            Err(stack_map_error())
        },
    }
}

/// Grammar of a stack map frame. The frame type byte selects the shape by range:
/// 0 to 63 `Same`, 64 to 127 `SameLocals1StackItem`, 247 its extended form, 248 to
/// 250 `Chop`, 251 `SameExtended`, 252 to 254 `Append`, 255 `Full`. The values from
/// 128 to 246 are not frame types.
pub open spec fn spec_stack_map_frame(s: Seq<u8>, pos: int) -> Parse<StackMapFrameModel> {
    match spec_u1(s, pos) {
        Err(e) => Err(e),
        Ok((frame_type, _)) => if frame_type <= 63 {
            Ok((StackMapFrameModel::Same { offset_delta: frame_type as u16 }, 1nat))
        } else if frame_type <= 127 {
            match spec_verification_type_info(s, pos + 1) {
                Err(e) => Err(e),
                Ok((stack, used)) => Ok(
                    (
                        StackMapFrameModel::SameLocals1StackItem {
                            offset_delta: (frame_type - 64) as u16,
                            stack,
                        },
                        1 + used,
                    ),
                ),
            }
        } else if frame_type < 247 {
            Err(stack_map_error())
        } else {
            match spec_u2(s, pos + 1) {
                Err(e) => Err(e),
                Ok((offset_delta, _)) => if frame_type == 247 {
                    match spec_verification_type_info(s, pos + 3) {
                        Err(e) => Err(e),
                        Ok((stack, used)) => Ok(
                            (
                                StackMapFrameModel::SameLocals1StackItemExtended {
                                    offset_delta,
                                    stack,
                                },
                                3 + used,
                            ),
                        ),
                    }
                } else if frame_type <= 250 {
                    Ok((StackMapFrameModel::Chop { offset_delta, k: (251 - frame_type) as u8 }, 3nat))
                } else if frame_type == 251 {
                    Ok((StackMapFrameModel::SameExtended { offset_delta }, 3nat))
                } else if frame_type <= 254 {
                    match spec_repeat::<VerificationTypeInfo>(s, pos + 3, (frame_type - 251) as nat) {
                        Err(e) => Err(e),
                        Ok((locals, used)) => Ok(
                            (StackMapFrameModel::Append { offset_delta, locals }, 3 + used),
                        ),
                    }
                } else {
                    match spec_counted::<VerificationTypeInfo>(s, pos + 3) {
                        Err(e) => Err(e),
                        Ok((locals, used)) => match spec_counted::<VerificationTypeInfo>(
                            s,
                            pos + 3 + used,
                        ) {
                            Err(e) => Err(e),
                            Ok((stack, more)) => Ok(
                                (
                                    StackMapFrameModel::Full { offset_delta, locals, stack },
                                    3 + used + more,
                                ),
                            ),
                        },
                    }
                },
            }
        },
    }
}

/// Grammar of the `StackMapTable` body: a 16-bit count and that many frames.
pub open spec fn spec_stack_map_table(s: Seq<u8>, pos: int) -> Parse<StackMapTableModel> {
    match spec_counted::<StackMapFrame>(s, pos) {
        Err(e) => Err(e),
        Ok((entries, used)) => Ok((StackMapTableModel { entries }, used)),
    }
}

/// Reads one verification type.
pub fn parse_verification_type_info(r: &mut Reader) -> (res: Result<
    VerificationTypeInfo,
    ClassFileError,
>)
    requires
        old(r).wf(),
    ensures
        decoded(
            res,
            *final(r),
            *old(r),
            spec_verification_type_info(old(r).bytes(), old(r).offset()),
        ),
{
    let tag: u8 = r.read_u1()?;
    let info = match tag {
        0 => VerificationTypeInfo::Top,
        1 => VerificationTypeInfo::Integer,
        2 => VerificationTypeInfo::Float,
        3 => VerificationTypeInfo::Double,
        4 => VerificationTypeInfo::Long,
        5 => VerificationTypeInfo::Null,
        6 => VerificationTypeInfo::UninitializedThis,
        7 => VerificationTypeInfo::Object(r.read_u2()?),
        8 => VerificationTypeInfo::Uninitialized(r.read_u2()?),
        _ => {
            return Err(ClassFileError::InvalidAttribute("StackMapTable".to_owned()));
        },
    };
    Ok(info)
}

impl Decode for VerificationTypeInfo {
    open spec fn grammar(s: Seq<u8>, pos: int) -> Parse<VerificationTypeInfo> {
        spec_verification_type_info(s, pos)
    }

    fn decode(r: &mut Reader) -> (res: Result<VerificationTypeInfo, ClassFileError>) {
        parse_verification_type_info(r)
    }
}

/// Reads one stack map frame.
pub fn parse_stack_map_frame(r: &mut Reader) -> (res: Result<StackMapFrame, ClassFileError>)
    requires
        old(r).wf(),
    ensures
        decoded(res, *final(r), *old(r), spec_stack_map_frame(old(r).bytes(), old(r).offset())),
{
    let frame_type: u8 = r.read_u1()?;
    let frame = if frame_type <= 63 {
        StackMapFrame::Same { offset_delta: frame_type as u16 }
    } else if frame_type <= 127 {
        let stack = parse_verification_type_info(r)?;
        StackMapFrame::SameLocals1StackItem { offset_delta: (frame_type - 64) as u16, stack }
    } else if frame_type < 247 {
        return Err(ClassFileError::InvalidAttribute("StackMapTable".to_owned()));
    } else if frame_type == 247 {
        let offset_delta: u16 = r.read_u2()?;
        let stack = parse_verification_type_info(r)?;
        StackMapFrame::SameLocals1StackItemExtended { offset_delta, stack }
    } else if frame_type <= 250 {
        let offset_delta: u16 = r.read_u2()?;
        StackMapFrame::Chop { offset_delta, k: 251u8 - frame_type }
    } else if frame_type == 251 {
        let offset_delta: u16 = r.read_u2()?;
        StackMapFrame::SameExtended { offset_delta }
    } else if frame_type <= 254 {
        let offset_delta: u16 = r.read_u2()?;
        let count: usize = (frame_type - 251) as usize;
        let locals = parse_repeat::<VerificationTypeInfo>(r, count)?;
        StackMapFrame::Append { offset_delta, locals }
    } else {
        let offset_delta: u16 = r.read_u2()?;
        let locals = parse_counted::<VerificationTypeInfo>(r)?;
        let stack = parse_counted::<VerificationTypeInfo>(r)?;
        StackMapFrame::Full { offset_delta, locals, stack }
    };
    Ok(frame)
}

impl Decode for StackMapFrame {
    open spec fn grammar(s: Seq<u8>, pos: int) -> Parse<StackMapFrameModel> {
        spec_stack_map_frame(s, pos)
    }

    fn decode(r: &mut Reader) -> (res: Result<StackMapFrame, ClassFileError>) {
        parse_stack_map_frame(r)
    }
}

/// Reads the body of a `StackMapTable` attribute.
pub fn parse_stack_map_table(r: &mut Reader) -> (res: Result<StackMapTableAttribute, ClassFileError>)
    requires
        old(r).wf(),
    ensures
        decoded(res, *final(r), *old(r), spec_stack_map_table(old(r).bytes(), old(r).offset())),
{
    let entries = parse_counted::<StackMapFrame>(r)?;
    Ok(StackMapTableAttribute { entries })
}

} // verus!
