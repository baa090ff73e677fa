use vstd::prelude::*;
use crate::classfile::decode::{parse_counted, spec_counted, Decode};
use crate::classfile::error::{ClassFileError, DecodeError, Parse};
use crate::classfile::reader::{be16, has_bytes, spec_u2, Reader};

verus! {

/// One exception handler of a method body.
#[derive(Debug, Clone)]
pub struct ExceptionTableEntry {
    pub start_pc: u16,
    pub end_pc: u16,
    pub handler_pc: u16,
    pub catch_type: u16,
}

impl DeepView for ExceptionTableEntry {
    type V = ExceptionTableEntry;

    open spec fn deep_view(&self) -> ExceptionTableEntry {
        *self
    }
}

/// The source line at which a range of bytecode starts.
#[derive(Debug, Clone)]
pub struct LineNumberEntry {
    pub start_pc: u16,
    pub line_number: u16,
}

impl DeepView for LineNumberEntry {
    type V = LineNumberEntry;

    open spec fn deep_view(&self) -> LineNumberEntry {
        *self
    }
}

/// A local variable with its descriptor.
#[derive(Debug, Clone)]
pub struct LocalVariableTableEntry {
    pub start_pc: u16,
    pub length: u16,
    pub name_index: u16,
    pub descriptor_index: u16,
    pub index: u16,
}

impl DeepView for LocalVariableTableEntry {
    type V = LocalVariableTableEntry;

    open spec fn deep_view(&self) -> LocalVariableTableEntry {
        *self
    }
}

/// A local variable with its generic signature.
#[derive(Debug, Clone)]
pub struct LocalVariableTypeTableEntry {
    pub start_pc: u16,
    pub length: u16,
    pub name_index: u16,
    pub signature_index: u16,
    pub index: u16,
}

impl DeepView for LocalVariableTypeTableEntry {
    type V = LocalVariableTypeTableEntry;

    open spec fn deep_view(&self) -> LocalVariableTypeTableEntry {
        *self
    }
}

/// A class that is a member of another class.
#[derive(Debug, Clone)]
pub struct InnerClassInfo {
    pub inner_class_info_index: u16,
    pub outer_class_info_index: u16,
    pub inner_name_index: u16,
    pub inner_class_access_flags: u16,
}

impl DeepView for InnerClassInfo {
    type V = InnerClassInfo;

    open spec fn deep_view(&self) -> InnerClassInfo {
        *self
    }
}

/// A formal parameter's name and flags.
#[derive(Debug, Clone)]
pub struct MethodParameter {
    pub name_index: u16,
    pub access_flags: u16,
}

impl DeepView for MethodParameter {
    type V = MethodParameter;

    open spec fn deep_view(&self) -> MethodParameter {
        *self
    }
}

/// A bootstrap method and its static arguments.
#[derive(Debug, Clone)]
pub struct BootstrapMethod {
    pub bootstrap_method_ref: u16,
    pub bootstrap_arguments: Vec<u16>,
}

/// Mathematical value of a [`BootstrapMethod`].
pub struct BootstrapMethodModel {
    pub bootstrap_method_ref: u16,
    pub bootstrap_arguments: Seq<u16>,
}

impl DeepView for BootstrapMethod {
    type V = BootstrapMethodModel;

    open spec fn deep_view(&self) -> BootstrapMethodModel {
        BootstrapMethodModel {
            bootstrap_method_ref: self.bootstrap_method_ref,
            bootstrap_arguments: self.bootstrap_arguments.deep_view(),
        }
    }
}

impl Decode for ExceptionTableEntry {
    open spec fn grammar(s: Seq<u8>, pos: int) -> Parse<ExceptionTableEntry> {
        if has_bytes(s, pos, 8) {
            Ok(
                (
                    ExceptionTableEntry {
                        start_pc: be16(s, pos),
                        end_pc: be16(s, pos + 2),
                        handler_pc: be16(s, pos + 4),
                        catch_type: be16(s, pos + 6),
                    },
                    8nat,
                ),
            )
        } else {
            Err(DecodeError::UnexpectedEof)
        }
    }

    fn decode(r: &mut Reader) -> (res: Result<ExceptionTableEntry, ClassFileError>) {
        let start_pc: u16 = r.read_u2()?;
        let end_pc: u16 = r.read_u2()?;
        let handler_pc: u16 = r.read_u2()?;
        let catch_type: u16 = r.read_u2()?;
        Ok(ExceptionTableEntry { start_pc, end_pc, handler_pc, catch_type })
    }
}

impl Decode for LineNumberEntry {
    open spec fn grammar(s: Seq<u8>, pos: int) -> Parse<LineNumberEntry> {
        if has_bytes(s, pos, 4) {
            Ok((LineNumberEntry { start_pc: be16(s, pos), line_number: be16(s, pos + 2) }, 4nat))
        } else {
            Err(DecodeError::UnexpectedEof)
        }
    }

    fn decode(r: &mut Reader) -> (res: Result<LineNumberEntry, ClassFileError>) {
        let start_pc: u16 = r.read_u2()?;
        let line_number: u16 = r.read_u2()?;
        Ok(LineNumberEntry { start_pc, line_number })
    }
}

impl Decode for LocalVariableTableEntry {
    open spec fn grammar(s: Seq<u8>, pos: int) -> Parse<LocalVariableTableEntry> {
        if has_bytes(s, pos, 10) {
            Ok(
                (
                    LocalVariableTableEntry {
                        start_pc: be16(s, pos),
                        length: be16(s, pos + 2),
                        name_index: be16(s, pos + 4),
                        descriptor_index: be16(s, pos + 6),
                        index: be16(s, pos + 8),
                    },
                    10nat,
                ),
            )
        } else {
            Err(DecodeError::UnexpectedEof)
        }
    }

    fn decode(r: &mut Reader) -> (res: Result<LocalVariableTableEntry, ClassFileError>) {
        let start_pc: u16 = r.read_u2()?;
        let length: u16 = r.read_u2()?;
        let name_index: u16 = r.read_u2()?;
        let descriptor_index: u16 = r.read_u2()?;
        let index: u16 = r.read_u2()?;
        Ok(LocalVariableTableEntry { start_pc, length, name_index, descriptor_index, index })
    }
}

impl Decode for LocalVariableTypeTableEntry {
    open spec fn grammar(s: Seq<u8>, pos: int) -> Parse<LocalVariableTypeTableEntry> {
        if has_bytes(s, pos, 10) {
            Ok(
                (
                    LocalVariableTypeTableEntry {
                        start_pc: be16(s, pos),
                        length: be16(s, pos + 2),
                        name_index: be16(s, pos + 4),
                        signature_index: be16(s, pos + 6),
                        index: be16(s, pos + 8),
                    },
                    10nat,
                ),
            )
        } else {
            Err(DecodeError::UnexpectedEof)
        }
    }

    fn decode(r: &mut Reader) -> (res: Result<LocalVariableTypeTableEntry, ClassFileError>) {
        let start_pc: u16 = r.read_u2()?;
        let length: u16 = r.read_u2()?;
        let name_index: u16 = r.read_u2()?;
        let signature_index: u16 = r.read_u2()?;
        let index: u16 = r.read_u2()?;
        Ok(LocalVariableTypeTableEntry { start_pc, length, name_index, signature_index, index })
    }
}

impl Decode for InnerClassInfo {
    open spec fn grammar(s: Seq<u8>, pos: int) -> Parse<InnerClassInfo> {
        if has_bytes(s, pos, 8) {
            Ok(
                (
                    InnerClassInfo {
                        inner_class_info_index: be16(s, pos),
                        outer_class_info_index: be16(s, pos + 2),
                        inner_name_index: be16(s, pos + 4),
                        inner_class_access_flags: be16(s, pos + 6),
                    },
                    8nat,
                ),
            )
        } else {
            Err(DecodeError::UnexpectedEof)
        }
    }

    fn decode(r: &mut Reader) -> (res: Result<InnerClassInfo, ClassFileError>) {
        let inner_class_info_index: u16 = r.read_u2()?;
        let outer_class_info_index: u16 = r.read_u2()?;
        let inner_name_index: u16 = r.read_u2()?;
        let inner_class_access_flags: u16 = r.read_u2()?;
        Ok(
            InnerClassInfo {
                inner_class_info_index,
                outer_class_info_index,
                inner_name_index,
                inner_class_access_flags,
            },
        )
    }
}

impl Decode for MethodParameter {
    open spec fn grammar(s: Seq<u8>, pos: int) -> Parse<MethodParameter> {
        if has_bytes(s, pos, 4) {
            Ok((MethodParameter { name_index: be16(s, pos), access_flags: be16(s, pos + 2) }, 4nat))
        } else {
            Err(DecodeError::UnexpectedEof)
        }
    }

    fn decode(r: &mut Reader) -> (res: Result<MethodParameter, ClassFileError>) {
        let name_index: u16 = r.read_u2()?;
        let access_flags: u16 = r.read_u2()?;
        Ok(MethodParameter { name_index, access_flags })
    }
}

impl Decode for BootstrapMethod {
    open spec fn grammar(s: Seq<u8>, pos: int) -> Parse<BootstrapMethodModel> {
        match spec_u2(s, pos) {
            Err(e) => Err(e),
            Ok((bootstrap_method_ref, _)) => match spec_counted::<u16>(s, pos + 2) {
                Err(e) => Err(e),
                Ok((bootstrap_arguments, used)) => Ok(
                    (BootstrapMethodModel { bootstrap_method_ref, bootstrap_arguments }, 2 + used),
                ),
            },
        }
    }

    fn decode(r: &mut Reader) -> (res: Result<BootstrapMethod, ClassFileError>) {
        let bootstrap_method_ref: u16 = r.read_u2()?;
        let bootstrap_arguments = parse_counted::<u16>(r)?;
        Ok(BootstrapMethod { bootstrap_method_ref, bootstrap_arguments })
    }
}

} // verus!
