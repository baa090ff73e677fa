use vstd::prelude::*;
use vstd::slice::slice_to_vec;
use crate::classfile::decode::{lemma_plain_list, parse_counted, spec_counted, Decode};
use crate::classfile::error::{ClassFileError, DecodeError, Parse};
use crate::classfile::reader::{be16, decoded, has_bytes, spec_bytes, spec_u2, Reader};

verus! {

/// A module that this module depends on.
#[derive(Debug, Clone)]
pub struct ModuleRequires {
    pub requires_index: u16,
    pub requires_flags: u16,
    pub requires_version_index: u16,
}

impl DeepView for ModuleRequires {
    type V = ModuleRequires;

    open spec fn deep_view(&self) -> ModuleRequires {
        *self
    }
}

/// A package that this module exports, and to which modules.
#[derive(Debug, Clone)]
pub struct ModuleExports {
    pub exports_index: u16,
    pub exports_flags: u16,
    pub exports_to: Vec<u16>,
}

/// Mathematical value of a [`ModuleExports`].
pub struct ModuleExportsModel {
    pub exports_index: u16,
    pub exports_flags: u16,
    pub exports_to: Seq<u16>,
}

impl DeepView for ModuleExports {
    type V = ModuleExportsModel;

    open spec fn deep_view(&self) -> ModuleExportsModel {
        ModuleExportsModel {
            exports_index: self.exports_index,
            exports_flags: self.exports_flags,
            exports_to: self.exports_to.deep_view(),
        }
    }
}

/// A package that this module opens, and to which modules.
#[derive(Debug, Clone)]
pub struct ModuleOpens {
    pub opens_index: u16,
    pub opens_flags: u16,
    pub opens_to: Vec<u16>,
}

/// Mathematical value of a [`ModuleOpens`].
pub struct ModuleOpensModel {
    pub opens_index: u16,
    pub opens_flags: u16,
    pub opens_to: Seq<u16>,
}

impl DeepView for ModuleOpens {
    type V = ModuleOpensModel;

    open spec fn deep_view(&self) -> ModuleOpensModel {
        ModuleOpensModel {
            opens_index: self.opens_index,
            opens_flags: self.opens_flags,
            opens_to: self.opens_to.deep_view(),
        }
    }
}

/// A service that this module provides, and the classes that implement it.
#[derive(Debug, Clone)]
pub struct ModuleProvides {
    pub provides_index: u16,
    pub provides_with: Vec<u16>,
}

/// Mathematical value of a [`ModuleProvides`].
pub struct ModuleProvidesModel {
    pub provides_index: u16,
    pub provides_with: Seq<u16>,
}

impl DeepView for ModuleProvides {
    type V = ModuleProvidesModel;

    open spec fn deep_view(&self) -> ModuleProvidesModel {
        ModuleProvidesModel {
            provides_index: self.provides_index,
            provides_with: self.provides_with.deep_view(),
        }
    }
}

/// The hash of a module that this module was linked against.
#[derive(Debug, Clone)]
pub struct ModuleHash {
    pub module_name_index: u16,
    pub hash: Vec<u8>,
}

/// Mathematical value of a [`ModuleHash`].
pub struct ModuleHashModel {
    pub module_name_index: u16,
    pub hash: Seq<u8>,
}

impl DeepView for ModuleHash {
    type V = ModuleHashModel;

    open spec fn deep_view(&self) -> ModuleHashModel {
        ModuleHashModel { module_name_index: self.module_name_index, hash: self.hash.deep_view() }
    }
}

/// The `Module` attribute.
#[derive(Debug, Clone)]
pub struct ModuleAttribute {
    pub module_name_index: u16,
    pub module_flags: u16,
    pub module_version_index: u16,
    pub requires: Vec<ModuleRequires>,
    pub exports: Vec<ModuleExports>,
    pub opens: Vec<ModuleOpens>,
    pub uses: Vec<u16>,
    pub provides: Vec<ModuleProvides>,
}

/// Mathematical value of a [`ModuleAttribute`].
pub struct ModuleAttributeModel {
    pub module_name_index: u16,
    pub module_flags: u16,
    pub module_version_index: u16,
    pub requires: Seq<ModuleRequires>,
    pub exports: Seq<ModuleExportsModel>,
    pub opens: Seq<ModuleOpensModel>,
    pub uses: Seq<u16>,
    pub provides: Seq<ModuleProvidesModel>,
}

impl DeepView for ModuleAttribute {
    type V = ModuleAttributeModel;

    open spec fn deep_view(&self) -> ModuleAttributeModel {
        ModuleAttributeModel {
            module_name_index: self.module_name_index,
            module_flags: self.module_flags,
            module_version_index: self.module_version_index,
            requires: self.requires.deep_view(),
            exports: self.exports.deep_view(),
            opens: self.opens.deep_view(),
            uses: self.uses.deep_view(),
            provides: self.provides.deep_view(),
        }
    }
}

impl Decode for ModuleRequires {
    open spec fn grammar(s: Seq<u8>, pos: int) -> Parse<ModuleRequires> {
        if has_bytes(s, pos, 6) {
            Ok(
                (
                    ModuleRequires {
                        requires_index: be16(s, pos),
                        requires_flags: be16(s, pos + 2),
                        requires_version_index: be16(s, pos + 4),
                    },
                    6nat,
                ),
            )
        } else {
            Err(DecodeError::UnexpectedEof)
        }
    }

    fn decode(r: &mut Reader) -> (res: Result<ModuleRequires, ClassFileError>) {
        let requires_index: u16 = r.read_u2()?;
        let requires_flags: u16 = r.read_u2()?;
        let requires_version_index: u16 = r.read_u2()?;
        Ok(ModuleRequires { requires_index, requires_flags, requires_version_index })
    }
}

impl Decode for ModuleExports {
    open spec fn grammar(s: Seq<u8>, pos: int) -> Parse<ModuleExportsModel> {
        if !has_bytes(s, pos, 4) {
            Err(DecodeError::UnexpectedEof)
        } else {
            match spec_counted::<u16>(s, pos + 4) {
                Err(e) => Err(e),
                Ok((exports_to, used)) => Ok(
                    (
                        ModuleExportsModel {
                            exports_index: be16(s, pos),
                            exports_flags: be16(s, pos + 2),
                            exports_to,
                        },
                        4 + used,
                    ),
                ),
            }
        }
    }

    fn decode(r: &mut Reader) -> (res: Result<ModuleExports, ClassFileError>) {
        let exports_index: u16 = r.read_u2()?;
        let exports_flags: u16 = r.read_u2()?;
        let exports_to = parse_counted::<u16>(r)?;
        Ok(ModuleExports { exports_index, exports_flags, exports_to })
    }
}

impl Decode for ModuleOpens {
    open spec fn grammar(s: Seq<u8>, pos: int) -> Parse<ModuleOpensModel> {
        if !has_bytes(s, pos, 4) {
            Err(DecodeError::UnexpectedEof)
        } else {
            match spec_counted::<u16>(s, pos + 4) {
                Err(e) => Err(e),
                Ok((opens_to, used)) => Ok(
                    (
                        ModuleOpensModel {
                            opens_index: be16(s, pos),
                            opens_flags: be16(s, pos + 2),
                            opens_to,
                        },
                        4 + used,
                    ),
                ),
            }
        }
    }

    fn decode(r: &mut Reader) -> (res: Result<ModuleOpens, ClassFileError>) {
        let opens_index: u16 = r.read_u2()?;
        let opens_flags: u16 = r.read_u2()?;
        let opens_to = parse_counted::<u16>(r)?;
        Ok(ModuleOpens { opens_index, opens_flags, opens_to })
    }
}

impl Decode for ModuleProvides {
    open spec fn grammar(s: Seq<u8>, pos: int) -> Parse<ModuleProvidesModel> {
        match spec_u2(s, pos) {
            Err(e) => Err(e),
            Ok((provides_index, _)) => match spec_counted::<u16>(s, pos + 2) {
                Err(e) => Err(e),
                Ok((provides_with, used)) => Ok(
                    (ModuleProvidesModel { provides_index, provides_with }, 2 + used),
                ),
            },
        }
    }

    fn decode(r: &mut Reader) -> (res: Result<ModuleProvides, ClassFileError>) {
        let provides_index: u16 = r.read_u2()?;
        let provides_with = parse_counted::<u16>(r)?;
        Ok(ModuleProvides { provides_index, provides_with })
    }
}

impl Decode for ModuleHash {
    open spec fn grammar(s: Seq<u8>, pos: int) -> Parse<ModuleHashModel> {
        if !has_bytes(s, pos, 4) {
            Err(DecodeError::UnexpectedEof)
        } else {
            match spec_bytes(s, pos + 4, be16(s, pos + 2) as nat) {
                Err(e) => Err(e),
                Ok((hash, used)) => Ok(
                    (ModuleHashModel { module_name_index: be16(s, pos), hash }, 4 + used),
                ),
            }
        }
    }

    fn decode(r: &mut Reader) -> (res: Result<ModuleHash, ClassFileError>) {
        let module_name_index: u16 = r.read_u2()?;
        let hash_len: u16 = r.read_u2()?;
        let hash = slice_to_vec(r.read_bytes(hash_len as usize)?);
        proof {
            lemma_plain_list(hash);
        }
        Ok(ModuleHash { module_name_index, hash })
    }
}

/// Grammar of the `Module` body: three 16-bit fields, then the counted lists of
/// requires, exports, opens, uses and provides.
pub open spec fn spec_module_attribute(s: Seq<u8>, pos: int) -> Parse<ModuleAttributeModel> {
    if !has_bytes(s, pos, 6) {
        Err(DecodeError::UnexpectedEof)
    } else {
        match spec_counted::<ModuleRequires>(s, pos + 6) {
            Err(e) => Err(e),
            Ok((required, a)) => match spec_counted::<ModuleExports>(s, pos + 6 + a) {
                Err(e) => Err(e),
                Ok((exports, b)) => match spec_counted::<ModuleOpens>(s, pos + 6 + a + b) {
                    Err(e) => Err(e),
                    Ok((opens, c)) => match spec_counted::<u16>(s, pos + 6 + a + b + c) {
                        Err(e) => Err(e),
                        Ok((uses, d)) => match spec_counted::<ModuleProvides>(
                            s,
                            pos + 6 + a + b + c + d,
                        ) {
                            Err(e) => Err(e),
                            Ok((provides, f)) => Ok(
                                (
                                    ModuleAttributeModel {
                                        module_name_index: be16(s, pos),
                                        module_flags: be16(s, pos + 2),
                                        module_version_index: be16(s, pos + 4),
                                        requires: required,
                                        exports,
                                        opens,
                                        uses,
                                        provides,
                                    },
                                    6 + a + b + c + d + f,
                                ),
                            ),
                        },
                    },
                },
            },
        }
    }
}

/// Reads the body of a `Module` attribute.
pub fn parse_module_attribute(r: &mut Reader) -> (res: Result<ModuleAttribute, ClassFileError>)
    requires
        old(r).wf(),
    ensures
        decoded(res, *final(r), *old(r), spec_module_attribute(old(r).bytes(), old(r).offset())),
{
    let module_name_index: u16 = r.read_u2()?;
    let module_flags: u16 = r.read_u2()?;
    let module_version_index: u16 = r.read_u2()?;
    let required = parse_counted::<ModuleRequires>(r)?;
    let exports = parse_counted::<ModuleExports>(r)?;
    let opens = parse_counted::<ModuleOpens>(r)?;
    let uses = parse_counted::<u16>(r)?;
    let provides = parse_counted::<ModuleProvides>(r)?;
    Ok(
        ModuleAttribute {
            module_name_index,
            module_flags,
            module_version_index,
            requires: required,
            exports,
            opens,
            uses,
            provides,
        },
    )
}

} // verus!
