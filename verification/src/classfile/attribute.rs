use vstd::prelude::*;
use crate::classfile::annotation::{
    spec_element_value, Annotation, AnnotationModel, ElementValue, ElementValueModel,
};
use crate::classfile::constant_pool::{pool_utf8, PoolModel};
use crate::classfile::decode::{spec_counted, spec_counted_u1};
use crate::classfile::error::{DecodeError, Parse};
use crate::classfile::module::{
    spec_module_attribute, ModuleAttribute, ModuleAttributeModel, ModuleHash, ModuleHashModel,
};
use crate::classfile::reader::{be16, be32, bytes_left, has_bytes, spec_bytes, spec_u2};
use crate::classfile::stack_map::{
    spec_stack_map_table, StackMapTableAttribute, StackMapTableModel,
};
use crate::classfile::tables::{
    BootstrapMethod, BootstrapMethodModel, ExceptionTableEntry, InnerClassInfo, LineNumberEntry,
    LocalVariableTableEntry, LocalVariableTypeTableEntry, MethodParameter,
};
use crate::classfile::type_annotation::{TypeAnnotation, TypeAnnotationModel};

verus! {

/// One attribute of a class, field, method, code body or record component.
///
/// There is one variant for each attribute name that the decoder knows, and
/// `Unknown` for every other name, with the body as it stands in the file.
#[allow(inconsistent_fields)]
#[derive(Debug)]
pub enum AttributeInfo {
    ConstantValue { constantvalue_index: u16 },
    Code(CodeAttribute),
    StackMapTable(StackMapTableAttribute),
    Exceptions { exception_index_table: Vec<u16> },
    InnerClasses { classes: Vec<InnerClassInfo> },
    EnclosingMethod { class_index: u16, method_index: u16 },
    Synthetic,
    Signature { signature_index: u16 },
    SourceFile { sourcefile_index: u16 },
    SourceDebugExtension { debug_extension: Vec<u8> },
    LineNumberTable { entries: Vec<LineNumberEntry> },
    LocalVariableTable { entries: Vec<LocalVariableTableEntry> },
    LocalVariableTypeTable { entries: Vec<LocalVariableTypeTableEntry> },
    Deprecated,
    RuntimeVisibleAnnotations { annotations: Vec<Annotation> },
    RuntimeInvisibleAnnotations { annotations: Vec<Annotation> },
    RuntimeVisibleParameterAnnotations { parameter_annotations: Vec<Vec<Annotation>> },
    RuntimeInvisibleParameterAnnotations { parameter_annotations: Vec<Vec<Annotation>> },
    RuntimeVisibleTypeAnnotations { annotations: Vec<TypeAnnotation> },
    RuntimeInvisibleTypeAnnotations { annotations: Vec<TypeAnnotation> },
    AnnotationDefault { default_value: ElementValue },
    BootstrapMethods { methods: Vec<BootstrapMethod> },
    MethodParameters { parameters: Vec<MethodParameter> },
    Module(ModuleAttribute),
    ModulePackages { packages: Vec<u16> },
    ModuleMainClass { main_class_index: u16 },
    ModuleHashes { algorithm_index: u16, modules: Vec<ModuleHash> },
    ModuleTarget { target_platform_index: u16 },
    ModuleResolution { resolution_flags: u16 },
    NestHost { host_class_index: u16 },
    NestMembers { classes: Vec<u16> },
    Record { components: Vec<RecordComponent> },
    PermittedSubclasses { classes: Vec<u16> },
    Unknown { name: String, info: Vec<u8> },
}

/// The `Code` attribute: a method body. The instructions are kept as bytes.
#[derive(Debug)]
pub struct CodeAttribute {
    pub max_stack: u16,
    pub max_locals: u16,
    pub code: Vec<u8>,
    pub exception_table: Vec<ExceptionTableEntry>,
    pub attributes: Vec<AttributeInfo>,
}

/// One component of a record class.
#[derive(Debug)]
pub struct RecordComponent {
    pub name_index: u16,
    pub descriptor_index: u16,
    pub attributes: Vec<AttributeInfo>,
}

/// Mathematical value of an [`AttributeInfo`].
#[allow(inconsistent_fields)]
pub enum AttributeInfoModel {
    ConstantValue { constantvalue_index: u16 },
    Code(CodeAttributeModel),
    StackMapTable(StackMapTableModel),
    Exceptions { exception_index_table: Seq<u16> },
    InnerClasses { classes: Seq<InnerClassInfo> },
    EnclosingMethod { class_index: u16, method_index: u16 },
    Synthetic,
    Signature { signature_index: u16 },
    SourceFile { sourcefile_index: u16 },
    SourceDebugExtension { debug_extension: Seq<u8> },
    LineNumberTable { entries: Seq<LineNumberEntry> },
    LocalVariableTable { entries: Seq<LocalVariableTableEntry> },
    LocalVariableTypeTable { entries: Seq<LocalVariableTypeTableEntry> },
    Deprecated,
    RuntimeVisibleAnnotations { annotations: Seq<AnnotationModel> },
    RuntimeInvisibleAnnotations { annotations: Seq<AnnotationModel> },
    RuntimeVisibleParameterAnnotations { parameter_annotations: Seq<Seq<AnnotationModel>> },
    RuntimeInvisibleParameterAnnotations { parameter_annotations: Seq<Seq<AnnotationModel>> },
    RuntimeVisibleTypeAnnotations { annotations: Seq<TypeAnnotationModel> },
    RuntimeInvisibleTypeAnnotations { annotations: Seq<TypeAnnotationModel> },
    AnnotationDefault { default_value: ElementValueModel },
    BootstrapMethods { methods: Seq<BootstrapMethodModel> },
    MethodParameters { parameters: Seq<MethodParameter> },
    Module(ModuleAttributeModel),
    ModulePackages { packages: Seq<u16> },
    ModuleMainClass { main_class_index: u16 },
    ModuleHashes { algorithm_index: u16, modules: Seq<ModuleHashModel> },
    ModuleTarget { target_platform_index: u16 },
    ModuleResolution { resolution_flags: u16 },
    NestHost { host_class_index: u16 },
    NestMembers { classes: Seq<u16> },
    Record { components: Seq<RecordComponentModel> },
    PermittedSubclasses { classes: Seq<u16> },
    Unknown { name: Seq<char>, info: Seq<u8> },
}

/// Mathematical value of a [`CodeAttribute`].
pub struct CodeAttributeModel {
    pub max_stack: u16,
    pub max_locals: u16,
    pub code: Seq<u8>,
    pub exception_table: Seq<ExceptionTableEntry>,
    pub attributes: Seq<AttributeInfoModel>,
}

/// Mathematical value of a [`RecordComponent`].
pub struct RecordComponentModel {
    pub name_index: u16,
    pub descriptor_index: u16,
    pub attributes: Seq<AttributeInfoModel>,
}

/// Model of an attribute.
#[verifier::opaque]
pub open spec fn attribute_model(a: AttributeInfo) -> AttributeInfoModel
    decreases a,
{
    match a {
        AttributeInfo::ConstantValue { constantvalue_index } => AttributeInfoModel::ConstantValue {
            constantvalue_index,
        },
        AttributeInfo::Code(code) => AttributeInfoModel::Code(code_model(code)),
        AttributeInfo::StackMapTable(table) => AttributeInfoModel::StackMapTable(table.deep_view()),
        AttributeInfo::Exceptions { exception_index_table } => AttributeInfoModel::Exceptions {
            exception_index_table: exception_index_table.deep_view(),
        },
        AttributeInfo::InnerClasses { classes } => AttributeInfoModel::InnerClasses {
            classes: classes.deep_view(),
        },
        AttributeInfo::EnclosingMethod { class_index, method_index } => AttributeInfoModel::EnclosingMethod {
            class_index,
            method_index,
        },
        AttributeInfo::Synthetic => AttributeInfoModel::Synthetic,
        AttributeInfo::Signature { signature_index } => AttributeInfoModel::Signature {
            signature_index,
        },
        AttributeInfo::SourceFile { sourcefile_index } => AttributeInfoModel::SourceFile {
            sourcefile_index,
        },
        AttributeInfo::SourceDebugExtension {
            debug_extension,
        } => AttributeInfoModel::SourceDebugExtension { debug_extension: debug_extension.deep_view() },
        AttributeInfo::LineNumberTable { entries } => AttributeInfoModel::LineNumberTable {
            entries: entries.deep_view(),
        },
        AttributeInfo::LocalVariableTable { entries } => AttributeInfoModel::LocalVariableTable {
            entries: entries.deep_view(),
        },
        AttributeInfo::LocalVariableTypeTable {
            entries,
        } => AttributeInfoModel::LocalVariableTypeTable { entries: entries.deep_view() },
        AttributeInfo::Deprecated => AttributeInfoModel::Deprecated,
        AttributeInfo::RuntimeVisibleAnnotations {
            annotations,
        } => AttributeInfoModel::RuntimeVisibleAnnotations { annotations: annotations.deep_view() },
        AttributeInfo::RuntimeInvisibleAnnotations {
            annotations,
        } => AttributeInfoModel::RuntimeInvisibleAnnotations { annotations: annotations.deep_view() },
        AttributeInfo::RuntimeVisibleParameterAnnotations {
            parameter_annotations,
        } => AttributeInfoModel::RuntimeVisibleParameterAnnotations {
            parameter_annotations: parameter_annotations.deep_view(),
        },
        AttributeInfo::RuntimeInvisibleParameterAnnotations {
            parameter_annotations,
        } => AttributeInfoModel::RuntimeInvisibleParameterAnnotations {
            parameter_annotations: parameter_annotations.deep_view(),
        },
        AttributeInfo::RuntimeVisibleTypeAnnotations {
            annotations,
        } => AttributeInfoModel::RuntimeVisibleTypeAnnotations { annotations: annotations.deep_view() },
        AttributeInfo::RuntimeInvisibleTypeAnnotations {
            annotations,
        } => AttributeInfoModel::RuntimeInvisibleTypeAnnotations {
            annotations: annotations.deep_view(),
        },
        AttributeInfo::AnnotationDefault { default_value } => AttributeInfoModel::AnnotationDefault {
            default_value: default_value.deep_view(),
        },
        AttributeInfo::BootstrapMethods { methods } => AttributeInfoModel::BootstrapMethods {
            methods: methods.deep_view(),
        },
        AttributeInfo::MethodParameters { parameters } => AttributeInfoModel::MethodParameters {
            parameters: parameters.deep_view(),
        },
        AttributeInfo::Module(module) => AttributeInfoModel::Module(module.deep_view()),
        AttributeInfo::ModulePackages { packages } => AttributeInfoModel::ModulePackages {
            packages: packages.deep_view(),
        },
        AttributeInfo::ModuleMainClass { main_class_index } => AttributeInfoModel::ModuleMainClass {
            main_class_index,
        },
        AttributeInfo::ModuleHashes { algorithm_index, modules } => AttributeInfoModel::ModuleHashes {
            algorithm_index,
            modules: modules.deep_view(),
        },
        AttributeInfo::ModuleTarget { target_platform_index } => AttributeInfoModel::ModuleTarget {
            target_platform_index,
        },
        AttributeInfo::ModuleResolution { resolution_flags } => AttributeInfoModel::ModuleResolution {
            resolution_flags,
        },
        AttributeInfo::NestHost { host_class_index } => AttributeInfoModel::NestHost {
            host_class_index,
        },
        AttributeInfo::NestMembers { classes } => AttributeInfoModel::NestMembers {
            classes: classes.deep_view(),
        },
        AttributeInfo::Record { components } => AttributeInfoModel::Record {
            components: component_models(components@),
        },
        AttributeInfo::PermittedSubclasses { classes } => AttributeInfoModel::PermittedSubclasses {
            classes: classes.deep_view(),
        },
        AttributeInfo::Unknown { name, info } => AttributeInfoModel::Unknown {
            name: name@,
            info: info.deep_view(),
        },
    }
}

/// Models of attributes, in order.
pub open spec fn attribute_models(s: Seq<AttributeInfo>) -> Seq<AttributeInfoModel>
    decreases s,
{
    Seq::new(
        s.len(),
        |i: int|
            if 0 <= i < s.len() {
                attribute_model(s[i])
            } else {
                arbitrary()
            },
    )
}

/// Model of a `Code` attribute.
pub open spec fn code_model(c: CodeAttribute) -> CodeAttributeModel
    decreases c,
{
    CodeAttributeModel {
        max_stack: c.max_stack,
        max_locals: c.max_locals,
        code: c.code.deep_view(),
        exception_table: c.exception_table.deep_view(),
        attributes: attribute_models(c.attributes@),
    }
}

/// Model of a record component.
pub open spec fn component_model(c: RecordComponent) -> RecordComponentModel
    decreases c,
{
    RecordComponentModel {
        name_index: c.name_index,
        descriptor_index: c.descriptor_index,
        attributes: attribute_models(c.attributes@),
    }
}

/// Models of record components, in order.
pub open spec fn component_models(s: Seq<RecordComponent>) -> Seq<RecordComponentModel>
    decreases s,
{
    Seq::new(
        s.len(),
        |i: int|
            if 0 <= i < s.len() {
                component_model(s[i])
            } else {
                arbitrary()
            },
    )
}

impl DeepView for AttributeInfo {
    type V = AttributeInfoModel;

    open spec fn deep_view(&self) -> AttributeInfoModel {
        attribute_model(*self)
    }
}

impl DeepView for CodeAttribute {
    type V = CodeAttributeModel;

    open spec fn deep_view(&self) -> CodeAttributeModel {
        code_model(*self)
    }
}

impl DeepView for RecordComponent {
    type V = RecordComponentModel;

    open spec fn deep_view(&self) -> RecordComponentModel {
        component_model(*self)
    }
}

/// The model of a list of attributes is the list of the attributes' models.
pub proof fn lemma_attribute_models(v: Vec<AttributeInfo>)
    ensures
        attribute_models(v@) == v.deep_view(),
{
    reveal(attribute_model);
    assert(attribute_models(v@) =~= v.deep_view());
}

/// The model of a list of components is the list of the components' models.
pub proof fn lemma_component_models(v: Vec<RecordComponent>)
    ensures
        component_models(v@) == v.deep_view(),
{
    assert(component_models(v@) =~= v.deep_view());
}

/// The attribute that a name stands for.
#[derive(Debug, Clone, Copy)]
pub enum AttributeKind {
    ConstantValue,
    Code,
    StackMapTable,
    Exceptions,
    InnerClasses,
    EnclosingMethod,
    Synthetic,
    Signature,
    SourceFile,
    SourceDebugExtension,
    LineNumberTable,
    LocalVariableTable,
    LocalVariableTypeTable,
    Deprecated,
    RuntimeVisibleAnnotations,
    RuntimeInvisibleAnnotations,
    RuntimeVisibleParameterAnnotations,
    RuntimeInvisibleParameterAnnotations,
    RuntimeVisibleTypeAnnotations,
    RuntimeInvisibleTypeAnnotations,
    AnnotationDefault,
    BootstrapMethods,
    MethodParameters,
    Module,
    ModulePackages,
    ModuleMainClass,
    ModuleHashes,
    ModuleTarget,
    ModuleResolution,
    NestHost,
    NestMembers,
    Record,
    PermittedSubclasses,
    Unknown,
}

/// The attribute kind with exactly this name; `Unknown` for any other name.
#[verifier::opaque]
pub open spec fn attribute_kind(name: Seq<char>) -> AttributeKind {
    if name == "ConstantValue"@ {
        AttributeKind::ConstantValue
    } else if name == "Code"@ {
        AttributeKind::Code
    } else if name == "StackMapTable"@ {
        AttributeKind::StackMapTable
    } else if name == "Exceptions"@ {
        AttributeKind::Exceptions
    } else if name == "InnerClasses"@ {
        AttributeKind::InnerClasses
    } else if name == "EnclosingMethod"@ {
        AttributeKind::EnclosingMethod
    } else if name == "Synthetic"@ {
        AttributeKind::Synthetic
    } else if name == "Signature"@ {
        AttributeKind::Signature
    } else if name == "SourceFile"@ {
        AttributeKind::SourceFile
    } else if name == "SourceDebugExtension"@ {
        AttributeKind::SourceDebugExtension
    } else if name == "LineNumberTable"@ {
        AttributeKind::LineNumberTable
    } else if name == "LocalVariableTable"@ {
        AttributeKind::LocalVariableTable
    } else if name == "LocalVariableTypeTable"@ {
        AttributeKind::LocalVariableTypeTable
    } else if name == "Deprecated"@ {
        AttributeKind::Deprecated
    } else if name == "RuntimeVisibleAnnotations"@ {
        AttributeKind::RuntimeVisibleAnnotations
    } else if name == "RuntimeInvisibleAnnotations"@ {
        AttributeKind::RuntimeInvisibleAnnotations
    } else if name == "RuntimeVisibleParameterAnnotations"@ {
        AttributeKind::RuntimeVisibleParameterAnnotations
    } else if name == "RuntimeInvisibleParameterAnnotations"@ {
        AttributeKind::RuntimeInvisibleParameterAnnotations
    } else if name == "RuntimeVisibleTypeAnnotations"@ {
        AttributeKind::RuntimeVisibleTypeAnnotations
    } else if name == "RuntimeInvisibleTypeAnnotations"@ {
        AttributeKind::RuntimeInvisibleTypeAnnotations
    } else if name == "AnnotationDefault"@ {
        AttributeKind::AnnotationDefault
    } else if name == "BootstrapMethods"@ {
        AttributeKind::BootstrapMethods
    } else if name == "MethodParameters"@ {
        AttributeKind::MethodParameters
    } else if name == "Module"@ {
        AttributeKind::Module
    } else if name == "ModulePackages"@ {
        AttributeKind::ModulePackages
    } else if name == "ModuleMainClass"@ {
        AttributeKind::ModuleMainClass
    } else if name == "ModuleHashes"@ {
        AttributeKind::ModuleHashes
    } else if name == "ModuleTarget"@ {
        AttributeKind::ModuleTarget
    } else if name == "ModuleResolution"@ {
        AttributeKind::ModuleResolution
    } else if name == "NestHost"@ {
        AttributeKind::NestHost
    } else if name == "NestMembers"@ {
        AttributeKind::NestMembers
    } else if name == "Record"@ {
        AttributeKind::Record
    } else if name == "PermittedSubclasses"@ {
        AttributeKind::PermittedSubclasses
    } else {
        AttributeKind::Unknown
    }
}

/// Grammar of one 16-bit index that makes up a whole attribute body.
pub open spec fn spec_index(body: Seq<u8>) -> Parse<u16> {
    spec_u2(body, 0)
}

/// Grammar of an attribute list: a 16-bit count and that many attributes.
pub open spec fn spec_attributes(s: Seq<u8>, pos: int, cp: PoolModel) -> Parse<Seq<AttributeInfoModel>>
    decreases bytes_left(s, pos), 3nat, 0nat,
{
    match spec_u2(s, pos) {
        Err(e) => Err(e),
        Ok((n, _)) => match spec_attribute_list(s, pos + 2, cp, n as nat) {
            Err(e) => Err(e),
            Ok((attributes, used)) => Ok((attributes, 2 + used)),
        },
    }
}

/// Grammar of `n` attributes in a row.
pub open spec fn spec_attribute_list(s: Seq<u8>, pos: int, cp: PoolModel, n: nat) -> Parse<
    Seq<AttributeInfoModel>,
>
    decreases bytes_left(s, pos), 2nat, n,
{
    if n == 0 {
        Ok((Seq::empty(), 0nat))
    } else {
        match spec_attribute_list(s, pos, cp, (n - 1) as nat) {
            Err(e) => Err(e),
            Ok((attributes, used)) => match spec_attribute(s, pos + used, cp) {
                Err(e) => Err(e),
                Ok((attribute, len)) => Ok((attributes.push(attribute), used + len)),
            },
        }
    }
}

/// Grammar of one attribute: the index of its name, which must resolve to text in
/// the pool, the length of its body, and the body. The body is decoded on its own,
/// by the rule that the name selects, and must be used up to the last byte: a body
/// that ends early is the error `InvalidAttribute` with the attribute's name.
#[verifier::opaque]
pub open spec fn spec_attribute(s: Seq<u8>, pos: int, cp: PoolModel) -> Parse<AttributeInfoModel>
    decreases bytes_left(s, pos), 1nat, 0nat,
{
    if !has_bytes(s, pos, 6) {
        Err(DecodeError::UnexpectedEof)
    } else {
        let length = be32(s, pos + 2) as int;
        match pool_utf8(cp, be16(s, pos)) {
            Err(e) => Err(e),
            Ok(name) => if !has_bytes(s, pos + 6, length) {
                Err(DecodeError::UnexpectedEof)
            } else {
                let body = s.subrange(pos + 6, pos + 6 + length);
                match spec_attribute_body(attribute_kind(name), name, body, cp) {
                    Err(e) => Err(e),
                    Ok((attribute, used)) => if used == length {
                        Ok((attribute, (6 + length) as nat))
                    } else {
                        Err(DecodeError::InvalidAttribute(name))
                    },
                }
            },
        }
    }
}

/// Grammar of the `Code` body: stack and locals limits, the counted code bytes, the
/// counted exception table, and the attributes of the code.
pub open spec fn spec_code_attribute(s: Seq<u8>, pos: int, cp: PoolModel) -> Parse<CodeAttributeModel>
    decreases bytes_left(s, pos), 4nat, 0nat,
{
    if !has_bytes(s, pos, 8) {
        Err(DecodeError::UnexpectedEof)
    } else {
        let code_length = be32(s, pos + 4) as nat;
        match spec_bytes(s, pos + 8, code_length) {
            Err(e) => Err(e),
            Ok((code, _)) => match spec_counted::<ExceptionTableEntry>(s, pos + 8 + code_length) {
                Err(e) => Err(e),
                Ok((exception_table, a)) => match spec_attributes(s, pos + 8 + code_length + a, cp) {
                    Err(e) => Err(e),
                    Ok((attributes, b)) => Ok(
                        (
                            CodeAttributeModel {
                                max_stack: be16(s, pos),
                                max_locals: be16(s, pos + 2),
                                code,
                                exception_table,
                                attributes,
                            },
                            8 + code_length + a + b,
                        ),
                    ),
                },
            },
        }
    }
}

/// Grammar of `n` record components in a row: each a name index, a descriptor index
/// and an attribute list.
pub open spec fn spec_record_components(s: Seq<u8>, pos: int, cp: PoolModel, n: nat) -> Parse<
    Seq<RecordComponentModel>,
>
    decreases bytes_left(s, pos), 4nat, n,
{
    if n == 0 {
        Ok((Seq::empty(), 0nat))
    } else {
        match spec_record_components(s, pos, cp, (n - 1) as nat) {
            Err(e) => Err(e),
            Ok((components, used)) => if !has_bytes(s, pos + used, 4) {
                Err(DecodeError::UnexpectedEof)
            } else {
                match spec_attributes(s, pos + used + 4, cp) {
                    Err(e) => Err(e),
                    Ok((attributes, len)) => Ok(
                        (
                            components.push(
                                RecordComponentModel {
                                    name_index: be16(s, pos + used),
                                    descriptor_index: be16(s, pos + used + 2),
                                    attributes,
                                },
                            ),
                            used + 4 + len,
                        ),
                    ),
                }
            },
        }
    }
}

/// Grammar of an attribute body of the given kind, from the first byte of `body`.
/// `Synthetic` and `Deprecated` have no body; `SourceDebugExtension` and `Unknown`
/// take the body as it is.
#[verifier::opaque]
pub open spec fn spec_attribute_body(
    kind: AttributeKind,
    name: Seq<char>,
    body: Seq<u8>,
    cp: PoolModel,
) -> Parse<AttributeInfoModel>
    decreases body.len(), 5nat, 0nat,
{
    match kind {
        AttributeKind::ConstantValue => match spec_index(body) {
            Err(e) => Err(e),
            Ok((constantvalue_index, used)) => Ok(
                (AttributeInfoModel::ConstantValue { constantvalue_index }, used),
            ),
        },
        AttributeKind::Code => match spec_code_attribute(body, 0, cp) {
            Err(e) => Err(e),
            Ok((code, used)) => Ok((AttributeInfoModel::Code(code), used)),
        },
        AttributeKind::StackMapTable => match spec_stack_map_table(body, 0) {
            Err(e) => Err(e),
            Ok((table, used)) => Ok((AttributeInfoModel::StackMapTable(table), used)),
        },
        AttributeKind::Exceptions => match spec_counted::<u16>(body, 0) {
            Err(e) => Err(e),
            Ok((exception_index_table, used)) => Ok(
                (AttributeInfoModel::Exceptions { exception_index_table }, used),
            ),
        },
        AttributeKind::InnerClasses => match spec_counted::<InnerClassInfo>(body, 0) {
            Err(e) => Err(e),
            Ok((classes, used)) => Ok((AttributeInfoModel::InnerClasses { classes }, used)),
        },
        AttributeKind::EnclosingMethod => if has_bytes(body, 0, 4) {
            Ok(
                (
                    AttributeInfoModel::EnclosingMethod {
                        class_index: be16(body, 0),
                        method_index: be16(body, 2),
                    },
                    4nat,
                ),
            )
        } else {
            Err(DecodeError::UnexpectedEof)
        },
        AttributeKind::Synthetic => Ok((AttributeInfoModel::Synthetic, 0nat)),
        AttributeKind::Signature => match spec_index(body) {
            Err(e) => Err(e),
            Ok((signature_index, used)) => Ok((AttributeInfoModel::Signature { signature_index }, used)),
        },
        AttributeKind::SourceFile => match spec_index(body) {
            Err(e) => Err(e),
            Ok((sourcefile_index, used)) => Ok(
                (AttributeInfoModel::SourceFile { sourcefile_index }, used),
            ),
        },
        AttributeKind::SourceDebugExtension => Ok(
            (AttributeInfoModel::SourceDebugExtension { debug_extension: body }, body.len()),
        ),
        AttributeKind::LineNumberTable => match spec_counted::<LineNumberEntry>(body, 0) {
            Err(e) => Err(e),
            Ok((entries, used)) => Ok((AttributeInfoModel::LineNumberTable { entries }, used)),
        },
        AttributeKind::LocalVariableTable => match spec_counted::<LocalVariableTableEntry>(body, 0) {
            Err(e) => Err(e),
            Ok((entries, used)) => Ok((AttributeInfoModel::LocalVariableTable { entries }, used)),
        },
        AttributeKind::LocalVariableTypeTable => match spec_counted::<LocalVariableTypeTableEntry>(
            body,
            0,
        ) {
            Err(e) => Err(e),
            Ok((entries, used)) => Ok((AttributeInfoModel::LocalVariableTypeTable { entries }, used)),
        },
        AttributeKind::Deprecated => Ok((AttributeInfoModel::Deprecated, 0nat)),
        AttributeKind::RuntimeVisibleAnnotations => match spec_counted::<Annotation>(body, 0) {
            Err(e) => Err(e),
            Ok((annotations, used)) => Ok(
                (AttributeInfoModel::RuntimeVisibleAnnotations { annotations }, used),
            ),
        },
        AttributeKind::RuntimeInvisibleAnnotations => match spec_counted::<Annotation>(body, 0) {
            Err(e) => Err(e),
            Ok((annotations, used)) => Ok(
                (AttributeInfoModel::RuntimeInvisibleAnnotations { annotations }, used),
            ),
        },
        AttributeKind::RuntimeVisibleParameterAnnotations => match spec_counted_u1::<Vec<Annotation>>(
            body,
            0,
        ) {
            Err(e) => Err(e),
            Ok((parameter_annotations, used)) => Ok(
                (
                    AttributeInfoModel::RuntimeVisibleParameterAnnotations { parameter_annotations },
                    used,
                ),
            ),
        },
        AttributeKind::RuntimeInvisibleParameterAnnotations => match spec_counted_u1::<
            Vec<Annotation>,
        >(body, 0) {
            Err(e) => Err(e),
            Ok((parameter_annotations, used)) => Ok(
                (
                    AttributeInfoModel::RuntimeInvisibleParameterAnnotations { parameter_annotations },
                    used,
                ),
            ),
        },
        AttributeKind::RuntimeVisibleTypeAnnotations => match spec_counted::<TypeAnnotation>(body, 0) {
            Err(e) => Err(e),
            Ok((annotations, used)) => Ok(
                (AttributeInfoModel::RuntimeVisibleTypeAnnotations { annotations }, used),
            ),
        },
        AttributeKind::RuntimeInvisibleTypeAnnotations => match spec_counted::<TypeAnnotation>(
            body,
            0,
        ) {
            Err(e) => Err(e),
            Ok((annotations, used)) => Ok(
                (AttributeInfoModel::RuntimeInvisibleTypeAnnotations { annotations }, used),
            ),
        },
        AttributeKind::AnnotationDefault => match spec_element_value(body, 0) {
            Err(e) => Err(e),
            Ok((default_value, used)) => Ok(
                (AttributeInfoModel::AnnotationDefault { default_value }, used),
            ),
        },
        AttributeKind::BootstrapMethods => match spec_counted::<BootstrapMethod>(body, 0) {
            Err(e) => Err(e),
            Ok((methods, used)) => Ok((AttributeInfoModel::BootstrapMethods { methods }, used)),
        },
        AttributeKind::MethodParameters => match spec_counted_u1::<MethodParameter>(body, 0) {
            Err(e) => Err(e),
            Ok((parameters, used)) => Ok((AttributeInfoModel::MethodParameters { parameters }, used)),
        },
        AttributeKind::Module => match spec_module_attribute(body, 0) {
            Err(e) => Err(e),
            Ok((module, used)) => Ok((AttributeInfoModel::Module(module), used)),
        },
        AttributeKind::ModulePackages => match spec_counted::<u16>(body, 0) {
            Err(e) => Err(e),
            Ok((packages, used)) => Ok((AttributeInfoModel::ModulePackages { packages }, used)),
        },
        AttributeKind::ModuleMainClass => match spec_index(body) {
            Err(e) => Err(e),
            Ok((main_class_index, used)) => Ok(
                (AttributeInfoModel::ModuleMainClass { main_class_index }, used),
            ),
        },
        AttributeKind::ModuleHashes => match spec_index(body) {
            Err(e) => Err(e),
            Ok((algorithm_index, _)) => match spec_counted::<ModuleHash>(body, 2) {
                Err(e) => Err(e),
                Ok((modules, used)) => Ok(
                    (AttributeInfoModel::ModuleHashes { algorithm_index, modules }, 2 + used),
                ),
            },
        },
        AttributeKind::ModuleTarget => match spec_index(body) {
            Err(e) => Err(e),
            Ok((target_platform_index, used)) => Ok(
                (AttributeInfoModel::ModuleTarget { target_platform_index }, used),
            ),
        },
        AttributeKind::ModuleResolution => match spec_index(body) {
            Err(e) => Err(e),
            Ok((resolution_flags, used)) => Ok(
                (AttributeInfoModel::ModuleResolution { resolution_flags }, used),
            ),
        },
        AttributeKind::NestHost => match spec_index(body) {
            Err(e) => Err(e),
            Ok((host_class_index, used)) => Ok(
                (AttributeInfoModel::NestHost { host_class_index }, used),
            ),
        },
        AttributeKind::NestMembers => match spec_counted::<u16>(body, 0) {
            Err(e) => Err(e),
            Ok((classes, used)) => Ok((AttributeInfoModel::NestMembers { classes }, used)),
        },
        AttributeKind::Record => match spec_index(body) {
            Err(e) => Err(e),
            Ok((n, _)) => match spec_record_components(body, 2, cp, n as nat) {
                Err(e) => Err(e),
                Ok((components, used)) => Ok((AttributeInfoModel::Record { components }, 2 + used)),
            },
        },
        AttributeKind::PermittedSubclasses => match spec_counted::<u16>(body, 0) {
            Err(e) => Err(e),
            Ok((classes, used)) => Ok((AttributeInfoModel::PermittedSubclasses { classes }, used)),
        },
        AttributeKind::Unknown => Ok((AttributeInfoModel::Unknown { name, info: body }, body.len())),
    }
}

} // verus!
