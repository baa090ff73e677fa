use vstd::prelude::*;
use vstd::slice::slice_to_vec;
use crate::classfile::annotation::{
    parse_annotations, parse_element_value, parse_parameter_annotations,
};
use crate::classfile::attribute::{
    attribute_model, spec_attribute_body, AttributeInfo, AttributeKind,
};
use crate::classfile::attribute_decode::{parse_code_attribute, parse_record_components};
use crate::classfile::attribute::lemma_component_models;
use crate::classfile::constant_pool::ConstantPool;
use crate::classfile::decode::{lemma_plain_list, parse_counted, parse_counted_u1};
use crate::classfile::error::ClassFileError;
use crate::classfile::module::{parse_module_attribute, ModuleHash};
use crate::classfile::reader::{decoded, Reader};
use crate::classfile::stack_map::parse_stack_map_table;
use crate::classfile::tables::{
    BootstrapMethod, InnerClassInfo, LineNumberEntry, LocalVariableTableEntry,
    LocalVariableTypeTableEntry, MethodParameter,
};
use crate::classfile::type_annotation::parse_type_annotations;

verus! {

/// Reads an attribute body of the given kind from a reader that holds the body
/// and nothing else. `name` is the attribute's name; an unknown attribute keeps it.
#[verifier::spinoff_prover]
#[verifier::rlimit(40)]
pub fn parse_attribute_body(
    kind: AttributeKind,
    name: &str,
    sub: &mut Reader,
    cp: &ConstantPool,
) -> (res: Result<AttributeInfo, ClassFileError>)
    requires
        old(sub).wf(),
        old(sub).offset() == 0,
    ensures
        decoded(
            res,
            *final(sub),
            *old(sub),
            spec_attribute_body(kind, name@, old(sub).bytes(), cp.deep_view()),
        ),
    decreases old(sub).left(), 5nat,
{
    proof {
        reveal(spec_attribute_body);
        reveal(attribute_model);
        sub.lemma_in_bounds();
    }
    let attr = match kind {
        AttributeKind::ConstantValue => {
            let constantvalue_index: u16 = sub.read_u2()?;
            AttributeInfo::ConstantValue { constantvalue_index }
        },
        AttributeKind::Code => AttributeInfo::Code(parse_code_attribute(sub, cp)?),
        AttributeKind::StackMapTable => AttributeInfo::StackMapTable(parse_stack_map_table(sub)?),
        AttributeKind::Exceptions => {
            let exception_index_table = parse_counted::<u16>(sub)?;
            AttributeInfo::Exceptions { exception_index_table }
        },
        AttributeKind::InnerClasses => {
            let classes = parse_counted::<InnerClassInfo>(sub)?;
            AttributeInfo::InnerClasses { classes }
        },
        AttributeKind::EnclosingMethod => {
            let class_index: u16 = sub.read_u2()?;
            let method_index: u16 = sub.read_u2()?;
            AttributeInfo::EnclosingMethod { class_index, method_index }
        },
        AttributeKind::Synthetic => AttributeInfo::Synthetic,
        AttributeKind::Signature => {
            let signature_index: u16 = sub.read_u2()?;
            AttributeInfo::Signature { signature_index }
        },
        AttributeKind::SourceFile => {
            let sourcefile_index: u16 = sub.read_u2()?;
            AttributeInfo::SourceFile { sourcefile_index }
        },
        AttributeKind::SourceDebugExtension => {
            let rest: usize = sub.remaining();
            let debug_extension = slice_to_vec(sub.read_bytes(rest)?);
            proof {
                lemma_plain_list(debug_extension);
                assert(debug_extension@ =~= old(sub).bytes());
            }
            AttributeInfo::SourceDebugExtension { debug_extension }
        },
        AttributeKind::LineNumberTable => {
            let entries = parse_counted::<LineNumberEntry>(sub)?;
            AttributeInfo::LineNumberTable { entries }
        },
        AttributeKind::LocalVariableTable => {
            let entries = parse_counted::<LocalVariableTableEntry>(sub)?;
            AttributeInfo::LocalVariableTable { entries }
        },
        AttributeKind::LocalVariableTypeTable => {
            let entries = parse_counted::<LocalVariableTypeTableEntry>(sub)?;
            AttributeInfo::LocalVariableTypeTable { entries }
        },
        AttributeKind::Deprecated => AttributeInfo::Deprecated,
        AttributeKind::RuntimeVisibleAnnotations => {
            let annotations = parse_annotations(sub)?;
            AttributeInfo::RuntimeVisibleAnnotations { annotations }
        },
        AttributeKind::RuntimeInvisibleAnnotations => {
            let annotations = parse_annotations(sub)?;
            AttributeInfo::RuntimeInvisibleAnnotations { annotations }
        },
        AttributeKind::RuntimeVisibleParameterAnnotations => {
            let parameter_annotations = parse_parameter_annotations(sub)?;
            AttributeInfo::RuntimeVisibleParameterAnnotations { parameter_annotations }
        },
        AttributeKind::RuntimeInvisibleParameterAnnotations => {
            let parameter_annotations = parse_parameter_annotations(sub)?;
            AttributeInfo::RuntimeInvisibleParameterAnnotations { parameter_annotations }
        },
        AttributeKind::RuntimeVisibleTypeAnnotations => {
            let annotations = parse_type_annotations(sub)?;
            AttributeInfo::RuntimeVisibleTypeAnnotations { annotations }
        },
        AttributeKind::RuntimeInvisibleTypeAnnotations => {
            let annotations = parse_type_annotations(sub)?;
            AttributeInfo::RuntimeInvisibleTypeAnnotations { annotations }
        },
        AttributeKind::AnnotationDefault => {
            let default_value = parse_element_value(sub)?;
            AttributeInfo::AnnotationDefault { default_value }
        },
        AttributeKind::BootstrapMethods => {
            let methods = parse_counted::<BootstrapMethod>(sub)?;
            AttributeInfo::BootstrapMethods { methods }
        },
        AttributeKind::MethodParameters => {
            let parameters = parse_counted_u1::<MethodParameter>(sub)?;
            AttributeInfo::MethodParameters { parameters }
        },
        AttributeKind::Module => AttributeInfo::Module(parse_module_attribute(sub)?),
        AttributeKind::ModulePackages => {
            let packages = parse_counted::<u16>(sub)?;
            AttributeInfo::ModulePackages { packages }
        },
        AttributeKind::ModuleMainClass => {
            let main_class_index: u16 = sub.read_u2()?;
            AttributeInfo::ModuleMainClass { main_class_index }
        },
        AttributeKind::ModuleHashes => {
            let algorithm_index: u16 = sub.read_u2()?;
            let modules = parse_counted::<ModuleHash>(sub)?;
            AttributeInfo::ModuleHashes { algorithm_index, modules }
        },
        AttributeKind::ModuleTarget => {
            let target_platform_index: u16 = sub.read_u2()?;
            AttributeInfo::ModuleTarget { target_platform_index }
        },
        AttributeKind::ModuleResolution => {
            let resolution_flags: u16 = sub.read_u2()?;
            AttributeInfo::ModuleResolution { resolution_flags }
        },
        AttributeKind::NestHost => {
            let host_class_index: u16 = sub.read_u2()?;
            AttributeInfo::NestHost { host_class_index }
        },
        AttributeKind::NestMembers => {
            let classes = parse_counted::<u16>(sub)?;
            AttributeInfo::NestMembers { classes }
        },
        AttributeKind::Record => {
            let components = parse_record_components(sub, cp)?;
            proof {
                lemma_component_models(components);
            }
            AttributeInfo::Record { components }
        },
        AttributeKind::PermittedSubclasses => {
            let classes = parse_counted::<u16>(sub)?;
            AttributeInfo::PermittedSubclasses { classes }
        },
        AttributeKind::Unknown => {
            let rest: usize = sub.remaining();
            let info = slice_to_vec(sub.read_bytes(rest)?);
            proof {
                lemma_plain_list(info);
                assert(info@ =~= old(sub).bytes());
            }
            AttributeInfo::Unknown { name: name.to_owned(), info }
        },
    };
    Ok(attr)
}

} // verus!
