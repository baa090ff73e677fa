use vstd::prelude::*;
use crate::classfile::attribute::{attribute_kind, AttributeKind};
use crate::classfile::text::same_text;

verus! {

/// The attribute kind that `name` stands for.
pub fn attribute_kind_of(name: &str) -> (kind: AttributeKind)
    ensures
        kind == attribute_kind(name@),
{
    reveal(attribute_kind);
    if same_text(name, "ConstantValue") {
        AttributeKind::ConstantValue
    } else if same_text(name, "Code") {
        AttributeKind::Code
    } else if same_text(name, "StackMapTable") {
        AttributeKind::StackMapTable
    } else if same_text(name, "Exceptions") {
        AttributeKind::Exceptions
    } else if same_text(name, "InnerClasses") {
        AttributeKind::InnerClasses
    } else if same_text(name, "EnclosingMethod") {
        AttributeKind::EnclosingMethod
    } else if same_text(name, "Synthetic") {
        AttributeKind::Synthetic
    } else if same_text(name, "Signature") {
        AttributeKind::Signature
    } else if same_text(name, "SourceFile") {
        AttributeKind::SourceFile
    } else if same_text(name, "SourceDebugExtension") {
        AttributeKind::SourceDebugExtension
    } else if same_text(name, "LineNumberTable") {
        AttributeKind::LineNumberTable
    } else if same_text(name, "LocalVariableTable") {
        AttributeKind::LocalVariableTable
    } else if same_text(name, "LocalVariableTypeTable") {
        AttributeKind::LocalVariableTypeTable
    } else if same_text(name, "Deprecated") {
        AttributeKind::Deprecated
    } else if same_text(name, "RuntimeVisibleAnnotations") {
        AttributeKind::RuntimeVisibleAnnotations
    } else if same_text(name, "RuntimeInvisibleAnnotations") {
        AttributeKind::RuntimeInvisibleAnnotations
    } else if same_text(name, "RuntimeVisibleParameterAnnotations") {
        AttributeKind::RuntimeVisibleParameterAnnotations
    } else if same_text(name, "RuntimeInvisibleParameterAnnotations") {
        AttributeKind::RuntimeInvisibleParameterAnnotations
    } else if same_text(name, "RuntimeVisibleTypeAnnotations") {
        AttributeKind::RuntimeVisibleTypeAnnotations
    } else if same_text(name, "RuntimeInvisibleTypeAnnotations") {
        AttributeKind::RuntimeInvisibleTypeAnnotations
    } else if same_text(name, "AnnotationDefault") {
        AttributeKind::AnnotationDefault
    } else if same_text(name, "BootstrapMethods") {
        AttributeKind::BootstrapMethods
    } else if same_text(name, "MethodParameters") {
        AttributeKind::MethodParameters
    } else if same_text(name, "Module") {
        AttributeKind::Module
    } else if same_text(name, "ModulePackages") {
        AttributeKind::ModulePackages
    } else if same_text(name, "ModuleMainClass") {
        AttributeKind::ModuleMainClass
    } else if same_text(name, "ModuleHashes") {
        AttributeKind::ModuleHashes
    } else if same_text(name, "ModuleTarget") {
        AttributeKind::ModuleTarget
    } else if same_text(name, "ModuleResolution") {
        AttributeKind::ModuleResolution
    } else if same_text(name, "NestHost") {
        AttributeKind::NestHost
    } else if same_text(name, "NestMembers") {
        AttributeKind::NestMembers
    } else if same_text(name, "Record") {
        AttributeKind::Record
    } else if same_text(name, "PermittedSubclasses") {
        AttributeKind::PermittedSubclasses
    } else {
        AttributeKind::Unknown
    }
}

} // verus!
