//! Java class file decoder (class file versions of Java SE 8 and later).
//!
//! [`ClassFile::parse`] is a pure function from bytes to a [`ClassFile`] or the
//! first [`ClassFileError`]; there is no partial result. The format's grammar is
//! stated as spec functions over `Seq<u8>`, and each executable decoder is proved
//! to return exactly what the grammar says, value and error alike.
//!
//! How the modules fit together:
//! - [`reader`]: the bounds-checked big-endian reader that every decoder reads
//!   through.
//! - [`decode`]: counted lists of values that need nothing but the bytes.
//! - [`constant_pool`]: the pool, its two-slot rule for 8-byte constants, lookups.
//! - [`attribute`], [`attribute_decode`], [`attribute_body`], [`attribute_name`]:
//!   the attribute grammar and its decoders; [`stack_map`], [`annotation`],
//!   [`type_annotation`], [`module`] and [`tables`] hold the shapes inside
//!   attribute bodies.
//! - [`class`]: fields, methods and the class file itself.
//! - [`laws`]: what holds of every input.
//! - [`scan`]: totals over the class files of an archive.
//!
//! Text in the pool is decoded leniently: bytes that are not valid UTF-8 become
//! U+FFFD and are never an error. The numbers of `Float` and `Double` constants
//! are kept as their bit patterns.

pub mod annotation;
pub mod attribute;
pub mod attribute_body;
pub mod attribute_decode;
pub mod attribute_name;
pub mod class;
pub mod constant_pool;
pub mod decode;
pub mod error;
pub mod laws;
pub mod module;
pub mod reader;
pub mod scan;
pub mod stack_map;
pub mod tables;
pub mod text;
pub mod type_annotation;

pub use self::annotation::{Annotation, ElementValue, ElementValuePair};
pub use self::attribute::{AttributeInfo, CodeAttribute, RecordComponent};
pub use self::class::{ClassFile, FieldInfo, MethodInfo};
pub use self::constant_pool::{ConstantPool, CpInfo};
pub use self::error::ClassFileError;
pub use self::module::{
    ModuleAttribute, ModuleExports, ModuleHash, ModuleOpens, ModuleProvides, ModuleRequires,
};
pub use self::reader::Reader;
pub use self::stack_map::{StackMapFrame, StackMapTableAttribute, VerificationTypeInfo};
pub use self::tables::{
    BootstrapMethod, ExceptionTableEntry, InnerClassInfo, LineNumberEntry, LocalVariableTableEntry,
    LocalVariableTypeTableEntry, MethodParameter,
};
pub use self::type_annotation::{LocalVarTarget, TargetInfo, TypeAnnotation, TypePathEntry};
