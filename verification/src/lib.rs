//! Decoder for the Java class file format, with the plain-data parts of a JVMTI
//! agent toolkit.
//!
//! [`classfile`] turns a byte buffer into a [`classfile::ClassFile`] tree; every
//! decoding function is verified against a grammar written over `Seq<u8>`.
//! [`sys`] holds the capability bit set of the JVMTI interface, [`advanced`] and
//! [`jvmti_wrapper`] the decisions that heap walks and the wrapper make.

pub mod advanced;
pub mod classfile;
pub mod jvmti_wrapper;
pub mod sys;
