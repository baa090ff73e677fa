//! Plain-data parts of the native interfaces.

pub mod jvmti;
