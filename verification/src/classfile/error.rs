use vstd::prelude::*;

verus! {

/// The single outcome of a failed decode: the first point of failure.
#[derive(Debug, Clone)]
pub enum ClassFileError {
    /// A read ran past the end of the buffer.
    UnexpectedEof,
    /// The buffer does not start with `0xCAFEBABE`; carries the value read.
    InvalidMagic(u32),
    /// Index 0, an index past the pool, or the hole behind an 8-byte constant.
    InvalidConstantPoolIndex(u16),
    /// A constant pool entry starts with an unknown tag.
    InvalidConstantPoolTag(u8),
    /// Kept for callers that enforce strict UTF-8; the decoder itself is lenient.
    InvalidUtf8,
    /// An attribute body did not end where its declared length said, or a tag
    /// inside it is unknown. Carries the attribute's name.
    InvalidAttribute(String),
}

/// Mathematical value of a [`ClassFileError`].
pub enum DecodeError {
    UnexpectedEof,
    InvalidMagic(u32),
    InvalidConstantPoolIndex(u16),
    InvalidConstantPoolTag(u8),
    InvalidUtf8,
    InvalidAttribute(Seq<char>),
}

impl View for ClassFileError {
    type V = DecodeError;

    open spec fn view(&self) -> DecodeError {
        match self {
            ClassFileError::UnexpectedEof => DecodeError::UnexpectedEof,
            ClassFileError::InvalidMagic(m) => DecodeError::InvalidMagic(*m),
            ClassFileError::InvalidConstantPoolIndex(i) => DecodeError::InvalidConstantPoolIndex(*i),
            ClassFileError::InvalidConstantPoolTag(t) => DecodeError::InvalidConstantPoolTag(*t),
            ClassFileError::InvalidUtf8 => DecodeError::InvalidUtf8,
            ClassFileError::InvalidAttribute(name) => DecodeError::InvalidAttribute(name@),
        }
    }
}

/// `res` is the executable form of `want`: the same error, or a value whose model
/// is the wanted one.
pub open spec fn agrees<T: DeepView>(res: Result<T, ClassFileError>, want: Result<T::V, DecodeError>) -> bool {
    match want {
        Ok(v) => res is Ok && res->Ok_0.deep_view() == v,
        Err(e) => res is Err && res->Err_0@ == e,
    }
}

/// What a grammar rule yields at a position: the value and the number of bytes it
/// spans, or the error that stops the decode.
pub type Parse<T> = Result<(T, nat), DecodeError>;

} // verus!
