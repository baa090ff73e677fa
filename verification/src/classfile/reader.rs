use vstd::prelude::*;
use vstd::slice::slice_subrange;
use crate::classfile::error::{ClassFileError, DecodeError, Parse};

verus! {

/// The byte at `pos`, as a number.
pub open spec fn byte_at(s: Seq<u8>, pos: int) -> int {
    s[pos] as int
}

/// Big-endian value of the two bytes at `pos`.
pub open spec fn be16(s: Seq<u8>, pos: int) -> u16 {
    (byte_at(s, pos) * 0x100 + byte_at(s, pos + 1)) as u16
}

/// Big-endian value of the four bytes at `pos`.
pub open spec fn be32(s: Seq<u8>, pos: int) -> u32 {
    (byte_at(s, pos) * 0x100_0000 + byte_at(s, pos + 1) * 0x1_0000 + byte_at(s, pos + 2) * 0x100
        + byte_at(s, pos + 3)) as u32
}

/// `len` bytes lie in `s` from `pos` on.
pub open spec fn has_bytes(s: Seq<u8>, pos: int, len: int) -> bool {
    0 <= pos && 0 <= len && pos + len <= s.len()
}

/// Number of bytes of `s` from `pos` on; 0 when `pos` is past the end.
pub open spec fn bytes_left(s: Seq<u8>, pos: int) -> nat {
    if pos <= s.len() {
        (s.len() - pos) as nat
    } else {
        0
    }
}

/// Grammar of one byte.
pub open spec fn spec_u1(s: Seq<u8>, pos: int) -> Parse<u8> {
    if has_bytes(s, pos, 1) {
        Ok((s[pos], 1nat))
    } else {
        Err(DecodeError::UnexpectedEof)
    }
}

/// Grammar of a big-endian 16-bit number.
pub open spec fn spec_u2(s: Seq<u8>, pos: int) -> Parse<u16> {
    if has_bytes(s, pos, 2) {
        Ok((be16(s, pos), 2nat))
    } else {
        Err(DecodeError::UnexpectedEof)
    }
}

/// Grammar of a big-endian 32-bit number.
pub open spec fn spec_u4(s: Seq<u8>, pos: int) -> Parse<u32> {
    if has_bytes(s, pos, 4) {
        Ok((be32(s, pos), 4nat))
    } else {
        Err(DecodeError::UnexpectedEof)
    }
}

/// Grammar of `len` raw bytes.
pub open spec fn spec_bytes(s: Seq<u8>, pos: int, len: nat) -> Parse<Seq<u8>> {
    if has_bytes(s, pos, len as int) {
        Ok((s.subrange(pos, pos + len), len))
    } else {
        Err(DecodeError::UnexpectedEof)
    }
}

/// Sequential, bounds-checked, big-endian reader over a fixed buffer.
///
/// A reader holds the buffer and a read position and nothing else. Every read
/// either returns the bytes asked for and moves the position past them, or fails
/// with [`ClassFileError::UnexpectedEof`] and leaves the position where it was.
pub struct Reader<'a> {
    data: &'a [u8],
    pos: usize,
}

/// `res` and the reader `after` the call are what the grammar result `want` asks
/// for, given the reader `before` the call: on success the value's model and the
/// bytes used, on failure the error, and in both cases the same buffer.
pub open spec fn decoded<T: DeepView>(
    res: Result<T, ClassFileError>,
    after: Reader,
    before: Reader,
    want: Parse<T::V>,
) -> bool {
    &&& after.wf()
    &&& after.bytes() == before.bytes()
    &&& match want {
        Ok((v, used)) => res is Ok && res->Ok_0.deep_view() == v && after.offset() == before.offset()
            + used,
        Err(e) => res is Err && res->Err_0@ == e,
    }
}

impl<'a> Reader<'a> {
    /// The buffer being read.
    pub closed spec fn bytes(&self) -> Seq<u8> {
        self.data@
    }

    /// Number of bytes already read.
    pub closed spec fn offset(&self) -> int {
        self.pos as int
    }

    /// The read position lies inside the buffer.
    pub closed spec fn wf(&self) -> bool {
        self.pos <= self.data@.len()
    }

    /// Bytes not read yet.
    pub open spec fn left(&self) -> nat {
        bytes_left(self.bytes(), self.offset())
    }

    /// A well-formed reader's position is between 0 and the buffer's length.
    pub proof fn lemma_in_bounds(&self)
        requires
            self.wf(),
        ensures
            0 <= self.offset() <= self.bytes().len(),
    {
    }

    /// A reader at the start of `data`.
    pub fn new(data: &'a [u8]) -> (r: Self)
        ensures
            r.wf(),
            r.bytes() == data@,
            r.offset() == 0,
    {
        Reader { data, pos: 0 }
    }

    /// Number of bytes left to read.
    pub fn remaining(&self) -> (n: usize)
        requires
            self.wf(),
        ensures
            n == self.bytes().len() - self.offset(),
            n == self.left(),
    {
        self.data.len() - self.pos
    }

    /// Reads one byte.
    pub fn read_u1(&mut self) -> (res: Result<u8, ClassFileError>)
        requires
            old(self).wf(),
        ensures
            decoded(res, *final(self), *old(self), spec_u1(old(self).bytes(), old(self).offset())),
            res is Err ==> final(self).offset() == old(self).offset(),
    {
        if self.remaining() < 1 {
            return Err(ClassFileError::UnexpectedEof);
        }
        let v: u8 = self.data[self.pos];
        self.pos += 1;
        Ok(v)
    }

    /// Reads two bytes as a big-endian number.
    pub fn read_u2(&mut self) -> (res: Result<u16, ClassFileError>)
        requires
            old(self).wf(),
        ensures
            decoded(res, *final(self), *old(self), spec_u2(old(self).bytes(), old(self).offset())),
            res is Err ==> final(self).offset() == old(self).offset(),
    {
        if self.remaining() < 2 {
            return Err(ClassFileError::UnexpectedEof);
        }
        let hi: u16 = self.data[self.pos] as u16;
        let lo: u16 = self.data[self.pos + 1] as u16;
        self.pos += 2;
        Ok(hi * 0x100 + lo)
    }

    /// Reads four bytes as a big-endian number.
    pub fn read_u4(&mut self) -> (res: Result<u32, ClassFileError>)
        requires
            old(self).wf(),
        ensures
            decoded(res, *final(self), *old(self), spec_u4(old(self).bytes(), old(self).offset())),
            res is Err ==> final(self).offset() == old(self).offset(),
    {
        if self.remaining() < 4 {
            return Err(ClassFileError::UnexpectedEof);
        }
        let b0: u32 = self.data[self.pos] as u32;
        let b1: u32 = self.data[self.pos + 1] as u32;
        let b2: u32 = self.data[self.pos + 2] as u32;
        let b3: u32 = self.data[self.pos + 3] as u32;
        self.pos += 4;
        Ok(b0 * 0x100_0000 + b1 * 0x1_0000 + b2 * 0x100 + b3)
    }

    /// Borrows the next `len` bytes.
    pub fn read_bytes(&mut self, len: usize) -> (res: Result<&'a [u8], ClassFileError>)
        requires
            old(self).wf(),
        ensures
            final(self).wf(),
            final(self).bytes() == old(self).bytes(),
            match spec_bytes(old(self).bytes(), old(self).offset(), len as nat) {
                Ok((v, used)) => res is Ok && res->Ok_0@ == v && final(self).offset() == old(self).offset() + used,
                Err(e) => res is Err && res->Err_0@ == e && final(self).offset() == old(self).offset(),
            },
    {
        let total: usize = self.data.len();
        if total - self.pos < len {
            return Err(ClassFileError::UnexpectedEof);
        }
        let slice = slice_subrange(self.data, self.pos, self.pos + len);
        self.pos += len;
        Ok(slice)
    }
}

} // verus!
