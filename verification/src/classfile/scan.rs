use vstd::prelude::*;
use vstd::string::StringSliceAdditionalSpecFns;
use crate::classfile::class::{spec_class_file, ClassFile};

verus! {

/// The six bytes of `.class`.
pub open spec fn class_suffix() -> Seq<u8> {
    seq![46u8, 99u8, 108u8, 97u8, 115u8, 115u8]
}

/// The UTF-8 bytes `name` end with `.class`.
pub open spec fn has_class_suffix(name: Seq<u8>) -> bool {
    name.len() >= 6 && name.subrange(name.len() - 6, name.len() as int) == class_suffix()
}

/// Whether an archive entry with this name holds a class file.
pub fn is_class_entry(name: &str) -> (yes: bool)
    ensures
        yes == has_class_suffix(name.spec_bytes()),
{
    let bytes = name.as_bytes();
    let n: usize = bytes.len();
    if n < 6 {
        return false;
    }
    let yes = bytes[n - 6] == 46 && bytes[n - 5] == 99 && bytes[n - 4] == 108 && bytes[n - 3] == 97
        && bytes[n - 2] == 115 && bytes[n - 1] == 115;
    proof {
        let tail = bytes@.subrange(n - 6, n as int);
        if yes {
            assert(tail =~= class_suffix());
        } else {
            assert(tail[0] == bytes@[n - 6]);
            assert(tail[1] == bytes@[n - 5]);
            assert(tail[2] == bytes@[n - 4]);
            assert(tail[3] == bytes@[n - 3]);
            assert(tail[4] == bytes@[n - 2]);
            assert(tail[5] == bytes@[n - 1]);
        }
    }
    yes
}

/// Running totals of a scan over the entries of an archive.
#[derive(Debug, Clone, Copy)]
pub struct ScanTotals {
    /// Entries named as class files.
    pub class_files: u64,
    /// Class files that decoded.
    pub parsed: u64,
    /// Class files that did not.
    pub failed: u64,
    /// Bytes of all class files.
    pub total_bytes: u64,
}

impl ScanTotals {
    /// Totals of a scan that has seen nothing.
    pub fn new() -> (t: Self)
        ensures
            t.class_files == 0,
            t.parsed == 0,
            t.failed == 0,
            t.total_bytes == 0,
    {
        ScanTotals { class_files: 0, parsed: 0, failed: 0, total_bytes: 0 }
    }

    /// The totals can take one more class file of `len` bytes.
    pub open spec fn has_room(&self, len: int) -> bool {
        &&& self.class_files < u64::MAX
        &&& self.parsed < u64::MAX
        &&& self.failed < u64::MAX
        &&& self.total_bytes + len <= u64::MAX
    }

    /// Whether the totals can take one more class file of `len` bytes.
    pub fn can_record(&self, len: usize) -> (room: bool)
        ensures
            room == self.has_room(len as int),
    {
        self.class_files < u64::MAX && self.parsed < u64::MAX && self.failed < u64::MAX && len as u64
            <= u64::MAX - self.total_bytes
    }

    /// Counts one class file: decodes `bytes` and adds it to the decoded or to the
    /// failed ones.
    pub fn record(&mut self, bytes: &[u8])
        requires
            old(self).has_room(bytes@.len() as int),
        ensures
            final(self).class_files == old(self).class_files + 1,
            final(self).total_bytes == old(self).total_bytes + bytes@.len(),
            spec_class_file(bytes@) is Ok ==> final(self).parsed == old(self).parsed + 1 && final(self).failed == old(self).failed,
            spec_class_file(bytes@) is Err ==> final(self).failed == old(self).failed + 1 && final(self).parsed == old(self).parsed,
    {
        self.class_files = self.class_files + 1;
        self.total_bytes = self.total_bytes + bytes.len() as u64;
        match ClassFile::parse(bytes) {
            Ok(_) => {
                self.parsed = self.parsed + 1;
            },
            Err(_) => {
                self.failed = self.failed + 1;
            },
        }
    }
}

} // verus!
