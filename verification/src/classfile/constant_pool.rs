use vstd::prelude::*;
use crate::classfile::error::{agrees, ClassFileError, DecodeError, Parse};
use crate::classfile::reader::{
    be16, be32, decoded, has_bytes, spec_bytes, spec_u1, spec_u2, Reader,
};
use crate::classfile::text::{decode_utf8_lossy, utf8_lossy};

verus! {

/// One constant pool entry.
///
/// `Float` and `Double` carry the IEEE 754 bit pattern as it stands in the file.
#[derive(Debug, Clone)]
pub enum CpInfo {
    Utf8(String),
    Integer(i32),
    Float(u32),
    Long(i64),
    Double(u64),
    Class { name_index: u16 },
    String { string_index: u16 },
    Fieldref { class_index: u16, name_and_type_index: u16 },
    Methodref { class_index: u16, name_and_type_index: u16 },
    InterfaceMethodref { class_index: u16, name_and_type_index: u16 },
    NameAndType { name_index: u16, descriptor_index: u16 },
    MethodHandle { reference_kind: u8, reference_index: u16 },
    MethodType { descriptor_index: u16 },
    Dynamic { bootstrap_method_attr_index: u16, name_and_type_index: u16 },
    InvokeDynamic { bootstrap_method_attr_index: u16, name_and_type_index: u16 },
    Module { name_index: u16 },
    Package { name_index: u16 },
}

/// Mathematical value of a [`CpInfo`].
pub enum CpInfoModel {
    Utf8(Seq<char>),
    Integer(i32),
    Float(u32),
    Long(i64),
    Double(u64),
    Class { name_index: u16 },
    String { string_index: u16 },
    Fieldref { class_index: u16, name_and_type_index: u16 },
    Methodref { class_index: u16, name_and_type_index: u16 },
    InterfaceMethodref { class_index: u16, name_and_type_index: u16 },
    NameAndType { name_index: u16, descriptor_index: u16 },
    MethodHandle { reference_kind: u8, reference_index: u16 },
    MethodType { descriptor_index: u16 },
    Dynamic { bootstrap_method_attr_index: u16, name_and_type_index: u16 },
    InvokeDynamic { bootstrap_method_attr_index: u16, name_and_type_index: u16 },
    Module { name_index: u16 },
    Package { name_index: u16 },
}

impl DeepView for CpInfo {
    type V = CpInfoModel;

    open spec fn deep_view(&self) -> CpInfoModel {
        match *self {
            CpInfo::Utf8(text) => CpInfoModel::Utf8(text@),
            CpInfo::Integer(v) => CpInfoModel::Integer(v),
            CpInfo::Float(bits) => CpInfoModel::Float(bits),
            CpInfo::Long(v) => CpInfoModel::Long(v),
            CpInfo::Double(bits) => CpInfoModel::Double(bits),
            CpInfo::Class { name_index } => CpInfoModel::Class { name_index },
            CpInfo::String { string_index } => CpInfoModel::String { string_index },
            CpInfo::Fieldref { class_index, name_and_type_index } => CpInfoModel::Fieldref {
                class_index,
                name_and_type_index,
            },
            CpInfo::Methodref { class_index, name_and_type_index } => CpInfoModel::Methodref {
                class_index,
                name_and_type_index,
            },
            CpInfo::InterfaceMethodref {
                class_index,
                name_and_type_index,
            } => CpInfoModel::InterfaceMethodref { class_index, name_and_type_index },
            CpInfo::NameAndType { name_index, descriptor_index } => CpInfoModel::NameAndType {
                name_index,
                descriptor_index,
            },
            CpInfo::MethodHandle { reference_kind, reference_index } => CpInfoModel::MethodHandle {
                reference_kind,
                reference_index,
            },
            CpInfo::MethodType { descriptor_index } => CpInfoModel::MethodType { descriptor_index },
            CpInfo::Dynamic {
                bootstrap_method_attr_index,
                name_and_type_index,
            } => CpInfoModel::Dynamic { bootstrap_method_attr_index, name_and_type_index },
            CpInfo::InvokeDynamic {
                bootstrap_method_attr_index,
                name_and_type_index,
            } => CpInfoModel::InvokeDynamic { bootstrap_method_attr_index, name_and_type_index },
            CpInfo::Module { name_index } => CpInfoModel::Module { name_index },
            CpInfo::Package { name_index } => CpInfoModel::Package { name_index },
        }
    }
}

/// Mathematical value of a constant pool: slot `i` holds the entry with index `i`,
/// or nothing.
pub type PoolModel = Seq<Option<CpInfoModel>>;

/// The 32 bits read as a two's complement number.
pub open spec fn signed32(bits: u32) -> i32 {
    if bits < 0x8000_0000 {
        bits as i32
    } else {
        (bits - 0x1_0000_0000) as i32
    }
}

/// The 64 bits read as a two's complement number.
pub open spec fn signed64(bits: u64) -> i64 {
    if bits < 0x8000_0000_0000_0000 {
        bits as i64
    } else {
        (bits - 0x1_0000_0000_0000_0000) as i64
    }
}

/// Big-endian value of the eight bytes at `pos`.
pub open spec fn be64(s: Seq<u8>, pos: int) -> u64 {
    (be32(s, pos) * 0x1_0000_0000 + be32(s, pos + 4)) as u64
}

/// An 8-byte constant takes two slots of the pool.
pub open spec fn is_wide(entry: CpInfoModel) -> bool {
    entry is Long || entry is Double
}

/// Number of pool slots that `entry` takes.
pub open spec fn slot_count(entry: CpInfoModel) -> nat {
    if is_wide(entry) {
        2
    } else {
        1
    }
}

/// The slots that `entry` fills: itself, and behind an 8-byte constant a hole.
pub open spec fn slots_of(entry: CpInfoModel) -> PoolModel {
    if is_wide(entry) {
        seq![Some(entry), None]
    } else {
        seq![Some(entry)]
    }
}

/// Grammar of one constant pool entry: a tag byte and the fields that the tag
/// calls for.
pub open spec fn spec_cp_entry(s: Seq<u8>, pos: int) -> Parse<CpInfoModel> {
    match spec_u1(s, pos) {
        Err(e) => Err(e),
        Ok((tag, _)) => {
            let p = pos + 1;
            if tag == 1 {
                match spec_u2(s, p) {
                    Err(e) => Err(e),
                    Ok((len, _)) => match spec_bytes(s, p + 2, len as nat) {
                        Err(e) => Err(e),
                        Ok((text, _)) => Ok((CpInfoModel::Utf8(utf8_lossy(text)), (3 + len) as nat)),
                    },
                }
            } else if tag == 3 || tag == 4 {
                if !has_bytes(s, p, 4) {
                    Err(DecodeError::UnexpectedEof)
                } else if tag == 3 {
                    Ok((CpInfoModel::Integer(signed32(be32(s, p))), 5nat))
                } else {
                    Ok((CpInfoModel::Float(be32(s, p)), 5nat))
                }
            } else if tag == 5 || tag == 6 {
                if !has_bytes(s, p, 8) {
                    Err(DecodeError::UnexpectedEof)
                } else if tag == 5 {
                    Ok((CpInfoModel::Long(signed64(be64(s, p))), 9nat))
                } else {
                    Ok((CpInfoModel::Double(be64(s, p)), 9nat))
                }
            } else if tag == 7 || tag == 8 || tag == 16 || tag == 19 || tag == 20 {
                if !has_bytes(s, p, 2) {
                    Err(DecodeError::UnexpectedEof)
                } else if tag == 7 {
                    Ok((CpInfoModel::Class { name_index: be16(s, p) }, 3nat))
                } else if tag == 8 {
                    Ok((CpInfoModel::String { string_index: be16(s, p) }, 3nat))
                } else if tag == 16 {
                    Ok((CpInfoModel::MethodType { descriptor_index: be16(s, p) }, 3nat))
                } else if tag == 19 {
                    Ok((CpInfoModel::Module { name_index: be16(s, p) }, 3nat))
                } else {
                    Ok((CpInfoModel::Package { name_index: be16(s, p) }, 3nat))
                }
            } else if tag == 9 || tag == 10 || tag == 11 || tag == 12 || tag == 17 || tag == 18 {
                let a = be16(s, p);
                let b = be16(s, p + 2);
                if !has_bytes(s, p, 4) {
                    Err(DecodeError::UnexpectedEof)
                } else if tag == 9 {
                    Ok((CpInfoModel::Fieldref { class_index: a, name_and_type_index: b }, 5nat))
                } else if tag == 10 {
                    Ok((CpInfoModel::Methodref { class_index: a, name_and_type_index: b }, 5nat))
                } else if tag == 11 {
                    Ok(
                        (
                            CpInfoModel::InterfaceMethodref { class_index: a, name_and_type_index: b },
                            5nat,
                        ),
                    )
                } else if tag == 12 {
                    Ok((CpInfoModel::NameAndType { name_index: a, descriptor_index: b }, 5nat))
                } else if tag == 17 {
                    Ok(
                        (
                            CpInfoModel::Dynamic {
                                bootstrap_method_attr_index: a,
                                name_and_type_index: b,
                            },
                            5nat,
                        ),
                    )
                } else {
                    Ok(
                        (
                            CpInfoModel::InvokeDynamic {
                                bootstrap_method_attr_index: a,
                                name_and_type_index: b,
                            },
                            5nat,
                        ),
                    )
                }
            } else if tag == 15 {
                if !has_bytes(s, p, 3) {
                    Err(DecodeError::UnexpectedEof)
                } else {
                    Ok(
                        (
                            CpInfoModel::MethodHandle {
                                reference_kind: s[p],
                                reference_index: be16(s, p + 1),
                            },
                            4nat,
                        ),
                    )
                }
            } else {
                Err(DecodeError::InvalidConstantPoolTag(tag))
            }
        },
    }
}

/// Grammar of the pool's slots from index `i` up to `count`: entries in a row, each
/// filling one slot, or two for an 8-byte constant.
pub open spec fn spec_pool_slots(s: Seq<u8>, pos: int, i: nat, count: nat) -> Parse<PoolModel>
    decreases count + 1 - i,
{
    if i >= count {
        Ok((Seq::empty(), 0nat))
    } else {
        match spec_cp_entry(s, pos) {
            Err(e) => Err(e),
            Ok((entry, used)) => match spec_pool_slots(s, pos + used, i + slot_count(entry), count) {
                Err(e) => Err(e),
                Ok((rest, more)) => Ok((slots_of(entry) + rest, used + more)),
            },
        }
    }
}

/// Grammar of the constant pool: a 16-bit count, then the entries of the slots 1 to
/// `count - 1`. Slot 0 is always empty.
pub open spec fn spec_constant_pool(s: Seq<u8>, pos: int) -> Parse<PoolModel> {
    match spec_u2(s, pos) {
        Err(e) => Err(e),
        Ok((count, _)) => match spec_pool_slots(s, pos + 2, 1, count as nat) {
            Err(e) => Err(e),
            Ok((slots, used)) => Ok((seq![None] + slots, 2 + used)),
        },
    }
}

/// Every pool has the unused slot 0, and the slot behind an 8-byte constant is a
/// hole.
pub open spec fn pool_wf(pool: PoolModel) -> bool {
    &&& pool.len() >= 1
    &&& pool[0] is None
    &&& forall|i: int|
        0 <= i < pool.len() && pool[i] is Some && is_wide(#[trigger] pool[i]->0) ==> i + 1
            < pool.len() && pool[i + 1] is None
}

/// The entry that `index` resolves to.
pub open spec fn pool_get(pool: PoolModel, index: u16) -> Result<CpInfoModel, DecodeError> {
    if 0 < index < pool.len() && pool[index as int] is Some {
        Ok(pool[index as int]->0)
    } else {
        Err(DecodeError::InvalidConstantPoolIndex(index))
    }
}

/// The text that `index` resolves to.
pub open spec fn pool_utf8(pool: PoolModel, index: u16) -> Result<Seq<char>, DecodeError> {
    match pool_get(pool, index) {
        Ok(CpInfoModel::Utf8(text)) => Ok(text),
        _ => Err(DecodeError::InvalidConstantPoolIndex(index)),
    }
}

/// The constant pool: a table of entries addressed by index, starting at 1.
#[derive(Debug, Clone)]
pub struct ConstantPool {
    entries: Vec<Option<CpInfo>>,
}

impl DeepView for ConstantPool {
    type V = PoolModel;

    closed spec fn deep_view(&self) -> PoolModel {
        self.entries.deep_view()
    }
}

impl ConstantPool {
    /// The pool keeps slot 0 empty and a hole behind each 8-byte constant.
    pub open spec fn wf(&self) -> bool {
        pool_wf(self.deep_view())
    }

    /// The entry at `index`. Fails for index 0, an index past the pool and a hole.
    pub fn get(&self, index: u16) -> (res: Result<&CpInfo, ClassFileError>)
        ensures
            agrees(res, pool_get(self.deep_view(), index)),
    {
        let slot: usize = index as usize;
        if index == 0 || slot >= self.entries.len() {
            return Err(ClassFileError::InvalidConstantPoolIndex(index));
        }
        match &self.entries[slot] {
            Some(entry) => Ok(entry),
            None => Err(ClassFileError::InvalidConstantPoolIndex(index)),
        }
    }

    /// The text of the `Utf8` entry at `index`. Fails where [`ConstantPool::get`]
    /// fails, and for an entry of another kind.
    pub fn get_utf8(&self, index: u16) -> (res: Result<&str, ClassFileError>)
        ensures
            agrees(res, pool_utf8(self.deep_view(), index)),
    {
        match self.get(index)? {
            CpInfo::Utf8(text) => Ok(text.as_str()),
            _ => Err(ClassFileError::InvalidConstantPoolIndex(index)),
        }
    }
}

/// The slots that the grammar yields keep a hole behind each 8-byte constant.
pub proof fn lemma_slots_keep_holes(s: Seq<u8>, pos: int, i: nat, count: nat)
    requires
        spec_pool_slots(s, pos, i, count) is Ok,
    ensures
        ({
            let slots = spec_pool_slots(s, pos, i, count)->Ok_0.0;
            forall|k: int|
                0 <= k < slots.len() && slots[k] is Some && is_wide(#[trigger] slots[k]->0) ==> k
                    + 1 < slots.len() && slots[k + 1] is None
        }),
    decreases count + 1 - i,
{
    if i < count {
        let (entry, used) = spec_cp_entry(s, pos)->Ok_0;
        let first = slots_of(entry);
        let rest = spec_pool_slots(s, pos + used, i + slot_count(entry), count)->Ok_0.0;
        lemma_slots_keep_holes(s, pos + used, i + slot_count(entry), count);
        let slots = first + rest;
        assert forall|k: int|
            0 <= k < slots.len() && slots[k] is Some && is_wide(
                #[trigger] slots[k]->0,
            ) implies k + 1 < slots.len() && slots[k + 1] is None by {
            if k >= first.len() {
                assert(slots[k] == rest[k - first.len()]);
                assert(is_wide(rest[k - first.len()]->0));
                assert(slots[k + 1] == rest[k + 1 - first.len()]);
            }
        }
    }
}

/// Every pool that the grammar yields is well formed: slot 0 is empty, and the
/// slot behind an 8-byte constant is a hole.
pub proof fn lemma_grammar_pool_is_wf(s: Seq<u8>, pos: int)
    requires
        spec_constant_pool(s, pos) is Ok,
    ensures
        pool_wf(spec_constant_pool(s, pos)->Ok_0.0),
{
    let count = spec_u2(s, pos)->Ok_0.0;
    lemma_slots_keep_holes(s, pos + 2, 1, count as nat);
    let slots = spec_pool_slots(s, pos + 2, 1, count as nat)->Ok_0.0;
    let pool = seq![None::<CpInfoModel>] + slots;
    assert forall|k: int|
        0 <= k < pool.len() && pool[k] is Some && is_wide(#[trigger] pool[k]->0) implies k + 1
        < pool.len() && pool[k + 1] is None by {
        if k >= 1 {
            assert(pool[k] == slots[k - 1]);
            assert(is_wide(slots[k - 1]->0));
            assert(pool[k + 1] == slots[k]);
        }
    }
}

/// The index behind an 8-byte constant never resolves: looking it up fails with
/// `InvalidConstantPoolIndex`.
pub proof fn lemma_wide_constant_leaves_hole(pool: PoolModel, index: u16)
    requires
        pool_wf(pool),
        index < 0xFFFF,
        pool_get(pool, index) is Ok,
        is_wide(pool_get(pool, index)->Ok_0),
    ensures
        pool_get(pool, (index + 1) as u16) == Err::<CpInfoModel, DecodeError>(
            DecodeError::InvalidConstantPoolIndex((index + 1) as u16),
        ),
        pool_utf8(pool, (index + 1) as u16) == Err::<Seq<char>, DecodeError>(
            DecodeError::InvalidConstantPoolIndex((index + 1) as u16),
        ),
{
    assert(is_wide(pool[index as int]->0));
}

fn to_signed32(bits: u32) -> (v: i32)
    ensures
        v == signed32(bits),
{
    if bits < 0x8000_0000 {
        bits as i32
    } else {
        let low: i32 = (bits - 0x8000_0000) as i32;
        low - 0x7FFF_FFFF - 1
    }
}

fn to_signed64(bits: u64) -> (v: i64)
    ensures
        v == signed64(bits),
{
    if bits < 0x8000_0000_0000_0000 {
        bits as i64
    } else {
        let low: i64 = (bits - 0x8000_0000_0000_0000) as i64;
        low - 0x7FFF_FFFF_FFFF_FFFF - 1
    }
}

/// Reads eight bytes as a big-endian number.
fn read_u8(r: &mut Reader) -> (res: Result<u64, ClassFileError>)
    requires
        old(r).wf(),
    ensures
        final(r).wf(),
        final(r).bytes() == old(r).bytes(),
        match res {
            Ok(v) => has_bytes(old(r).bytes(), old(r).offset(), 8) && v == be64(
                old(r).bytes(),
                old(r).offset(),
            ) && final(r).offset() == old(r).offset() + 8,
            Err(e) => !has_bytes(old(r).bytes(), old(r).offset(), 8) && e@
                == DecodeError::UnexpectedEof,
        },
{
    let high: u64 = r.read_u4()? as u64;
    let low: u64 = r.read_u4()? as u64;
    Ok(high * 0x1_0000_0000 + low)
}

/// Reads one constant pool entry.
pub fn parse_cp_entry(r: &mut Reader) -> (res: Result<CpInfo, ClassFileError>)
    requires
        old(r).wf(),
    ensures
        decoded(res, *final(r), *old(r), spec_cp_entry(old(r).bytes(), old(r).offset())),
{
    let tag: u8 = r.read_u1()?;
    let entry = match tag {
        1 => {
            let len: u16 = r.read_u2()?;
            let bytes = r.read_bytes(len as usize)?;
            CpInfo::Utf8(decode_utf8_lossy(bytes))
        },
        3 => CpInfo::Integer(to_signed32(r.read_u4()?)),
        4 => CpInfo::Float(r.read_u4()?),
        5 => CpInfo::Long(to_signed64(read_u8(r)?)),
        6 => CpInfo::Double(read_u8(r)?),
        7 => CpInfo::Class { name_index: r.read_u2()? },
        8 => CpInfo::String { string_index: r.read_u2()? },
        9 => {
            let class_index: u16 = r.read_u2()?;
            let name_and_type_index: u16 = r.read_u2()?;
            CpInfo::Fieldref { class_index, name_and_type_index }
        },
        10 => {
            let class_index: u16 = r.read_u2()?;
            let name_and_type_index: u16 = r.read_u2()?;
            CpInfo::Methodref { class_index, name_and_type_index }
        },
        11 => {
            let class_index: u16 = r.read_u2()?;
            let name_and_type_index: u16 = r.read_u2()?;
            CpInfo::InterfaceMethodref { class_index, name_and_type_index }
        },
        12 => {
            let name_index: u16 = r.read_u2()?;
            let descriptor_index: u16 = r.read_u2()?;
            CpInfo::NameAndType { name_index, descriptor_index }
        },
        15 => {
            let reference_kind: u8 = r.read_u1()?;
            let reference_index: u16 = r.read_u2()?;
            CpInfo::MethodHandle { reference_kind, reference_index }
        },
        16 => CpInfo::MethodType { descriptor_index: r.read_u2()? },
        17 => {
            let bootstrap_method_attr_index: u16 = r.read_u2()?;
            let name_and_type_index: u16 = r.read_u2()?;
            CpInfo::Dynamic { bootstrap_method_attr_index, name_and_type_index }
        },
        18 => {
            let bootstrap_method_attr_index: u16 = r.read_u2()?;
            let name_and_type_index: u16 = r.read_u2()?;
            CpInfo::InvokeDynamic { bootstrap_method_attr_index, name_and_type_index }
        },
        19 => CpInfo::Module { name_index: r.read_u2()? },
        20 => CpInfo::Package { name_index: r.read_u2()? },
        _ => {
            return Err(ClassFileError::InvalidConstantPoolTag(tag));
        },
    };
    Ok(entry)
}

/// What the pool's grammar yields once the slots in `done` are read with `used`
/// bytes and `tail` is what the grammar makes of the rest.
pub open spec fn resume(done: PoolModel, used: int, tail: Parse<PoolModel>) -> Parse<PoolModel> {
    match tail {
        Err(e) => Err(e),
        Ok((rest, more)) => Ok((done + rest, (used + more) as nat)),
    }
}

/// Reads the constant pool: the count, then the entries up to it.
///
/// An 8-byte constant is stored at its index and leaves the next index empty. The
/// first entry with an unknown tag ends the decode.
pub fn parse_constant_pool(r: &mut Reader) -> (res: Result<ConstantPool, ClassFileError>)
    requires
        old(r).wf(),
    ensures
        decoded(res, *final(r), *old(r), spec_constant_pool(old(r).bytes(), old(r).offset())),
        res is Ok ==> res->Ok_0.wf(),
{
    let count: usize = r.read_u2()? as usize;
    let mut entries: Vec<Option<CpInfo>> = Vec::with_capacity(count);
    entries.push(None);
    let mut i: usize = 1;
    let ghost s = old(r).bytes();
    let ghost start = old(r).offset() + 2;
    let ghost whole = spec_pool_slots(s, start, 1, count as nat);
    assert(entries.deep_view() =~= seq![None::<CpInfoModel>] + Seq::<Option<CpInfoModel>>::empty());
    while i < count
        invariant
            1 <= i <= count + 1,
            spec_u2(s, old(r).offset()) == Ok::<(u16, nat), DecodeError>((count as u16, 2nat)),
            count <= 0xFFFF,
            r.wf(),
            r.bytes() == s,
            r.offset() >= start,
            start == old(r).offset() + 2,
            s == old(r).bytes(),
            whole == spec_pool_slots(s, start, 1, count as nat),
            entries@.len() >= 1,
            pool_wf(entries.deep_view()),
            whole == resume(
                entries.deep_view().skip(1),
                r.offset() - start,
                spec_pool_slots(s, r.offset(), i as nat, count as nat),
            ),
        decreases count + 1 - i,
    {
        let ghost before = entries.deep_view();
        let ghost from = r.offset();
        let entry = match parse_cp_entry(r) {
            Err(e) => {
                assert(spec_pool_slots(s, from, i as nat, count as nat) == Err::<
                    (PoolModel, nat),
                    DecodeError,
                >(e@));
                return Err(e);
            },
            Ok(entry) => entry,
        };
        let ghost model = entry.deep_view();
        let wide: bool = match entry {
            CpInfo::Long(_) => true,
            CpInfo::Double(_) => true,
            _ => false,
        };
        entries.push(Some(entry));
        if wide {
            entries.push(None);
            i += 2;
        } else {
            i += 1;
        }
        proof {
            let after = entries.deep_view();
            assert(after =~= before + slots_of(model));
            assert(after.skip(1) =~= before.skip(1) + slots_of(model));
            match spec_pool_slots(s, r.offset(), i as nat, count as nat) {
                Ok((rest, more)) => {
                    assert((before.skip(1) + slots_of(model)) + rest =~= before.skip(1) + (slots_of(
                        model,
                    ) + rest));
                },
                Err(_) => {},
            }
            assert forall|k: int|
                0 <= k < after.len() && after[k] is Some && is_wide(
                    #[trigger] after[k]->0,
                ) implies k + 1 < after.len() && after[k + 1] is None by {
                if k < before.len() {
                    assert(after[k] == before[k]);
                    assert(is_wide(before[k]->0));
                    assert(after[k + 1] == before[k + 1]);
                }
            }
        }
    }
    proof {
        let done = entries.deep_view().skip(1);
        assert(done + Seq::<Option<CpInfoModel>>::empty() =~= done);
        assert(seq![None::<CpInfoModel>] + done =~= entries.deep_view());
    }
    Ok(ConstantPool { entries })
}

} // verus!
