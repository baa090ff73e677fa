use vstd::prelude::*;
use crate::classfile::error::{ClassFileError, DecodeError, Parse};
use crate::classfile::reader::{decoded, spec_u1, spec_u2, Reader};

verus! {

/// A value with a grammar of its own: one that needs nothing but the bytes.
///
/// `grammar` says which model value the bytes at a position stand for and how many
/// bytes it spans; `decode` is the executable reader, bound to return just that.
pub trait Decode: DeepView + Sized {
    spec fn grammar(s: Seq<u8>, pos: int) -> Parse<Self::V>;

    fn decode(r: &mut Reader) -> (res: Result<Self, ClassFileError>)
        requires
            old(r).wf(),
        ensures
            decoded(res, *final(r), *old(r), Self::grammar(old(r).bytes(), old(r).offset())),
    ;
}

/// Grammar of `n` items in a row. The error of the first item that fails is the
/// error of the list.
pub open spec fn spec_repeat<T: Decode>(s: Seq<u8>, pos: int, n: nat) -> Parse<Seq<T::V>>
    decreases n,
{
    if n == 0 {
        Ok((Seq::empty(), 0nat))
    } else {
        match spec_repeat::<T>(s, pos, (n - 1) as nat) {
            Err(e) => Err(e),
            Ok((items, used)) => match T::grammar(s, pos + used) {
                Err(e) => Err(e),
                Ok((item, len)) => Ok((items.push(item), used + len)),
            },
        }
    }
}

/// Grammar of a 16-bit count followed by that many items.
pub open spec fn spec_counted<T: Decode>(s: Seq<u8>, pos: int) -> Parse<Seq<T::V>> {
    match spec_u2(s, pos) {
        Err(e) => Err(e),
        Ok((n, _)) => match spec_repeat::<T>(s, pos + 2, n as nat) {
            Err(e) => Err(e),
            Ok((items, used)) => Ok((items, 2 + used)),
        },
    }
}

/// Grammar of an 8-bit count followed by that many items.
pub open spec fn spec_counted_u1<T: Decode>(s: Seq<u8>, pos: int) -> Parse<Seq<T::V>> {
    match spec_u1(s, pos) {
        Err(e) => Err(e),
        Ok((n, _)) => match spec_repeat::<T>(s, pos + 1, n as nat) {
            Err(e) => Err(e),
            Ok((items, used)) => Ok((items, 1 + used)),
        },
    }
}

/// Once a prefix of a list fails, every longer list fails in the same way.
pub proof fn lemma_repeat_fails<T: Decode>(s: Seq<u8>, pos: int, k: nat, n: nat)
    requires
        k <= n,
        spec_repeat::<T>(s, pos, k) is Err,
    ensures
        spec_repeat::<T>(s, pos, n) == spec_repeat::<T>(s, pos, k),
    decreases n,
{
    if k < n {
        lemma_repeat_fails::<T>(s, pos, k, (n - 1) as nat);
    }
}

/// A list of values that are their own models is its own model.
pub proof fn lemma_plain_list<T: DeepView<V = T>>(v: Vec<T>)
    requires
        forall|i: int| 0 <= i < v@.len() ==> (#[trigger] v@[i]).deep_view() == v@[i],
    ensures
        v.deep_view() == v@,
{
    assert(v.deep_view() =~= v@);
}

/// Reads `n` items in a row.
pub fn parse_repeat<T: Decode>(r: &mut Reader, n: usize) -> (res: Result<Vec<T>, ClassFileError>)
    requires
        old(r).wf(),
    ensures
        decoded(res, *final(r), *old(r), spec_repeat::<T>(old(r).bytes(), old(r).offset(), n as nat)),
{
    let mut items: Vec<T> = Vec::with_capacity(n);
    let mut i: usize = 0;
    assert(items.deep_view() =~= Seq::<T::V>::empty());
    while i < n
        invariant
            i <= n,
            r.wf(),
            r.bytes() == old(r).bytes(),
            r.offset() >= old(r).offset(),
            spec_repeat::<T>(old(r).bytes(), old(r).offset(), i as nat) == Ok::<
                (Seq<T::V>, nat),
                DecodeError,
            >((items.deep_view(), (r.offset() - old(r).offset()) as nat)),
        decreases n - i,
    {
        let ghost prev = items.deep_view();
        match T::decode(r) {
            Err(e) => {
                proof {
                    lemma_repeat_fails::<T>(old(r).bytes(), old(r).offset(), (i + 1) as nat, n as nat);
                }
                return Err(e);
            },
            Ok(item) => {
                items.push(item);
                assert(items.deep_view() =~= prev.push(item.deep_view()));
            },
        }
        i += 1;
    }
    Ok(items)
}

/// Reads a 16-bit count and that many items.
pub fn parse_counted<T: Decode>(r: &mut Reader) -> (res: Result<Vec<T>, ClassFileError>)
    requires
        old(r).wf(),
    ensures
        decoded(res, *final(r), *old(r), spec_counted::<T>(old(r).bytes(), old(r).offset())),
{
    let n: u16 = r.read_u2()?;
    parse_repeat::<T>(r, n as usize)
}

/// Reads an 8-bit count and that many items.
pub fn parse_counted_u1<T: Decode>(r: &mut Reader) -> (res: Result<Vec<T>, ClassFileError>)
    requires
        old(r).wf(),
    ensures
        decoded(res, *final(r), *old(r), spec_counted_u1::<T>(old(r).bytes(), old(r).offset())),
{
    let n: u8 = r.read_u1()?;
    parse_repeat::<T>(r, n as usize)
}

impl Decode for u16 {
    open spec fn grammar(s: Seq<u8>, pos: int) -> Parse<u16> {
        spec_u2(s, pos)
    }

    fn decode(r: &mut Reader) -> (res: Result<u16, ClassFileError>) {
        r.read_u2()
    }
}

} // verus!
