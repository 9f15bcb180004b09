//! Helpers for reading and writing the fields of a header one after the other.

use crate::codec::Decode;
use crate::codec::Decoder;
use crate::codec::Encode;
use crate::codec::Encoder;
use vstd::prelude::*;

verus! {

/// Reads a value of type `T` at position `pos` of `buf` and moves `pos` behind
/// it; where the rest of `buf` is too short, `pos` stays and `None` comes back.
pub fn take<T: Decode, D: Decoder>(buf: &[u8], pos: &mut usize) -> (r: Option<T>)
    requires
        *old(pos) <= buf@.len(),
    ensures
        *final(pos) <= buf@.len(),
        match T::decoded(D::dec_order(), buf@.skip(*old(pos) as int)) {
            Some((v, n)) => r == Some(v) && *final(pos) == *old(pos) + n,
            None => r is None && *final(pos) == *old(pos),
        },
{
    let rest = vstd::slice::slice_subrange(buf, *pos, buf.len());
    proof {
        assert(rest@ =~= buf@.skip(*pos as int));
        T::lemma_decoded_fits(D::dec_order(), rest@);
    }
    match T::decode::<D>(rest) {
        Some((v, n)) => {
            *pos = *pos + n;
            Some(v)
        },
        None => None,
    }
}

/// Reads `len` bytes at position `pos` of `buf` and moves `pos` behind them;
/// where fewer are left, `pos` stays and `None` comes back.
pub fn take_bytes(buf: &[u8], pos: &mut usize, len: usize) -> (r: Option<Vec<u8>>)
    requires
        *old(pos) <= buf@.len(),
    ensures
        *final(pos) <= buf@.len(),
        r is Some <==> *old(pos) + len <= buf@.len(),
        r matches Some(v) ==> *final(pos) == *old(pos) + len && v@ == buf@.subrange(
            *old(pos) as int,
            *old(pos) + len,
        ),
        r is None ==> *final(pos) == *old(pos),
{
    if buf.len() - *pos < len {
        return None;
    }
    let mut v: Vec<u8> = Vec::new();
    let start: usize = *pos;
    let total: usize = buf.len();
    let mut i: usize = 0;
    while i < len
        invariant
            i <= len,
            total == buf@.len(),
            start + len <= buf@.len(),
            v@ == buf@.subrange(start as int, start + i),
        decreases len - i,
    {
        v.push(buf[start + i]);
        i += 1;
        assert(v@ =~= buf@.subrange(start as int, start + i));
    }
    *pos = start + len;
    Some(v)
}

/// Appends the bytes of `v`, written by encoder `E`, to `out`.
pub fn put<T: Encode, E: Encoder>(out: &mut Vec<u8>, v: &T)
    ensures
        final(out)@ == old(out)@ + v.encoded(E::enc_order()),
{
    let mut bytes = v.encode::<E>();
    out.append(&mut bytes);
}

/// Appends `bytes` to `out`.
pub fn put_bytes(out: &mut Vec<u8>, bytes: Vec<u8>)
    ensures
        final(out)@ == old(out)@ + bytes@,
{
    let mut b = bytes;
    out.append(&mut b);
}

/// The first `n` bytes of `buf`.
pub open spec fn front(buf: Seq<u8>, n: nat) -> Seq<u8> {
    buf.subrange(0, n as int)
}

/// The lengths of the buffers of `bufs`, added up.
pub open spec fn total_len(bufs: Seq<Seq<u8>>) -> nat
    decreases bufs.len(),
{
    if bufs.len() == 0 {
        0
    } else {
        bufs[0].len() + total_len(bufs.skip(1))
    }
}

/// The 16-bit field that stands for a length: the length modulo 2^16.
pub open spec fn len16(n: nat) -> u16 {
    (n % 0x1_0000) as u16
}

/// The length of a header of `header` bytes and everything in `bufs`, as the
/// 16-bit length field holds it.
pub open spec fn wire_len(header: nat, bufs: Seq<Seq<u8>>) -> u16 {
    len16(header + total_len(bufs))
}

/// The total length of buffers grows by the length of one more.
pub proof fn lemma_total_len_push(bufs: Seq<Seq<u8>>, last: Seq<u8>)
    ensures
        total_len(bufs.push(last)) == total_len(bufs) + last.len(),
    decreases bufs.len(),
{
    if bufs.len() == 0 {
        assert(bufs.push(last).skip(1) =~= Seq::<Seq<u8>>::empty());
        reveal_with_fuel(total_len, 2);
    } else {
        assert(bufs.push(last).skip(1) =~= bufs.skip(1).push(last));
        lemma_total_len_push(bufs.skip(1), last);
    }
}

} // verus!
