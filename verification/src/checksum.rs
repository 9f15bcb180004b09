//! Internet checksum arithmetic: a running sum of big-endian 16-bit words kept
//! in a 32-bit accumulator, and the fold of that accumulator into the 16-bit
//! value that goes on the wire.

use vstd::prelude::*;

verus! {

/// Addition in the 32-bit accumulator: the sum modulo 2^32.
pub open spec fn acc_add(sum: u32, word: int) -> u32 {
    ((sum + word) % 0x1_0000_0000) as u32
}

/// The big-endian 16-bit word made of two bytes.
pub open spec fn word_of(hi: u8, lo: u8) -> int {
    hi * 256 + lo
}

/// The accumulator after the bytes of `data` have been added to `sum` as
/// big-endian 16-bit words. A trailing odd byte counts as the high byte of a
/// word whose low byte is zero.
pub open spec fn inet_sum(sum: u32, data: Seq<u8>) -> u32
    decreases data.len(),
{
    if data.len() == 0 {
        sum
    } else if data.len() == 1 {
        acc_add(sum, word_of(data[0], 0))
    } else {
        inet_sum(acc_add(sum, word_of(data[0], data[1])), data.skip(2))
    }
}

/// The accumulator after each buffer of `bufs`, first to last, has been added
/// to `sum`. Every buffer is padded on its own, so an odd-length buffer in the
/// middle does not shift the words of the buffers after it.
pub open spec fn inet_sum_all(sum: u32, bufs: Seq<Seq<u8>>) -> u32
    decreases bufs.len(),
{
    if bufs.len() == 0 {
        sum
    } else {
        inet_sum_all(inet_sum(sum, bufs[0]), bufs.skip(1))
    }
}

/// The 16-bit checksum of an accumulator: the upper half is added to the
/// lower, the carry out of that addition is added back in (end-around carry),
/// and the 16-bit sum is complemented.
pub open spec fn folded(data: u32) -> u16 {
    let a = data / 0x1_0000 + data % 0x1_0000;
    let b = a / 0x1_0000 + a % 0x1_0000;
    (0xffff - b) as u16
}

/// Where the two halves add up without a carry, the checksum is the
/// complement of their sum.
pub proof fn lemma_folded_without_carry(data: u32)
    requires
        data / 0x1_0000 + data % 0x1_0000 <= 0xffff,
    ensures
        folded(data) == 0xffff - (data / 0x1_0000 + data % 0x1_0000),
{
}

/// Adds `data` to the running sum `sum`, two bytes at a time.
pub fn update_inet_sum(sum: u32, data: &[u8]) -> (r: u32)
    ensures
        r == inet_sum(sum, data@),
{
    let mut acc: u32 = sum;
    let mut i: usize = 0;
    let n: usize = data.len();
    assert(data@.skip(0) =~= data@);
    while i < n && n - i >= 2
        invariant
            n == data@.len(),
            i <= n,
            inet_sum(sum, data@) == inet_sum(acc, data@.skip(i as int)),
        decreases n - i,
    {
        let word: u32 = (data[i] as u32) * 256 + (data[i + 1] as u32);
        proof {
            let rest = data@.skip(i as int);
            assert(rest[0] == data@[i as int]);
            assert(rest[1] == data@[i + 1]);
            assert(rest.skip(2) =~= data@.skip(i + 2));
        }
        acc = acc.wrapping_add(word);
        i += 2;
    }
    if i < n {
        let word: u32 = (data[i] as u32) * 256;
        proof {
            let rest = data@.skip(i as int);
            assert(rest.len() == 1);
            assert(rest[0] == data@[i as int]);
        }
        acc = acc.wrapping_add(word);
    } else {
        assert(data@.skip(i as int).len() == 0);
    }
    acc
}

/// The running sum of `data` alone, from an accumulator of zero.
pub fn get_inet_sum(data: &[u8]) -> (r: u32)
    ensures
        r == inet_sum(0, data@),
{
    update_inet_sum(0, data)
}

/// Folds the 32-bit accumulator into the 16-bit checksum.
pub fn fold_u32(data: u32) -> (r: u16)
    ensures
        r == folded(data),
{
    let once: u32 = data / 0x1_0000 + data % 0x1_0000;
    let twice: u32 = once / 0x1_0000 + once % 0x1_0000;
    (0xffff - twice) as u16
}

/// Adding buffers one after the other is adding the first, then the rest.
pub proof fn lemma_inet_sum_all_push(sum: u32, bufs: Seq<Seq<u8>>, last: Seq<u8>)
    ensures
        inet_sum_all(sum, bufs.push(last)) == inet_sum(inet_sum_all(sum, bufs), last),
    decreases bufs.len(),
{
    if bufs.len() == 0 {
        assert(bufs.push(last).skip(1) =~= Seq::<Seq<u8>>::empty());
        reveal_with_fuel(inet_sum_all, 2);
    } else {
        assert(bufs.push(last).skip(1) =~= bufs.skip(1).push(last));
        lemma_inet_sum_all_push(inet_sum(sum, bufs[0]), bufs.skip(1), last);
    }
}

} // verus!
