//! Primitive binary codecs. An `Encoder` writes unsigned integers and byte
//! vectors, a `Decoder` reads them from the front of a buffer; the two byte
//! orders are `BinaryBigEndian` and `BinaryLittleEndian`. `Encode` and `Decode`
//! lift a codec to the field types of the protocol layers.

use vstd::prelude::*;

verus! {

/// The value of the first two bytes of `b`, most significant byte first.
pub open spec fn be_u16(b: Seq<u8>) -> u16 {
    (b[0] * 0x100 + b[1]) as u16
}

/// The value of the first four bytes of `b`, most significant byte first.
pub open spec fn be_u32(b: Seq<u8>) -> u32 {
    (b[0] * 0x100_0000 + b[1] * 0x1_0000 + b[2] * 0x100 + b[3]) as u32
}

/// The value of the first eight bytes of `b`, most significant byte first.
pub open spec fn be_u64(b: Seq<u8>) -> u64 {
    (be_u32(b) * 0x1_0000_0000 + be_u32(b.skip(4))) as u64
}

/// The two bytes of `v`, most significant byte first.
pub open spec fn be_bytes_u16(v: u16) -> Seq<u8> {
    seq![(v / 0x100) as u8, (v % 0x100) as u8]
}

/// The four bytes of `v`, most significant byte first.
pub open spec fn be_bytes_u32(v: u32) -> Seq<u8> {
    seq![
        (v / 0x100_0000) as u8,
        (v / 0x1_0000 % 0x100) as u8,
        (v / 0x100 % 0x100) as u8,
        (v % 0x100) as u8,
    ]
}

/// The eight bytes of `v`, most significant byte first.
pub open spec fn be_bytes_u64(v: u64) -> Seq<u8> {
    be_bytes_u32((v / 0x1_0000_0000) as u32) + be_bytes_u32((v % 0x1_0000_0000) as u32)
}

/// The value of the first two bytes of `b`, least significant byte first.
pub open spec fn le_u16(b: Seq<u8>) -> u16 {
    (b[1] * 0x100 + b[0]) as u16
}

/// The value of the first four bytes of `b`, least significant byte first.
pub open spec fn le_u32(b: Seq<u8>) -> u32 {
    (b[3] * 0x100_0000 + b[2] * 0x1_0000 + b[1] * 0x100 + b[0]) as u32
}

/// The value of the first eight bytes of `b`, least significant byte first.
pub open spec fn le_u64(b: Seq<u8>) -> u64 {
    (le_u32(b.skip(4)) * 0x1_0000_0000 + le_u32(b)) as u64
}

/// The two bytes of `v`, least significant byte first.
pub open spec fn le_bytes_u16(v: u16) -> Seq<u8> {
    seq![(v % 0x100) as u8, (v / 0x100) as u8]
}

/// The four bytes of `v`, least significant byte first.
pub open spec fn le_bytes_u32(v: u32) -> Seq<u8> {
    seq![
        (v % 0x100) as u8,
        (v / 0x100 % 0x100) as u8,
        (v / 0x1_0000 % 0x100) as u8,
        (v / 0x100_0000) as u8,
    ]
}

/// The eight bytes of `v`, least significant byte first.
pub open spec fn le_bytes_u64(v: u64) -> Seq<u8> {
    le_bytes_u32((v % 0x1_0000_0000) as u32) + le_bytes_u32((v / 0x1_0000_0000) as u32)
}

/// The order in which the bytes of an integer stand on the wire.
#[derive(Clone, Copy, Debug, PartialEq, Eq)]
pub enum Endian {
    /// The most significant byte comes first.
    Big,
    /// The least significant byte comes first.
    Little,
}

/// The 16-bit value of the first two bytes of `b` in byte order `o`.
pub open spec fn u16_of(o: Endian, b: Seq<u8>) -> u16 {
    match o {
        Endian::Big => be_u16(b),
        Endian::Little => le_u16(b),
    }
}

/// The 32-bit value of the first four bytes of `b` in byte order `o`.
pub open spec fn u32_of(o: Endian, b: Seq<u8>) -> u32 {
    match o {
        Endian::Big => be_u32(b),
        Endian::Little => le_u32(b),
    }
}

/// The 64-bit value of the first eight bytes of `b` in byte order `o`.
pub open spec fn u64_of(o: Endian, b: Seq<u8>) -> u64 {
    match o {
        Endian::Big => be_u64(b),
        Endian::Little => le_u64(b),
    }
}

/// The two bytes of `v` in byte order `o`.
pub open spec fn u16_bytes(o: Endian, v: u16) -> Seq<u8> {
    match o {
        Endian::Big => be_bytes_u16(v),
        Endian::Little => le_bytes_u16(v),
    }
}

/// The four bytes of `v` in byte order `o`.
pub open spec fn u32_bytes(o: Endian, v: u32) -> Seq<u8> {
    match o {
        Endian::Big => be_bytes_u32(v),
        Endian::Little => le_bytes_u32(v),
    }
}

/// The eight bytes of `v` in byte order `o`.
pub open spec fn u64_bytes(o: Endian, v: u64) -> Seq<u8> {
    match o {
        Endian::Big => be_bytes_u64(v),
        Endian::Little => le_bytes_u64(v),
    }
}

/// Writes primitive values as bytes. A byte and a byte vector are written as
/// they are; the byte order of the wider integers is the implementor's.
pub trait Encoder {
    /// The byte order in which the encoder writes.
    spec fn enc_order() -> Endian;

    fn encode_u8(v1: u8) -> (r: Vec<u8>)
        ensures
            r@ == seq![v1],
    ;

    fn encode_u16(v1: u16) -> (r: Vec<u8>)
        ensures
            r@ == u16_bytes(Self::enc_order(), v1),
    ;

    fn encode_u32(v1: u32) -> (r: Vec<u8>)
        ensures
            r@ == u32_bytes(Self::enc_order(), v1),
    ;

    fn encode_u64(v1: u64) -> (r: Vec<u8>)
        ensures
            r@ == u64_bytes(Self::enc_order(), v1),
    ;

    fn encode_vec(v1: &Vec<u8>) -> (r: Vec<u8>)
        ensures
            r@ == v1@,
    ;
}

/// Reads primitive values from the front of a buffer. Each read returns the
/// value and the number of bytes it took, or `None` when the buffer is shorter
/// than the value.
pub trait Decoder {
    /// The byte order in which the decoder reads.
    spec fn dec_order() -> Endian;

    fn decode_u8(buf: &[u8]) -> (r: Option<(u8, usize)>)
        ensures
            r == (if buf@.len() >= 1 {
                Some((buf@[0], 1usize))
            } else {
                None
            }),
    ;

    fn decode_u16(buf: &[u8]) -> (r: Option<(u16, usize)>)
        ensures
            r == (if buf@.len() >= 2 {
                Some((u16_of(Self::dec_order(), buf@), 2usize))
            } else {
                None
            }),
    ;

    fn decode_u32(buf: &[u8]) -> (r: Option<(u32, usize)>)
        ensures
            r == (if buf@.len() >= 4 {
                Some((u32_of(Self::dec_order(), buf@), 4usize))
            } else {
                None
            }),
    ;

    fn decode_u64(buf: &[u8]) -> (r: Option<(u64, usize)>)
        ensures
            r == (if buf@.len() >= 8 {
                Some((u64_of(Self::dec_order(), buf@), 8usize))
            } else {
                None
            }),
    ;

    fn decode_vec(buf: &[u8], len: usize) -> (r: Option<(Vec<u8>, usize)>)
        ensures
            r is Some <==> buf@.len() >= len,
            r matches Some((v, n)) ==> n == len && v@ == buf@.subrange(0, len as int),
    ;
}

/// Network byte order: the most significant byte comes first.
pub struct BinaryBigEndian;

/// The byte order of capture files written on little-endian machines: the
/// least significant byte comes first.
pub struct BinaryLittleEndian;

/// The first `len` bytes of `buf` as a vector of their own.
fn copy_prefix(buf: &[u8], len: usize) -> (v: Vec<u8>)
    requires
        len <= buf@.len(),
    ensures
        v@ == buf@.subrange(0, len as int),
{
    let mut v: Vec<u8> = Vec::new();
    let mut i: usize = 0;
    while i < len
        invariant
            i <= len,
            len <= buf@.len(),
            v@ == buf@.subrange(0, i as int),
        decreases len - i,
    {
        v.push(buf[i]);
        i += 1;
        assert(v@ =~= buf@.subrange(0, i as int));
    }
    v
}

/// A copy of the bytes of `v`.
pub fn copy_bytes(v: &Vec<u8>) -> (r: Vec<u8>)
    ensures
        r@ == v@,
{
    let r = copy_prefix(v.as_slice(), v.len());
    assert(v@.subrange(0, v@.len() as int) =~= v@);
    r
}

/// A copy of the bytes of the slice `buf`.
pub fn slice_bytes(buf: &[u8]) -> (r: Vec<u8>)
    ensures
        r@ == buf@,
{
    let r = copy_prefix(buf, buf.len());
    assert(buf@.subrange(0, buf@.len() as int) =~= buf@);
    r
}

impl Decoder for BinaryBigEndian {
    open spec fn dec_order() -> Endian {
        Endian::Big
    }

    fn decode_u8(buf: &[u8]) -> (r: Option<(u8, usize)>) {
        if buf.len() >= 1 {
            Some((buf[0], 1))
        } else {
            None
        }
    }

    fn decode_u16(buf: &[u8]) -> (r: Option<(u16, usize)>) {
        if buf.len() >= 2 {
            let v: u16 = (buf[0] as u16) * 0x100 + (buf[1] as u16);
            Some((v, 2))
        } else {
            None
        }
    }

    fn decode_u32(buf: &[u8]) -> (r: Option<(u32, usize)>) {
        if buf.len() >= 4 {
            let v: u32 = (buf[0] as u32) * 0x100_0000 + (buf[1] as u32) * 0x1_0000 + (buf[2] as u32)
                * 0x100 + (buf[3] as u32);
            Some((v, 4))
        } else {
            None
        }
    }

    fn decode_u64(buf: &[u8]) -> (r: Option<(u64, usize)>) {
        if buf.len() >= 8 {
            let hi: u64 = (buf[0] as u64) * 0x100_0000
                + (buf[1] as u64) * 0x1_0000
                + (buf[2] as u64)
                * 0x100 + (buf[3] as u64);
            let lo: u64 = (buf[4] as u64) * 0x100_0000
                + (buf[5] as u64) * 0x1_0000
                + (buf[6] as u64)
                * 0x100 + (buf[7] as u64);
            Some((hi * 0x1_0000_0000 + lo, 8))
        } else {
            None
        }
    }

    fn decode_vec(buf: &[u8], len: usize) -> (r: Option<(Vec<u8>, usize)>) {
        if buf.len() >= len {
            Some((copy_prefix(buf, len), len))
        } else {
            None
        }
    }
}

impl Encoder for BinaryBigEndian {
    open spec fn enc_order() -> Endian {
        Endian::Big
    }

    fn encode_u8(v1: u8) -> (r: Vec<u8>) {
        let mut r: Vec<u8> = Vec::new();
        r.push(v1);
        assert(r@ =~= seq![v1]);
        r
    }

    fn encode_u16(v1: u16) -> (r: Vec<u8>) {
        let mut r: Vec<u8> = Vec::new();
        r.push((v1 / 0x100) as u8);
        r.push((v1 % 0x100) as u8);
        assert(r@ =~= be_bytes_u16(v1));
        r
    }

    fn encode_u32(v1: u32) -> (r: Vec<u8>) {
        let mut r: Vec<u8> = Vec::new();
        r.push((v1 / 0x100_0000) as u8);
        r.push((v1 / 0x1_0000 % 0x100) as u8);
        r.push((v1 / 0x100 % 0x100) as u8);
        r.push((v1 % 0x100) as u8);
        assert(r@ =~= be_bytes_u32(v1));
        r
    }

    fn encode_u64(v1: u64) -> (r: Vec<u8>) {
        let hi: u32 = (v1 / 0x1_0000_0000) as u32;
        let lo: u32 = (v1 % 0x1_0000_0000) as u32;
        let mut r: Vec<u8> = Self::encode_u32(hi);
        let mut tail: Vec<u8> = Self::encode_u32(lo);
        r.append(&mut tail);
        r
    }

    fn encode_vec(v1: &Vec<u8>) -> (r: Vec<u8>) {
        copy_bytes(v1)
    }
}

impl Decoder for BinaryLittleEndian {
    open spec fn dec_order() -> Endian {
        Endian::Little
    }

    fn decode_u8(buf: &[u8]) -> (r: Option<(u8, usize)>) {
        if buf.len() >= 1 {
            Some((buf[0], 1))
        } else {
            None
        }
    }

    fn decode_u16(buf: &[u8]) -> (r: Option<(u16, usize)>) {
        if buf.len() >= 2 {
            let v: u16 = (buf[1] as u16) * 0x100 + (buf[0] as u16);
            Some((v, 2))
        } else {
            None
        }
    }

    fn decode_u32(buf: &[u8]) -> (r: Option<(u32, usize)>) {
        if buf.len() >= 4 {
            let v: u32 = (buf[3] as u32) * 0x100_0000 + (buf[2] as u32) * 0x1_0000 + (buf[1] as u32)
                * 0x100 + (buf[0] as u32);
            Some((v, 4))
        } else {
            None
        }
    }

    fn decode_u64(buf: &[u8]) -> (r: Option<(u64, usize)>) {
        if buf.len() >= 8 {
            let lo: u64 = (buf[3] as u64) * 0x100_0000
                + (buf[2] as u64) * 0x1_0000
                + (buf[1] as u64)
                * 0x100 + (buf[0] as u64);
            let hi: u64 = (buf[7] as u64) * 0x100_0000
                + (buf[6] as u64) * 0x1_0000
                + (buf[5] as u64)
                * 0x100 + (buf[4] as u64);
            Some((hi * 0x1_0000_0000 + lo, 8))
        } else {
            None
        }
    }

    fn decode_vec(buf: &[u8], len: usize) -> (r: Option<(Vec<u8>, usize)>) {
        if buf.len() >= len {
            Some((copy_prefix(buf, len), len))
        } else {
            None
        }
    }
}

impl Encoder for BinaryLittleEndian {
    open spec fn enc_order() -> Endian {
        Endian::Little
    }

    fn encode_u8(v1: u8) -> (r: Vec<u8>) {
        let mut r: Vec<u8> = Vec::new();
        r.push(v1);
        assert(r@ =~= seq![v1]);
        r
    }

    fn encode_u16(v1: u16) -> (r: Vec<u8>) {
        let mut r: Vec<u8> = Vec::new();
        r.push((v1 % 0x100) as u8);
        r.push((v1 / 0x100) as u8);
        assert(r@ =~= le_bytes_u16(v1));
        r
    }

    fn encode_u32(v1: u32) -> (r: Vec<u8>) {
        let mut r: Vec<u8> = Vec::new();
        r.push((v1 % 0x100) as u8);
        r.push((v1 / 0x100 % 0x100) as u8);
        r.push((v1 / 0x1_0000 % 0x100) as u8);
        r.push((v1 / 0x100_0000) as u8);
        assert(r@ =~= le_bytes_u32(v1));
        r
    }

    fn encode_u64(v1: u64) -> (r: Vec<u8>) {
        let hi: u32 = (v1 / 0x1_0000_0000) as u32;
        let lo: u32 = (v1 % 0x1_0000_0000) as u32;
        let mut r: Vec<u8> = Self::encode_u32(lo);
        let mut tail: Vec<u8> = Self::encode_u32(hi);
        r.append(&mut tail);
        r
    }

    fn encode_vec(v1: &Vec<u8>) -> (r: Vec<u8>) {
        copy_bytes(v1)
    }
}

/// A value that can be written with any encoder.
pub trait Encode {
    /// The bytes that stand for the value in byte order `o`.
    spec fn encoded(&self, o: Endian) -> Seq<u8>;

    fn encode<E: Encoder>(&self) -> (r: Vec<u8>)
        ensures
            r@ == self.encoded(E::enc_order()),
    ;
}

/// A value that can be read with any decoder from the front of a buffer.
pub trait Decode: Sized {
    /// The value that stands at the front of `buf` in byte order `o` and the
    /// number of bytes it takes, or `None` where `buf` is too short.
    spec fn decoded(o: Endian, buf: Seq<u8>) -> Option<(Self, usize)>;

    /// No value takes more bytes than the buffer holds.
    proof fn lemma_decoded_fits(o: Endian, buf: Seq<u8>)
        ensures
            Self::decoded(o, buf) matches Some((_, n)) ==> n <= buf.len(),
    ;

    fn decode<D: Decoder>(buf: &[u8]) -> (r: Option<(Self, usize)>)
        ensures
            r == Self::decoded(D::dec_order(), buf@),
    ;
}

impl Decode for u8 {
    open spec fn decoded(o: Endian, buf: Seq<u8>) -> Option<(u8, usize)> {
        if buf.len() >= 1 {
            Some((buf[0], 1usize))
        } else {
            None
        }
    }

    proof fn lemma_decoded_fits(o: Endian, buf: Seq<u8>) {
    }

    fn decode<D: Decoder>(buf: &[u8]) -> (r: Option<(u8, usize)>) {
        D::decode_u8(buf)
    }
}

impl Decode for u16 {
    open spec fn decoded(o: Endian, buf: Seq<u8>) -> Option<(u16, usize)> {
        if buf.len() >= 2 {
            Some((u16_of(o, buf), 2usize))
        } else {
            None
        }
    }

    proof fn lemma_decoded_fits(o: Endian, buf: Seq<u8>) {
    }

    fn decode<D: Decoder>(buf: &[u8]) -> (r: Option<(u16, usize)>) {
        D::decode_u16(buf)
    }
}

impl Decode for u32 {
    open spec fn decoded(o: Endian, buf: Seq<u8>) -> Option<(u32, usize)> {
        if buf.len() >= 4 {
            Some((u32_of(o, buf), 4usize))
        } else {
            None
        }
    }

    proof fn lemma_decoded_fits(o: Endian, buf: Seq<u8>) {
    }

    fn decode<D: Decoder>(buf: &[u8]) -> (r: Option<(u32, usize)>) {
        D::decode_u32(buf)
    }
}

/// The signed value with the same 32 bits as `v`.
pub open spec fn signed_of(v: u32) -> i32 {
    if v <= 0x7fff_ffff {
        v as i32
    } else {
        (v - 0x1_0000_0000) as i32
    }
}

/// The unsigned value with the same 32 bits as `v`.
pub open spec fn unsigned_of(v: i32) -> u32 {
    if v >= 0 {
        v as u32
    } else {
        (v + 0x1_0000_0000) as u32
    }
}

/// The signed value with the same 32 bits as `v`.
pub fn to_signed(v: u32) -> (r: i32)
    ensures
        r == signed_of(v),
{
    if v <= 0x7fff_ffff {
        v as i32
    } else {
        -((0xffff_ffff - v) as i32) - 1
    }
}

/// The unsigned value with the same 32 bits as `v`.
pub fn to_unsigned(v: i32) -> (r: u32)
    ensures
        r == unsigned_of(v),
{
    if v >= 0 {
        v as u32
    } else {
        0xffff_ffff - ((-(v + 1)) as u32)
    }
}

impl Decode for i32 {
    open spec fn decoded(o: Endian, buf: Seq<u8>) -> Option<(i32, usize)> {
        if buf.len() >= 4 {
            Some((signed_of(u32_of(o, buf)), 4usize))
        } else {
            None
        }
    }

    proof fn lemma_decoded_fits(o: Endian, buf: Seq<u8>) {
    }

    fn decode<D: Decoder>(buf: &[u8]) -> (r: Option<(i32, usize)>) {
        match D::decode_u32(buf) {
            Some((n, s)) => Some((to_signed(n), s)),
            None => None,
        }
    }
}

impl Decode for u64 {
    open spec fn decoded(o: Endian, buf: Seq<u8>) -> Option<(u64, usize)> {
        if buf.len() >= 8 {
            Some((u64_of(o, buf), 8usize))
        } else {
            None
        }
    }

    proof fn lemma_decoded_fits(o: Endian, buf: Seq<u8>) {
    }

    fn decode<D: Decoder>(buf: &[u8]) -> (r: Option<(u64, usize)>) {
        D::decode_u64(buf)
    }
}

impl Encode for u8 {
    open spec fn encoded(&self, o: Endian) -> Seq<u8> {
        seq![*self]
    }

    fn encode<E: Encoder>(&self) -> (r: Vec<u8>) {
        E::encode_u8(*self)
    }
}

impl Encode for u16 {
    open spec fn encoded(&self, o: Endian) -> Seq<u8> {
        u16_bytes(o, *self)
    }

    fn encode<E: Encoder>(&self) -> (r: Vec<u8>) {
        E::encode_u16(*self)
    }
}

impl Encode for u32 {
    open spec fn encoded(&self, o: Endian) -> Seq<u8> {
        u32_bytes(o, *self)
    }

    fn encode<E: Encoder>(&self) -> (r: Vec<u8>) {
        E::encode_u32(*self)
    }
}

impl Encode for i32 {
    open spec fn encoded(&self, o: Endian) -> Seq<u8> {
        u32_bytes(o, unsigned_of(*self))
    }

    fn encode<E: Encoder>(&self) -> (r: Vec<u8>) {
        E::encode_u32(to_unsigned(*self))
    }
}

impl Encode for u64 {
    open spec fn encoded(&self, o: Endian) -> Seq<u8> {
        u64_bytes(o, *self)
    }

    fn encode<E: Encoder>(&self) -> (r: Vec<u8>) {
        E::encode_u64(*self)
    }
}

impl Encode for Vec<u8> {
    open spec fn encoded(&self, o: Endian) -> Seq<u8> {
        self@
    }

    fn encode<E: Encoder>(&self) -> (r: Vec<u8>) {
        E::encode_vec(self)
    }
}

/// Big-endian 16-bit values and their two bytes determine each other.
pub proof fn lemma_be_u16(v: u16, b: Seq<u8>)
    ensures
        be_bytes_u16(v).len() == 2,
        be_u16(be_bytes_u16(v) + b) == v,
        b.len() >= 2 ==> be_bytes_u16(be_u16(b)) == b.subrange(0, 2),
{
    if b.len() >= 2 {
        assert(be_bytes_u16(be_u16(b)) =~= b.subrange(0, 2));
    }
}

/// A 32-bit value is the sum of its four bytes, each at its weight.
pub proof fn lemma_u32_split(v: u32)
    ensures
        v == (v / 0x100_0000) * 0x100_0000 + (v / 0x1_0000 % 0x100) * 0x1_0000 + (v / 0x100 % 0x100)
            * 0x100 + v % 0x100,
        v / 0x100_0000 < 0x100,
{
    assert(v == (v / 0x100_0000) * 0x100_0000 + (v / 0x1_0000 % 0x100) * 0x1_0000 + (v / 0x100
        % 0x100) * 0x100 + v % 0x100 && v / 0x100_0000 < 0x100) by (bit_vector);
}

/// Four bytes at their weights give a 32-bit value whose bytes they are.
pub proof fn lemma_u32_join(b0: u8, b1: u8, b2: u8, b3: u8)
    ensures
        ({
            let x = b0 * 0x100_0000 + b1 * 0x1_0000 + b2 * 0x100 + b3;
            &&& 0 <= x <= u32::MAX
            &&& x / 0x100_0000 == b0
            &&& x / 0x1_0000 % 0x100 == b1
            &&& x / 0x100 % 0x100 == b2
            &&& x % 0x100 == b3
        }),
{
    let x = b0 * 0x100_0000 + b1 * 0x1_0000 + b2 * 0x100 + b3;
    let hi = b0 * 0x100 + b1;
    let mid = hi * 0x100 + b2;
    assert(x == mid * 0x100 + b3);
    assert(x % 0x100 == b3);
    assert(x / 0x100 == mid);
    assert(mid % 0x100 == b2);
    assert(mid / 0x100 == hi);
    assert(x / 0x1_0000 == hi);
    assert(hi % 0x100 == b1);
    assert(hi / 0x100 == b0);
    assert(x / 0x100_0000 == b0);
}

/// Big-endian 32-bit values and their four bytes determine each other.
pub proof fn lemma_be_u32(v: u32, b: Seq<u8>)
    ensures
        be_bytes_u32(v).len() == 4,
        be_u32(be_bytes_u32(v) + b) == v,
        b.len() >= 4 ==> be_bytes_u32(be_u32(b)) == b.subrange(0, 4),
{
    lemma_u32_split(v);
    if b.len() >= 4 {
        lemma_u32_join(b[0], b[1], b[2], b[3]);
        assert(be_bytes_u32(be_u32(b)) =~= b.subrange(0, 4));
    }
}

/// Little-endian 32-bit values and their four bytes determine each other.
pub proof fn lemma_le_u32(v: u32, b: Seq<u8>)
    ensures
        le_bytes_u32(v).len() == 4,
        le_u32(le_bytes_u32(v) + b) == v,
        b.len() >= 4 ==> le_bytes_u32(le_u32(b)) == b.subrange(0, 4),
{
    lemma_u32_split(v);
    if b.len() >= 4 {
        lemma_u32_join(b[3], b[2], b[1], b[0]);
        assert(le_bytes_u32(le_u32(b)) =~= b.subrange(0, 4));
    }
}

/// Little-endian 16-bit values and their two bytes determine each other.
pub proof fn lemma_le_u16(v: u16, b: Seq<u8>)
    ensures
        le_bytes_u16(v).len() == 2,
        le_u16(le_bytes_u16(v) + b) == v,
        b.len() >= 2 ==> le_bytes_u16(le_u16(b)) == b.subrange(0, 2),
{
    if b.len() >= 2 {
        assert(le_bytes_u16(le_u16(b)) =~= b.subrange(0, 2));
    }
}

/// In either byte order a 16-bit value takes two bytes, reading what was
/// written gives the value back, and writing what was read gives the bytes
/// back.
pub proof fn lemma_u16_inverse(o: Endian, v: u16, b: Seq<u8>)
    ensures
        u16_bytes(o, v).len() == 2,
        u16_of(o, u16_bytes(o, v) + b) == v,
        b.len() >= 2 ==> u16_bytes(o, u16_of(o, b)) == b.subrange(0, 2),
{
    lemma_be_u16(v, b);
    lemma_le_u16(v, b);
}

/// In either byte order a 32-bit value takes four bytes, reading what was
/// written gives the value back, and writing what was read gives the bytes
/// back.
pub proof fn lemma_u32_inverse(o: Endian, v: u32, b: Seq<u8>)
    ensures
        u32_bytes(o, v).len() == 4,
        u32_of(o, u32_bytes(o, v) + b) == v,
        b.len() >= 4 ==> u32_bytes(o, u32_of(o, b)) == b.subrange(0, 4),
{
    lemma_be_u32(v, b);
    lemma_le_u32(v, b);
}

/// A 32-bit value keeps its bits through the signed reading and back.
pub proof fn lemma_signed_inverse(v: u32, w: i32)
    ensures
        unsigned_of(signed_of(v)) == v,
        signed_of(unsigned_of(w)) == w,
{
}

} // verus!
