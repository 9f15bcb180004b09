//! The classic pcap capture file: a magic number that tells the byte order, a
//! file header and the packet records.

use crate::codec::BinaryBigEndian;
use crate::codec::BinaryLittleEndian;
use crate::codec::Decode;
use crate::codec::Decoder;
use crate::codec::Encode;
use crate::codec::Encoder;
use crate::codec::Endian;
use crate::codec::copy_bytes;
use crate::codec::lemma_signed_inverse;
use crate::codec::lemma_u16_inverse;
use crate::codec::lemma_u32_inverse;
use crate::codec::signed_of;
use crate::codec::u16_of;
use crate::codec::u32_bytes;
use crate::codec::u32_of;
use crate::encoding::EncodingVecVec;
use crate::encoding::Outer;
use crate::registry::LayerKind;
use crate::registry::Registry;
use crate::registry::RegistryEntry;
use crate::registry::RegistryName;
use crate::value::Field;
use crate::value::RandomSource;
use crate::value::Value;
use crate::value::ValueView;
use crate::value::behind;
use crate::value::drew;
use crate::value::fresh;
use crate::value::lemma_drew_first;
use crate::value::lemma_drew_none;
use crate::value::share;
use crate::wire::put;
use crate::wire::put_bytes;
use crate::wire::take;
use crate::wire::take_bytes;
use vstd::prelude::*;

verus! {

/// One packet record of a capture file: a header of four numbers and the
/// bytes of the packet.
#[allow(non_camel_case_types)]
#[derive(Clone, Debug, PartialEq, Eq)]
pub struct pcapPacket {
    /// The seconds of the timestamp.
    pub ts_sec: Value<u32>,
    /// The microseconds of the timestamp.
    pub ts_usec: Value<u32>,
    /// The number of bytes of the packet that the file holds. Giving the
    /// layer its data fills an open one.
    pub incl_len: Value<u32>,
    /// The length of the packet as it was on the wire. Giving the layer its
    /// data fills an open one.
    pub orig_len: Value<u32>,
    /// The bytes of the packet.
    pub data: Vec<u8>,
}

/// What a layer of type `pcapPacket` says, with its vectors as sequences.
#[allow(non_camel_case_types)]
pub struct pcapPacketView {
    pub ts_sec: ValueView<u32>,
    pub ts_usec: ValueView<u32>,
    pub incl_len: ValueView<u32>,
    pub orig_len: ValueView<u32>,
    pub data: Seq<u8>,
}

impl View for pcapPacket {
    type V = pcapPacketView;

    open spec fn view(&self) -> pcapPacketView {
        pcapPacketView {
            ts_sec: self.ts_sec@,
            ts_usec: self.ts_usec@,
            incl_len: self.incl_len@,
            orig_len: self.orig_len@,
            data: self.data@,
        }
    }
}

impl pcapPacketView {
    /// A layer as it is made: every field at its default.
    pub open spec fn default_spec() -> pcapPacketView {
        pcapPacketView {
            ts_sec: ValueView::Auto,
            ts_usec: ValueView::Auto,
            incl_len: ValueView::Auto,
            orig_len: ValueView::Auto,
            data: Seq::empty(),
        }
    }

    /// No field waits for a random number or for a function of the caller.
    pub open spec fn settled(self) -> bool {
        &&& self.ts_sec.settled()
        &&& self.ts_usec.settled()
        &&& self.incl_len.settled()
        &&& self.orig_len.settled()
    }

    /// `r` is the layer with every random or computed field given some value
    /// and every other field as it was. Which value a random field is given
    /// is said by `drawn_from`.
    pub open spec fn resolves_to(self, r: pcapPacketView) -> bool {
        &&& self.ts_sec.resolves_to(r.ts_sec)
        &&& self.ts_usec.resolves_to(r.ts_usec)
        &&& self.incl_len.resolves_to(r.incl_len)
        &&& self.orig_len.resolves_to(r.orig_len)
        &&& r.data == self.data
    }

    /// `r` is the layer after a fill in a stack whose next layer is of kind
    /// `next`, with the tables `reg`: fixed fields stay, random and computed
    /// fields get some value, and each open field gets what its rule says.
    /// Which value a random field gets is said by `drawn_from`.
    pub open spec fn fills_to(
        self,
        reg: Seq<RegistryEntry>,
        next: Option<LayerKind>,
        r: pcapPacketView,
    ) -> bool {
        &&& self.ts_sec.fills_to(ValueView::Fixed(0), r.ts_sec)
        &&& self.ts_usec.fills_to(ValueView::Fixed(0), r.ts_usec)
        &&& self.incl_len.fills_to(ValueView::Auto, r.incl_len)
        &&& self.orig_len.fills_to(ValueView::Auto, r.orig_len)
        &&& r.data == self.data
    }

    /// How many numbers the layer takes from a random source when it is
    /// resolved or filled: those of its random fields together.
    pub open spec fn draws(self) -> nat {
        self.ts_sec.draws(u32::draws())
            + self.ts_usec.draws(u32::draws())
            + self.incl_len.draws(u32::draws())
            + self.orig_len.draws(u32::draws())
    }

    /// `r` holds in every field that is random in `self` the value made of
    /// that field's share of the numbers `d`. The fields take their shares
    /// in the order in which they are declared, each as many numbers as a
    /// random value of its type takes.
    pub open spec fn drawn_from(self, d: Seq<u32>, r: pcapPacketView) -> bool {
        let d0 = d;
        let d1 = behind(d0, self.ts_sec.draws(u32::draws()));
        let d2 = behind(d1, self.ts_usec.draws(u32::draws()));
        let d3 = behind(d2, self.incl_len.draws(u32::draws()));
        &&& self.ts_sec.drawn_as(u32::of_draws(share(d0, u32::draws())), r.ts_sec)
        &&& self.ts_usec.drawn_as(u32::of_draws(share(d1, u32::draws())), r.ts_usec)
        &&& self.incl_len.drawn_as(u32::of_draws(share(d2, u32::draws())), r.incl_len)
        &&& self.orig_len.drawn_as(u32::of_draws(share(d3, u32::draws())), r.orig_len)
    }

    /// No field of the layer is computed by a function of the caller.
    pub open spec fn without_funcs(self) -> bool {
        &&& !(self.ts_sec is Func)
        &&& !(self.ts_usec is Func)
        &&& !(self.incl_len is Func)
        &&& !(self.orig_len is Func)
    }

    /// Where no field is computed, the numbers drawn decide what the layer
    /// resolves to.
    pub proof fn lemma_resolve_decided(self, d: Seq<u32>, a: pcapPacketView, b: pcapPacketView)
        requires
            self.without_funcs(),
            self.resolves_to(a),
            self.drawn_from(d, a),
            self.resolves_to(b),
            self.drawn_from(d, b),
        ensures
            a == b,
    {
    }

    /// Where no field is computed, the numbers drawn decide what the layer
    /// is filled to.
    pub proof fn lemma_fill_decided(
        self,
        reg: Seq<RegistryEntry>,
        next: Option<LayerKind>,
        d: Seq<u32>,
        a: pcapPacketView,
        b: pcapPacketView,
    )
        requires
            self.without_funcs(),
            self.fills_to(reg, next, a),
            self.drawn_from(d, a),
            self.fills_to(reg, next, b),
            self.drawn_from(d, b),
        ensures
            a == b,
    {
    }

    /// What the fields drew one after the other is what the layer drew:
    /// `s0` is the record of the source before the first field, and each
    /// of the others the record after one more field.
    pub proof fn lemma_drawn(
        self,
        r: pcapPacketView,
        s0: Seq<u32>,
        s1: Seq<u32>,
        s2: Seq<u32>,
        s3: Seq<u32>,
        s4: Seq<u32>,
    )
        requires
            drew(s0, s1, self.ts_sec.draws(u32::draws())),
            self.ts_sec.drawn_as(u32::of_draws(fresh(s0, s1)), r.ts_sec),
            drew(s1, s2, self.ts_usec.draws(u32::draws())),
            self.ts_usec.drawn_as(u32::of_draws(fresh(s1, s2)), r.ts_usec),
            drew(s2, s3, self.incl_len.draws(u32::draws())),
            self.incl_len.drawn_as(u32::of_draws(fresh(s2, s3)), r.incl_len),
            drew(s3, s4, self.orig_len.draws(u32::draws())),
            self.orig_len.drawn_as(u32::of_draws(fresh(s3, s4)), r.orig_len),
        ensures
            drew(s0, s4, self.draws()),
            self.drawn_from(fresh(s0, s4), r),
    {
        lemma_drew_none(s4);
        lemma_drew_first(s3, s4, s4);
        lemma_drew_first(s2, s3, s4);
        lemma_drew_first(s1, s2, s4);
        lemma_drew_first(s0, s1, s4);
    }

    /// The bytes of the header.
    pub open spec fn header(self, o: Endian) -> Seq<u8> {
        (self.ts_sec.or(0)).encoded(o)
            + (self.ts_usec.or(0)).encoded(o)
            + (self.incl_len.or(0)).encoded(o)
            + (self.orig_len.or(0)).encoded(o)
            + self.data
    }

    /// The bytes of the layer on the wire.
    pub open spec fn wire(self, o: Endian, outer: Outer, tail: Seq<Seq<u8>>) -> Seq<u8> {
        self.header(o)
    }

    /// The header names no protocol to follow.
    pub open spec fn nexts(self) -> Seq<(RegistryName, u32)> {
        Seq::empty()
    }

    /// The record at the front of `buf` in byte order `o` and its length in
    /// bytes, or `None` where `buf` is shorter than the record. The record has
    /// sixteen bytes of header and then as many bytes of data as the header
    /// says the file holds.
    #[verifier::opaque]
    pub open spec fn parse(o: Endian, buf: Seq<u8>) -> Option<(pcapPacketView, nat)> {
        if buf.len() < 16 {
            None
        } else {
            let incl = u32_of(o, buf.skip(8));
            if buf.len() < 16 + incl {
                None
            } else {
                Some(
                    (
                        pcapPacketView {
                            ts_sec: ValueView::Fixed(u32_of(o, buf.skip(0))),
                            ts_usec: ValueView::Fixed(u32_of(o, buf.skip(4))),
                            incl_len: ValueView::Fixed(incl),
                            orig_len: ValueView::Fixed(u32_of(o, buf.skip(12))),
                            data: buf.subrange(16, 16 + incl),
                        },
                        (16 + incl) as nat,
                    ),
                )
            }
        }
    }

    /// The record with the bytes `data`: an open length becomes the length of
    /// `data`, as a 32-bit length field holds it.
    pub open spec fn with_data(self, data: Seq<u8>) -> pcapPacketView {
        pcapPacketView {
            incl_len: if self.incl_len is Auto {
                ValueView::Fixed(len32(data.len()))
            } else {
                self.incl_len
            },
            orig_len: if self.orig_len is Auto {
                ValueView::Fixed(len32(data.len()))
            } else {
                self.orig_len
            },
            data,
            ..self
        }
    }

    /// After a fill no field waits for a random number or a function, and
    /// every field is fixed but those that are left to the encoder.
    pub proof fn lemma_filled(
        self,
        reg: Seq<RegistryEntry>,
        next: Option<LayerKind>,
        r: pcapPacketView,
    )
        requires
            self.fills_to(reg, next, r),
        ensures
            r.settled(),
            r.ts_sec is Fixed,
            r.ts_usec is Fixed,
    {
    }

    /// After resolution no field waits for a random number or a function.
    pub proof fn lemma_resolved(self, r: pcapPacketView)
        requires
            self.resolves_to(r),
        ensures
            r.settled(),
    {
    }

    /// Resolving a layer in which nothing is random or computed changes
    /// nothing.
    pub proof fn lemma_settled(self, r: pcapPacketView)
        requires
            self.settled(),
            self.resolves_to(r),
        ensures
            r == self,
    {
    }

    /// A header that can be read lies within the buffer.
    pub proof fn lemma_parse_fits(o: Endian, buf: Seq<u8>)
        requires
            pcapPacketView::parse(o, buf) is Some,
        ensures
            pcapPacketView::parse(o, buf) matches Some((l, n)) && n <= buf.len(),
    {
        reveal(pcapPacketView::parse);
    }

    /// A record that was read and then resolved is written as the bytes it was
    /// read from.
    pub proof fn lemma_echo_resolved(o: Endian, buf: Seq<u8>, r: pcapPacketView)
        requires
            pcapPacketView::parse(o, buf) matches Some((l, n)) && l.resolves_to(r),
        ensures
            pcapPacketView::parse(
                o,
                buf,
            ) matches Some((l, n)) && 16 <= n && n <= buf.len() && r.header(o) == buf.subrange(
                0,
                n as int,
            ),
    {
        reveal(pcapPacketView::parse);
        let incl = u32_of(o, buf.skip(8));
        lemma_u32_inverse(o, 0, buf.skip(0));
        lemma_u32_inverse(o, 0, buf.skip(4));
        lemma_u32_inverse(o, 0, buf.skip(8));
        lemma_u32_inverse(o, 0, buf.skip(12));
        assert(buf.skip(0).subrange(0, 4) =~= buf.subrange(0, 4));
        assert(buf.skip(4).subrange(0, 4) =~= buf.subrange(4, 8));
        assert(buf.skip(8).subrange(0, 4) =~= buf.subrange(8, 12));
        assert(buf.skip(12).subrange(0, 4) =~= buf.subrange(12, 16));
        assert(r.header(o) =~= buf.subrange(0, 16 + incl));
    }

    /// A record that was read and then filled is written as the bytes it was
    /// read from.
    pub proof fn lemma_echo(
        o: Endian,
        buf: Seq<u8>,
        reg: Seq<RegistryEntry>,
        next: Option<LayerKind>,
        r: pcapPacketView,
        outer: Outer,
        tail: Seq<Seq<u8>>,
    )
        requires
            pcapPacketView::parse(o, buf) matches Some((l, n)) && l.fills_to(reg, next, r),
        ensures
            pcapPacketView::parse(
                o,
                buf,
            ) matches Some((l, n)) && n <= buf.len() && r.wire(o, outer, tail) == buf.subrange(
                0,
                n as int,
            ),
    {
        match pcapPacketView::parse(o, buf) {
            Some((l, _)) => {
                assert(l.resolves_to(r)) by {
                    reveal(pcapPacketView::parse);
                }
            },
            None => {},
        }
        pcapPacketView::lemma_echo_resolved(o, buf, r);
    }
}

impl Default for pcapPacket {
    fn default() -> (r: pcapPacket)
        ensures
            r@ == pcapPacketView::default_spec(),
    {
        pcapPacket::new()
    }
}

impl pcapPacket {
    /// A layer with every field at its default.
    pub fn new() -> (r: pcapPacket)
        ensures
            r@ == pcapPacketView::default_spec(),
    {
        let r = pcapPacket {
            ts_sec: Value::Auto,
            ts_usec: Value::Auto,
            incl_len: Value::Auto,
            orig_len: Value::Auto,
            data: Vec::new(),
        };
        assert(r@.data =~= pcapPacketView::default_spec().data);
        r
    }

    /// The layer with `ts_sec` fixed to the given value.
    pub fn ts_sec(self, ts_sec: u32) -> (r: pcapPacket)
        ensures
            r@ == (pcapPacketView { ts_sec: ValueView::Fixed(ts_sec@), ..self@ }),
    {
        let mut r = self;
        r.ts_sec = Value::Fixed(ts_sec);
        r
    }

    /// The layer with `ts_sec` set to the given deferred value.
    pub fn set_ts_sec(self, ts_sec: Value<u32>) -> (r: pcapPacket)
        ensures
            r@ == (pcapPacketView { ts_sec: ts_sec@, ..self@ }),
    {
        let mut r = self;
        r.ts_sec = ts_sec;
        r
    }

    /// The layer with `ts_usec` fixed to the given value.
    pub fn ts_usec(self, ts_usec: u32) -> (r: pcapPacket)
        ensures
            r@ == (pcapPacketView { ts_usec: ValueView::Fixed(ts_usec@), ..self@ }),
    {
        let mut r = self;
        r.ts_usec = Value::Fixed(ts_usec);
        r
    }

    /// The layer with `ts_usec` set to the given deferred value.
    pub fn set_ts_usec(self, ts_usec: Value<u32>) -> (r: pcapPacket)
        ensures
            r@ == (pcapPacketView { ts_usec: ts_usec@, ..self@ }),
    {
        let mut r = self;
        r.ts_usec = ts_usec;
        r
    }

    /// The layer with `incl_len` fixed to the given value.
    pub fn incl_len(self, incl_len: u32) -> (r: pcapPacket)
        ensures
            r@ == (pcapPacketView { incl_len: ValueView::Fixed(incl_len@), ..self@ }),
    {
        let mut r = self;
        r.incl_len = Value::Fixed(incl_len);
        r
    }

    /// The layer with `incl_len` set to the given deferred value.
    pub fn set_incl_len(self, incl_len: Value<u32>) -> (r: pcapPacket)
        ensures
            r@ == (pcapPacketView { incl_len: incl_len@, ..self@ }),
    {
        let mut r = self;
        r.incl_len = incl_len;
        r
    }

    /// The layer with `orig_len` fixed to the given value.
    pub fn orig_len(self, orig_len: u32) -> (r: pcapPacket)
        ensures
            r@ == (pcapPacketView { orig_len: ValueView::Fixed(orig_len@), ..self@ }),
    {
        let mut r = self;
        r.orig_len = Value::Fixed(orig_len);
        r
    }

    /// The layer with `orig_len` set to the given deferred value.
    pub fn set_orig_len(self, orig_len: Value<u32>) -> (r: pcapPacket)
        ensures
            r@ == (pcapPacketView { orig_len: orig_len@, ..self@ }),
    {
        let mut r = self;
        r.orig_len = orig_len;
        r
    }

    /// A copy of the layer in which every random field is drawn from `rng` and
    /// every computed field is computed. The random fields draw in the order
    /// in which they are declared.
    pub fn resolve<R: RandomSource>(&self, rng: &mut R) -> (r: pcapPacket)
        ensures
            self@.resolves_to(r@),
            r@.settled(),
            drew(old(rng).drawn(), final(rng).drawn(), self@.draws()),
            self@.drawn_from(fresh(old(rng).drawn(), final(rng).drawn()), r@),
    {
        let ghost s0 = rng.drawn();
        let ts_sec = self.ts_sec.resolved(rng);
        let ghost s1 = rng.drawn();
        let ts_usec = self.ts_usec.resolved(rng);
        let ghost s2 = rng.drawn();
        let incl_len = self.incl_len.resolved(rng);
        let ghost s3 = rng.drawn();
        let orig_len = self.orig_len.resolved(rng);
        let ghost s4 = rng.drawn();
        let data = copy_bytes(&self.data);
        let r = pcapPacket { ts_sec, ts_usec, incl_len, orig_len, data };
        proof {
            self@.lemma_drawn(r@, s0, s1, s2, s3, s4);
        }
        r
    }

    /// The layer filled: resolved as by `resolve`, and with every open field
    /// given what its rule says. `next` is the kind of the layer that follows
    /// in the stack.
    pub fn filled<R: RandomSource>(
        &self,
        reg: &Registry,
        next: Option<LayerKind>,
        rng: &mut R,
    ) -> (r: pcapPacket)
        ensures
            self@.fills_to(reg@, next, r@),
            drew(old(rng).drawn(), final(rng).drawn(), self@.draws()),
            self@.drawn_from(fresh(old(rng).drawn(), final(rng).drawn()), r@),
    {
        let ghost s0 = rng.drawn();
        let ts_sec = self.ts_sec.filled(rng, u32::default_value());
        let ghost s1 = rng.drawn();
        let ts_usec = self.ts_usec.filled(rng, u32::default_value());
        let ghost s2 = rng.drawn();
        let incl_len = self.incl_len.resolved(rng);
        let ghost s3 = rng.drawn();
        let orig_len = self.orig_len.resolved(rng);
        let ghost s4 = rng.drawn();
        let data = copy_bytes(&self.data);
        let r = pcapPacket { ts_sec, ts_usec, incl_len, orig_len, data };
        proof {
            self@.lemma_drawn(r@, s0, s1, s2, s3, s4);
        }
        r
    }

    /// The bytes of the header.
    pub fn header_bytes<E: Encoder>(&self) -> (r: Vec<u8>)
        ensures
            r@ == self@.header(E::enc_order()),
    {
        let mut out: Vec<u8> = Vec::new();
        assert(
            out@ + (self@.ts_sec.or(0)).encoded(E::enc_order())
                =~= (self@.ts_sec.or(0)).encoded(E::enc_order())
        );
        put::<u32, E>(&mut out, &(self.ts_sec.or(u32::default_value())));
        put::<u32, E>(&mut out, &(self.ts_usec.or(u32::default_value())));
        put::<u32, E>(&mut out, &(self.incl_len.or(u32::default_value())));
        put::<u32, E>(&mut out, &(self.orig_len.or(u32::default_value())));
        put_bytes(&mut out, copy_bytes(&self.data));
        out
    }

    /// The bytes of the layer on the wire. `outer` tells what stands before
    /// the layer in the stack and `tail` holds the bytes of the layers behind
    /// it; this protocol needs neither.
    pub fn wire_bytes<E: Encoder>(&self, outer: &Outer, tail: &EncodingVecVec) -> (r: Vec<u8>)
        ensures
            r@ == self@.wire(E::enc_order(), *outer, tail@),
    {
        self.header_bytes::<E>()
    }

    /// The numbers by which the header names the protocol that follows:
    /// none, for this header names no protocol to follow.
    pub fn next_keys(&self) -> (r: Vec<(RegistryName, u32)>)
        ensures
            r@ == self@.nexts(),
    {
        let mut r: Vec<(RegistryName, u32)> = Vec::new();
        assert(r@ =~= self@.nexts());
        r
    }

    /// `other` holds in every computed field the function that `self` holds
    /// there.
    pub open spec fn same_funcs(self, other: pcapPacket) -> bool {
        &&& other.ts_sec.func() == self.ts_sec.func()
        &&& other.ts_usec.func() == self.ts_usec.func()
        &&& other.incl_len.func() == self.incl_len.func()
        &&& other.orig_len.func() == self.orig_len.func()
    }

    /// A copy of the layer: the same values, and in the computed fields the
    /// same functions.
    pub fn dup(&self) -> (r: pcapPacket)
        ensures
            r@ == self@,
            self.same_funcs(r),
    {
        let ts_sec = self.ts_sec.dup();
        let ts_usec = self.ts_usec.dup();
        let incl_len = self.incl_len.dup();
        let orig_len = self.orig_len.dup();
        let data = copy_bytes(&self.data);
        pcapPacket { ts_sec, ts_usec, incl_len, orig_len, data }
    }

    /// The record with the bytes `data`. A length that was left open becomes the
    /// length of `data`.
    pub fn data(self, data: Vec<u8>) -> (r: pcapPacket)
        ensures
            r@ == self@.with_data(data@),
    {
        let n: u32 = ((data.len() as u64) % 0x1_0000_0000) as u32;
        let mut r = self;
        if r.incl_len.is_auto() {
            r.incl_len = Value::Fixed(n);
        }
        if r.orig_len.is_auto() {
            r.orig_len = Value::Fixed(n);
        }
        r.data = data;
        r
    }

    /// Reads a record from the front of `buf`: the record and its length in
    /// bytes, or `None` where `buf` is too short.
    pub fn decode_header<D: Decoder>(buf: &[u8]) -> (r: Option<(pcapPacket, usize)>)
        ensures
            match r {
                Some((l, n)) => pcapPacketView::parse(D::dec_order(), buf@) == Some((l@, n as nat))
                    && n <= buf@.len(),
                None => pcapPacketView::parse(D::dec_order(), buf@) is None,
            },
    {
        proof {
            reveal(pcapPacketView::parse);
        }
        let mut pos: usize = 0;
        let ts_sec = take::<u32, D>(buf, &mut pos)?;
        let ts_usec = take::<u32, D>(buf, &mut pos)?;
        let incl_len = take::<u32, D>(buf, &mut pos)?;
        let orig_len = take::<u32, D>(buf, &mut pos)?;
        let data = take_bytes(buf, &mut pos, incl_len as usize)?;
        Some(
            (
                pcapPacket {
                    ts_sec: Value::Fixed(ts_sec),
                    ts_usec: Value::Fixed(ts_usec),
                    incl_len: Value::Fixed(incl_len),
                    orig_len: Value::Fixed(orig_len),
                    data,
                },
                pos,
            ),
        )
    }
}

/// What follows the magic number of a capture file: the rest of the file
/// header and the packet records.
#[allow(non_camel_case_types)]
#[derive(Clone, Debug, PartialEq, Eq)]
pub struct pcapFileData {
    /// The major version of the format.
    pub version_major: Value<u16>,
    /// The minor version of the format.
    pub version_minor: Value<u16>,
    /// The correction from GMT to local time.
    pub thiszone: Value<i32>,
    /// The accuracy of the timestamps.
    pub sigfigs: Value<u32>,
    /// The largest length of a captured packet.
    pub snaplen: Value<u32>,
    /// The link type. A layer is made with 1, Ethernet.
    pub network: Value<u32>,
    /// The packet records.
    pub packets: Vec<pcapPacket>,
}

/// What a layer of type `pcapFileData` says, with its vectors as sequences.
#[allow(non_camel_case_types)]
pub struct pcapFileDataView {
    pub version_major: ValueView<u16>,
    pub version_minor: ValueView<u16>,
    pub thiszone: ValueView<i32>,
    pub sigfigs: ValueView<u32>,
    pub snaplen: ValueView<u32>,
    pub network: ValueView<u32>,
    pub packets: Seq<pcapPacketView>,
}

impl View for pcapFileData {
    type V = pcapFileDataView;

    open spec fn view(&self) -> pcapFileDataView {
        pcapFileDataView {
            version_major: self.version_major@,
            version_minor: self.version_minor@,
            thiszone: self.thiszone@,
            sigfigs: self.sigfigs@,
            snaplen: self.snaplen@,
            network: self.network@,
            packets: packets_view(self.packets@),
        }
    }
}

impl pcapFileDataView {
    /// A layer as it is made: every field at its default.
    pub open spec fn default_spec() -> pcapFileDataView {
        pcapFileDataView {
            version_major: ValueView::Fixed(2),
            version_minor: ValueView::Fixed(4),
            thiszone: ValueView::Fixed(0),
            sigfigs: ValueView::Fixed(0),
            snaplen: ValueView::Auto,
            network: ValueView::Fixed(1),
            packets: Seq::empty(),
        }
    }

    /// No field waits for a random number or for a function of the caller.
    pub open spec fn settled(self) -> bool {
        &&& self.version_major.settled()
        &&& self.version_minor.settled()
        &&& self.thiszone.settled()
        &&& self.sigfigs.settled()
        &&& self.snaplen.settled()
        &&& self.network.settled()
        &&& packets_settled(self.packets)
    }

    /// `r` is the layer with every random or computed field given some value
    /// and every other field as it was. Which value a random field is given
    /// is said by `drawn_from`.
    pub open spec fn resolves_to(self, r: pcapFileDataView) -> bool {
        &&& self.version_major.resolves_to(r.version_major)
        &&& self.version_minor.resolves_to(r.version_minor)
        &&& self.thiszone.resolves_to(r.thiszone)
        &&& self.sigfigs.resolves_to(r.sigfigs)
        &&& self.snaplen.resolves_to(r.snaplen)
        &&& self.network.resolves_to(r.network)
        &&& packets_resolve_to(self.packets, r.packets)
    }

    /// `r` is the layer after a fill in a stack whose next layer is of kind
    /// `next`, with the tables `reg`: fixed fields stay, random and computed
    /// fields get some value, and each open field gets what its rule says.
    /// Which value a random field gets is said by `drawn_from`.
    pub open spec fn fills_to(
        self,
        reg: Seq<RegistryEntry>,
        next: Option<LayerKind>,
        r: pcapFileDataView,
    ) -> bool {
        &&& self.version_major.fills_to(ValueView::Fixed(0), r.version_major)
        &&& self.version_minor.fills_to(ValueView::Fixed(0), r.version_minor)
        &&& self.thiszone.fills_to(ValueView::Fixed(0), r.thiszone)
        &&& self.sigfigs.fills_to(ValueView::Fixed(0), r.sigfigs)
        &&& self.snaplen.fills_to(ValueView::Fixed(0), r.snaplen)
        &&& self.network.fills_to(ValueView::Fixed(0), r.network)
        &&& packets_resolve_to(self.packets, r.packets)
    }

    /// How many numbers the layer takes from a random source when it is
    /// resolved or filled: those of its random fields together.
    pub open spec fn draws(self) -> nat {
        self.version_major.draws(u16::draws())
            + self.version_minor.draws(u16::draws())
            + self.thiszone.draws(i32::draws())
            + self.sigfigs.draws(u32::draws())
            + self.snaplen.draws(u32::draws())
            + self.network.draws(u32::draws())
            + packets_draws(self.packets)
    }

    /// `r` holds in every field that is random in `self` the value made of
    /// that field's share of the numbers `d`. The fields take their shares
    /// in the order in which they are declared, each as many numbers as a
    /// random value of its type takes.
    pub open spec fn drawn_from(self, d: Seq<u32>, r: pcapFileDataView) -> bool {
        let d0 = d;
        let d1 = behind(d0, self.version_major.draws(u16::draws()));
        let d2 = behind(d1, self.version_minor.draws(u16::draws()));
        let d3 = behind(d2, self.thiszone.draws(i32::draws()));
        let d4 = behind(d3, self.sigfigs.draws(u32::draws()));
        let d5 = behind(d4, self.snaplen.draws(u32::draws()));
        let d6 = behind(d5, self.network.draws(u32::draws()));
        &&& self.version_major.drawn_as(u16::of_draws(share(d0, u16::draws())), r.version_major)
        &&& self.version_minor.drawn_as(u16::of_draws(share(d1, u16::draws())), r.version_minor)
        &&& self.thiszone.drawn_as(i32::of_draws(share(d2, i32::draws())), r.thiszone)
        &&& self.sigfigs.drawn_as(u32::of_draws(share(d3, u32::draws())), r.sigfigs)
        &&& self.snaplen.drawn_as(u32::of_draws(share(d4, u32::draws())), r.snaplen)
        &&& self.network.drawn_as(u32::of_draws(share(d5, u32::draws())), r.network)
        &&& packets_drawn_from(self.packets, share(d6, packets_draws(self.packets)), r.packets)
    }

    /// No field of the layer is computed by a function of the caller.
    pub open spec fn without_funcs(self) -> bool {
        &&& !(self.version_major is Func)
        &&& !(self.version_minor is Func)
        &&& !(self.thiszone is Func)
        &&& !(self.sigfigs is Func)
        &&& !(self.snaplen is Func)
        &&& !(self.network is Func)
        &&& packets_without_funcs(self.packets)
    }

    /// Where no field is computed, the numbers drawn decide what the layer
    /// resolves to.
    pub proof fn lemma_resolve_decided(self, d: Seq<u32>, a: pcapFileDataView, b: pcapFileDataView)
        requires
            self.without_funcs(),
            self.resolves_to(a),
            self.drawn_from(d, a),
            self.resolves_to(b),
            self.drawn_from(d, b),
        ensures
            a == b,
    {
        let d0 = d; let d1 = behind(
            d0,
            self.version_major.draws(u16::draws()),
        ); let d2 = behind(
            d1,
            self.version_minor.draws(u16::draws()),
        ); let d3 = behind(
            d2,
            self.thiszone.draws(i32::draws()),
        ); let d4 = behind(
            d3,
            self.sigfigs.draws(u32::draws()),
        ); let d5 = behind(
            d4,
            self.snaplen.draws(u32::draws()),
        ); let d6 = behind(
            d5,
            self.network.draws(u32::draws()),
        ); lemma_packets_decided(
            self.packets,
            share(d6, packets_draws(self.packets)),
            a.packets,
            b.packets,
        );
    }

    /// Where no field is computed, the numbers drawn decide what the layer
    /// is filled to.
    pub proof fn lemma_fill_decided(
        self,
        reg: Seq<RegistryEntry>,
        next: Option<LayerKind>,
        d: Seq<u32>,
        a: pcapFileDataView,
        b: pcapFileDataView,
    )
        requires
            self.without_funcs(),
            self.fills_to(reg, next, a),
            self.drawn_from(d, a),
            self.fills_to(reg, next, b),
            self.drawn_from(d, b),
        ensures
            a == b,
    {
        let d0 = d; let d1 = behind(
            d0,
            self.version_major.draws(u16::draws()),
        ); let d2 = behind(
            d1,
            self.version_minor.draws(u16::draws()),
        ); let d3 = behind(
            d2,
            self.thiszone.draws(i32::draws()),
        ); let d4 = behind(
            d3,
            self.sigfigs.draws(u32::draws()),
        ); let d5 = behind(
            d4,
            self.snaplen.draws(u32::draws()),
        ); let d6 = behind(
            d5,
            self.network.draws(u32::draws()),
        ); lemma_packets_decided(
            self.packets,
            share(d6, packets_draws(self.packets)),
            a.packets,
            b.packets,
        );
    }

    /// What the fields drew one after the other is what the layer drew:
    /// `s0` is the record of the source before the first field, and each
    /// of the others the record after one more field.
    pub proof fn lemma_drawn(
        self,
        r: pcapFileDataView,
        s0: Seq<u32>,
        s1: Seq<u32>,
        s2: Seq<u32>,
        s3: Seq<u32>,
        s4: Seq<u32>,
        s5: Seq<u32>,
        s6: Seq<u32>,
        s7: Seq<u32>,
    )
        requires
            drew(s0, s1, self.version_major.draws(u16::draws())),
            self.version_major.drawn_as(u16::of_draws(fresh(s0, s1)), r.version_major),
            drew(s1, s2, self.version_minor.draws(u16::draws())),
            self.version_minor.drawn_as(u16::of_draws(fresh(s1, s2)), r.version_minor),
            drew(s2, s3, self.thiszone.draws(i32::draws())),
            self.thiszone.drawn_as(i32::of_draws(fresh(s2, s3)), r.thiszone),
            drew(s3, s4, self.sigfigs.draws(u32::draws())),
            self.sigfigs.drawn_as(u32::of_draws(fresh(s3, s4)), r.sigfigs),
            drew(s4, s5, self.snaplen.draws(u32::draws())),
            self.snaplen.drawn_as(u32::of_draws(fresh(s4, s5)), r.snaplen),
            drew(s5, s6, self.network.draws(u32::draws())),
            self.network.drawn_as(u32::of_draws(fresh(s5, s6)), r.network),
            drew(s6, s7, packets_draws(self.packets)),
            packets_drawn_from(self.packets, fresh(s6, s7), r.packets),
        ensures
            drew(s0, s7, self.draws()),
            self.drawn_from(fresh(s0, s7), r),
    {
        lemma_drew_none(s7);
        lemma_drew_first(s6, s7, s7);
        lemma_drew_first(s5, s6, s7);
        lemma_drew_first(s4, s5, s7);
        lemma_drew_first(s3, s4, s7);
        lemma_drew_first(s2, s3, s7);
        lemma_drew_first(s1, s2, s7);
        lemma_drew_first(s0, s1, s7);
    }

    /// The bytes of the header.
    pub open spec fn header(self, o: Endian) -> Seq<u8> {
        (self.version_major.or(0)).encoded(o)
            + (self.version_minor.or(0)).encoded(o)
            + (self.thiszone.or(0)).encoded(o)
            + (self.sigfigs.or(0)).encoded(o)
            + (self.snaplen.or(0)).encoded(o)
            + (self.network.or(0)).encoded(o)
            + packets_bytes(o, self.packets)
    }

    /// The bytes of the layer on the wire.
    pub open spec fn wire(self, o: Endian, outer: Outer, tail: Seq<Seq<u8>>) -> Seq<u8> {
        self.header(o)
    }

    /// The header names no protocol to follow.
    pub open spec fn nexts(self) -> Seq<(RegistryName, u32)> {
        Seq::empty()
    }

    /// What the first bytes of `buf` stand for in byte order `o` and the number
    /// of bytes taken, or `None` where `buf` is shorter than the twenty bytes
    /// of the header. Behind the header come the packet records, as many as are
    /// whole.
    pub open spec fn parse(o: Endian, buf: Seq<u8>) -> Option<(pcapFileDataView, nat)> {
        if buf.len() < 20 {
            None
        } else {
            let found = parse_packets(o, buf.skip(20));
            Some(
                (
                    pcapFileDataView {
                        version_major: ValueView::Fixed(u16_of(o, buf.skip(0))),
                        version_minor: ValueView::Fixed(u16_of(o, buf.skip(2))),
                        thiszone: ValueView::Fixed(signed_of(u32_of(o, buf.skip(4)))),
                        sigfigs: ValueView::Fixed(u32_of(o, buf.skip(8))),
                        snaplen: ValueView::Fixed(u32_of(o, buf.skip(12))),
                        network: ValueView::Fixed(u32_of(o, buf.skip(16))),
                        packets: found.0,
                    },
                    20 + found.1,
                ),
            )
        }
    }

    /// After a fill no field waits for a random number or a function, and
    /// every field is fixed but those that are left to the encoder.
    pub proof fn lemma_filled(
        self,
        reg: Seq<RegistryEntry>,
        next: Option<LayerKind>,
        r: pcapFileDataView,
    )
        requires
            self.fills_to(reg, next, r),
        ensures
            r.settled(),
            r.version_major is Fixed,
            r.version_minor is Fixed,
            r.thiszone is Fixed,
            r.sigfigs is Fixed,
            r.snaplen is Fixed,
            r.network is Fixed,
    {
        assert forall|i: int| 0 <= i < r.packets.len() implies (
        #[trigger] r.packets[i]).settled() by {
            self.packets[i].lemma_resolved(r.packets[i]);
        }
    }

    /// After resolution no field waits for a random number or a function.
    pub proof fn lemma_resolved(self, r: pcapFileDataView)
        requires
            self.resolves_to(r),
        ensures
            r.settled(),
    {
        assert forall|i: int| 0 <= i < r.packets.len() implies (
        #[trigger] r.packets[i]).settled() by {
            self.packets[i].lemma_resolved(r.packets[i]);
        }
    }

    /// Resolving a layer in which nothing is random or computed changes
    /// nothing.
    pub proof fn lemma_settled(self, r: pcapFileDataView)
        requires
            self.settled(),
            self.resolves_to(r),
        ensures
            r == self,
    {
        assert forall|i: int| 0 <= i < r.packets.len() implies r.packets[i] == self.packets[i] by {
            self.packets[i].lemma_settled(r.packets[i]);
        }
        assert(r.packets =~= self.packets);
    }

    /// A header that can be read lies within the buffer.
    pub proof fn lemma_parse_fits(o: Endian, buf: Seq<u8>)
        requires
            pcapFileDataView::parse(o, buf) is Some,
        ensures
            pcapFileDataView::parse(o, buf) matches Some((l, n)) && n <= buf.len(),
    {
        lemma_packets_fit(o, buf.skip(20));
    }

    /// A file body that was read and then resolved is written as the bytes it
    /// was read from.
    pub proof fn lemma_echo_resolved(o: Endian, buf: Seq<u8>, r: pcapFileDataView)
        requires
            pcapFileDataView::parse(o, buf) matches Some((l, n)) && l.resolves_to(r),
        ensures
            pcapFileDataView::parse(
                o,
                buf,
            ) matches Some((l, n)) && n <= buf.len() && r.header(o) == buf.subrange(
                0,
                n as int,
            ),
    {
        lemma_u16_inverse(o, 0, buf.skip(0));
        lemma_u16_inverse(o, 0, buf.skip(2));
        lemma_u32_inverse(o, 0, buf.skip(4));
        lemma_signed_inverse(u32_of(o, buf.skip(4)), 0);
        lemma_u32_inverse(o, 0, buf.skip(8));
        lemma_u32_inverse(o, 0, buf.skip(12));
        lemma_u32_inverse(o, 0, buf.skip(16));
        assert(buf.skip(0).subrange(0, 2) =~= buf.subrange(0, 2));
        assert(buf.skip(2).subrange(0, 2) =~= buf.subrange(2, 4));
        assert(buf.skip(4).subrange(0, 4) =~= buf.subrange(4, 8));
        assert(buf.skip(8).subrange(0, 4) =~= buf.subrange(8, 12));
        assert(buf.skip(12).subrange(0, 4) =~= buf.subrange(12, 16));
        assert(buf.skip(16).subrange(0, 4) =~= buf.subrange(16, 20));
        lemma_packets_echo(o, buf.skip(20), r.packets);
        let m = parse_packets(o, buf.skip(20)).1;
        assert(buf.skip(20).subrange(0, m as int) =~= buf.subrange(20, (20 + m) as int));
        let fixed = buf.subrange(
            0,
            2,
        ) + buf.subrange(2, 4) + buf.subrange(4, 8) + buf.subrange(8, 12)
            + buf.subrange(12, 16) + buf.subrange(16, 20);
        assert(fixed =~= buf.subrange(0, 20));
        assert(r.header(o) == fixed + packets_bytes(o, r.packets));
        assert(buf.subrange(0, 20) + buf.subrange(20, (20 + m) as int) =~= buf.subrange(
            0,
            (20 + m) as int,
        ));
    }

    /// A file body that was read and then filled is written as the bytes it was
    /// read from.
    pub proof fn lemma_echo(
        o: Endian,
        buf: Seq<u8>,
        reg: Seq<RegistryEntry>,
        next: Option<LayerKind>,
        r: pcapFileDataView,
        outer: Outer,
        tail: Seq<Seq<u8>>,
    )
        requires
            pcapFileDataView::parse(o, buf) matches Some((l, n)) && l.fills_to(reg, next, r),
        ensures
            pcapFileDataView::parse(
                o,
                buf,
            ) matches Some((l, n)) && n <= buf.len() && r.wire(o, outer, tail) == buf.subrange(
                0,
                n as int,
            ),
    {
        match pcapFileDataView::parse(o, buf) {
            Some((l, _)) => {
                assert(l.resolves_to(r));
            },
            None => {},
        }
        pcapFileDataView::lemma_echo_resolved(o, buf, r);
    }
}

impl Default for pcapFileData {
    fn default() -> (r: pcapFileData)
        ensures
            r@ == pcapFileDataView::default_spec(),
    {
        pcapFileData::new()
    }
}

impl pcapFileData {
    /// A layer with every field at its default.
    pub fn new() -> (r: pcapFileData)
        ensures
            r@ == pcapFileDataView::default_spec(),
    {
        let r = pcapFileData {
            version_major: Value::Fixed(2),
            version_minor: Value::Fixed(4),
            thiszone: Value::Fixed(0),
            sigfigs: Value::Fixed(0),
            snaplen: Value::Auto,
            network: Value::Fixed(1),
            packets: Vec::new(),
        };
        assert(r@.packets =~= pcapFileDataView::default_spec().packets);
        r
    }

    /// The layer with `version_major` fixed to the given value.
    pub fn version_major(self, version_major: u16) -> (r: pcapFileData)
        ensures
            r@ == (pcapFileDataView { version_major: ValueView::Fixed(version_major@), ..self@ }),
    {
        let mut r = self;
        r.version_major = Value::Fixed(version_major);
        r
    }

    /// The layer with `version_major` set to the given deferred value.
    pub fn set_version_major(self, version_major: Value<u16>) -> (r: pcapFileData)
        ensures
            r@ == (pcapFileDataView { version_major: version_major@, ..self@ }),
    {
        let mut r = self;
        r.version_major = version_major;
        r
    }

    /// The layer with `version_minor` fixed to the given value.
    pub fn version_minor(self, version_minor: u16) -> (r: pcapFileData)
        ensures
            r@ == (pcapFileDataView { version_minor: ValueView::Fixed(version_minor@), ..self@ }),
    {
        let mut r = self;
        r.version_minor = Value::Fixed(version_minor);
        r
    }

    /// The layer with `version_minor` set to the given deferred value.
    pub fn set_version_minor(self, version_minor: Value<u16>) -> (r: pcapFileData)
        ensures
            r@ == (pcapFileDataView { version_minor: version_minor@, ..self@ }),
    {
        let mut r = self;
        r.version_minor = version_minor;
        r
    }

    /// The layer with `thiszone` fixed to the given value.
    pub fn thiszone(self, thiszone: i32) -> (r: pcapFileData)
        ensures
            r@ == (pcapFileDataView { thiszone: ValueView::Fixed(thiszone@), ..self@ }),
    {
        let mut r = self;
        r.thiszone = Value::Fixed(thiszone);
        r
    }

    /// The layer with `thiszone` set to the given deferred value.
    pub fn set_thiszone(self, thiszone: Value<i32>) -> (r: pcapFileData)
        ensures
            r@ == (pcapFileDataView { thiszone: thiszone@, ..self@ }),
    {
        let mut r = self;
        r.thiszone = thiszone;
        r
    }

    /// The layer with `sigfigs` fixed to the given value.
    pub fn sigfigs(self, sigfigs: u32) -> (r: pcapFileData)
        ensures
            r@ == (pcapFileDataView { sigfigs: ValueView::Fixed(sigfigs@), ..self@ }),
    {
        let mut r = self;
        r.sigfigs = Value::Fixed(sigfigs);
        r
    }

    /// The layer with `sigfigs` set to the given deferred value.
    pub fn set_sigfigs(self, sigfigs: Value<u32>) -> (r: pcapFileData)
        ensures
            r@ == (pcapFileDataView { sigfigs: sigfigs@, ..self@ }),
    {
        let mut r = self;
        r.sigfigs = sigfigs;
        r
    }

    /// The layer with `snaplen` fixed to the given value.
    pub fn snaplen(self, snaplen: u32) -> (r: pcapFileData)
        ensures
            r@ == (pcapFileDataView { snaplen: ValueView::Fixed(snaplen@), ..self@ }),
    {
        let mut r = self;
        r.snaplen = Value::Fixed(snaplen);
        r
    }

    /// The layer with `snaplen` set to the given deferred value.
    pub fn set_snaplen(self, snaplen: Value<u32>) -> (r: pcapFileData)
        ensures
            r@ == (pcapFileDataView { snaplen: snaplen@, ..self@ }),
    {
        let mut r = self;
        r.snaplen = snaplen;
        r
    }

    /// The layer with `network` fixed to the given value.
    pub fn network(self, network: u32) -> (r: pcapFileData)
        ensures
            r@ == (pcapFileDataView { network: ValueView::Fixed(network@), ..self@ }),
    {
        let mut r = self;
        r.network = Value::Fixed(network);
        r
    }

    /// The layer with `network` set to the given deferred value.
    pub fn set_network(self, network: Value<u32>) -> (r: pcapFileData)
        ensures
            r@ == (pcapFileDataView { network: network@, ..self@ }),
    {
        let mut r = self;
        r.network = network;
        r
    }

    /// The layer with `packets` replaced.
    pub fn packets(self, packets: Vec<pcapPacket>) -> (r: pcapFileData)
        ensures
            r@ == (pcapFileDataView { packets: packets_view(packets@), ..self@ }),
    {
        let mut r = self;
        r.packets = packets;
        r
    }

    /// A copy of the layer in which every random field is drawn from `rng` and
    /// every computed field is computed. The random fields draw in the order
    /// in which they are declared.
    pub fn resolve<R: RandomSource>(&self, rng: &mut R) -> (r: pcapFileData)
        ensures
            self@.resolves_to(r@),
            r@.settled(),
            drew(old(rng).drawn(), final(rng).drawn(), self@.draws()),
            self@.drawn_from(fresh(old(rng).drawn(), final(rng).drawn()), r@),
    {
        let ghost s0 = rng.drawn();
        let version_major = self.version_major.resolved(rng);
        let ghost s1 = rng.drawn();
        let version_minor = self.version_minor.resolved(rng);
        let ghost s2 = rng.drawn();
        let thiszone = self.thiszone.resolved(rng);
        let ghost s3 = rng.drawn();
        let sigfigs = self.sigfigs.resolved(rng);
        let ghost s4 = rng.drawn();
        let snaplen = self.snaplen.resolved(rng);
        let ghost s5 = rng.drawn();
        let network = self.network.resolved(rng);
        let ghost s6 = rng.drawn();
        let packets = resolve_packets(&self.packets, rng);
        let ghost s7 = rng.drawn();
        let r = pcapFileData {
            version_major,
            version_minor,
            thiszone,
            sigfigs,
            snaplen,
            network,
            packets,
        };
        proof {
            self@.lemma_drawn(r@, s0, s1, s2, s3, s4, s5, s6, s7);
        }
        r
    }

    /// The layer filled: resolved as by `resolve`, and with every open field
    /// given what its rule says. `next` is the kind of the layer that follows
    /// in the stack.
    pub fn filled<R: RandomSource>(
        &self,
        reg: &Registry,
        next: Option<LayerKind>,
        rng: &mut R,
    ) -> (r: pcapFileData)
        ensures
            self@.fills_to(reg@, next, r@),
            drew(old(rng).drawn(), final(rng).drawn(), self@.draws()),
            self@.drawn_from(fresh(old(rng).drawn(), final(rng).drawn()), r@),
    {
        let ghost s0 = rng.drawn();
        let version_major = self.version_major.filled(rng, u16::default_value());
        let ghost s1 = rng.drawn();
        let version_minor = self.version_minor.filled(rng, u16::default_value());
        let ghost s2 = rng.drawn();
        let thiszone = self.thiszone.filled(rng, i32::default_value());
        let ghost s3 = rng.drawn();
        let sigfigs = self.sigfigs.filled(rng, u32::default_value());
        let ghost s4 = rng.drawn();
        let snaplen = self.snaplen.filled(rng, u32::default_value());
        let ghost s5 = rng.drawn();
        let network = self.network.filled(rng, u32::default_value());
        let ghost s6 = rng.drawn();
        let packets = resolve_packets(&self.packets, rng);
        let ghost s7 = rng.drawn();
        let r = pcapFileData {
            version_major,
            version_minor,
            thiszone,
            sigfigs,
            snaplen,
            network,
            packets,
        };
        proof {
            self@.lemma_drawn(r@, s0, s1, s2, s3, s4, s5, s6, s7);
        }
        r
    }

    /// The bytes of the header.
    pub fn header_bytes<E: Encoder>(&self) -> (r: Vec<u8>)
        ensures
            r@ == self@.header(E::enc_order()),
    {
        let mut out: Vec<u8> = Vec::new();
        assert(
            out@ + (self@.version_major.or(0)).encoded(E::enc_order())
                =~= (self@.version_major.or(0)).encoded(E::enc_order())
        );
        put::<u16, E>(&mut out, &(self.version_major.or(u16::default_value())));
        put::<u16, E>(&mut out, &(self.version_minor.or(u16::default_value())));
        put::<i32, E>(&mut out, &(self.thiszone.or(i32::default_value())));
        put::<u32, E>(&mut out, &(self.sigfigs.or(u32::default_value())));
        put::<u32, E>(&mut out, &(self.snaplen.or(u32::default_value())));
        put::<u32, E>(&mut out, &(self.network.or(u32::default_value())));
        put_bytes(&mut out, encode_packets::<E>(&self.packets));
        out
    }

    /// The bytes of the layer on the wire. `outer` tells what stands before
    /// the layer in the stack and `tail` holds the bytes of the layers behind
    /// it; this protocol needs neither.
    pub fn wire_bytes<E: Encoder>(&self, outer: &Outer, tail: &EncodingVecVec) -> (r: Vec<u8>)
        ensures
            r@ == self@.wire(E::enc_order(), *outer, tail@),
    {
        self.header_bytes::<E>()
    }

    /// The numbers by which the header names the protocol that follows:
    /// none, for this header names no protocol to follow.
    pub fn next_keys(&self) -> (r: Vec<(RegistryName, u32)>)
        ensures
            r@ == self@.nexts(),
    {
        let mut r: Vec<(RegistryName, u32)> = Vec::new();
        assert(r@ =~= self@.nexts());
        r
    }

    /// `other` holds in every computed field the function that `self` holds
    /// there.
    pub open spec fn same_funcs(self, other: pcapFileData) -> bool {
        &&& other.version_major.func() == self.version_major.func()
        &&& other.version_minor.func() == self.version_minor.func()
        &&& other.thiszone.func() == self.thiszone.func()
        &&& other.sigfigs.func() == self.sigfigs.func()
        &&& other.snaplen.func() == self.snaplen.func()
        &&& other.network.func() == self.network.func()
        &&& packets_same_funcs(self.packets@, other.packets@)
    }

    /// A copy of the layer: the same values, and in the computed fields the
    /// same functions.
    pub fn dup(&self) -> (r: pcapFileData)
        ensures
            r@ == self@,
            self.same_funcs(r),
    {
        let version_major = self.version_major.dup();
        let version_minor = self.version_minor.dup();
        let thiszone = self.thiszone.dup();
        let sigfigs = self.sigfigs.dup();
        let snaplen = self.snaplen.dup();
        let network = self.network.dup();
        let packets = copy_packets(&self.packets);
        pcapFileData { version_major, version_minor, thiszone, sigfigs, snaplen, network, packets }
    }

    /// Reads the rest of a file header and the packet records from the front of
    /// `buf`: the layer and the number of bytes taken, or `None` where `buf` is
    /// too short for the header.
    pub fn decode_header<D: Decoder>(buf: &[u8]) -> (r: Option<(pcapFileData, usize)>)
        ensures
            match r {
                Some((
                    l,
                    n,
                )) => pcapFileDataView::parse(D::dec_order(), buf@) == Some((l@, n as nat))
                    && n <= buf@.len(),
                None => pcapFileDataView::parse(D::dec_order(), buf@) is None,
            },
    {
        let mut pos: usize = 0;
        let version_major = take::<u16, D>(buf, &mut pos)?;
        let version_minor = take::<u16, D>(buf, &mut pos)?;
        let thiszone = take::<i32, D>(buf, &mut pos)?;
        let sigfigs = take::<u32, D>(buf, &mut pos)?;
        let snaplen = take::<u32, D>(buf, &mut pos)?;
        let network = take::<u32, D>(buf, &mut pos)?;
        let rest = vstd::slice::slice_subrange(buf, pos, buf.len());
        assert(rest@ =~= buf@.skip(20));
        let (packets, n) = decode_packets::<D>(rest);
        Some(
            (
                pcapFileData {
                    version_major: Value::Fixed(version_major),
                    version_minor: Value::Fixed(version_minor),
                    thiszone: Value::Fixed(thiszone),
                    sigfigs: Value::Fixed(sigfigs),
                    snaplen: Value::Fixed(snaplen),
                    network: Value::Fixed(network),
                    packets,
                },
                pos + n,
            ),
        )
    }
}

/// A capture file in the classic pcap format.
#[allow(non_camel_case_types)]
#[derive(Clone, Debug, PartialEq, Eq)]
pub struct pcapFile {
    /// The magic number. It is written most significant byte first and tells
    /// the byte order of everything behind it: `0xa1b2c3d4` for big-endian,
    /// `0xd4c3b2a1` for little-endian.
    pub magic_number: Value<u32>,
    /// The rest of the file.
    pub d: pcapFileData,
}

/// What a layer of type `pcapFile` says, with its vectors as sequences.
#[allow(non_camel_case_types)]
pub struct pcapFileView {
    pub magic_number: ValueView<u32>,
    pub d: pcapFileDataView,
}

impl View for pcapFile {
    type V = pcapFileView;

    open spec fn view(&self) -> pcapFileView {
        pcapFileView {
            magic_number: self.magic_number@,
            d: self.d@,
        }
    }
}

impl pcapFileView {
    /// A layer as it is made: every field at its default.
    pub open spec fn default_spec() -> pcapFileView {
        pcapFileView {
            magic_number: ValueView::Fixed(0xd4c3b2a1),
            d: pcapFileDataView::default_spec(),
        }
    }

    /// No field waits for a random number or for a function of the caller.
    pub open spec fn settled(self) -> bool {
        &&& self.magic_number.settled()
        &&& self.d.settled()
    }

    /// `r` is the layer with every random or computed field given some value
    /// and every other field as it was. Which value a random field is given
    /// is said by `drawn_from`.
    pub open spec fn resolves_to(self, r: pcapFileView) -> bool {
        &&& self.magic_number.resolves_to(r.magic_number)
        &&& self.d.resolves_to(r.d)
    }

    /// `r` is the layer after a fill in a stack whose next layer is of kind
    /// `next`, with the tables `reg`: fixed fields stay, random and computed
    /// fields get some value, and each open field gets what its rule says.
    /// Which value a random field gets is said by `drawn_from`.
    pub open spec fn fills_to(
        self,
        reg: Seq<RegistryEntry>,
        next: Option<LayerKind>,
        r: pcapFileView,
    ) -> bool {
        &&& self.magic_number.fills_to(ValueView::Fixed(0), r.magic_number)
        &&& self.d.resolves_to(r.d)
    }

    /// How many numbers the layer takes from a random source when it is
    /// resolved or filled: those of its random fields together.
    pub open spec fn draws(self) -> nat {
        self.magic_number.draws(u32::draws()) + self.d.draws()
    }

    /// `r` holds in every field that is random in `self` the value made of
    /// that field's share of the numbers `d`. The fields take their shares
    /// in the order in which they are declared, each as many numbers as a
    /// random value of its type takes.
    pub open spec fn drawn_from(self, d: Seq<u32>, r: pcapFileView) -> bool {
        let d0 = d;
        let d1 = behind(d0, self.magic_number.draws(u32::draws()));
        &&& self.magic_number.drawn_as(u32::of_draws(share(d0, u32::draws())), r.magic_number)
        &&& self.d.drawn_from(share(d1, self.d.draws()), r.d)
    }

    /// No field of the layer is computed by a function of the caller.
    pub open spec fn without_funcs(self) -> bool {
        &&& !(self.magic_number is Func)
        &&& self.d.without_funcs()
    }

    /// Where no field is computed, the numbers drawn decide what the layer
    /// resolves to.
    pub proof fn lemma_resolve_decided(self, d: Seq<u32>, a: pcapFileView, b: pcapFileView)
        requires
            self.without_funcs(),
            self.resolves_to(a),
            self.drawn_from(d, a),
            self.resolves_to(b),
            self.drawn_from(d, b),
        ensures
            a == b,
    {
        let d0 = d; let d1 = behind(
            d0,
            self.magic_number.draws(u32::draws()),
        ); self.d.lemma_resolve_decided(share(d1, self.d.draws()), a.d, b.d);
    }

    /// Where no field is computed, the numbers drawn decide what the layer
    /// is filled to.
    pub proof fn lemma_fill_decided(
        self,
        reg: Seq<RegistryEntry>,
        next: Option<LayerKind>,
        d: Seq<u32>,
        a: pcapFileView,
        b: pcapFileView,
    )
        requires
            self.without_funcs(),
            self.fills_to(reg, next, a),
            self.drawn_from(d, a),
            self.fills_to(reg, next, b),
            self.drawn_from(d, b),
        ensures
            a == b,
    {
        let d0 = d; let d1 = behind(
            d0,
            self.magic_number.draws(u32::draws()),
        ); self.d.lemma_resolve_decided(share(d1, self.d.draws()), a.d, b.d);
    }

    /// What the fields drew one after the other is what the layer drew:
    /// `s0` is the record of the source before the first field, and each
    /// of the others the record after one more field.
    pub proof fn lemma_drawn(self, r: pcapFileView, s0: Seq<u32>, s1: Seq<u32>, s2: Seq<u32>)
        requires
            drew(s0, s1, self.magic_number.draws(u32::draws())),
            self.magic_number.drawn_as(u32::of_draws(fresh(s0, s1)), r.magic_number),
            drew(s1, s2, self.d.draws()),
            self.d.drawn_from(fresh(s1, s2), r.d),
        ensures
            drew(s0, s2, self.draws()),
            self.drawn_from(fresh(s0, s2), r),
    {
        lemma_drew_none(s2);
        lemma_drew_first(s1, s2, s2);
        lemma_drew_first(s0, s1, s2);
    }

    /// The header names no protocol to follow.
    pub open spec fn nexts(self) -> Seq<(RegistryName, u32)> {
        Seq::empty()
    }

    /// The bytes of the file: the magic number, most significant byte first,
    /// and the rest in the byte order that the magic number tells.
    pub open spec fn wire(self, outer: Outer, tail: Seq<Seq<u8>>) -> Seq<u8> {
        u32_bytes(Endian::Big, self.magic_number.or(0)) + self.d.header(
            order_of_magic(self.magic_number.or(0)),
        )
    }

    /// The file that the first bytes of `buf` stand for and the number of bytes
    /// taken, or `None` where `buf` is too short for the file header or does
    /// not begin with one of the two magic numbers.
    pub open spec fn parse(buf: Seq<u8>) -> Option<(pcapFileView, nat)> {
        if buf.len() < 4 {
            None
        } else {
            let magic = u32_of(Endian::Big, buf);
            if magic != 0xa1b2c3d4 && magic != 0xd4c3b2a1 {
                None
            } else {
                match pcapFileDataView::parse(order_of_magic(magic), buf.skip(4)) {
                    Some((d, n)) => Some(
                        (pcapFileView { magic_number: ValueView::Fixed(magic), d }, 4 + n),
                    ),
                    None => None,
                }
            }
        }
    }

    /// After a fill no field waits for a random number or a function, and
    /// every field is fixed but those that are left to the encoder.
    pub proof fn lemma_filled(
        self,
        reg: Seq<RegistryEntry>,
        next: Option<LayerKind>,
        r: pcapFileView,
    )
        requires
            self.fills_to(reg, next, r),
        ensures
            r.settled(),
            r.magic_number is Fixed,
    {
        self.d.lemma_resolved(r.d);
    }

    /// Resolving a layer in which nothing is random or computed changes
    /// nothing.
    pub proof fn lemma_settled(self, r: pcapFileView)
        requires
            self.settled(),
            self.resolves_to(r),
        ensures
            r == self,
    {
        self.d.lemma_settled(r.d);
    }

    /// A header that can be read lies within the buffer.
    pub proof fn lemma_parse_fits(buf: Seq<u8>)
        requires
            pcapFileView::parse(buf) is Some,
        ensures
            pcapFileView::parse(buf) matches Some((l, n)) && n <= buf.len(),
    {
        pcapFileDataView::lemma_parse_fits(order_of_magic(u32_of(Endian::Big, buf)), buf.skip(4));
    }

    /// A capture file that was read and then filled is written as the bytes it
    /// was read from, in the byte order that its magic number tells.
    #[verifier::rlimit(60)]
    pub proof fn lemma_echo(
        buf: Seq<u8>,
        reg: Seq<RegistryEntry>,
        next: Option<LayerKind>,
        r: pcapFileView,
        outer: Outer,
        tail: Seq<Seq<u8>>,
    )
        requires
            pcapFileView::parse(buf) matches Some((l, n)) && l.fills_to(reg, next, r),
        ensures
            pcapFileView::parse(buf) matches Some((
                l,
                n,
            )) && n <= buf.len() && r.wire(outer, tail) == buf.subrange(
                0,
                n as int,
            ),
    {
        let magic = u32_of(Endian::Big, buf);
        let o = order_of_magic(magic);
        lemma_u32_inverse(Endian::Big, 0, buf);
        pcapFileDataView::lemma_echo_resolved(o, buf.skip(4), r.d);
        let n = match pcapFileDataView::parse(o, buf.skip(4)) {
            Some((_, n)) => n,
            None => 0,
        };
        assert(buf.skip(4).subrange(0, n as int) =~= buf.subrange(4, (4 + n) as int));
        assert(r.wire(outer, tail) =~= buf.subrange(0, (4 + n) as int));
    }
}

impl Default for pcapFile {
    fn default() -> (r: pcapFile)
        ensures
            r@ == pcapFileView::default_spec(),
    {
        pcapFile::new()
    }
}

impl pcapFile {
    /// A layer with every field at its default.
    pub fn new() -> (r: pcapFile)
        ensures
            r@ == pcapFileView::default_spec(),
    {
        let r = pcapFile {
            magic_number: Value::Fixed(0xd4c3b2a1),
            d: pcapFileData::new(),
        };
        assert(r@.d =~= pcapFileView::default_spec().d);
        r
    }

    /// The layer with `magic_number` fixed to the given value.
    pub fn magic_number(self, magic_number: u32) -> (r: pcapFile)
        ensures
            r@ == (pcapFileView { magic_number: ValueView::Fixed(magic_number@), ..self@ }),
    {
        let mut r = self;
        r.magic_number = Value::Fixed(magic_number);
        r
    }

    /// The layer with `magic_number` set to the given deferred value.
    pub fn set_magic_number(self, magic_number: Value<u32>) -> (r: pcapFile)
        ensures
            r@ == (pcapFileView { magic_number: magic_number@, ..self@ }),
    {
        let mut r = self;
        r.magic_number = magic_number;
        r
    }

    /// The layer with `d` replaced.
    pub fn d(self, d: pcapFileData) -> (r: pcapFile)
        ensures
            r@ == (pcapFileView { d: d@, ..self@ }),
    {
        let mut r = self;
        r.d = d;
        r
    }

    /// A copy of the layer in which every random field is drawn from `rng` and
    /// every computed field is computed. The random fields draw in the order
    /// in which they are declared.
    pub fn resolve<R: RandomSource>(&self, rng: &mut R) -> (r: pcapFile)
        ensures
            self@.resolves_to(r@),
            r@.settled(),
            drew(old(rng).drawn(), final(rng).drawn(), self@.draws()),
            self@.drawn_from(fresh(old(rng).drawn(), final(rng).drawn()), r@),
    {
        let ghost s0 = rng.drawn();
        let magic_number = self.magic_number.resolved(rng);
        let ghost s1 = rng.drawn();
        let d = self.d.resolve(rng);
        let ghost s2 = rng.drawn();
        let r = pcapFile { magic_number, d };
        proof {
            self@.lemma_drawn(r@, s0, s1, s2);
        }
        r
    }

    /// The layer filled: resolved as by `resolve`, and with every open field
    /// given what its rule says. `next` is the kind of the layer that follows
    /// in the stack.
    pub fn filled<R: RandomSource>(
        &self,
        reg: &Registry,
        next: Option<LayerKind>,
        rng: &mut R,
    ) -> (r: pcapFile)
        ensures
            self@.fills_to(reg@, next, r@),
            drew(old(rng).drawn(), final(rng).drawn(), self@.draws()),
            self@.drawn_from(fresh(old(rng).drawn(), final(rng).drawn()), r@),
    {
        let ghost s0 = rng.drawn();
        let magic_number = self.magic_number.filled(rng, u32::default_value());
        let ghost s1 = rng.drawn();
        let d = self.d.resolve(rng);
        let ghost s2 = rng.drawn();
        let r = pcapFile { magic_number, d };
        proof {
            self@.lemma_drawn(r@, s0, s1, s2);
        }
        r
    }

    /// The numbers by which the header names the protocol that follows:
    /// none, for this header names no protocol to follow.
    pub fn next_keys(&self) -> (r: Vec<(RegistryName, u32)>)
        ensures
            r@ == self@.nexts(),
    {
        let mut r: Vec<(RegistryName, u32)> = Vec::new();
        assert(r@ =~= self@.nexts());
        r
    }

    /// `other` holds in every computed field the function that `self` holds
    /// there.
    pub open spec fn same_funcs(self, other: pcapFile) -> bool {
        &&& other.magic_number.func() == self.magic_number.func()
        &&& self.d.same_funcs(other.d)
    }

    /// A copy of the layer: the same values, and in the computed fields the
    /// same functions.
    pub fn dup(&self) -> (r: pcapFile)
        ensures
            r@ == self@,
            self.same_funcs(r),
    {
        let magic_number = self.magic_number.dup();
        let d = self.d.dup();
        pcapFile { magic_number, d }
    }

    /// The bytes of the file. `outer` and `tail` are not needed: a file is not
    /// part of a packet.
    pub fn wire_bytes(&self, outer: &Outer, tail: &EncodingVecVec) -> (r: Vec<u8>)
        ensures
            r@ == self@.wire(*outer, tail@),
    {
        let magic: u32 = self.magic_number.or(0);
        let mut out: Vec<u8> = BinaryBigEndian::encode_u32(magic);
        if magic == 0xa1b2c3d4 {
            put_bytes(&mut out, self.d.header_bytes::<BinaryBigEndian>());
        } else {
            put_bytes(&mut out, self.d.header_bytes::<BinaryLittleEndian>());
        }
        out
    }

    /// Reads a file from the front of `buf`: the layer and the number of bytes
    /// taken, or `None` where `buf` is no capture file.
    pub fn decode_header(buf: &[u8]) -> (r: Option<(pcapFile, usize)>)
        ensures
            match r {
                Some((
                    l,
                    n,
                )) => pcapFileView::parse(buf@) == Some((l@, n as nat)) && n <= buf@.len(),
                None => pcapFileView::parse(buf@) is None,
            },
    {
        let mut pos: usize = 0;
        let magic = take::<u32, BinaryBigEndian>(buf, &mut pos)?;
        assert(buf@.skip(0) =~= buf@);
        let rest = vstd::slice::slice_subrange(buf, pos, buf.len());
        assert(rest@ =~= buf@.skip(4));
        let found = if magic == 0xa1b2c3d4 {
            pcapFileData::decode_header::<BinaryBigEndian>(rest)
        } else if magic == 0xd4c3b2a1 {
            pcapFileData::decode_header::<BinaryLittleEndian>(rest)
        } else {
            None
        };
        match found {
            Some((d, n)) => Some((pcapFile { magic_number: Value::Fixed(magic), d }, pos + n)),
            None => None,
        }
    }

    /// Puts the packet record `p` behind the records of the file.
    pub fn push(&mut self, p: pcapPacket)
        ensures
            final(self)@ == (pcapFileView {
                d: pcapFileDataView { packets: old(self)@.d.packets.push(p@), ..old(self)@.d },
                ..old(self)@
            }),
    {
        self.d.packets.push(p);
        assert(packets_view(self.d.packets@) =~= packets_view(old(self).d.packets@).push(p@));
    }
}

/// A length as a 32-bit length field holds it: the length modulo 2^32.
pub open spec fn len32(n: nat) -> u32 {
    (n % 0x1_0000_0000) as u32
}

/// The byte order that a magic number tells: big-endian for `0xa1b2c3d4`,
/// little-endian for any other.
pub open spec fn order_of_magic(magic: u32) -> Endian {
    if magic == 0xa1b2c3d4 {
        Endian::Big
    } else {
        Endian::Little
    }
}

/// The packet records of `packets`, each by its view.
pub open spec fn packets_view(packets: Seq<pcapPacket>) -> Seq<pcapPacketView> {
    Seq::new(packets.len(), |i: int| packets[i]@)
}

/// No field of any record waits for a random number or a function.
pub open spec fn packets_settled(packets: Seq<pcapPacketView>) -> bool {
    forall|i: int| 0 <= i < packets.len() ==> (#[trigger] packets[i]).settled()
}

/// `new` is `old` resolved, record by record.
pub open spec fn packets_resolve_to(old: Seq<pcapPacketView>, new: Seq<pcapPacketView>) -> bool {
    &&& new.len() == old.len()
    &&& forall|i: int| 0 <= i < old.len() ==> (#[trigger] old[i]).resolves_to(new[i])
}

/// How many numbers the records of `packets` take from a random source
/// together.
pub open spec fn packets_draws(packets: Seq<pcapPacketView>) -> nat
    decreases packets.len(),
{
    if packets.len() == 0 {
        0
    } else {
        packets_draws(packets.drop_last()) + packets.last().draws()
    }
}

/// Each record of `new` holds in its random fields the values made of its
/// share of the numbers `d`. The records take their shares one after the
/// other, the first record first.
pub open spec fn packets_drawn_from(
    old: Seq<pcapPacketView>,
    d: Seq<u32>,
    new: Seq<pcapPacketView>,
) -> bool
    decreases old.len(),
{
    if old.len() == 0 {
        new.len() == 0
    } else {
        let n = packets_draws(old.drop_last());
        &&& new.len() == old.len()
        &&& packets_drawn_from(old.drop_last(), share(d, n), new.drop_last())
        &&& old.last().drawn_from(behind(d, n), new.last())
    }
}

/// No field of any record is computed by a function of the caller.
pub open spec fn packets_without_funcs(packets: Seq<pcapPacketView>) -> bool {
    forall|i: int| 0 <= i < packets.len() ==> (#[trigger] packets[i]).without_funcs()
}

/// Where no field is computed, the numbers drawn decide what the records
/// resolve to.
pub proof fn lemma_packets_decided(
    old: Seq<pcapPacketView>,
    d: Seq<u32>,
    a: Seq<pcapPacketView>,
    b: Seq<pcapPacketView>,
)
    requires
        packets_without_funcs(old),
        packets_resolve_to(old, a),
        packets_drawn_from(old, d, a),
        packets_resolve_to(old, b),
        packets_drawn_from(old, d, b),
    ensures
        a == b,
    decreases old.len(),
{
    if old.len() > 0 {
        let n = packets_draws(old.drop_last());
        let front = old.drop_last();
        assert forall|i: int| 0 <= i < front.len() implies (#[trigger] front[i]).without_funcs()
            && front[i].resolves_to(a.drop_last()[i]) && front[i].resolves_to(
            b.drop_last()[i],
        ) by {
            assert(front[i] == old[i]);
        }
        lemma_packets_decided(front, share(d, n), a.drop_last(), b.drop_last());
        assert(old.last() == old[old.len() - 1]);
        old.last().lemma_resolve_decided(behind(d, n), a.last(), b.last());
        assert forall|i: int| 0 <= i < a.len() implies a[i] == b[i] by {
            if i < a.len() - 1 {
                assert(a[i] == a.drop_last()[i]);
                assert(b[i] == b.drop_last()[i]);
            }
        }
    }
    assert(a =~= b);
}

/// Each record of `b` holds in every computed field the function that the
/// record of `a` at the same place holds there.
pub open spec fn packets_same_funcs(a: Seq<pcapPacket>, b: Seq<pcapPacket>) -> bool {
    &&& b.len() == a.len()
    &&& forall|i: int| 0 <= i < a.len() ==> (#[trigger] a[i]).same_funcs(b[i])
}

/// The bytes of the records of `packets` in byte order `o`, one record after
/// the other.
pub open spec fn packets_bytes(o: Endian, packets: Seq<pcapPacketView>) -> Seq<u8>
    decreases packets.len(),
{
    if packets.len() == 0 {
        Seq::empty()
    } else {
        packets_bytes(o, packets.drop_last()) + packets.last().header(o)
    }
}

/// The whole records at the front of `buf` in byte order `o`, and the number
/// of bytes they take. Reading stops at the first record that `buf` does not
/// hold in full.
pub open spec fn parse_packets(o: Endian, buf: Seq<u8>) -> (Seq<pcapPacketView>, nat)
    decreases buf.len(),
{
    match pcapPacketView::parse(o, buf) {
        Some((p, n)) => if 0 < n <= buf.len() {
            let rest = parse_packets(o, buf.skip(n as int));
            (seq![p] + rest.0, n + rest.1)
        } else {
            (Seq::empty(), 0nat)
        },
        None => (Seq::empty(), 0nat),
    }
}

/// The records that can be read lie within the buffer.
pub proof fn lemma_packets_fit(o: Endian, buf: Seq<u8>)
    ensures
        parse_packets(o, buf).1 <= buf.len(),
    decreases buf.len(),
{
    match pcapPacketView::parse(o, buf) {
        Some((p, n)) => {
            if 0 < n <= buf.len() {
                lemma_packets_fit(o, buf.skip(n as int));
            }
        },
        None => {},
    }
}

/// The bytes of a first record and the records behind it.
pub proof fn lemma_packets_bytes_front(o: Endian, first: pcapPacketView, rest: Seq<pcapPacketView>)
    ensures
        packets_bytes(o, seq![first] + rest) == first.header(o) + packets_bytes(o, rest),
    decreases rest.len(),
{
    if rest.len() == 0 {
        assert(seq![first] + rest =~= seq![first]);
        assert(seq![first].last() == first);
        assert(seq![first].drop_last() =~= Seq::<pcapPacketView>::empty());
        reveal_with_fuel(packets_bytes, 2);
        assert(packets_bytes(o, seq![first]) =~= first.header(o));
        assert(first.header(o) + packets_bytes(o, rest) =~= first.header(o));
    } else {
        let all = seq![first] + rest;
        assert(all.last() == rest.last());
        assert(all.drop_last() =~= seq![first] + rest.drop_last());
        lemma_packets_bytes_front(o, first, rest.drop_last());
        assert(packets_bytes(o, all) =~= first.header(o) + packets_bytes(o, rest));
    }
}

/// Records that were read and then resolved are written as the bytes they
/// were read from.
#[verifier::rlimit(60)]
pub proof fn lemma_packets_echo(o: Endian, buf: Seq<u8>, r: Seq<pcapPacketView>)
    requires
        packets_resolve_to(parse_packets(o, buf).0, r),
    ensures
        parse_packets(o, buf).1 <= buf.len(),
        packets_bytes(o, r) == buf.subrange(0, parse_packets(o, buf).1 as int),
    decreases buf.len(),
{
    match pcapPacketView::parse(o, buf) {
        Some((p, n)) => {
            if 0 < n <= buf.len() {
                let rest = parse_packets(o, buf.skip(n as int));
                assert((seq![p] + rest.0)[0] == p);
                assert(p.resolves_to(r[0]));
                pcapPacketView::lemma_echo_resolved(o, buf, r[0]);
                assert forall|i: int| 0 <= i < rest.0.len() implies (
                #[trigger] rest.0[i]).resolves_to(r.skip(1)[i]) by {
                    assert((seq![p] + rest.0)[i + 1] == rest.0[i]);
                    assert((seq![p] + rest.0)[i + 1].resolves_to(r[i + 1]));
                }
                lemma_packets_echo(o, buf.skip(n as int), r.skip(1));
                assert(r =~= seq![r[0]] + r.skip(1));
                lemma_packets_bytes_front(o, r[0], r.skip(1));
                assert(buf.skip(n as int).subrange(0, rest.1 as int) =~= buf.subrange(
                    n as int,
                    (n + rest.1) as int,
                ));
                assert(packets_bytes(o, r) =~= buf.subrange(0, (n + rest.1) as int));
            } else {
                assert(r =~= Seq::<pcapPacketView>::empty());
                assert(packets_bytes(o, r) =~= buf.subrange(0, 0));
            }
        },
        None => {
            assert(r =~= Seq::<pcapPacketView>::empty());
            assert(packets_bytes(o, r) =~= buf.subrange(0, 0));
        },
    }
}

/// A copy of a list of records: the same values, and in the computed fields
/// the same functions.
pub fn copy_packets(packets: &Vec<pcapPacket>) -> (r: Vec<pcapPacket>)
    ensures
        packets_view(r@) == packets_view(packets@),
        packets_same_funcs(packets@, r@),
{
    let mut r: Vec<pcapPacket> = Vec::new();
    let mut i: usize = 0;
    while i < packets.len()
        invariant
            i <= packets@.len(),
            r@.len() == i,
            forall|k: int| 0 <= k < i ==> (#[trigger] r@[k])@ == packets@[k]@,
            forall|k: int| 0 <= k < i ==> (#[trigger] packets@[k]).same_funcs(r@[k]),
        decreases packets@.len() - i,
    {
        r.push(packets[i].dup());
        i += 1;
    }
    assert(packets_view(r@) =~= packets_view(packets@));
    r
}

/// A copy of a list of records in which every random field is drawn from
/// `rng` and every computed field is computed. The records draw one after
/// the other, the first record first.
pub fn resolve_packets<R: RandomSource>(packets: &Vec<pcapPacket>, rng: &mut R) -> (r: Vec<
    pcapPacket,
>)
    ensures
        packets_resolve_to(packets_view(packets@), packets_view(r@)),
        packets_settled(packets_view(r@)),
        drew(old(rng).drawn(), final(rng).drawn(), packets_draws(packets_view(packets@))),
        packets_drawn_from(
            packets_view(packets@),
            fresh(old(rng).drawn(), final(rng).drawn()),
            packets_view(r@),
        ),
{
    let mut r: Vec<pcapPacket> = Vec::new();
    let mut i: usize = 0;
    let ghost start = rng.drawn();
    let ghost all = packets_view(packets@);
    proof {
        lemma_drew_none(start);
        assert(all.take(0) =~= Seq::<pcapPacketView>::empty());
    }
    while i < packets.len()
        invariant
            i <= packets@.len(),
            r@.len() == i,
            all == packets_view(packets@),
            forall|k: int| 0 <= k < i ==> (#[trigger] packets@[k])@.resolves_to(r@[k]@),
            forall|k: int| 0 <= k < i ==> (#[trigger] r@[k])@.settled(),
            drew(start, rng.drawn(), packets_draws(all.take(i as int))),
            packets_drawn_from(all.take(i as int), fresh(start, rng.drawn()), packets_view(r@)),
        decreases packets@.len() - i,
    {
        let ghost before = rng.drawn();
        let ghost done = packets_view(r@);
        let x = packets[i].resolve(rng);
        r.push(x);
        proof {
            lemma_drew_first(start, before, rng.drawn());
            assert(all.take(i + 1).drop_last() =~= all.take(i as int));
            assert(all.take(i + 1).last() == packets@[i as int]@);
            assert(packets_view(r@).drop_last() =~= done);
            assert(packets_view(r@).last() == x@);
        }
        i += 1;
    }
    assert(all.take(i as int) =~= all);
    assert forall|k: int| 0 <= k < packets_view(packets@).len() implies (
    #[trigger] packets_view(packets@)[k]).resolves_to(packets_view(r@)[k]) by {
        assert(packets@[k]@.resolves_to(r@[k]@));
    }
    assert forall|k: int| 0 <= k < packets_view(r@).len() implies (#[trigger] packets_view(
        r@,
    )[k]).settled() by {
        assert(r@[k]@.settled());
    }
    r
}

/// The bytes of the records of `packets`, written by encoder `E`.
pub fn encode_packets<E: Encoder>(packets: &Vec<pcapPacket>) -> (r: Vec<u8>)
    ensures
        r@ == packets_bytes(E::enc_order(), packets_view(packets@)),
{
    let mut out: Vec<u8> = Vec::new();
    let mut i: usize = 0;
    assert(packets_view(packets@).subrange(0, 0) =~= Seq::<pcapPacketView>::empty());
    while i < packets.len()
        invariant
            i <= packets@.len(),
            out@ == packets_bytes(E::enc_order(), packets_view(packets@).subrange(0, i as int)),
        decreases packets@.len() - i,
    {
        proof {
            let prefix = packets_view(packets@).subrange(0, i + 1);
            assert(prefix.last() == packets@[i as int]@);
            assert(prefix.drop_last() =~= packets_view(packets@).subrange(0, i as int));
        }
        put_bytes(&mut out, packets[i].header_bytes::<E>());
        i += 1;
    }
    assert(packets_view(packets@).subrange(0, i as int) =~= packets_view(packets@));
    out
}

/// Reads the whole records at the front of `buf` with decoder `D`: the
/// records and the number of bytes they take.
pub fn decode_packets<D: Decoder>(buf: &[u8]) -> (r: (Vec<pcapPacket>, usize))
    ensures
        parse_packets(D::dec_order(), buf@) == (packets_view(r.0@), r.1 as nat),
        r.1 <= buf@.len(),
{
    let mut vp: Vec<pcapPacket> = Vec::new();
    let mut ci: usize = 0;
    let ghost o = D::dec_order();
    assert(buf@.skip(0) =~= buf@);
    assert(packets_view(vp@) + parse_packets(o, buf@).0 =~= parse_packets(o, buf@).0);
    while ci < buf.len()
        invariant
            ci <= buf@.len(),
            o == D::dec_order(),
            parse_packets(
                o,
                buf@,
            ).0 == packets_view(vp@) + parse_packets(o, buf@.skip(ci as int)).0,
            parse_packets(o, buf@).1 == ci + parse_packets(o, buf@.skip(ci as int)).1,
        decreases buf@.len() - ci,
    {
        let rest = vstd::slice::slice_subrange(buf, ci, buf.len());
        assert(rest@ =~= buf@.skip(ci as int));
        match pcapPacket::decode_header::<D>(rest) {
            Some((p, delta)) => {
                assert(delta >= 16) by {
                    reveal(pcapPacketView::parse);
                }
                assert(rest@.skip(delta as int) =~= buf@.skip(ci + delta));
                let ghost before = packets_view(vp@);
                let ghost pv = p@;
                vp.push(p);
                assert(packets_view(vp@) =~= before.push(pv));
                assert(before + (seq![pv] + parse_packets(o, buf@.skip(ci + delta)).0)
                    =~= before.push(pv) + parse_packets(o, buf@.skip(ci + delta)).0);
                ci += delta;
            },
            None => {
                assert(packets_view(vp@) + Seq::<pcapPacketView>::empty() =~= packets_view(vp@));
                return (vp, ci);
            },
        }
    }
    assert(buf@.skip(ci as int).len() == 0);
    assert(packets_view(vp@) + Seq::<pcapPacketView>::empty() =~= packets_view(vp@));
    (vp, ci)
}

} // verus!
