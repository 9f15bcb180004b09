//! The Transmission Control Protocol.

use crate::addr::Ipv4Address;
use crate::checksum::fold_u32;
use crate::checksum::folded;
use crate::checksum::get_inet_sum;
use crate::checksum::inet_sum;
use crate::checksum::inet_sum_all;
use crate::checksum::update_inet_sum;
use crate::codec::BinaryBigEndian;
use crate::codec::Encode;
use crate::codec::Encoder;
use crate::codec::Endian;
use crate::codec::lemma_u16_inverse;
use crate::codec::lemma_u32_inverse;
use crate::codec::u16_bytes;
use crate::codec::u16_of;
use crate::codec::u32_bytes;
use crate::codec::u32_of;
use crate::encoding::EncodingVecVec;
use crate::encoding::Outer;
use crate::registry::LayerKind;
use crate::registry::Registry;
use crate::registry::RegistryEntry;
use crate::registry::RegistryName;
use crate::value::Field;
use crate::value::RandomSource;
use crate::value::Value;
use crate::value::ValueView;
use crate::value::behind;
use crate::value::drew;
use crate::value::fresh;
use crate::value::lemma_drew_first;
use crate::value::lemma_drew_none;
use crate::value::share;
use crate::wire::put;
use crate::wire::take;
use crate::wire::wire_len;
use vstd::prelude::*;

verus! {

/// A TCP header without options.
#[derive(Clone, Copy, Debug, PartialEq, Eq)]
pub struct Tcp {
    /// The source port. An open one is filled with 65535.
    pub sport: Value<u16>,
    /// The destination port. An open one is filled with 80.
    pub dport: Value<u16>,
    /// The sequence number.
    pub seq: Value<u32>,
    /// The acknowledgement number.
    pub ack: Value<u32>,
    /// The data offset in 32-bit words, four bits.
    pub dataofs: Value<u8>,
    /// The reserved bits that share a byte with the data offset.
    pub reserved: Value<u8>,
    /// The flags. A layer is made with SYN set.
    pub flags: Value<u8>,
    /// The window size.
    pub window: Value<u16>,
    /// The checksum. An open one is computed when the layer is encoded.
    pub chksum: Value<u16>,
    /// The urgent pointer.
    pub urgptr: Value<u16>,
}

impl View for Tcp {
    type V = Tcp;

    open spec fn view(&self) -> Tcp {
        *self
    }
}

impl Tcp {
    /// A layer as it is made: every field at its default.
    pub open spec fn default_spec() -> Tcp {
        Tcp {
            sport: Value::Auto,
            dport: Value::Auto,
            seq: Value::Fixed(0),
            ack: Value::Fixed(0),
            dataofs: Value::Fixed(5),
            reserved: Value::Fixed(0),
            flags: Value::Fixed(2),
            window: Value::Fixed(8192),
            chksum: Value::Auto,
            urgptr: Value::Fixed(0),
        }
    }

    /// No field waits for a random number or for a function of the caller.
    pub open spec fn settled(self) -> bool {
        &&& self.sport@.settled()
        &&& self.dport@.settled()
        &&& self.seq@.settled()
        &&& self.ack@.settled()
        &&& self.dataofs@.settled()
        &&& self.reserved@.settled()
        &&& self.flags@.settled()
        &&& self.window@.settled()
        &&& self.chksum@.settled()
        &&& self.urgptr@.settled()
    }

    /// `r` is the layer with every random or computed field given some value
    /// and every other field as it was. Which value a random field is given
    /// is said by `drawn_from`.
    pub open spec fn resolves_to(self, r: Tcp) -> bool {
        &&& self.sport@.resolves_to(r.sport@)
        &&& self.dport@.resolves_to(r.dport@)
        &&& self.seq@.resolves_to(r.seq@)
        &&& self.ack@.resolves_to(r.ack@)
        &&& self.dataofs@.resolves_to(r.dataofs@)
        &&& self.reserved@.resolves_to(r.reserved@)
        &&& self.flags@.resolves_to(r.flags@)
        &&& self.window@.resolves_to(r.window@)
        &&& self.chksum@.resolves_to(r.chksum@)
        &&& self.urgptr@.resolves_to(r.urgptr@)
    }

    /// `r` is the layer after a fill in a stack whose next layer is of kind
    /// `next`, with the tables `reg`: fixed fields stay, random and computed
    /// fields get some value, and each open field gets what its rule says.
    /// Which value a random field gets is said by `drawn_from`.
    pub open spec fn fills_to(
        self,
        reg: Seq<RegistryEntry>,
        next: Option<LayerKind>,
        r: Tcp,
    ) -> bool {
        &&& self.sport@.fills_to(ValueView::Fixed(0xffff), r.sport@)
        &&& self.dport@.fills_to(ValueView::Fixed(80), r.dport@)
        &&& self.seq@.fills_to(ValueView::Fixed(0), r.seq@)
        &&& self.ack@.fills_to(ValueView::Fixed(0), r.ack@)
        &&& self.dataofs@.fills_to(ValueView::Fixed(0), r.dataofs@)
        &&& self.reserved@.fills_to(ValueView::Fixed(0), r.reserved@)
        &&& self.flags@.fills_to(ValueView::Fixed(0), r.flags@)
        &&& self.window@.fills_to(ValueView::Fixed(0), r.window@)
        &&& self.chksum@.fills_to(ValueView::Auto, r.chksum@)
        &&& self.urgptr@.fills_to(ValueView::Fixed(0), r.urgptr@)
    }

    /// How many numbers the layer takes from a random source when it is
    /// resolved or filled: those of its random fields together.
    pub open spec fn draws(self) -> nat {
        self.sport@.draws(u16::draws())
            + self.dport@.draws(u16::draws())
            + self.seq@.draws(u32::draws())
            + self.ack@.draws(u32::draws())
            + self.dataofs@.draws(u8::draws())
            + self.reserved@.draws(u8::draws())
            + self.flags@.draws(u8::draws())
            + self.window@.draws(u16::draws())
            + self.chksum@.draws(u16::draws())
            + self.urgptr@.draws(u16::draws())
    }

    /// `r` holds in every field that is random in `self` the value made of
    /// that field's share of the numbers `d`. The fields take their shares
    /// in the order in which they are declared, each as many numbers as a
    /// random value of its type takes.
    pub open spec fn drawn_from(self, d: Seq<u32>, r: Tcp) -> bool {
        let d0 = d;
        let d1 = behind(d0, self.sport@.draws(u16::draws()));
        let d2 = behind(d1, self.dport@.draws(u16::draws()));
        let d3 = behind(d2, self.seq@.draws(u32::draws()));
        let d4 = behind(d3, self.ack@.draws(u32::draws()));
        let d5 = behind(d4, self.dataofs@.draws(u8::draws()));
        let d6 = behind(d5, self.reserved@.draws(u8::draws()));
        let d7 = behind(d6, self.flags@.draws(u8::draws()));
        let d8 = behind(d7, self.window@.draws(u16::draws()));
        let d9 = behind(d8, self.chksum@.draws(u16::draws()));
        &&& self.sport@.drawn_as(u16::of_draws(share(d0, u16::draws())), r.sport@)
        &&& self.dport@.drawn_as(u16::of_draws(share(d1, u16::draws())), r.dport@)
        &&& self.seq@.drawn_as(u32::of_draws(share(d2, u32::draws())), r.seq@)
        &&& self.ack@.drawn_as(u32::of_draws(share(d3, u32::draws())), r.ack@)
        &&& self.dataofs@.drawn_as(u8::of_draws(share(d4, u8::draws())), r.dataofs@)
        &&& self.reserved@.drawn_as(u8::of_draws(share(d5, u8::draws())), r.reserved@)
        &&& self.flags@.drawn_as(u8::of_draws(share(d6, u8::draws())), r.flags@)
        &&& self.window@.drawn_as(u16::of_draws(share(d7, u16::draws())), r.window@)
        &&& self.chksum@.drawn_as(u16::of_draws(share(d8, u16::draws())), r.chksum@)
        &&& self.urgptr@.drawn_as(u16::of_draws(share(d9, u16::draws())), r.urgptr@)
    }

    /// No field of the layer is computed by a function of the caller.
    pub open spec fn without_funcs(self) -> bool {
        &&& !(self.sport@ is Func)
        &&& !(self.dport@ is Func)
        &&& !(self.seq@ is Func)
        &&& !(self.ack@ is Func)
        &&& !(self.dataofs@ is Func)
        &&& !(self.reserved@ is Func)
        &&& !(self.flags@ is Func)
        &&& !(self.window@ is Func)
        &&& !(self.chksum@ is Func)
        &&& !(self.urgptr@ is Func)
    }

    /// Where no field is computed, the numbers drawn decide what the layer
    /// resolves to.
    pub proof fn lemma_resolve_decided(self, d: Seq<u32>, a: Tcp, b: Tcp)
        requires
            self.without_funcs(),
            self.resolves_to(a),
            self.drawn_from(d, a),
            self.resolves_to(b),
            self.drawn_from(d, b),
        ensures
            a == b,
    {
    }

    /// Where no field is computed, the numbers drawn decide what the layer
    /// is filled to.
    pub proof fn lemma_fill_decided(
        self,
        reg: Seq<RegistryEntry>,
        next: Option<LayerKind>,
        d: Seq<u32>,
        a: Tcp,
        b: Tcp,
    )
        requires
            self.without_funcs(),
            self.fills_to(reg, next, a),
            self.drawn_from(d, a),
            self.fills_to(reg, next, b),
            self.drawn_from(d, b),
        ensures
            a == b,
    {
    }

    /// What the fields drew one after the other is what the layer drew:
    /// `s0` is the record of the source before the first field, and each
    /// of the others the record after one more field.
    pub proof fn lemma_drawn(
        self,
        r: Tcp,
        s0: Seq<u32>,
        s1: Seq<u32>,
        s2: Seq<u32>,
        s3: Seq<u32>,
        s4: Seq<u32>,
        s5: Seq<u32>,
        s6: Seq<u32>,
        s7: Seq<u32>,
        s8: Seq<u32>,
        s9: Seq<u32>,
        s10: Seq<u32>,
    )
        requires
            drew(s0, s1, self.sport@.draws(u16::draws())),
            self.sport@.drawn_as(u16::of_draws(fresh(s0, s1)), r.sport@),
            drew(s1, s2, self.dport@.draws(u16::draws())),
            self.dport@.drawn_as(u16::of_draws(fresh(s1, s2)), r.dport@),
            drew(s2, s3, self.seq@.draws(u32::draws())),
            self.seq@.drawn_as(u32::of_draws(fresh(s2, s3)), r.seq@),
            drew(s3, s4, self.ack@.draws(u32::draws())),
            self.ack@.drawn_as(u32::of_draws(fresh(s3, s4)), r.ack@),
            drew(s4, s5, self.dataofs@.draws(u8::draws())),
            self.dataofs@.drawn_as(u8::of_draws(fresh(s4, s5)), r.dataofs@),
            drew(s5, s6, self.reserved@.draws(u8::draws())),
            self.reserved@.drawn_as(u8::of_draws(fresh(s5, s6)), r.reserved@),
            drew(s6, s7, self.flags@.draws(u8::draws())),
            self.flags@.drawn_as(u8::of_draws(fresh(s6, s7)), r.flags@),
            drew(s7, s8, self.window@.draws(u16::draws())),
            self.window@.drawn_as(u16::of_draws(fresh(s7, s8)), r.window@),
            drew(s8, s9, self.chksum@.draws(u16::draws())),
            self.chksum@.drawn_as(u16::of_draws(fresh(s8, s9)), r.chksum@),
            drew(s9, s10, self.urgptr@.draws(u16::draws())),
            self.urgptr@.drawn_as(u16::of_draws(fresh(s9, s10)), r.urgptr@),
        ensures
            drew(s0, s10, self.draws()),
            self.drawn_from(fresh(s0, s10), r),
    {
        lemma_drew_none(s10);
        lemma_drew_first(s9, s10, s10);
        lemma_drew_first(s8, s9, s10);
        lemma_drew_first(s7, s8, s10);
        lemma_drew_first(s6, s7, s10);
        lemma_drew_first(s5, s6, s10);
        lemma_drew_first(s4, s5, s10);
        lemma_drew_first(s3, s4, s10);
        lemma_drew_first(s2, s3, s10);
        lemma_drew_first(s1, s2, s10);
        lemma_drew_first(s0, s1, s10);
    }

    /// The bytes of the header, with the given values in the fields that are computed.
    pub open spec fn header(self, chksum: u16) -> Seq<u8> {
        (self.sport@.or(0)).encoded(Endian::Big)
            + (self.dport@.or(0)).encoded(Endian::Big)
            + (self.seq@.or(0)).encoded(Endian::Big)
            + (self.ack@.or(0)).encoded(Endian::Big)
            + (self.offset_byte()).encoded(Endian::Big)
            + (self.flags@.or(0)).encoded(Endian::Big)
            + (self.window@.or(0)).encoded(Endian::Big)
            + (chksum).encoded(Endian::Big)
            + (self.urgptr@.or(0)).encoded(Endian::Big)
    }

    /// The number of bytes of the header.
    pub open spec fn header_len() -> nat {
        20
    }

    /// The layer that the first bytes of `buf` stand for, or `None` where
    /// `buf` is shorter than the header.
    pub open spec fn parse(buf: Seq<u8>) -> Option<Tcp> {
        if buf.len() < 20 {
            None
        } else {
            Some(
                Tcp {
                    sport: Value::Fixed(u16_of(Endian::Big, buf.skip(0))),
                    dport: Value::Fixed(u16_of(Endian::Big, buf.skip(2))),
                    seq: Value::Fixed(u32_of(Endian::Big, buf.skip(4))),
                    ack: Value::Fixed(u32_of(Endian::Big, buf.skip(8))),
                    dataofs: Value::Fixed(buf.skip(12)[0] / 16),
                    reserved: Value::Fixed(buf.skip(12)[0] % 16),
                    flags: Value::Fixed(buf.skip(13)[0]),
                    window: Value::Fixed(u16_of(Endian::Big, buf.skip(14))),
                    chksum: Value::Fixed(u16_of(Endian::Big, buf.skip(16))),
                    urgptr: Value::Fixed(u16_of(Endian::Big, buf.skip(18))),
                    ..Tcp::default_spec()
                },
            )
        }
    }

    /// The header names no protocol to follow.
    pub open spec fn nexts(self) -> Seq<(RegistryName, u32)> {
        Seq::empty()
    }

    /// The byte that holds the data offset in its high half and the reserved
    /// bits in its low half.
    pub open spec fn offset_byte(self) -> u8 {
        ((self.dataofs@.or(0) % 16) * 16 + self.reserved@.or(0) % 16) as u8
    }

    /// The checksum over the pseudo-header of an enclosing IP header with the
    /// addresses `src` and `dst`, the header with a checksum of zero and the
    /// bytes of the layers behind.
    pub open spec fn checksum(self, src: Ipv4Address, dst: Ipv4Address, tail: Seq<Seq<u8>>) -> u16 {
        let s0 = inet_sum(0, u32_bytes(Endian::Big, src.bits));
        let s1 = inet_sum(s0, u32_bytes(Endian::Big, dst.bits));
        let s2 = inet_sum(s1, u16_bytes(Endian::Big, 6));
        let s3 = inet_sum(s2, u16_bytes(Endian::Big, wire_len(20, tail)));
        let s4 = inet_sum(s3, self.header(0));
        folded(inet_sum_all(s4, tail))
    }

    /// The two bytes of the checksum field: a fixed checksum as it is; an open
    /// one computed where an IP header stands before the layer, `ee ea` where
    /// the layer is the first of its stack and `dd dd` behind any other layer.
    pub open spec fn checksum_bytes(self, outer: Outer, tail: Seq<Seq<u8>>) -> Seq<u8> {
        match self.chksum@ {
            ValueView::Fixed(x) => u16_bytes(Endian::Big, x),
            _ => match outer {
                Outer::Outermost => seq![0xee, 0xea],
                Outer::Other => seq![0xdd, 0xdd],
                Outer::Ip { src, dst } => u16_bytes(Endian::Big, self.checksum(src, dst, tail)),
            },
        }
    }

    /// The bytes of the layer on the wire: the header with the checksum field
    /// as `checksum_bytes` gives it.
    pub open spec fn wire(self, outer: Outer, tail: Seq<Seq<u8>>) -> Seq<u8> {
        self.header(u16_of(Endian::Big, self.checksum_bytes(outer, tail)))
    }

    /// After a fill no field waits for a random number or a function, and
    /// every field is fixed but those that are left to the encoder.
    pub proof fn lemma_filled(self, reg: Seq<RegistryEntry>, next: Option<LayerKind>, r: Tcp)
        requires
            self.fills_to(reg, next, r),
        ensures
            r.settled(),
            r.sport@ is Fixed,
            r.dport@ is Fixed,
            r.seq@ is Fixed,
            r.ack@ is Fixed,
            r.dataofs@ is Fixed,
            r.reserved@ is Fixed,
            r.flags@ is Fixed,
            r.window@ is Fixed,
            r.urgptr@ is Fixed,
    {
    }

    /// Resolving a layer in which nothing is random or computed changes
    /// nothing.
    pub proof fn lemma_settled(self, r: Tcp)
        requires
            self.settled(),
            self.resolves_to(r),
        ensures
            r == self,
    {
    }

    /// A header that was read and then filled is written as the bytes it
    /// was read from, whatever stands around it in its stack.
    pub proof fn lemma_echo(
        buf: Seq<u8>,
        reg: Seq<RegistryEntry>,
        next: Option<LayerKind>,
        r: Tcp,
        outer: Outer,
        tail: Seq<Seq<u8>>,
    )
        requires
            Tcp::parse(buf) matches Some(l) && l.fills_to(reg, next, r),
        ensures
            r.wire(outer, tail) == buf.subrange(0, 20),
    {
        lemma_u16_inverse(Endian::Big, 0, buf.skip(0));
        assert(buf.skip(0).subrange(0, 2) =~= buf.subrange(0, 2));
        lemma_u16_inverse(Endian::Big, 0, buf.skip(2));
        assert(buf.skip(2).subrange(0, 2) =~= buf.subrange(2, 4));
        lemma_u32_inverse(Endian::Big, 0, buf.skip(4));
        assert(buf.skip(4).subrange(0, 4) =~= buf.subrange(4, 8));
        lemma_u32_inverse(Endian::Big, 0, buf.skip(8));
        assert(buf.skip(8).subrange(0, 4) =~= buf.subrange(8, 12));
        assert(seq![buf.skip(12)[0]] =~= buf.skip(12).subrange(0, 1));
        assert(buf.skip(12).subrange(0, 1) =~= buf.subrange(12, 13));
        assert(r.offset_byte() == buf.skip(12)[0]);
        assert(seq![buf.skip(13)[0]] =~= buf.skip(13).subrange(0, 1));
        assert(buf.skip(13).subrange(0, 1) =~= buf.subrange(13, 14));
        lemma_u16_inverse(Endian::Big, 0, buf.skip(14));
        assert(buf.skip(14).subrange(0, 2) =~= buf.subrange(14, 16));
        lemma_u16_inverse(Endian::Big, 0, buf.skip(16));
        assert(buf.skip(16).subrange(0, 2) =~= buf.subrange(16, 18));
        lemma_u16_inverse(Endian::Big, 0, buf.skip(18));
        assert(buf.skip(18).subrange(0, 2) =~= buf.subrange(18, 20));
        lemma_u16_inverse(Endian::Big, u16_of(Endian::Big, buf.skip(16)), Seq::empty());
        assert(u16_bytes(Endian::Big, u16_of(Endian::Big, buf.skip(16))) + Seq::<u8>::empty()
            =~= u16_bytes(Endian::Big, u16_of(Endian::Big, buf.skip(16))));
        assert(r.wire(outer, tail) =~= buf.subrange(0, 20));
    }

    /// A header that can be read lies within the buffer.
    pub proof fn lemma_parse_fits(buf: Seq<u8>)
        requires
            Tcp::parse(buf) is Some,
        ensures
            Tcp::header_len() <= buf.len(),
    {
    }
}

impl Default for Tcp {
    fn default() -> (r: Tcp)
        ensures
            r@ == Tcp::default_spec(),
    {
        Tcp::new()
    }
}

impl Tcp {
    /// A layer with every field at its default.
    pub fn new() -> (r: Tcp)
        ensures
            r@ == Tcp::default_spec(),
    {
        Tcp {
            sport: Value::Auto,
            dport: Value::Auto,
            seq: Value::Fixed(0),
            ack: Value::Fixed(0),
            dataofs: Value::Fixed(5),
            reserved: Value::Fixed(0),
            flags: Value::Fixed(2),
            window: Value::Fixed(8192),
            chksum: Value::Auto,
            urgptr: Value::Fixed(0),
        }
    }

    /// The layer with `sport` fixed to the given value.
    pub fn sport(self, sport: u16) -> (r: Tcp)
        ensures
            r == (Tcp { sport: Value::Fixed(sport), ..self }),
    {
        let mut r = self;
        r.sport = Value::Fixed(sport);
        r
    }

    /// The layer with `sport` set to the given deferred value.
    pub fn set_sport(self, sport: Value<u16>) -> (r: Tcp)
        ensures
            r == (Tcp { sport, ..self }),
    {
        let mut r = self;
        r.sport = sport;
        r
    }

    /// The layer with `dport` fixed to the given value.
    pub fn dport(self, dport: u16) -> (r: Tcp)
        ensures
            r == (Tcp { dport: Value::Fixed(dport), ..self }),
    {
        let mut r = self;
        r.dport = Value::Fixed(dport);
        r
    }

    /// The layer with `dport` set to the given deferred value.
    pub fn set_dport(self, dport: Value<u16>) -> (r: Tcp)
        ensures
            r == (Tcp { dport, ..self }),
    {
        let mut r = self;
        r.dport = dport;
        r
    }

    /// The layer with `seq` fixed to the given value.
    pub fn seq(self, seq: u32) -> (r: Tcp)
        ensures
            r == (Tcp { seq: Value::Fixed(seq), ..self }),
    {
        let mut r = self;
        r.seq = Value::Fixed(seq);
        r
    }

    /// The layer with `seq` set to the given deferred value.
    pub fn set_seq(self, seq: Value<u32>) -> (r: Tcp)
        ensures
            r == (Tcp { seq, ..self }),
    {
        let mut r = self;
        r.seq = seq;
        r
    }

    /// The layer with `ack` fixed to the given value.
    pub fn ack(self, ack: u32) -> (r: Tcp)
        ensures
            r == (Tcp { ack: Value::Fixed(ack), ..self }),
    {
        let mut r = self;
        r.ack = Value::Fixed(ack);
        r
    }

    /// The layer with `ack` set to the given deferred value.
    pub fn set_ack(self, ack: Value<u32>) -> (r: Tcp)
        ensures
            r == (Tcp { ack, ..self }),
    {
        let mut r = self;
        r.ack = ack;
        r
    }

    /// The layer with `dataofs` fixed to the given value.
    pub fn dataofs(self, dataofs: u8) -> (r: Tcp)
        ensures
            r == (Tcp { dataofs: Value::Fixed(dataofs), ..self }),
    {
        let mut r = self;
        r.dataofs = Value::Fixed(dataofs);
        r
    }

    /// The layer with `dataofs` set to the given deferred value.
    pub fn set_dataofs(self, dataofs: Value<u8>) -> (r: Tcp)
        ensures
            r == (Tcp { dataofs, ..self }),
    {
        let mut r = self;
        r.dataofs = dataofs;
        r
    }

    /// The layer with `reserved` fixed to the given value.
    pub fn reserved(self, reserved: u8) -> (r: Tcp)
        ensures
            r == (Tcp { reserved: Value::Fixed(reserved), ..self }),
    {
        let mut r = self;
        r.reserved = Value::Fixed(reserved);
        r
    }

    /// The layer with `reserved` set to the given deferred value.
    pub fn set_reserved(self, reserved: Value<u8>) -> (r: Tcp)
        ensures
            r == (Tcp { reserved, ..self }),
    {
        let mut r = self;
        r.reserved = reserved;
        r
    }

    /// The layer with `flags` fixed to the given value.
    pub fn flags(self, flags: u8) -> (r: Tcp)
        ensures
            r == (Tcp { flags: Value::Fixed(flags), ..self }),
    {
        let mut r = self;
        r.flags = Value::Fixed(flags);
        r
    }

    /// The layer with `flags` set to the given deferred value.
    pub fn set_flags(self, flags: Value<u8>) -> (r: Tcp)
        ensures
            r == (Tcp { flags, ..self }),
    {
        let mut r = self;
        r.flags = flags;
        r
    }

    /// The layer with `window` fixed to the given value.
    pub fn window(self, window: u16) -> (r: Tcp)
        ensures
            r == (Tcp { window: Value::Fixed(window), ..self }),
    {
        let mut r = self;
        r.window = Value::Fixed(window);
        r
    }

    /// The layer with `window` set to the given deferred value.
    pub fn set_window(self, window: Value<u16>) -> (r: Tcp)
        ensures
            r == (Tcp { window, ..self }),
    {
        let mut r = self;
        r.window = window;
        r
    }

    /// The layer with `chksum` fixed to the given value.
    pub fn chksum(self, chksum: u16) -> (r: Tcp)
        ensures
            r == (Tcp { chksum: Value::Fixed(chksum), ..self }),
    {
        let mut r = self;
        r.chksum = Value::Fixed(chksum);
        r
    }

    /// The layer with `chksum` set to the given deferred value.
    pub fn set_chksum(self, chksum: Value<u16>) -> (r: Tcp)
        ensures
            r == (Tcp { chksum, ..self }),
    {
        let mut r = self;
        r.chksum = chksum;
        r
    }

    /// The layer with `urgptr` fixed to the given value.
    pub fn urgptr(self, urgptr: u16) -> (r: Tcp)
        ensures
            r == (Tcp { urgptr: Value::Fixed(urgptr), ..self }),
    {
        let mut r = self;
        r.urgptr = Value::Fixed(urgptr);
        r
    }

    /// The layer with `urgptr` set to the given deferred value.
    pub fn set_urgptr(self, urgptr: Value<u16>) -> (r: Tcp)
        ensures
            r == (Tcp { urgptr, ..self }),
    {
        let mut r = self;
        r.urgptr = urgptr;
        r
    }

    /// A copy of the layer in which every random field is drawn from `rng` and
    /// every computed field is computed. The random fields draw in the order
    /// in which they are declared.
    pub fn resolve<R: RandomSource>(&self, rng: &mut R) -> (r: Tcp)
        ensures
            self@.resolves_to(r@),
            r@.settled(),
            drew(old(rng).drawn(), final(rng).drawn(), self@.draws()),
            self@.drawn_from(fresh(old(rng).drawn(), final(rng).drawn()), r@),
    {
        let ghost s0 = rng.drawn();
        let sport = self.sport.resolved(rng);
        let ghost s1 = rng.drawn();
        let dport = self.dport.resolved(rng);
        let ghost s2 = rng.drawn();
        let seq = self.seq.resolved(rng);
        let ghost s3 = rng.drawn();
        let ack = self.ack.resolved(rng);
        let ghost s4 = rng.drawn();
        let dataofs = self.dataofs.resolved(rng);
        let ghost s5 = rng.drawn();
        let reserved = self.reserved.resolved(rng);
        let ghost s6 = rng.drawn();
        let flags = self.flags.resolved(rng);
        let ghost s7 = rng.drawn();
        let window = self.window.resolved(rng);
        let ghost s8 = rng.drawn();
        let chksum = self.chksum.resolved(rng);
        let ghost s9 = rng.drawn();
        let urgptr = self.urgptr.resolved(rng);
        let ghost s10 = rng.drawn();
        let r = Tcp { sport, dport, seq, ack, dataofs, reserved, flags, window, chksum, urgptr };
        proof {
            self@.lemma_drawn(r@, s0, s1, s2, s3, s4, s5, s6, s7, s8, s9, s10);
        }
        r
    }

    /// The layer filled: resolved as by `resolve`, and with every open field
    /// given what its rule says. `next` is the kind of the layer that follows
    /// in the stack.
    pub fn filled<R: RandomSource>(
        &self,
        reg: &Registry,
        next: Option<LayerKind>,
        rng: &mut R,
    ) -> (r: Tcp)
        ensures
            self@.fills_to(reg@, next, r@),
            drew(old(rng).drawn(), final(rng).drawn(), self@.draws()),
            self@.drawn_from(fresh(old(rng).drawn(), final(rng).drawn()), r@),
    {
        let ghost s0 = rng.drawn();
        let sport = self.sport.filled(rng, 0xffff);
        let ghost s1 = rng.drawn();
        let dport = self.dport.filled(rng, 80);
        let ghost s2 = rng.drawn();
        let seq = self.seq.filled(rng, u32::default_value());
        let ghost s3 = rng.drawn();
        let ack = self.ack.filled(rng, u32::default_value());
        let ghost s4 = rng.drawn();
        let dataofs = self.dataofs.filled(rng, u8::default_value());
        let ghost s5 = rng.drawn();
        let reserved = self.reserved.filled(rng, u8::default_value());
        let ghost s6 = rng.drawn();
        let flags = self.flags.filled(rng, u8::default_value());
        let ghost s7 = rng.drawn();
        let window = self.window.filled(rng, u16::default_value());
        let ghost s8 = rng.drawn();
        let chksum = self.chksum.resolved(rng);
        let ghost s9 = rng.drawn();
        let urgptr = self.urgptr.filled(rng, u16::default_value());
        let ghost s10 = rng.drawn();
        let r = Tcp { sport, dport, seq, ack, dataofs, reserved, flags, window, chksum, urgptr };
        proof {
            self@.lemma_drawn(r@, s0, s1, s2, s3, s4, s5, s6, s7, s8, s9, s10);
        }
        r
    }

    /// The bytes of the header, with the given values in the fields that are computed.
    pub fn header_bytes(&self, chksum: u16) -> (r: Vec<u8>)
        ensures
            r@ == self@.header(chksum),
    {
        let mut out: Vec<u8> = Vec::new();
        assert(
            out@ + (self.sport@.or(0)).encoded(Endian::Big)
                =~= (self.sport@.or(0)).encoded(Endian::Big)
        );
        put::<u16, BinaryBigEndian>(&mut out, &(self.sport.or(u16::default_value())));
        put::<u16, BinaryBigEndian>(&mut out, &(self.dport.or(u16::default_value())));
        put::<u32, BinaryBigEndian>(&mut out, &(self.seq.or(u32::default_value())));
        put::<u32, BinaryBigEndian>(&mut out, &(self.ack.or(u32::default_value())));
        put::<u8, BinaryBigEndian>(&mut out, &(self.offset_octet()));
        put::<u8, BinaryBigEndian>(&mut out, &(self.flags.or(u8::default_value())));
        put::<u16, BinaryBigEndian>(&mut out, &(self.window.or(u16::default_value())));
        put::<u16, BinaryBigEndian>(&mut out, &(chksum));
        put::<u16, BinaryBigEndian>(&mut out, &(self.urgptr.or(u16::default_value())));
        out
    }

    /// Reads the header from the front of `buf`: the layer and the number of
    /// bytes of the header, or `None` where `buf` is too short.
    pub fn decode_header(buf: &[u8]) -> (r: Option<(Tcp, usize)>)
        ensures
            match r {
                Some((l, n)) => Tcp::parse(buf@) == Some(l@) && n == Tcp::header_len(),
                None => Tcp::parse(buf@) is None,
            },
    {
        let mut pos: usize = 0;
        let mut l = Tcp::new();
        let v0 = take::<u16, BinaryBigEndian>(buf, &mut pos)?;
        l.sport = Value::Fixed(v0);
        let v1 = take::<u16, BinaryBigEndian>(buf, &mut pos)?;
        l.dport = Value::Fixed(v1);
        let v2 = take::<u32, BinaryBigEndian>(buf, &mut pos)?;
        l.seq = Value::Fixed(v2);
        let v3 = take::<u32, BinaryBigEndian>(buf, &mut pos)?;
        l.ack = Value::Fixed(v3);
        let v4 = take::<u8, BinaryBigEndian>(buf, &mut pos)?;
        l.dataofs = Value::Fixed(v4 / 16);
        l.reserved = Value::Fixed(v4 % 16);
        let v5 = take::<u8, BinaryBigEndian>(buf, &mut pos)?;
        l.flags = Value::Fixed(v5);
        let v6 = take::<u16, BinaryBigEndian>(buf, &mut pos)?;
        l.window = Value::Fixed(v6);
        let v7 = take::<u16, BinaryBigEndian>(buf, &mut pos)?;
        l.chksum = Value::Fixed(v7);
        let v8 = take::<u16, BinaryBigEndian>(buf, &mut pos)?;
        l.urgptr = Value::Fixed(v8);
        Some((l, pos))
    }

    /// The numbers by which the header names the protocol that follows:
    /// none, for this header names no protocol to follow.
    pub fn next_keys(&self) -> (r: Vec<(RegistryName, u32)>)
        ensures
            r@ == self@.nexts(),
    {
        let mut r: Vec<(RegistryName, u32)> = Vec::new();
        assert(r@ =~= self@.nexts());
        r
    }

    /// `other` holds in every computed field the function that `self` holds
    /// there.
    pub open spec fn same_funcs(self, other: Tcp) -> bool {
        &&& other.sport.func() == self.sport.func()
        &&& other.dport.func() == self.dport.func()
        &&& other.seq.func() == self.seq.func()
        &&& other.ack.func() == self.ack.func()
        &&& other.dataofs.func() == self.dataofs.func()
        &&& other.reserved.func() == self.reserved.func()
        &&& other.flags.func() == self.flags.func()
        &&& other.window.func() == self.window.func()
        &&& other.chksum.func() == self.chksum.func()
        &&& other.urgptr.func() == self.urgptr.func()
    }

    /// A copy of the layer: the same values, and in the computed fields the
    /// same functions.
    pub fn dup(&self) -> (r: Tcp)
        ensures
            r@ == self@,
            self.same_funcs(r),
    {
        *self
    }

    /// The byte of data offset and reserved bits.
    pub fn offset_octet(&self) -> (r: u8)
        ensures
            r == self.offset_byte(),
    {
        (self.dataofs.or(0) % 16) * 16 + self.reserved.or(0) % 16
    }

    /// The two bytes of the checksum field.
    pub fn checksum_field(&self, outer: &Outer, tail: &EncodingVecVec) -> (r: Vec<u8>)
        ensures
            r@ == self.checksum_bytes(*outer, tail@),
    {
        match self.chksum {
            Value::Fixed(x) => BinaryBigEndian::encode_u16(x),
            _ => match outer {
                Outer::Outermost => {
                    let mut r: Vec<u8> = Vec::new();
                    r.push(0xee);
                    r.push(0xea);
                    assert(r@ =~= seq![0xee, 0xea]);
                    r
                },
                Outer::Other => {
                    let mut r: Vec<u8> = Vec::new();
                    r.push(0xdd);
                    r.push(0xdd);
                    assert(r@ =~= seq![0xdd, 0xdd]);
                    r
                },
                Outer::Ip { src, dst } => {
                    let sum = get_inet_sum(BinaryBigEndian::encode_u32(src.bits).as_slice());
                    let sum = update_inet_sum(
                        sum,
                        BinaryBigEndian::encode_u32(dst.bits).as_slice(),
                    );
                    let sum = update_inet_sum(sum, BinaryBigEndian::encode_u16(6).as_slice());
                    let sum = update_inet_sum(
                        sum,
                        BinaryBigEndian::encode_u16(tail.wire_len(20)).as_slice(),
                    );
                    let sum = update_inet_sum(sum, self.header_bytes(0).as_slice());
                    let sum = tail.add_to_sum(sum);
                    BinaryBigEndian::encode_u16(fold_u32(sum))
                },
            },
        }
    }

    /// The bytes of the layer on the wire. `outer` tells what stands before the
    /// layer in the stack and `tail` holds the bytes of the layers behind it.
    pub fn wire_bytes(&self, outer: &Outer, tail: &EncodingVecVec) -> (r: Vec<u8>)
        ensures
            r@ == self.wire(*outer, tail@),
    {
        let chk = self.checksum_field(outer, tail);
        assert(chk@.len() == 2) by {
            crate::codec::lemma_be_u16(0, Seq::empty());
        }
        let c: u16 = (chk[0] as u16) * 0x100 + (chk[1] as u16);
        self.header_bytes(c)
    }
}

/// An option of a TCP header. The header is read and written without
/// options; the one option named here is the one that stands for nothing.
#[derive(Clone, Copy, Debug, PartialEq, Eq)]
pub enum TcpOption {
    Nop,
}

} // verus!
