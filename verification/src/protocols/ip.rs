//! The Internet Protocol, version 4.

use crate::addr::Ipv4Address;
use crate::checksum::fold_u32;
use crate::checksum::folded;
use crate::checksum::get_inet_sum;
use crate::checksum::inet_sum;
use crate::codec::BinaryBigEndian;
use crate::codec::Encode;
use crate::codec::Encoder;
use crate::codec::Endian;
use crate::codec::lemma_u16_inverse;
use crate::codec::lemma_u32_inverse;
use crate::codec::u16_of;
use crate::codec::u32_of;
use crate::encoding::EncodingVecVec;
use crate::encoding::Outer;
use crate::registry::LayerKind;
use crate::registry::Registry;
use crate::registry::RegistryEntry;
use crate::registry::RegistryName;
use crate::registry::field_u8;
use crate::registry::key_of_u8;
use crate::registry::key_u8;
use crate::registry::next_key;
use crate::registry::to_field_u8;
use crate::value::Field;
use crate::value::RandomSource;
use crate::value::Value;
use crate::value::ValueView;
use crate::value::behind;
use crate::value::drew;
use crate::value::fresh;
use crate::value::lemma_drew_first;
use crate::value::lemma_drew_none;
use crate::value::share;
use crate::wire::put;
use crate::wire::take;
use crate::wire::wire_len;
use vstd::prelude::*;

verus! {

/// An IPv4 header.
#[derive(Clone, Debug, PartialEq, Eq)]
pub struct Ip {
    /// The version, four bits. A layer is made with 4.
    pub version: Value<u8>,
    /// The header length in 32-bit words, four bits. An open one is written
    /// as 5.
    pub ihl: Value<u8>,
    /// The type of service.
    pub tos: Value<u8>,
    /// The total length. An open one is computed when the layer is encoded.
    pub len: Value<u16>,
    /// The identification. A layer is made with a random one.
    pub id: Value<u16>,
    /// The flags, which take no bytes of their own: they are part of `frag`
    /// on the wire.
    pub flags: Value<IpFlags>,
    /// The word of flags and fragment offset.
    pub frag: Value<u16>,
    /// The time to live. A layer is made with 64.
    pub ttl: Value<u8>,
    /// The protocol number. An open one is filled with the number registered
    /// for the layer that follows.
    pub proto: Value<u8>,
    /// The header checksum. An open one is computed when the layer is
    /// encoded.
    pub chksum: Value<u16>,
    /// The source address. A layer is made with 127.0.0.1.
    pub src: Value<Ipv4Address>,
    /// The destination address. A layer is made with 127.0.0.1.
    pub dst: Value<Ipv4Address>,
    /// The options. They are kept with the layer and take no bytes on the
    /// wire.
    pub options: Vec<IpOption>,
}

/// What a layer of type `Ip` says, with its vectors as sequences.
pub struct IpView {
    pub version: ValueView<u8>,
    pub ihl: ValueView<u8>,
    pub tos: ValueView<u8>,
    pub len: ValueView<u16>,
    pub id: ValueView<u16>,
    pub flags: ValueView<IpFlags>,
    pub frag: ValueView<u16>,
    pub ttl: ValueView<u8>,
    pub proto: ValueView<u8>,
    pub chksum: ValueView<u16>,
    pub src: ValueView<Ipv4Address>,
    pub dst: ValueView<Ipv4Address>,
    pub options: Seq<IpOptionView>,
}

impl View for Ip {
    type V = IpView;

    open spec fn view(&self) -> IpView {
        IpView {
            version: self.version@,
            ihl: self.ihl@,
            tos: self.tos@,
            len: self.len@,
            id: self.id@,
            flags: self.flags@,
            frag: self.frag@,
            ttl: self.ttl@,
            proto: self.proto@,
            chksum: self.chksum@,
            src: self.src@,
            dst: self.dst@,
            options: options_view(self.options@),
        }
    }
}

impl IpView {
    /// A layer as it is made: every field at its default.
    pub open spec fn default_spec() -> IpView {
        IpView {
            version: ValueView::Fixed(4),
            ihl: ValueView::Auto,
            tos: ValueView::Auto,
            len: ValueView::Auto,
            id: ValueView::Random,
            flags: ValueView::Auto,
            frag: ValueView::Auto,
            ttl: ValueView::Fixed(64),
            proto: ValueView::Auto,
            chksum: ValueView::Auto,
            src: ValueView::Fixed(Ipv4Address::of(127, 0, 0, 1)),
            dst: ValueView::Fixed(Ipv4Address::of(127, 0, 0, 1)),
            options: Seq::empty(),
        }
    }

    /// No field waits for a random number or for a function of the caller.
    pub open spec fn settled(self) -> bool {
        &&& self.version.settled()
        &&& self.ihl.settled()
        &&& self.tos.settled()
        &&& self.len.settled()
        &&& self.id.settled()
        &&& self.flags.settled()
        &&& self.frag.settled()
        &&& self.ttl.settled()
        &&& self.proto.settled()
        &&& self.chksum.settled()
        &&& self.src.settled()
        &&& self.dst.settled()
    }

    /// `r` is the layer with every random or computed field given some value
    /// and every other field as it was. Which value a random field is given
    /// is said by `drawn_from`.
    pub open spec fn resolves_to(self, r: IpView) -> bool {
        &&& self.version.resolves_to(r.version)
        &&& self.ihl.resolves_to(r.ihl)
        &&& self.tos.resolves_to(r.tos)
        &&& self.len.resolves_to(r.len)
        &&& self.id.resolves_to(r.id)
        &&& self.flags.resolves_to(r.flags)
        &&& self.frag.resolves_to(r.frag)
        &&& self.ttl.resolves_to(r.ttl)
        &&& self.proto.resolves_to(r.proto)
        &&& self.chksum.resolves_to(r.chksum)
        &&& self.src.resolves_to(r.src)
        &&& self.dst.resolves_to(r.dst)
        &&& r.options == self.options
    }

    /// `r` is the layer after a fill in a stack whose next layer is of kind
    /// `next`, with the tables `reg`: fixed fields stay, random and computed
    /// fields get some value, and each open field gets what its rule says.
    /// Which value a random field gets is said by `drawn_from`.
    pub open spec fn fills_to(
        self,
        reg: Seq<RegistryEntry>,
        next: Option<LayerKind>,
        r: IpView,
    ) -> bool {
        &&& self.version.fills_to(ValueView::Fixed(0), r.version)
        &&& self.ihl.fills_to(ValueView::Auto, r.ihl)
        &&& self.tos.fills_to(ValueView::Fixed(0), r.tos)
        &&& self.len.fills_to(ValueView::Auto, r.len)
        &&& self.id.fills_to(ValueView::Fixed(0), r.id)
        &&& self.flags.fills_to(ValueView::Fixed((IpFlags {})), r.flags)
        &&& self.frag.fills_to(ValueView::Fixed(0), r.frag)
        &&& self.ttl.fills_to(ValueView::Fixed(0), r.ttl)
        &&& self.proto.fills_to(
            ValueView::Fixed(field_u8(next_key(reg, RegistryName::IanaProto, next, 0xff, 0))),
            r.proto,
        )
        &&& self.chksum.fills_to(ValueView::Auto, r.chksum)
        &&& self.src.fills_to(ValueView::Fixed(Ipv4Address::default_view()), r.src)
        &&& self.dst.fills_to(ValueView::Fixed(Ipv4Address::default_view()), r.dst)
        &&& r.options == self.options
    }

    /// How many numbers the layer takes from a random source when it is
    /// resolved or filled: those of its random fields together.
    pub open spec fn draws(self) -> nat {
        self.version.draws(u8::draws())
            + self.ihl.draws(u8::draws())
            + self.tos.draws(u8::draws())
            + self.len.draws(u16::draws())
            + self.id.draws(u16::draws())
            + self.flags.draws(IpFlags::draws())
            + self.frag.draws(u16::draws())
            + self.ttl.draws(u8::draws())
            + self.proto.draws(u8::draws())
            + self.chksum.draws(u16::draws())
            + self.src.draws(Ipv4Address::draws())
            + self.dst.draws(Ipv4Address::draws())
    }

    /// `r` holds in every field that is random in `self` the value made of
    /// that field's share of the numbers `d`. The fields take their shares
    /// in the order in which they are declared, each as many numbers as a
    /// random value of its type takes.
    pub open spec fn drawn_from(self, d: Seq<u32>, r: IpView) -> bool {
        let d0 = d;
        let d1 = behind(d0, self.version.draws(u8::draws()));
        let d2 = behind(d1, self.ihl.draws(u8::draws()));
        let d3 = behind(d2, self.tos.draws(u8::draws()));
        let d4 = behind(d3, self.len.draws(u16::draws()));
        let d5 = behind(d4, self.id.draws(u16::draws()));
        let d6 = behind(d5, self.flags.draws(IpFlags::draws()));
        let d7 = behind(d6, self.frag.draws(u16::draws()));
        let d8 = behind(d7, self.ttl.draws(u8::draws()));
        let d9 = behind(d8, self.proto.draws(u8::draws()));
        let d10 = behind(d9, self.chksum.draws(u16::draws()));
        let d11 = behind(d10, self.src.draws(Ipv4Address::draws()));
        &&& self.version.drawn_as(u8::of_draws(share(d0, u8::draws())), r.version)
        &&& self.ihl.drawn_as(u8::of_draws(share(d1, u8::draws())), r.ihl)
        &&& self.tos.drawn_as(u8::of_draws(share(d2, u8::draws())), r.tos)
        &&& self.len.drawn_as(u16::of_draws(share(d3, u16::draws())), r.len)
        &&& self.id.drawn_as(u16::of_draws(share(d4, u16::draws())), r.id)
        &&& self.flags.drawn_as(IpFlags::of_draws(share(d5, IpFlags::draws())), r.flags)
        &&& self.frag.drawn_as(u16::of_draws(share(d6, u16::draws())), r.frag)
        &&& self.ttl.drawn_as(u8::of_draws(share(d7, u8::draws())), r.ttl)
        &&& self.proto.drawn_as(u8::of_draws(share(d8, u8::draws())), r.proto)
        &&& self.chksum.drawn_as(u16::of_draws(share(d9, u16::draws())), r.chksum)
        &&& self.src.drawn_as(Ipv4Address::of_draws(share(d10, Ipv4Address::draws())), r.src)
        &&& self.dst.drawn_as(Ipv4Address::of_draws(share(d11, Ipv4Address::draws())), r.dst)
    }

    /// No field of the layer is computed by a function of the caller.
    pub open spec fn without_funcs(self) -> bool {
        &&& !(self.version is Func)
        &&& !(self.ihl is Func)
        &&& !(self.tos is Func)
        &&& !(self.len is Func)
        &&& !(self.id is Func)
        &&& !(self.flags is Func)
        &&& !(self.frag is Func)
        &&& !(self.ttl is Func)
        &&& !(self.proto is Func)
        &&& !(self.chksum is Func)
        &&& !(self.src is Func)
        &&& !(self.dst is Func)
    }

    /// Where no field is computed, the numbers drawn decide what the layer
    /// resolves to.
    pub proof fn lemma_resolve_decided(self, d: Seq<u32>, a: IpView, b: IpView)
        requires
            self.without_funcs(),
            self.resolves_to(a),
            self.drawn_from(d, a),
            self.resolves_to(b),
            self.drawn_from(d, b),
        ensures
            a == b,
    {
    }

    /// Where no field is computed, the numbers drawn decide what the layer
    /// is filled to.
    pub proof fn lemma_fill_decided(
        self,
        reg: Seq<RegistryEntry>,
        next: Option<LayerKind>,
        d: Seq<u32>,
        a: IpView,
        b: IpView,
    )
        requires
            self.without_funcs(),
            self.fills_to(reg, next, a),
            self.drawn_from(d, a),
            self.fills_to(reg, next, b),
            self.drawn_from(d, b),
        ensures
            a == b,
    {
    }

    /// What the fields drew one after the other is what the layer drew:
    /// `s0` is the record of the source before the first field, and each
    /// of the others the record after one more field.
    pub proof fn lemma_drawn(
        self,
        r: IpView,
        s0: Seq<u32>,
        s1: Seq<u32>,
        s2: Seq<u32>,
        s3: Seq<u32>,
        s4: Seq<u32>,
        s5: Seq<u32>,
        s6: Seq<u32>,
        s7: Seq<u32>,
        s8: Seq<u32>,
        s9: Seq<u32>,
        s10: Seq<u32>,
        s11: Seq<u32>,
        s12: Seq<u32>,
    )
        requires
            drew(s0, s1, self.version.draws(u8::draws())),
            self.version.drawn_as(u8::of_draws(fresh(s0, s1)), r.version),
            drew(s1, s2, self.ihl.draws(u8::draws())),
            self.ihl.drawn_as(u8::of_draws(fresh(s1, s2)), r.ihl),
            drew(s2, s3, self.tos.draws(u8::draws())),
            self.tos.drawn_as(u8::of_draws(fresh(s2, s3)), r.tos),
            drew(s3, s4, self.len.draws(u16::draws())),
            self.len.drawn_as(u16::of_draws(fresh(s3, s4)), r.len),
            drew(s4, s5, self.id.draws(u16::draws())),
            self.id.drawn_as(u16::of_draws(fresh(s4, s5)), r.id),
            drew(s5, s6, self.flags.draws(IpFlags::draws())),
            self.flags.drawn_as(IpFlags::of_draws(fresh(s5, s6)), r.flags),
            drew(s6, s7, self.frag.draws(u16::draws())),
            self.frag.drawn_as(u16::of_draws(fresh(s6, s7)), r.frag),
            drew(s7, s8, self.ttl.draws(u8::draws())),
            self.ttl.drawn_as(u8::of_draws(fresh(s7, s8)), r.ttl),
            drew(s8, s9, self.proto.draws(u8::draws())),
            self.proto.drawn_as(u8::of_draws(fresh(s8, s9)), r.proto),
            drew(s9, s10, self.chksum.draws(u16::draws())),
            self.chksum.drawn_as(u16::of_draws(fresh(s9, s10)), r.chksum),
            drew(s10, s11, self.src.draws(Ipv4Address::draws())),
            self.src.drawn_as(Ipv4Address::of_draws(fresh(s10, s11)), r.src),
            drew(s11, s12, self.dst.draws(Ipv4Address::draws())),
            self.dst.drawn_as(Ipv4Address::of_draws(fresh(s11, s12)), r.dst),
        ensures
            drew(s0, s12, self.draws()),
            self.drawn_from(fresh(s0, s12), r),
    {
        lemma_drew_none(s12);
        lemma_drew_first(s11, s12, s12);
        lemma_drew_first(s10, s11, s12);
        lemma_drew_first(s9, s10, s12);
        lemma_drew_first(s8, s9, s12);
        lemma_drew_first(s7, s8, s12);
        lemma_drew_first(s6, s7, s12);
        lemma_drew_first(s5, s6, s12);
        lemma_drew_first(s4, s5, s12);
        lemma_drew_first(s3, s4, s12);
        lemma_drew_first(s2, s3, s12);
        lemma_drew_first(s1, s2, s12);
        lemma_drew_first(s0, s1, s12);
    }

    /// The bytes of the header, with the given values in the fields that are computed.
    pub open spec fn header(self, len: u16, chksum: u16) -> Seq<u8> {
        (self.ver_ihl()).encoded(Endian::Big)
            + (self.tos.or(0)).encoded(Endian::Big)
            + (len).encoded(Endian::Big)
            + (self.id.or(0)).encoded(Endian::Big)
            + (self.frag.or(0)).encoded(Endian::Big)
            + (self.ttl.or(0)).encoded(Endian::Big)
            + (self.proto.or(0)).encoded(Endian::Big)
            + (chksum).encoded(Endian::Big)
            + (self.src.or(Ipv4Address::default_view())).encoded(Endian::Big)
            + (self.dst.or(Ipv4Address::default_view())).encoded(Endian::Big)
    }

    /// The number of bytes of the header.
    pub open spec fn header_len() -> nat {
        20
    }

    /// The layer that the first bytes of `buf` stand for, or `None` where
    /// `buf` is shorter than the header.
    pub open spec fn parse(buf: Seq<u8>) -> Option<IpView> {
        if buf.len() < 20 {
            None
        } else {
            Some(
                IpView {
                    version: ValueView::Fixed(buf.skip(0)[0] / 16),
                    ihl: ValueView::Fixed(buf.skip(0)[0] % 16),
                    tos: ValueView::Fixed(buf.skip(1)[0]),
                    len: ValueView::Fixed(u16_of(Endian::Big, buf.skip(2))),
                    id: ValueView::Fixed(u16_of(Endian::Big, buf.skip(4))),
                    frag: ValueView::Fixed(u16_of(Endian::Big, buf.skip(6))),
                    ttl: ValueView::Fixed(buf.skip(8)[0]),
                    proto: ValueView::Fixed(buf.skip(9)[0]),
                    chksum: ValueView::Fixed(u16_of(Endian::Big, buf.skip(10))),
                    src: ValueView::Fixed(
                        (Ipv4Address { bits: u32_of(Endian::Big, buf.skip(12)) })
                    ),
                    dst: ValueView::Fixed(
                        (Ipv4Address { bits: u32_of(Endian::Big, buf.skip(16)) })
                    ),
                    ..IpView::default_spec()
                },
            )
        }
    }

    /// The numbers by which the header names the protocol that follows, each
    /// with the table it is looked up in, in the order in which they are tried.
    pub open spec fn nexts(self) -> Seq<(RegistryName, u32)> {
        seq![(RegistryName::IanaProto, key_of_u8(self.proto.or(0)))]
    }

    /// The first byte: the version in the high half, the header length in the
    /// low half. An open version counts as zero, an open header length as 5.
    pub open spec fn ver_ihl(self) -> u8 {
        ((self.version.or(0) % 16) * 16 + (match self.ihl {
            ValueView::Fixed(x) => x % 16,
            _ => 5,
        })) as u8
    }

    /// The total length: a fixed one as it is, an open one the twenty bytes of
    /// the header and the bytes of the layers behind.
    pub open spec fn length(self, tail: Seq<Seq<u8>>) -> u16 {
        self.len.or(wire_len(20, tail))
    }

    /// The header checksum: a fixed one as it is, an open one the checksum of
    /// the header with a checksum of zero.
    pub open spec fn checksum(self, tail: Seq<Seq<u8>>) -> u16 {
        match self.chksum {
            ValueView::Fixed(x) => x,
            _ => folded(inet_sum(0, self.header(self.length(tail), 0))),
        }
    }

    /// The bytes of the layer on the wire.
    pub open spec fn wire(self, outer: Outer, tail: Seq<Seq<u8>>) -> Seq<u8> {
        self.header(self.length(tail), self.checksum(tail))
    }

    /// What the layer is to the layer behind it: an IP header with its source
    /// and destination, an open address counting as 0.0.0.0.
    pub open spec fn as_outer(self) -> Outer {
        Outer::Ip {
            src: self.src.or(Ipv4Address::default_view()),
            dst: self.dst.or(Ipv4Address::default_view()),
        }
    }

    /// After a fill no field waits for a random number or a function, and
    /// every field is fixed but those that are left to the encoder.
    pub proof fn lemma_filled(self, reg: Seq<RegistryEntry>, next: Option<LayerKind>, r: IpView)
        requires
            self.fills_to(reg, next, r),
        ensures
            r.settled(),
            r.version is Fixed,
            r.tos is Fixed,
            r.id is Fixed,
            r.flags is Fixed,
            r.frag is Fixed,
            r.ttl is Fixed,
            r.proto is Fixed,
            r.src is Fixed,
            r.dst is Fixed,
    {
    }

    /// Resolving a layer in which nothing is random or computed changes
    /// nothing.
    pub proof fn lemma_settled(self, r: IpView)
        requires
            self.settled(),
            self.resolves_to(r),
        ensures
            r == self,
    {
    }

    /// A header that was read and then filled is written as the bytes it
    /// was read from, whatever stands around it in its stack.
    pub proof fn lemma_echo(
        buf: Seq<u8>,
        reg: Seq<RegistryEntry>,
        next: Option<LayerKind>,
        r: IpView,
        outer: Outer,
        tail: Seq<Seq<u8>>,
    )
        requires
            IpView::parse(buf) matches Some(l) && l.fills_to(reg, next, r),
        ensures
            r.wire(outer, tail) == buf.subrange(0, 20),
    {
        assert(seq![buf.skip(0)[0]] =~= buf.skip(0).subrange(0, 1));
        assert(buf.skip(0).subrange(0, 1) =~= buf.subrange(0, 1));
        assert(r.ver_ihl() == buf.skip(0)[0]);
        assert(seq![buf.skip(1)[0]] =~= buf.skip(1).subrange(0, 1));
        assert(buf.skip(1).subrange(0, 1) =~= buf.subrange(1, 2));
        lemma_u16_inverse(Endian::Big, 0, buf.skip(2));
        assert(buf.skip(2).subrange(0, 2) =~= buf.subrange(2, 4));
        lemma_u16_inverse(Endian::Big, 0, buf.skip(4));
        assert(buf.skip(4).subrange(0, 2) =~= buf.subrange(4, 6));
        lemma_u16_inverse(Endian::Big, 0, buf.skip(6));
        assert(buf.skip(6).subrange(0, 2) =~= buf.subrange(6, 8));
        assert(seq![buf.skip(8)[0]] =~= buf.skip(8).subrange(0, 1));
        assert(buf.skip(8).subrange(0, 1) =~= buf.subrange(8, 9));
        assert(seq![buf.skip(9)[0]] =~= buf.skip(9).subrange(0, 1));
        assert(buf.skip(9).subrange(0, 1) =~= buf.subrange(9, 10));
        lemma_u16_inverse(Endian::Big, 0, buf.skip(10));
        assert(buf.skip(10).subrange(0, 2) =~= buf.subrange(10, 12));
        lemma_u32_inverse(Endian::Big, 0, buf.skip(12));
        assert(buf.skip(12).subrange(0, 4) =~= buf.subrange(12, 16));
        lemma_u32_inverse(Endian::Big, 0, buf.skip(16));
        assert(buf.skip(16).subrange(0, 4) =~= buf.subrange(16, 20));
        assert(r.wire(outer, tail) =~= buf.subrange(0, 20));
    }

    /// A header that can be read lies within the buffer.
    pub proof fn lemma_parse_fits(buf: Seq<u8>)
        requires
            IpView::parse(buf) is Some,
        ensures
            IpView::header_len() <= buf.len(),
    {
    }
}

impl Default for Ip {
    fn default() -> (r: Ip)
        ensures
            r@ == IpView::default_spec(),
    {
        Ip::new()
    }
}

impl Ip {
    /// A layer with every field at its default.
    pub fn new() -> (r: Ip)
        ensures
            r@ == IpView::default_spec(),
    {
        let r = Ip {
            version: Value::Fixed(4),
            ihl: Value::Auto,
            tos: Value::Auto,
            len: Value::Auto,
            id: Value::Random,
            flags: Value::Auto,
            frag: Value::Auto,
            ttl: Value::Fixed(64),
            proto: Value::Auto,
            chksum: Value::Auto,
            src: Value::Fixed(Ipv4Address::new(127, 0, 0, 1)),
            dst: Value::Fixed(Ipv4Address::new(127, 0, 0, 1)),
            options: Vec::new(),
        };
        assert(r@.options =~= IpView::default_spec().options);
        r
    }

    /// The layer with `version` fixed to the given value.
    pub fn version(self, version: u8) -> (r: Ip)
        ensures
            r@ == (IpView { version: ValueView::Fixed(version@), ..self@ }),
    {
        let mut r = self;
        r.version = Value::Fixed(version);
        r
    }

    /// The layer with `version` set to the given deferred value.
    pub fn set_version(self, version: Value<u8>) -> (r: Ip)
        ensures
            r@ == (IpView { version: version@, ..self@ }),
    {
        let mut r = self;
        r.version = version;
        r
    }

    /// The layer with `ihl` fixed to the given value.
    pub fn ihl(self, ihl: u8) -> (r: Ip)
        ensures
            r@ == (IpView { ihl: ValueView::Fixed(ihl@), ..self@ }),
    {
        let mut r = self;
        r.ihl = Value::Fixed(ihl);
        r
    }

    /// The layer with `ihl` set to the given deferred value.
    pub fn set_ihl(self, ihl: Value<u8>) -> (r: Ip)
        ensures
            r@ == (IpView { ihl: ihl@, ..self@ }),
    {
        let mut r = self;
        r.ihl = ihl;
        r
    }

    /// The layer with `tos` fixed to the given value.
    pub fn tos(self, tos: u8) -> (r: Ip)
        ensures
            r@ == (IpView { tos: ValueView::Fixed(tos@), ..self@ }),
    {
        let mut r = self;
        r.tos = Value::Fixed(tos);
        r
    }

    /// The layer with `tos` set to the given deferred value.
    pub fn set_tos(self, tos: Value<u8>) -> (r: Ip)
        ensures
            r@ == (IpView { tos: tos@, ..self@ }),
    {
        let mut r = self;
        r.tos = tos;
        r
    }

    /// The layer with `len` fixed to the given value.
    pub fn len(self, len: u16) -> (r: Ip)
        ensures
            r@ == (IpView { len: ValueView::Fixed(len@), ..self@ }),
    {
        let mut r = self;
        r.len = Value::Fixed(len);
        r
    }

    /// The layer with `len` set to the given deferred value.
    pub fn set_len(self, len: Value<u16>) -> (r: Ip)
        ensures
            r@ == (IpView { len: len@, ..self@ }),
    {
        let mut r = self;
        r.len = len;
        r
    }

    /// The layer with `id` fixed to the given value.
    pub fn id(self, id: u16) -> (r: Ip)
        ensures
            r@ == (IpView { id: ValueView::Fixed(id@), ..self@ }),
    {
        let mut r = self;
        r.id = Value::Fixed(id);
        r
    }

    /// The layer with `id` set to the given deferred value.
    pub fn set_id(self, id: Value<u16>) -> (r: Ip)
        ensures
            r@ == (IpView { id: id@, ..self@ }),
    {
        let mut r = self;
        r.id = id;
        r
    }

    /// The layer with `flags` fixed to the given value.
    pub fn flags(self, flags: IpFlags) -> (r: Ip)
        ensures
            r@ == (IpView { flags: ValueView::Fixed(flags@), ..self@ }),
    {
        let mut r = self;
        r.flags = Value::Fixed(flags);
        r
    }

    /// The layer with `flags` set to the given deferred value.
    pub fn set_flags(self, flags: Value<IpFlags>) -> (r: Ip)
        ensures
            r@ == (IpView { flags: flags@, ..self@ }),
    {
        let mut r = self;
        r.flags = flags;
        r
    }

    /// The layer with `frag` fixed to the given value.
    pub fn frag(self, frag: u16) -> (r: Ip)
        ensures
            r@ == (IpView { frag: ValueView::Fixed(frag@), ..self@ }),
    {
        let mut r = self;
        r.frag = Value::Fixed(frag);
        r
    }

    /// The layer with `frag` set to the given deferred value.
    pub fn set_frag(self, frag: Value<u16>) -> (r: Ip)
        ensures
            r@ == (IpView { frag: frag@, ..self@ }),
    {
        let mut r = self;
        r.frag = frag;
        r
    }

    /// The layer with `ttl` fixed to the given value.
    pub fn ttl(self, ttl: u8) -> (r: Ip)
        ensures
            r@ == (IpView { ttl: ValueView::Fixed(ttl@), ..self@ }),
    {
        let mut r = self;
        r.ttl = Value::Fixed(ttl);
        r
    }

    /// The layer with `ttl` set to the given deferred value.
    pub fn set_ttl(self, ttl: Value<u8>) -> (r: Ip)
        ensures
            r@ == (IpView { ttl: ttl@, ..self@ }),
    {
        let mut r = self;
        r.ttl = ttl;
        r
    }

    /// The layer with `proto` fixed to the given value.
    pub fn proto(self, proto: u8) -> (r: Ip)
        ensures
            r@ == (IpView { proto: ValueView::Fixed(proto@), ..self@ }),
    {
        let mut r = self;
        r.proto = Value::Fixed(proto);
        r
    }

    /// The layer with `proto` set to the given deferred value.
    pub fn set_proto(self, proto: Value<u8>) -> (r: Ip)
        ensures
            r@ == (IpView { proto: proto@, ..self@ }),
    {
        let mut r = self;
        r.proto = proto;
        r
    }

    /// The layer with `chksum` fixed to the given value.
    pub fn chksum(self, chksum: u16) -> (r: Ip)
        ensures
            r@ == (IpView { chksum: ValueView::Fixed(chksum@), ..self@ }),
    {
        let mut r = self;
        r.chksum = Value::Fixed(chksum);
        r
    }

    /// The layer with `chksum` set to the given deferred value.
    pub fn set_chksum(self, chksum: Value<u16>) -> (r: Ip)
        ensures
            r@ == (IpView { chksum: chksum@, ..self@ }),
    {
        let mut r = self;
        r.chksum = chksum;
        r
    }

    /// The layer with `src` fixed to the given value.
    pub fn src(self, src: Ipv4Address) -> (r: Ip)
        ensures
            r@ == (IpView { src: ValueView::Fixed(src@), ..self@ }),
    {
        let mut r = self;
        r.src = Value::Fixed(src);
        r
    }

    /// The layer with `src` set to the given deferred value.
    pub fn set_src(self, src: Value<Ipv4Address>) -> (r: Ip)
        ensures
            r@ == (IpView { src: src@, ..self@ }),
    {
        let mut r = self;
        r.src = src;
        r
    }

    /// The layer with `dst` fixed to the given value.
    pub fn dst(self, dst: Ipv4Address) -> (r: Ip)
        ensures
            r@ == (IpView { dst: ValueView::Fixed(dst@), ..self@ }),
    {
        let mut r = self;
        r.dst = Value::Fixed(dst);
        r
    }

    /// The layer with `dst` set to the given deferred value.
    pub fn set_dst(self, dst: Value<Ipv4Address>) -> (r: Ip)
        ensures
            r@ == (IpView { dst: dst@, ..self@ }),
    {
        let mut r = self;
        r.dst = dst;
        r
    }

    /// The layer with `options` replaced.
    pub fn options(self, options: Vec<IpOption>) -> (r: Ip)
        ensures
            r@ == (IpView { options: options_view(options@), ..self@ }),
    {
        let mut r = self;
        r.options = options;
        r
    }

    /// A copy of the layer in which every random field is drawn from `rng` and
    /// every computed field is computed. The random fields draw in the order
    /// in which they are declared.
    pub fn resolve<R: RandomSource>(&self, rng: &mut R) -> (r: Ip)
        ensures
            self@.resolves_to(r@),
            r@.settled(),
            drew(old(rng).drawn(), final(rng).drawn(), self@.draws()),
            self@.drawn_from(fresh(old(rng).drawn(), final(rng).drawn()), r@),
    {
        let ghost s0 = rng.drawn();
        let version = self.version.resolved(rng);
        let ghost s1 = rng.drawn();
        let ihl = self.ihl.resolved(rng);
        let ghost s2 = rng.drawn();
        let tos = self.tos.resolved(rng);
        let ghost s3 = rng.drawn();
        let len = self.len.resolved(rng);
        let ghost s4 = rng.drawn();
        let id = self.id.resolved(rng);
        let ghost s5 = rng.drawn();
        let flags = self.flags.resolved(rng);
        let ghost s6 = rng.drawn();
        let frag = self.frag.resolved(rng);
        let ghost s7 = rng.drawn();
        let ttl = self.ttl.resolved(rng);
        let ghost s8 = rng.drawn();
        let proto = self.proto.resolved(rng);
        let ghost s9 = rng.drawn();
        let chksum = self.chksum.resolved(rng);
        let ghost s10 = rng.drawn();
        let src = self.src.resolved(rng);
        let ghost s11 = rng.drawn();
        let dst = self.dst.resolved(rng);
        let ghost s12 = rng.drawn();
        let options = copy_options(&self.options);
        let r = Ip {
            version,
            ihl,
            tos,
            len,
            id,
            flags,
            frag,
            ttl,
            proto,
            chksum,
            src,
            dst,
            options,
        };
        proof {
            self@.lemma_drawn(r@, s0, s1, s2, s3, s4, s5, s6, s7, s8, s9, s10, s11, s12);
        }
        r
    }

    /// The layer filled: resolved as by `resolve`, and with every open field
    /// given what its rule says. `next` is the kind of the layer that follows
    /// in the stack.
    pub fn filled<R: RandomSource>(
        &self,
        reg: &Registry,
        next: Option<LayerKind>,
        rng: &mut R,
    ) -> (r: Ip)
        ensures
            self@.fills_to(reg@, next, r@),
            drew(old(rng).drawn(), final(rng).drawn(), self@.draws()),
            self@.drawn_from(fresh(old(rng).drawn(), final(rng).drawn()), r@),
    {
        let ghost s0 = rng.drawn();
        let version = self.version.filled(rng, u8::default_value());
        let ghost s1 = rng.drawn();
        let ihl = self.ihl.resolved(rng);
        let ghost s2 = rng.drawn();
        let tos = self.tos.filled(rng, u8::default_value());
        let ghost s3 = rng.drawn();
        let len = self.len.resolved(rng);
        let ghost s4 = rng.drawn();
        let id = self.id.filled(rng, u16::default_value());
        let ghost s5 = rng.drawn();
        let flags = self.flags.filled(rng, IpFlags::default_value());
        let ghost s6 = rng.drawn();
        let frag = self.frag.filled(rng, u16::default_value());
        let ghost s7 = rng.drawn();
        let ttl = self.ttl.filled(rng, u8::default_value());
        let ghost s8 = rng.drawn();
        let proto = self.proto.filled(
            rng,
            to_field_u8(reg.next_key(RegistryName::IanaProto, next, 0xff, 0)),
        );
        let ghost s9 = rng.drawn();
        let chksum = self.chksum.resolved(rng);
        let ghost s10 = rng.drawn();
        let src = self.src.filled(rng, Ipv4Address::default_value());
        let ghost s11 = rng.drawn();
        let dst = self.dst.filled(rng, Ipv4Address::default_value());
        let ghost s12 = rng.drawn();
        let options = copy_options(&self.options);
        let r = Ip {
            version,
            ihl,
            tos,
            len,
            id,
            flags,
            frag,
            ttl,
            proto,
            chksum,
            src,
            dst,
            options,
        };
        proof {
            self@.lemma_drawn(r@, s0, s1, s2, s3, s4, s5, s6, s7, s8, s9, s10, s11, s12);
        }
        r
    }

    /// The bytes of the header, with the given values in the fields that are computed.
    pub fn header_bytes(&self, len: u16, chksum: u16) -> (r: Vec<u8>)
        ensures
            r@ == self@.header(len, chksum),
    {
        let mut out: Vec<u8> = Vec::new();
        assert(
            out@ + (self@.ver_ihl()).encoded(Endian::Big) =~= (self@.ver_ihl()).encoded(Endian::Big)
        );
        put::<u8, BinaryBigEndian>(&mut out, &(self.ver_ihl_byte()));
        put::<u8, BinaryBigEndian>(&mut out, &(self.tos.or(u8::default_value())));
        put::<u16, BinaryBigEndian>(&mut out, &(len));
        put::<u16, BinaryBigEndian>(&mut out, &(self.id.or(u16::default_value())));
        put::<u16, BinaryBigEndian>(&mut out, &(self.frag.or(u16::default_value())));
        put::<u8, BinaryBigEndian>(&mut out, &(self.ttl.or(u8::default_value())));
        put::<u8, BinaryBigEndian>(&mut out, &(self.proto.or(u8::default_value())));
        put::<u16, BinaryBigEndian>(&mut out, &(chksum));
        put::<Ipv4Address, BinaryBigEndian>(&mut out, &(self.src.or(Ipv4Address::default_value())));
        put::<Ipv4Address, BinaryBigEndian>(&mut out, &(self.dst.or(Ipv4Address::default_value())));
        out
    }

    /// Reads the header from the front of `buf`: the layer and the number of
    /// bytes of the header, or `None` where `buf` is too short.
    pub fn decode_header(buf: &[u8]) -> (r: Option<(Ip, usize)>)
        ensures
            match r {
                Some((l, n)) => IpView::parse(buf@) == Some(l@) && n == IpView::header_len(),
                None => IpView::parse(buf@) is None,
            },
    {
        let mut pos: usize = 0;
        let mut l = Ip::new();
        let v0 = take::<u8, BinaryBigEndian>(buf, &mut pos)?;
        l.version = Value::Fixed(v0 / 16);
        l.ihl = Value::Fixed(v0 % 16);
        let v1 = take::<u8, BinaryBigEndian>(buf, &mut pos)?;
        l.tos = Value::Fixed(v1);
        let v2 = take::<u16, BinaryBigEndian>(buf, &mut pos)?;
        l.len = Value::Fixed(v2);
        let v3 = take::<u16, BinaryBigEndian>(buf, &mut pos)?;
        l.id = Value::Fixed(v3);
        let v4 = take::<u16, BinaryBigEndian>(buf, &mut pos)?;
        l.frag = Value::Fixed(v4);
        let v5 = take::<u8, BinaryBigEndian>(buf, &mut pos)?;
        l.ttl = Value::Fixed(v5);
        let v6 = take::<u8, BinaryBigEndian>(buf, &mut pos)?;
        l.proto = Value::Fixed(v6);
        let v7 = take::<u16, BinaryBigEndian>(buf, &mut pos)?;
        l.chksum = Value::Fixed(v7);
        let v8 = take::<Ipv4Address, BinaryBigEndian>(buf, &mut pos)?;
        l.src = Value::Fixed(v8);
        let v9 = take::<Ipv4Address, BinaryBigEndian>(buf, &mut pos)?;
        l.dst = Value::Fixed(v9);
        Some((l, pos))
    }

    /// The numbers by which the header names the protocol that follows, each
    /// with the table it is looked up in.
    pub fn next_keys(&self) -> (r: Vec<(RegistryName, u32)>)
        ensures
            r@ == self@.nexts(),
    {
        let mut r: Vec<(RegistryName, u32)> = Vec::new();
        r.push((RegistryName::IanaProto, key_u8(self.proto.or(0))));
        assert(r@ =~= self@.nexts());
        r
    }

    /// `other` holds in every computed field the function that `self` holds
    /// there.
    pub open spec fn same_funcs(self, other: Ip) -> bool {
        &&& other.version.func() == self.version.func()
        &&& other.ihl.func() == self.ihl.func()
        &&& other.tos.func() == self.tos.func()
        &&& other.len.func() == self.len.func()
        &&& other.id.func() == self.id.func()
        &&& other.flags.func() == self.flags.func()
        &&& other.frag.func() == self.frag.func()
        &&& other.ttl.func() == self.ttl.func()
        &&& other.proto.func() == self.proto.func()
        &&& other.chksum.func() == self.chksum.func()
        &&& other.src.func() == self.src.func()
        &&& other.dst.func() == self.dst.func()
    }

    /// A copy of the layer: the same values, and in the computed fields the
    /// same functions.
    pub fn dup(&self) -> (r: Ip)
        ensures
            r@ == self@,
            self.same_funcs(r),
    {
        let version = self.version.dup();
        let ihl = self.ihl.dup();
        let tos = self.tos.dup();
        let len = self.len.dup();
        let id = self.id.dup();
        let flags = self.flags.dup();
        let frag = self.frag.dup();
        let ttl = self.ttl.dup();
        let proto = self.proto.dup();
        let chksum = self.chksum.dup();
        let src = self.src.dup();
        let dst = self.dst.dup();
        let options = copy_options(&self.options);
        Ip { version, ihl, tos, len, id, flags, frag, ttl, proto, chksum, src, dst, options }
    }

    /// The first byte of the header.
    pub fn ver_ihl_byte(&self) -> (r: u8)
        ensures
            r == self@.ver_ihl(),
    {
        let ihl: u8 = match self.ihl {
            Value::Fixed(x) => x % 16,
            _ => 5,
        };
        (self.version.or(0) % 16) * 16 + ihl
    }

    /// The bytes of the layer on the wire. `outer` tells what stands before the
    /// layer in the stack and `tail` holds the bytes of the layers behind it.
    pub fn wire_bytes(&self, outer: &Outer, tail: &EncodingVecVec) -> (r: Vec<u8>)
        ensures
            r@ == self@.wire(*outer, tail@),
    {
        let len: u16 = match self.len {
            Value::Fixed(x) => x,
            _ => tail.wire_len(20),
        };
        let chksum: u16 = match self.chksum {
            Value::Fixed(x) => x,
            _ => {
                let zero = self.header_bytes(len, 0);
                fold_u32(get_inet_sum(zero.as_slice()))
            },
        };
        self.header_bytes(len, chksum)
    }

    /// What the layer is to the layer behind it.
    pub fn outer(&self) -> (r: Outer)
        ensures
            r == self@.as_outer(),
    {
        Outer::Ip {
            src: self.src.or(Ipv4Address::default_value()),
            dst: self.dst.or(Ipv4Address::default_value()),
        }
    }
}

/// The flags of an IP header. They have no content of their own here: the
/// three bits travel in `frag`.
#[derive(Clone, Copy, Debug, PartialEq, Eq)]
pub struct IpFlags {}

impl View for IpFlags {
    type V = IpFlags;

    open spec fn view(&self) -> IpFlags {
        *self
    }
}

impl Default for IpFlags {
    fn default() -> (r: IpFlags) {
        IpFlags {  }
    }
}

impl IpFlags {
    /// The flags that a byte stands for: there is one value only.
    pub fn from_u8(v: u8) -> (r: IpFlags)
        ensures
            r == (IpFlags {  }),
    {
        IpFlags {  }
    }
}

impl Field for IpFlags {
    open spec fn default_view() -> IpFlags {
        IpFlags {  }
    }

    fn default_value() -> (r: IpFlags) {
        IpFlags {  }
    }

    open spec fn draws() -> nat {
        0
    }

    open spec fn of_draws(d: Seq<u32>) -> IpFlags {
        IpFlags {  }
    }

    fn random<R: RandomSource>(rng: &mut R) -> (r: IpFlags) {
        assert(rng.drawn().subrange(0, rng.drawn().len() as int) =~= rng.drawn());
        IpFlags {  }
    }

    fn dup(&self) -> (r: IpFlags) {
        *self
    }
}

impl Encode for IpFlags {
    open spec fn encoded(&self, o: Endian) -> Seq<u8> {
        Seq::empty()
    }

    fn encode<E: Encoder>(&self) -> (r: Vec<u8>) {
        Vec::new()
    }
}

/// An option of an IP header.
#[derive(Clone, Debug, PartialEq, Eq)]
pub enum IpOption {
    NOP,
    SourceRoute(Vec<Ipv4Address>),
}

/// What an `IpOption` says, with its vector as a sequence.
pub enum IpOptionView {
    NOP,
    SourceRoute(Seq<Ipv4Address>),
}

impl View for IpOption {
    type V = IpOptionView;

    open spec fn view(&self) -> IpOptionView {
        match self {
            IpOption::NOP => IpOptionView::NOP,
            IpOption::SourceRoute(hops) => IpOptionView::SourceRoute(hops@),
        }
    }
}

/// The options of a header, each by its view.
pub open spec fn options_view(options: Seq<IpOption>) -> Seq<IpOptionView> {
    Seq::new(options.len(), |i: int| options[i]@)
}

/// A copy of a list of addresses.
fn copy_addresses(hops: &Vec<Ipv4Address>) -> (r: Vec<Ipv4Address>)
    ensures
        r@ == hops@,
{
    let mut r: Vec<Ipv4Address> = Vec::new();
    let mut i: usize = 0;
    while i < hops.len()
        invariant
            i <= hops@.len(),
            r@ == hops@.subrange(0, i as int),
        decreases hops@.len() - i,
    {
        r.push(hops[i]);
        i += 1;
        assert(r@ =~= hops@.subrange(0, i as int));
    }
    assert(hops@.subrange(0, hops@.len() as int) =~= hops@);
    r
}

/// A copy of a list of options.
pub fn copy_options(options: &Vec<IpOption>) -> (r: Vec<IpOption>)
    ensures
        options_view(r@) == options_view(options@),
{
    let mut r: Vec<IpOption> = Vec::new();
    let mut i: usize = 0;
    while i < options.len()
        invariant
            i <= options@.len(),
            r@.len() == i,
            forall|k: int| 0 <= k < i ==> (#[trigger] r@[k])@ == options@[k]@,
        decreases options@.len() - i,
    {
        let item = match &options[i] {
            IpOption::NOP => IpOption::NOP,
            IpOption::SourceRoute(hops) => IpOption::SourceRoute(copy_addresses(hops)),
        };
        r.push(item);
        i += 1;
    }
    assert(options_view(r@) =~= options_view(options@));
    r
}

} // verus!
