//! The Address Resolution Protocol.

use crate::addr::Ipv4Address;
use crate::addr::MacAddr;
use crate::addr::ipv4_of_text;
use crate::codec::BinaryBigEndian;
use crate::codec::Decode;
use crate::codec::Decoder;
use crate::codec::Encode;
use crate::codec::Encoder;
use crate::codec::Endian;
use crate::codec::copy_bytes;
use crate::codec::lemma_u16_inverse;
use crate::codec::lemma_u32_inverse;
use crate::codec::u16_of;
use crate::codec::u32_bytes;
use crate::codec::u32_of;
use crate::encoding::EncodingVecVec;
use crate::encoding::Outer;
use crate::registry::LayerKind;
use crate::registry::Registry;
use crate::registry::RegistryEntry;
use crate::registry::RegistryName;
use crate::value::Field;
use crate::value::RandomSource;
use crate::value::Value;
use crate::value::ValueParseError;
use crate::value::ValueView;
use crate::value::behind;
use crate::value::drew;
use crate::value::fresh;
use crate::value::lemma_drew_first;
use crate::value::lemma_drew_none;
use crate::value::share;
use crate::wire::put;
use crate::wire::take;
use crate::wire::take_bytes;
use vstd::prelude::*;

verus! {

/// An ARP message. The four addresses have the lengths that `hwlen` and
/// `plen` give on the wire; an address of the usual length is kept as a MAC
/// or IPv4 address, any other as its bytes.
#[derive(Clone, Debug, PartialEq, Eq)]
pub struct Arp {
    /// The hardware type. A layer is made with 1, Ethernet.
    pub hwtype: Value<u16>,
    /// The protocol type. A layer is made with 0x0800, IPv4.
    pub ptype: Value<u16>,
    /// The length of a hardware address in bytes.
    pub hwlen: Value<u8>,
    /// The length of a protocol address in bytes.
    pub plen: Value<u8>,
    /// The operation. A layer is made with 1, a request.
    pub op: Value<u16>,
    /// The hardware address of the sender.
    pub hwsrc: Value<ArpHardwareAddress>,
    /// The protocol address of the sender.
    pub psrc: Value<ArpProtocolAddress>,
    /// The hardware address of the target.
    pub hwdst: Value<ArpHardwareAddress>,
    /// The protocol address of the target.
    pub pdst: Value<ArpProtocolAddress>,
}

/// What a layer of type `Arp` says, with its vectors as sequences.
pub struct ArpView {
    pub hwtype: ValueView<u16>,
    pub ptype: ValueView<u16>,
    pub hwlen: ValueView<u8>,
    pub plen: ValueView<u8>,
    pub op: ValueView<u16>,
    pub hwsrc: ValueView<HwAddrView>,
    pub psrc: ValueView<ProtoAddrView>,
    pub hwdst: ValueView<HwAddrView>,
    pub pdst: ValueView<ProtoAddrView>,
}

impl View for Arp {
    type V = ArpView;

    open spec fn view(&self) -> ArpView {
        ArpView {
            hwtype: self.hwtype@,
            ptype: self.ptype@,
            hwlen: self.hwlen@,
            plen: self.plen@,
            op: self.op@,
            hwsrc: self.hwsrc@,
            psrc: self.psrc@,
            hwdst: self.hwdst@,
            pdst: self.pdst@,
        }
    }
}

impl ArpView {
    /// A layer as it is made: every field at its default.
    pub open spec fn default_spec() -> ArpView {
        ArpView {
            hwtype: ValueView::Fixed(1),
            ptype: ValueView::Fixed(0x0800),
            hwlen: ValueView::Fixed(6),
            plen: ValueView::Fixed(4),
            op: ValueView::Fixed(1),
            hwsrc: ValueView::Auto,
            psrc: ValueView::Auto,
            hwdst: ValueView::Auto,
            pdst: ValueView::Auto,
        }
    }

    /// No field waits for a random number or for a function of the caller.
    pub open spec fn settled(self) -> bool {
        &&& self.hwtype.settled()
        &&& self.ptype.settled()
        &&& self.hwlen.settled()
        &&& self.plen.settled()
        &&& self.op.settled()
        &&& self.hwsrc.settled()
        &&& self.psrc.settled()
        &&& self.hwdst.settled()
        &&& self.pdst.settled()
    }

    /// `r` is the layer with every random or computed field given some value
    /// and every other field as it was. Which value a random field is given
    /// is said by `drawn_from`.
    pub open spec fn resolves_to(self, r: ArpView) -> bool {
        &&& self.hwtype.resolves_to(r.hwtype)
        &&& self.ptype.resolves_to(r.ptype)
        &&& self.hwlen.resolves_to(r.hwlen)
        &&& self.plen.resolves_to(r.plen)
        &&& self.op.resolves_to(r.op)
        &&& self.hwsrc.resolves_to(r.hwsrc)
        &&& self.psrc.resolves_to(r.psrc)
        &&& self.hwdst.resolves_to(r.hwdst)
        &&& self.pdst.resolves_to(r.pdst)
    }

    /// `r` is the layer after a fill in a stack whose next layer is of kind
    /// `next`, with the tables `reg`: fixed fields stay, random and computed
    /// fields get some value, and each open field gets what its rule says.
    /// Which value a random field gets is said by `drawn_from`.
    pub open spec fn fills_to(
        self,
        reg: Seq<RegistryEntry>,
        next: Option<LayerKind>,
        r: ArpView,
    ) -> bool {
        &&& self.hwtype.fills_to(ValueView::Fixed(0), r.hwtype)
        &&& self.ptype.fills_to(ValueView::Fixed(0), r.ptype)
        &&& self.hwlen.fills_to(ValueView::Fixed(0), r.hwlen)
        &&& self.plen.fills_to(ValueView::Fixed(0), r.plen)
        &&& self.op.fills_to(ValueView::Fixed(0), r.op)
        &&& self.hwsrc.fills_to(
            ValueView::Fixed(HwAddrView::Ether(MacAddr::default_view())),
            r.hwsrc,
        )
        &&& self.psrc.fills_to(
            ValueView::Fixed(ProtoAddrView::IP(Ipv4Address::default_view())),
            r.psrc,
        )
        &&& self.hwdst.fills_to(
            ValueView::Fixed(HwAddrView::Ether(MacAddr::default_view())),
            r.hwdst,
        )
        &&& self.pdst.fills_to(
            ValueView::Fixed(ProtoAddrView::IP(Ipv4Address::default_view())),
            r.pdst,
        )
    }

    /// How many numbers the layer takes from a random source when it is
    /// resolved or filled: those of its random fields together.
    pub open spec fn draws(self) -> nat {
        self.hwtype.draws(u16::draws())
            + self.ptype.draws(u16::draws())
            + self.hwlen.draws(u8::draws())
            + self.plen.draws(u8::draws())
            + self.op.draws(u16::draws())
            + self.hwsrc.draws(ArpHardwareAddress::draws())
            + self.psrc.draws(ArpProtocolAddress::draws())
            + self.hwdst.draws(ArpHardwareAddress::draws())
            + self.pdst.draws(ArpProtocolAddress::draws())
    }

    /// `r` holds in every field that is random in `self` the value made of
    /// that field's share of the numbers `d`. The fields take their shares
    /// in the order in which they are declared, each as many numbers as a
    /// random value of its type takes.
    pub open spec fn drawn_from(self, d: Seq<u32>, r: ArpView) -> bool {
        let d0 = d;
        let d1 = behind(d0, self.hwtype.draws(u16::draws()));
        let d2 = behind(d1, self.ptype.draws(u16::draws()));
        let d3 = behind(d2, self.hwlen.draws(u8::draws()));
        let d4 = behind(d3, self.plen.draws(u8::draws()));
        let d5 = behind(d4, self.op.draws(u16::draws()));
        let d6 = behind(d5, self.hwsrc.draws(ArpHardwareAddress::draws()));
        let d7 = behind(d6, self.psrc.draws(ArpProtocolAddress::draws()));
        let d8 = behind(d7, self.hwdst.draws(ArpHardwareAddress::draws()));
        &&& self.hwtype.drawn_as(u16::of_draws(share(d0, u16::draws())), r.hwtype)
        &&& self.ptype.drawn_as(u16::of_draws(share(d1, u16::draws())), r.ptype)
        &&& self.hwlen.drawn_as(u8::of_draws(share(d2, u8::draws())), r.hwlen)
        &&& self.plen.drawn_as(u8::of_draws(share(d3, u8::draws())), r.plen)
        &&& self.op.drawn_as(u16::of_draws(share(d4, u16::draws())), r.op)
        &&& self.hwsrc.drawn_as(
            ArpHardwareAddress::of_draws(share(d5, ArpHardwareAddress::draws())),
            r.hwsrc,
        )
        &&& self.psrc.drawn_as(
            ArpProtocolAddress::of_draws(share(d6, ArpProtocolAddress::draws())),
            r.psrc,
        )
        &&& self.hwdst.drawn_as(
            ArpHardwareAddress::of_draws(share(d7, ArpHardwareAddress::draws())),
            r.hwdst,
        )
        &&& self.pdst.drawn_as(
            ArpProtocolAddress::of_draws(share(d8, ArpProtocolAddress::draws())),
            r.pdst,
        )
    }

    /// No field of the layer is computed by a function of the caller.
    pub open spec fn without_funcs(self) -> bool {
        &&& !(self.hwtype is Func)
        &&& !(self.ptype is Func)
        &&& !(self.hwlen is Func)
        &&& !(self.plen is Func)
        &&& !(self.op is Func)
        &&& !(self.hwsrc is Func)
        &&& !(self.psrc is Func)
        &&& !(self.hwdst is Func)
        &&& !(self.pdst is Func)
    }

    /// Where no field is computed, the numbers drawn decide what the layer
    /// resolves to.
    pub proof fn lemma_resolve_decided(self, d: Seq<u32>, a: ArpView, b: ArpView)
        requires
            self.without_funcs(),
            self.resolves_to(a),
            self.drawn_from(d, a),
            self.resolves_to(b),
            self.drawn_from(d, b),
        ensures
            a == b,
    {
    }

    /// Where no field is computed, the numbers drawn decide what the layer
    /// is filled to.
    pub proof fn lemma_fill_decided(
        self,
        reg: Seq<RegistryEntry>,
        next: Option<LayerKind>,
        d: Seq<u32>,
        a: ArpView,
        b: ArpView,
    )
        requires
            self.without_funcs(),
            self.fills_to(reg, next, a),
            self.drawn_from(d, a),
            self.fills_to(reg, next, b),
            self.drawn_from(d, b),
        ensures
            a == b,
    {
    }

    /// What the fields drew one after the other is what the layer drew:
    /// `s0` is the record of the source before the first field, and each
    /// of the others the record after one more field.
    pub proof fn lemma_drawn(
        self,
        r: ArpView,
        s0: Seq<u32>,
        s1: Seq<u32>,
        s2: Seq<u32>,
        s3: Seq<u32>,
        s4: Seq<u32>,
        s5: Seq<u32>,
        s6: Seq<u32>,
        s7: Seq<u32>,
        s8: Seq<u32>,
        s9: Seq<u32>,
    )
        requires
            drew(s0, s1, self.hwtype.draws(u16::draws())),
            self.hwtype.drawn_as(u16::of_draws(fresh(s0, s1)), r.hwtype),
            drew(s1, s2, self.ptype.draws(u16::draws())),
            self.ptype.drawn_as(u16::of_draws(fresh(s1, s2)), r.ptype),
            drew(s2, s3, self.hwlen.draws(u8::draws())),
            self.hwlen.drawn_as(u8::of_draws(fresh(s2, s3)), r.hwlen),
            drew(s3, s4, self.plen.draws(u8::draws())),
            self.plen.drawn_as(u8::of_draws(fresh(s3, s4)), r.plen),
            drew(s4, s5, self.op.draws(u16::draws())),
            self.op.drawn_as(u16::of_draws(fresh(s4, s5)), r.op),
            drew(s5, s6, self.hwsrc.draws(ArpHardwareAddress::draws())),
            self.hwsrc.drawn_as(ArpHardwareAddress::of_draws(fresh(s5, s6)), r.hwsrc),
            drew(s6, s7, self.psrc.draws(ArpProtocolAddress::draws())),
            self.psrc.drawn_as(ArpProtocolAddress::of_draws(fresh(s6, s7)), r.psrc),
            drew(s7, s8, self.hwdst.draws(ArpHardwareAddress::draws())),
            self.hwdst.drawn_as(ArpHardwareAddress::of_draws(fresh(s7, s8)), r.hwdst),
            drew(s8, s9, self.pdst.draws(ArpProtocolAddress::draws())),
            self.pdst.drawn_as(ArpProtocolAddress::of_draws(fresh(s8, s9)), r.pdst),
        ensures
            drew(s0, s9, self.draws()),
            self.drawn_from(fresh(s0, s9), r),
    {
        lemma_drew_none(s9);
        lemma_drew_first(s8, s9, s9);
        lemma_drew_first(s7, s8, s9);
        lemma_drew_first(s6, s7, s9);
        lemma_drew_first(s5, s6, s9);
        lemma_drew_first(s4, s5, s9);
        lemma_drew_first(s3, s4, s9);
        lemma_drew_first(s2, s3, s9);
        lemma_drew_first(s1, s2, s9);
        lemma_drew_first(s0, s1, s9);
    }

    /// The bytes of the header.
    pub open spec fn header(self) -> Seq<u8> {
        (self.hwtype.or(0)).encoded(Endian::Big)
            + (self.ptype.or(0)).encoded(Endian::Big)
            + (self.hwlen.or(0)).encoded(Endian::Big)
            + (self.plen.or(0)).encoded(Endian::Big)
            + (self.op.or(0)).encoded(Endian::Big)
            + (self.hwsrc.or(HwAddrView::Ether(MacAddr::default_view()))).encoded(Endian::Big)
            + (self.psrc.or(ProtoAddrView::IP(Ipv4Address::default_view()))).encoded(Endian::Big)
            + (self.hwdst.or(HwAddrView::Ether(MacAddr::default_view()))).encoded(Endian::Big)
            + (self.pdst.or(ProtoAddrView::IP(Ipv4Address::default_view()))).encoded(Endian::Big)
    }

    /// The bytes of the layer on the wire.
    pub open spec fn wire(self, outer: Outer, tail: Seq<Seq<u8>>) -> Seq<u8> {
        self.header()
    }

    /// The header names no protocol to follow.
    pub open spec fn nexts(self) -> Seq<(RegistryName, u32)> {
        Seq::empty()
    }

    /// The layer that the first bytes of `buf` stand for and the number of
    /// bytes of the message, or `None` where `buf` is shorter than the message.
    /// The message has eight bytes of fixed fields and then the four
    /// addresses, whose lengths the fixed fields give.
    pub open spec fn parse(buf: Seq<u8>) -> Option<(ArpView, nat)> {
        if buf.len() < 8 {
            None
        } else {
            let hwlen = buf[4] as int;
            let plen = buf[5] as int;
            let total = 8 + 2 * hwlen + 2 * plen;
            if buf.len() < total {
                None
            } else {
                Some(
                    (
                        ArpView {
                            hwtype: ValueView::Fixed(u16_of(Endian::Big, buf.skip(0))),
                            ptype: ValueView::Fixed(u16_of(Endian::Big, buf.skip(2))),
                            hwlen: ValueView::Fixed(buf[4]),
                            plen: ValueView::Fixed(buf[5]),
                            op: ValueView::Fixed(u16_of(Endian::Big, buf.skip(6))),
                            hwsrc: ValueView::Fixed(HwAddrView::of(buf.subrange(8, 8 + hwlen))),
                            psrc: ValueView::Fixed(
                                ProtoAddrView::of(buf.subrange(8 + hwlen, 8 + hwlen + plen)),
                            ),
                            hwdst: ValueView::Fixed(
                                HwAddrView::of(
                                    buf.subrange(8 + hwlen + plen, 8 + 2 * hwlen + plen)
                                ),
                            ),
                            pdst: ValueView::Fixed(
                                ProtoAddrView::of(buf.subrange(8 + 2 * hwlen + plen, total)),
                            ),
                        },
                        total as nat,
                    ),
                )
            }
        }
    }

    /// After a fill no field waits for a random number or a function, and
    /// every field is fixed but those that are left to the encoder.
    pub proof fn lemma_filled(self, reg: Seq<RegistryEntry>, next: Option<LayerKind>, r: ArpView)
        requires
            self.fills_to(reg, next, r),
        ensures
            r.settled(),
            r.hwtype is Fixed,
            r.ptype is Fixed,
            r.hwlen is Fixed,
            r.plen is Fixed,
            r.op is Fixed,
            r.hwsrc is Fixed,
            r.psrc is Fixed,
            r.hwdst is Fixed,
            r.pdst is Fixed,
    {
    }

    /// Resolving a layer in which nothing is random or computed changes
    /// nothing.
    pub proof fn lemma_settled(self, r: ArpView)
        requires
            self.settled(),
            self.resolves_to(r),
        ensures
            r == self,
    {
    }

    /// A header that can be read lies within the buffer.
    pub proof fn lemma_parse_fits(buf: Seq<u8>)
        requires
            ArpView::parse(buf) is Some,
        ensures
            ArpView::parse(buf) matches Some((l, n)) && n <= buf.len(),
    {
    }

    /// A message that was read and then filled is written as the bytes it was
    /// read from, whatever the lengths of its addresses.
    pub proof fn lemma_echo(
        buf: Seq<u8>,
        reg: Seq<RegistryEntry>,
        next: Option<LayerKind>,
        r: ArpView,
        outer: Outer,
        tail: Seq<Seq<u8>>,
    )
        requires
            ArpView::parse(buf) matches Some((l, n)) && l.fills_to(reg, next, r),
        ensures
            ArpView::parse(buf) matches Some((
                l,
                n,
            )) && n <= buf.len() && r.wire(outer, tail) == buf.subrange(
                0,
                n as int,
            ),
    {
        let hwlen = buf[4] as int;
        let plen = buf[5] as int;
        let total = 8 + 2 * hwlen + 2 * plen;
        lemma_u16_inverse(Endian::Big, 0, buf.skip(0));
        lemma_u16_inverse(Endian::Big, 0, buf.skip(2));
        lemma_u16_inverse(Endian::Big, 0, buf.skip(6));
        assert(buf.skip(0).subrange(0, 2) =~= buf.subrange(0, 2));
        assert(buf.skip(2).subrange(0, 2) =~= buf.subrange(2, 4));
        assert(buf.skip(6).subrange(0, 2) =~= buf.subrange(6, 8));
        lemma_hw_echo(buf.subrange(8, 8 + hwlen));
        lemma_proto_echo(buf.subrange(8 + hwlen, 8 + hwlen + plen));
        lemma_hw_echo(buf.subrange(8 + hwlen + plen, 8 + 2 * hwlen + plen));
        lemma_proto_echo(buf.subrange(8 + 2 * hwlen + plen, total));
        assert(r.wire(outer, tail) =~= buf.subrange(0, total));
    }

    /// Addresses whose lengths are not the usual six and four bytes are read as
    /// their bytes.
    pub proof fn lemma_unusual_lengths(buf: Seq<u8>)
        requires
            ArpView::parse(buf) is Some,
        ensures
            ArpView::parse(buf) matches Some((l, n)) && ({
                let hwlen = buf[4] as int;
                let plen = buf[5] as int;
                &&& hwlen != 6 ==> l.hwsrc == ValueView::Fixed(
                    HwAddrView::Bytes(buf.subrange(8, 8 + hwlen)),
                ) && l.hwdst == ValueView::Fixed(
                    HwAddrView::Bytes(buf.subrange(8 + hwlen + plen, 8 + 2 * hwlen + plen)),
                )
                &&& plen != 4 ==> l.psrc == ValueView::Fixed(
                    ProtoAddrView::Bytes(buf.subrange(8 + hwlen, 8 + hwlen + plen)),
                ) && l.pdst == ValueView::Fixed(
                    ProtoAddrView::Bytes(
                        buf.subrange(8 + 2 * hwlen + plen, 8 + 2 * hwlen + 2 * plen),
                    ),
                )
            }),
    {
    }
}

impl Default for Arp {
    fn default() -> (r: Arp)
        ensures
            r@ == ArpView::default_spec(),
    {
        Arp::new()
    }
}

impl Arp {
    /// A layer with every field at its default.
    pub fn new() -> (r: Arp)
        ensures
            r@ == ArpView::default_spec(),
    {
        Arp {
            hwtype: Value::Fixed(1),
            ptype: Value::Fixed(0x0800),
            hwlen: Value::Fixed(6),
            plen: Value::Fixed(4),
            op: Value::Fixed(1),
            hwsrc: Value::Auto,
            psrc: Value::Auto,
            hwdst: Value::Auto,
            pdst: Value::Auto,
        }
    }

    /// The layer with `hwtype` fixed to the given value.
    pub fn hwtype(self, hwtype: u16) -> (r: Arp)
        ensures
            r@ == (ArpView { hwtype: ValueView::Fixed(hwtype@), ..self@ }),
    {
        let mut r = self;
        r.hwtype = Value::Fixed(hwtype);
        r
    }

    /// The layer with `hwtype` set to the given deferred value.
    pub fn set_hwtype(self, hwtype: Value<u16>) -> (r: Arp)
        ensures
            r@ == (ArpView { hwtype: hwtype@, ..self@ }),
    {
        let mut r = self;
        r.hwtype = hwtype;
        r
    }

    /// The layer with `ptype` fixed to the given value.
    pub fn ptype(self, ptype: u16) -> (r: Arp)
        ensures
            r@ == (ArpView { ptype: ValueView::Fixed(ptype@), ..self@ }),
    {
        let mut r = self;
        r.ptype = Value::Fixed(ptype);
        r
    }

    /// The layer with `ptype` set to the given deferred value.
    pub fn set_ptype(self, ptype: Value<u16>) -> (r: Arp)
        ensures
            r@ == (ArpView { ptype: ptype@, ..self@ }),
    {
        let mut r = self;
        r.ptype = ptype;
        r
    }

    /// The layer with `hwlen` fixed to the given value.
    pub fn hwlen(self, hwlen: u8) -> (r: Arp)
        ensures
            r@ == (ArpView { hwlen: ValueView::Fixed(hwlen@), ..self@ }),
    {
        let mut r = self;
        r.hwlen = Value::Fixed(hwlen);
        r
    }

    /// The layer with `hwlen` set to the given deferred value.
    pub fn set_hwlen(self, hwlen: Value<u8>) -> (r: Arp)
        ensures
            r@ == (ArpView { hwlen: hwlen@, ..self@ }),
    {
        let mut r = self;
        r.hwlen = hwlen;
        r
    }

    /// The layer with `plen` fixed to the given value.
    pub fn plen(self, plen: u8) -> (r: Arp)
        ensures
            r@ == (ArpView { plen: ValueView::Fixed(plen@), ..self@ }),
    {
        let mut r = self;
        r.plen = Value::Fixed(plen);
        r
    }

    /// The layer with `plen` set to the given deferred value.
    pub fn set_plen(self, plen: Value<u8>) -> (r: Arp)
        ensures
            r@ == (ArpView { plen: plen@, ..self@ }),
    {
        let mut r = self;
        r.plen = plen;
        r
    }

    /// The layer with `op` fixed to the given value.
    pub fn op(self, op: u16) -> (r: Arp)
        ensures
            r@ == (ArpView { op: ValueView::Fixed(op@), ..self@ }),
    {
        let mut r = self;
        r.op = Value::Fixed(op);
        r
    }

    /// The layer with `op` set to the given deferred value.
    pub fn set_op(self, op: Value<u16>) -> (r: Arp)
        ensures
            r@ == (ArpView { op: op@, ..self@ }),
    {
        let mut r = self;
        r.op = op;
        r
    }

    /// The layer with `hwsrc` fixed to the given value.
    pub fn hwsrc(self, hwsrc: ArpHardwareAddress) -> (r: Arp)
        ensures
            r@ == (ArpView { hwsrc: ValueView::Fixed(hwsrc@), ..self@ }),
    {
        let mut r = self;
        r.hwsrc = Value::Fixed(hwsrc);
        r
    }

    /// The layer with `hwsrc` set to the given deferred value.
    pub fn set_hwsrc(self, hwsrc: Value<ArpHardwareAddress>) -> (r: Arp)
        ensures
            r@ == (ArpView { hwsrc: hwsrc@, ..self@ }),
    {
        let mut r = self;
        r.hwsrc = hwsrc;
        r
    }

    /// The layer with `psrc` fixed to the given value.
    pub fn psrc(self, psrc: ArpProtocolAddress) -> (r: Arp)
        ensures
            r@ == (ArpView { psrc: ValueView::Fixed(psrc@), ..self@ }),
    {
        let mut r = self;
        r.psrc = Value::Fixed(psrc);
        r
    }

    /// The layer with `psrc` set to the given deferred value.
    pub fn set_psrc(self, psrc: Value<ArpProtocolAddress>) -> (r: Arp)
        ensures
            r@ == (ArpView { psrc: psrc@, ..self@ }),
    {
        let mut r = self;
        r.psrc = psrc;
        r
    }

    /// The layer with `hwdst` fixed to the given value.
    pub fn hwdst(self, hwdst: ArpHardwareAddress) -> (r: Arp)
        ensures
            r@ == (ArpView { hwdst: ValueView::Fixed(hwdst@), ..self@ }),
    {
        let mut r = self;
        r.hwdst = Value::Fixed(hwdst);
        r
    }

    /// The layer with `hwdst` set to the given deferred value.
    pub fn set_hwdst(self, hwdst: Value<ArpHardwareAddress>) -> (r: Arp)
        ensures
            r@ == (ArpView { hwdst: hwdst@, ..self@ }),
    {
        let mut r = self;
        r.hwdst = hwdst;
        r
    }

    /// The layer with `pdst` fixed to the given value.
    pub fn pdst(self, pdst: ArpProtocolAddress) -> (r: Arp)
        ensures
            r@ == (ArpView { pdst: ValueView::Fixed(pdst@), ..self@ }),
    {
        let mut r = self;
        r.pdst = Value::Fixed(pdst);
        r
    }

    /// The layer with `pdst` set to the given deferred value.
    pub fn set_pdst(self, pdst: Value<ArpProtocolAddress>) -> (r: Arp)
        ensures
            r@ == (ArpView { pdst: pdst@, ..self@ }),
    {
        let mut r = self;
        r.pdst = pdst;
        r
    }

    /// A copy of the layer in which every random field is drawn from `rng` and
    /// every computed field is computed. The random fields draw in the order
    /// in which they are declared.
    pub fn resolve<R: RandomSource>(&self, rng: &mut R) -> (r: Arp)
        ensures
            self@.resolves_to(r@),
            r@.settled(),
            drew(old(rng).drawn(), final(rng).drawn(), self@.draws()),
            self@.drawn_from(fresh(old(rng).drawn(), final(rng).drawn()), r@),
    {
        let ghost s0 = rng.drawn();
        let hwtype = self.hwtype.resolved(rng);
        let ghost s1 = rng.drawn();
        let ptype = self.ptype.resolved(rng);
        let ghost s2 = rng.drawn();
        let hwlen = self.hwlen.resolved(rng);
        let ghost s3 = rng.drawn();
        let plen = self.plen.resolved(rng);
        let ghost s4 = rng.drawn();
        let op = self.op.resolved(rng);
        let ghost s5 = rng.drawn();
        let hwsrc = self.hwsrc.resolved(rng);
        let ghost s6 = rng.drawn();
        let psrc = self.psrc.resolved(rng);
        let ghost s7 = rng.drawn();
        let hwdst = self.hwdst.resolved(rng);
        let ghost s8 = rng.drawn();
        let pdst = self.pdst.resolved(rng);
        let ghost s9 = rng.drawn();
        let r = Arp { hwtype, ptype, hwlen, plen, op, hwsrc, psrc, hwdst, pdst };
        proof {
            self@.lemma_drawn(r@, s0, s1, s2, s3, s4, s5, s6, s7, s8, s9);
        }
        r
    }

    /// The layer filled: resolved as by `resolve`, and with every open field
    /// given what its rule says. `next` is the kind of the layer that follows
    /// in the stack.
    pub fn filled<R: RandomSource>(
        &self,
        reg: &Registry,
        next: Option<LayerKind>,
        rng: &mut R,
    ) -> (r: Arp)
        ensures
            self@.fills_to(reg@, next, r@),
            drew(old(rng).drawn(), final(rng).drawn(), self@.draws()),
            self@.drawn_from(fresh(old(rng).drawn(), final(rng).drawn()), r@),
    {
        let ghost s0 = rng.drawn();
        let hwtype = self.hwtype.filled(rng, u16::default_value());
        let ghost s1 = rng.drawn();
        let ptype = self.ptype.filled(rng, u16::default_value());
        let ghost s2 = rng.drawn();
        let hwlen = self.hwlen.filled(rng, u8::default_value());
        let ghost s3 = rng.drawn();
        let plen = self.plen.filled(rng, u8::default_value());
        let ghost s4 = rng.drawn();
        let op = self.op.filled(rng, u16::default_value());
        let ghost s5 = rng.drawn();
        let hwsrc = self.hwsrc.filled(rng, ArpHardwareAddress::default_value());
        let ghost s6 = rng.drawn();
        let psrc = self.psrc.filled(rng, ArpProtocolAddress::default_value());
        let ghost s7 = rng.drawn();
        let hwdst = self.hwdst.filled(rng, ArpHardwareAddress::default_value());
        let ghost s8 = rng.drawn();
        let pdst = self.pdst.filled(rng, ArpProtocolAddress::default_value());
        let ghost s9 = rng.drawn();
        let r = Arp { hwtype, ptype, hwlen, plen, op, hwsrc, psrc, hwdst, pdst };
        proof {
            self@.lemma_drawn(r@, s0, s1, s2, s3, s4, s5, s6, s7, s8, s9);
        }
        r
    }

    /// The bytes of the header.
    pub fn header_bytes(&self) -> (r: Vec<u8>)
        ensures
            r@ == self@.header(),
    {
        let mut out: Vec<u8> = Vec::new();
        assert(
            out@ + (self@.hwtype.or(0)).encoded(Endian::Big)
                =~= (self@.hwtype.or(0)).encoded(Endian::Big)
        );
        put::<u16, BinaryBigEndian>(&mut out, &(self.hwtype.or(u16::default_value())));
        put::<u16, BinaryBigEndian>(&mut out, &(self.ptype.or(u16::default_value())));
        put::<u8, BinaryBigEndian>(&mut out, &(self.hwlen.or(u8::default_value())));
        put::<u8, BinaryBigEndian>(&mut out, &(self.plen.or(u8::default_value())));
        put::<u16, BinaryBigEndian>(&mut out, &(self.op.or(u16::default_value())));
        put::<ArpHardwareAddress, BinaryBigEndian>(
            &mut out,
            &(self.hwsrc.or(ArpHardwareAddress::default_value())),
        );
        put::<ArpProtocolAddress, BinaryBigEndian>(
            &mut out,
            &(self.psrc.or(ArpProtocolAddress::default_value())),
        );
        put::<ArpHardwareAddress, BinaryBigEndian>(
            &mut out,
            &(self.hwdst.or(ArpHardwareAddress::default_value())),
        );
        put::<ArpProtocolAddress, BinaryBigEndian>(
            &mut out,
            &(self.pdst.or(ArpProtocolAddress::default_value())),
        );
        out
    }

    /// The bytes of the layer on the wire. `outer` tells what stands before
    /// the layer in the stack and `tail` holds the bytes of the layers behind
    /// it; this protocol needs neither.
    pub fn wire_bytes(&self, outer: &Outer, tail: &EncodingVecVec) -> (r: Vec<u8>)
        ensures
            r@ == self@.wire(*outer, tail@),
    {
        self.header_bytes()
    }

    /// The numbers by which the header names the protocol that follows:
    /// none, for this header names no protocol to follow.
    pub fn next_keys(&self) -> (r: Vec<(RegistryName, u32)>)
        ensures
            r@ == self@.nexts(),
    {
        let mut r: Vec<(RegistryName, u32)> = Vec::new();
        assert(r@ =~= self@.nexts());
        r
    }

    /// `other` holds in every computed field the function that `self` holds
    /// there.
    pub open spec fn same_funcs(self, other: Arp) -> bool {
        &&& other.hwtype.func() == self.hwtype.func()
        &&& other.ptype.func() == self.ptype.func()
        &&& other.hwlen.func() == self.hwlen.func()
        &&& other.plen.func() == self.plen.func()
        &&& other.op.func() == self.op.func()
        &&& other.hwsrc.func() == self.hwsrc.func()
        &&& other.psrc.func() == self.psrc.func()
        &&& other.hwdst.func() == self.hwdst.func()
        &&& other.pdst.func() == self.pdst.func()
    }

    /// A copy of the layer: the same values, and in the computed fields the
    /// same functions.
    pub fn dup(&self) -> (r: Arp)
        ensures
            r@ == self@,
            self.same_funcs(r),
    {
        let hwtype = self.hwtype.dup();
        let ptype = self.ptype.dup();
        let hwlen = self.hwlen.dup();
        let plen = self.plen.dup();
        let op = self.op.dup();
        let hwsrc = self.hwsrc.dup();
        let psrc = self.psrc.dup();
        let hwdst = self.hwdst.dup();
        let pdst = self.pdst.dup();
        Arp { hwtype, ptype, hwlen, plen, op, hwsrc, psrc, hwdst, pdst }
    }

    /// Reads the message from the front of `buf`: the layer and the number of
    /// bytes of the message, or `None` where `buf` is too short.
    pub fn decode_header(buf: &[u8]) -> (r: Option<(Arp, usize)>)
        ensures
            match r {
                Some((l, n)) => ArpView::parse(buf@) == Some((l@, n as nat)),
                None => ArpView::parse(buf@) is None,
            },
    {
        let mut pos: usize = 0;
        let hwtype = take::<u16, BinaryBigEndian>(buf, &mut pos)?;
        let ptype = take::<u16, BinaryBigEndian>(buf, &mut pos)?;
        let hwlen = take::<u8, BinaryBigEndian>(buf, &mut pos)?;
        let plen = take::<u8, BinaryBigEndian>(buf, &mut pos)?;
        let op = take::<u16, BinaryBigEndian>(buf, &mut pos)?;
        assert(buf@.skip(4)[0] == buf@[4] && buf@.skip(5)[0] == buf@[5]);
        let hwsrc = ArpHardwareAddress::from_bytes(take_bytes(buf, &mut pos, hwlen as usize)?);
        let psrc = ArpProtocolAddress::from_bytes(take_bytes(buf, &mut pos, plen as usize)?);
        let hwdst = ArpHardwareAddress::from_bytes(take_bytes(buf, &mut pos, hwlen as usize)?);
        let pdst = ArpProtocolAddress::from_bytes(take_bytes(buf, &mut pos, plen as usize)?);
        Some(
            (
                Arp {
                    hwtype: Value::Fixed(hwtype),
                    ptype: Value::Fixed(ptype),
                    hwlen: Value::Fixed(hwlen),
                    plen: Value::Fixed(plen),
                    op: Value::Fixed(op),
                    hwsrc: Value::Fixed(hwsrc),
                    psrc: Value::Fixed(psrc),
                    hwdst: Value::Fixed(hwdst),
                    pdst: Value::Fixed(pdst),
                },
                pos,
            ),
        )
    }
}

/// A hardware address in an ARP message.
#[derive(Clone, Debug, PartialEq, Eq)]
pub enum ArpHardwareAddress {
    /// An address of six bytes.
    Ether(MacAddr),
    /// An address of any other length, as its bytes.
    Bytes(Vec<u8>),
}

/// What an `ArpHardwareAddress` says, with its vector as a sequence.
pub enum HwAddrView {
    Ether(MacAddr),
    Bytes(Seq<u8>),
}

impl View for ArpHardwareAddress {
    type V = HwAddrView;

    open spec fn view(&self) -> HwAddrView {
        match self {
            ArpHardwareAddress::Ether(m) => HwAddrView::Ether(*m),
            ArpHardwareAddress::Bytes(b) => HwAddrView::Bytes(b@),
        }
    }
}

impl HwAddrView {
    /// The address that the bytes `b` stand for: a MAC address where there
    /// are six of them, the bytes themselves otherwise.
    pub open spec fn of(b: Seq<u8>) -> HwAddrView {
        if b.len() == 6 {
            HwAddrView::Ether(MacAddr::of(b))
        } else {
            HwAddrView::Bytes(b)
        }
    }

    /// The bytes of the address on the wire.
    pub open spec fn encoded(self, o: Endian) -> Seq<u8> {
        match self {
            HwAddrView::Ether(m) => m.octets(),
            HwAddrView::Bytes(b) => b,
        }
    }
}

impl ArpHardwareAddress {
    /// The address that the bytes `b` stand for.
    pub fn from_bytes(b: Vec<u8>) -> (r: ArpHardwareAddress)
        ensures
            r@ == HwAddrView::of(b@),
    {
        if b.len() == 6 {
            ArpHardwareAddress::Ether(MacAddr::new(b[0], b[1], b[2], b[3], b[4], b[5]))
        } else {
            ArpHardwareAddress::Bytes(b)
        }
    }

    /// Reads a MAC address from text.
    pub fn from_str(s: &str) -> (r: Result<ArpHardwareAddress, ValueParseError>)
        ensures
            r matches Ok(a) ==> (a matches ArpHardwareAddress::Ether(m) && MacAddr::from_text(s@)
                == Some(m)),
            r is Err ==> MacAddr::from_text(s@) is None,
    {
        match MacAddr::from_str(s) {
            Ok(m) => Ok(ArpHardwareAddress::Ether(m)),
            Err(_) => Err(ValueParseError::Error),
        }
    }
}

impl Default for ArpHardwareAddress {
    fn default() -> (r: ArpHardwareAddress)
        ensures
            r@ == HwAddrView::Ether(MacAddr::default_view()),
    {
        ArpHardwareAddress::Ether(MacAddr::default_value())
    }
}

impl Field for ArpHardwareAddress {
    open spec fn default_view() -> HwAddrView {
        HwAddrView::Ether(MacAddr::default_view())
    }

    fn default_value() -> (r: ArpHardwareAddress) {
        ArpHardwareAddress::Ether(MacAddr::default_value())
    }

    open spec fn draws() -> nat {
        6
    }

    open spec fn of_draws(d: Seq<u32>) -> HwAddrView {
        HwAddrView::Ether(MacAddr::of_draws(d))
    }

    fn random<R: RandomSource>(rng: &mut R) -> (r: ArpHardwareAddress) {
        ArpHardwareAddress::Ether(MacAddr::random(rng))
    }

    fn dup(&self) -> (r: ArpHardwareAddress) {
        match self {
            ArpHardwareAddress::Ether(m) => ArpHardwareAddress::Ether(*m),
            ArpHardwareAddress::Bytes(b) => ArpHardwareAddress::Bytes(copy_bytes(b)),
        }
    }
}

impl Encode for ArpHardwareAddress {
    open spec fn encoded(&self, o: Endian) -> Seq<u8> {
        self@.encoded(o)
    }

    fn encode<E: Encoder>(&self) -> (r: Vec<u8>) {
        match self {
            ArpHardwareAddress::Ether(m) => m.bytes(),
            ArpHardwareAddress::Bytes(b) => copy_bytes(b),
        }
    }
}

impl Decode for ArpHardwareAddress {
    open spec fn decoded(o: Endian, buf: Seq<u8>) -> Option<(ArpHardwareAddress, usize)> {
        if buf.len() >= 6 {
            Some((ArpHardwareAddress::Ether(MacAddr::of(buf)), 6usize))
        } else {
            None
        }
    }

    proof fn lemma_decoded_fits(o: Endian, buf: Seq<u8>) {
    }

    fn decode<D: Decoder>(buf: &[u8]) -> (r: Option<(ArpHardwareAddress, usize)>) {
        match MacAddr::decode::<D>(buf) {
            Some((m, n)) => Some((ArpHardwareAddress::Ether(m), n)),
            None => None,
        }
    }
}

/// A hardware address read from bytes is written as those bytes.
pub proof fn lemma_hw_echo(b: Seq<u8>)
    ensures
        HwAddrView::of(b).encoded(Endian::Big) == b,
{
    if b.len() == 6 {
        assert(MacAddr::of(b).octets() =~= b);
    }
}

/// A protocol address read from bytes is written as those bytes.
pub proof fn lemma_proto_echo(b: Seq<u8>)
    ensures
        ProtoAddrView::of(b).encoded(Endian::Big) == b,
{
    if b.len() == 4 {
        lemma_u32_inverse(Endian::Big, 0, b);
        assert(b.subrange(0, 4) =~= b);
    }
}

/// A protocol address in an ARP message.
#[derive(Clone, Debug, PartialEq, Eq)]
pub enum ArpProtocolAddress {
    /// An address of four bytes.
    IP(Ipv4Address),
    /// An address of any other length, as its bytes.
    Bytes(Vec<u8>),
}

/// What an `ArpProtocolAddress` says, with its vector as a sequence.
pub enum ProtoAddrView {
    IP(Ipv4Address),
    Bytes(Seq<u8>),
}

impl View for ArpProtocolAddress {
    type V = ProtoAddrView;

    open spec fn view(&self) -> ProtoAddrView {
        match self {
            ArpProtocolAddress::IP(a) => ProtoAddrView::IP(*a),
            ArpProtocolAddress::Bytes(b) => ProtoAddrView::Bytes(b@),
        }
    }
}

impl ProtoAddrView {
    /// The address that the bytes `b` stand for: an IPv4 address where there
    /// are four of them, the bytes themselves otherwise.
    pub open spec fn of(b: Seq<u8>) -> ProtoAddrView {
        if b.len() == 4 {
            ProtoAddrView::IP(Ipv4Address { bits: u32_of(Endian::Big, b) })
        } else {
            ProtoAddrView::Bytes(b)
        }
    }

    /// The bytes of the address on the wire.
    pub open spec fn encoded(self, o: Endian) -> Seq<u8> {
        match self {
            ProtoAddrView::IP(a) => u32_bytes(o, a.bits),
            ProtoAddrView::Bytes(b) => b,
        }
    }
}

impl ArpProtocolAddress {
    /// The address that the bytes `b` stand for.
    pub fn from_bytes(b: Vec<u8>) -> (r: ArpProtocolAddress)
        ensures
            r@ == ProtoAddrView::of(b@),
    {
        if b.len() == 4 {
            match Ipv4Address::decode::<BinaryBigEndian>(b.as_slice()) {
                Some((a, _)) => ArpProtocolAddress::IP(a),
                None => ArpProtocolAddress::Bytes(b),
            }
        } else {
            ArpProtocolAddress::Bytes(b)
        }
    }

    /// Reads an IPv4 address from text.
    pub fn from_str(s: &str) -> (r: Result<ArpProtocolAddress, ValueParseError>)
        ensures
            r matches Ok(a) ==> (a matches ArpProtocolAddress::IP(x) && ipv4_of_text(s@) == Some(
                x,
            )),
            r is Err ==> ipv4_of_text(s@) is None,
    {
        match Ipv4Address::from_str(s) {
            Ok(a) => Ok(ArpProtocolAddress::IP(a)),
            Err(_) => Err(ValueParseError::Error),
        }
    }
}

impl Default for ArpProtocolAddress {
    fn default() -> (r: ArpProtocolAddress)
        ensures
            r@ == ProtoAddrView::IP(Ipv4Address::default_view()),
    {
        ArpProtocolAddress::IP(Ipv4Address::default_value())
    }
}

impl Field for ArpProtocolAddress {
    open spec fn default_view() -> ProtoAddrView {
        ProtoAddrView::IP(Ipv4Address::default_view())
    }

    fn default_value() -> (r: ArpProtocolAddress) {
        ArpProtocolAddress::IP(Ipv4Address::default_value())
    }

    open spec fn draws() -> nat {
        1
    }

    open spec fn of_draws(d: Seq<u32>) -> ProtoAddrView {
        ProtoAddrView::IP(Ipv4Address::of_draws(d))
    }

    fn random<R: RandomSource>(rng: &mut R) -> (r: ArpProtocolAddress) {
        ArpProtocolAddress::IP(Ipv4Address::random(rng))
    }

    fn dup(&self) -> (r: ArpProtocolAddress) {
        match self {
            ArpProtocolAddress::IP(a) => ArpProtocolAddress::IP(*a),
            ArpProtocolAddress::Bytes(b) => ArpProtocolAddress::Bytes(copy_bytes(b)),
        }
    }
}

impl Encode for ArpProtocolAddress {
    open spec fn encoded(&self, o: Endian) -> Seq<u8> {
        self@.encoded(o)
    }

    fn encode<E: Encoder>(&self) -> (r: Vec<u8>) {
        match self {
            ArpProtocolAddress::IP(a) => a.encode::<E>(),
            ArpProtocolAddress::Bytes(b) => copy_bytes(b),
        }
    }
}

impl Decode for ArpProtocolAddress {
    open spec fn decoded(o: Endian, buf: Seq<u8>) -> Option<(ArpProtocolAddress, usize)> {
        if buf.len() >= 4 {
            Some((ArpProtocolAddress::IP(Ipv4Address { bits: u32_of(o, buf) }), 4usize))
        } else {
            None
        }
    }

    proof fn lemma_decoded_fits(o: Endian, buf: Seq<u8>) {
    }

    fn decode<D: Decoder>(buf: &[u8]) -> (r: Option<(ArpProtocolAddress, usize)>) {
        match Ipv4Address::decode::<D>(buf) {
            Some((a, n)) => Some((ArpProtocolAddress::IP(a), n)),
            None => None,
        }
    }
}

} // verus!
