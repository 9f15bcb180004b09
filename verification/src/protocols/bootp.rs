//! The Bootstrap Protocol and the options of DHCP that ride on it.

use crate::addr::Ipv4Address;
use crate::codec::BinaryBigEndian;
use crate::codec::Encode;
use crate::codec::Endian;
use crate::codec::copy_bytes;
use crate::codec::lemma_u16_inverse;
use crate::codec::lemma_u32_inverse;
use crate::codec::slice_bytes;
use crate::codec::u16_of;
use crate::codec::u32_of;
use crate::encoding::EncodingVecVec;
use crate::encoding::Outer;
use crate::layer::text_bytes;
use crate::registry::LayerKind;
use crate::registry::Registry;
use crate::registry::RegistryEntry;
use crate::registry::RegistryName;
use crate::registry::field_u32;
use crate::registry::key_of_u32;
use crate::registry::key_u32;
use crate::registry::next_key;
use crate::registry::to_field_u32;
use crate::value::Field;
use crate::value::RandomSource;
use crate::value::Value;
use crate::value::ValueView;
use crate::value::behind;
use crate::value::drew;
use crate::value::fresh;
use crate::value::lemma_drew_first;
use crate::value::lemma_drew_more;
use crate::value::lemma_drew_none;
use crate::value::low8;
use crate::value::share;
use crate::wire::put;
use crate::wire::put_bytes;
use crate::wire::take;
use crate::wire::take_bytes;
use vstd::prelude::*;

verus! {

/// A BOOTP message up to and including the vendor cookie.
#[derive(Clone, Debug, PartialEq, Eq)]
pub struct Bootp {
    /// The operation. A layer is made with 1, a request.
    pub op: Value<u8>,
    /// The hardware address type.
    pub htype: Value<u8>,
    /// The hardware address length.
    pub hlen: Value<u8>,
    /// The number of relays passed.
    pub hops: Value<u8>,
    /// The transaction identifier.
    pub xid: Value<u32>,
    /// The seconds since the client began.
    pub secs: Value<u16>,
    /// The flags; 0x8000 asks for a broadcast reply.
    pub flags: Value<u16>,
    /// The client address.
    pub ciaddr: Value<Ipv4Address>,
    /// The address given to the client.
    pub yiaddr: Value<Ipv4Address>,
    /// The address of the next server.
    pub siaddr: Value<Ipv4Address>,
    /// The address of the relay.
    pub giaddr: Value<Ipv4Address>,
    /// The hardware address of the client, sixteen bytes.
    pub chaddr: Value<FixedSizeString<16>>,
    /// The name of the server, sixty-four bytes.
    pub sname: Value<FixedSizeString<64>>,
    /// The name of the boot file, 128 bytes.
    pub file: Value<FixedSizeString<128>>,
    /// The vendor cookie. An open one is filled with the cookie registered
    /// for the layer that follows.
    pub cookie: Value<u32>,
    /// The vendor area. It takes no bytes on the wire: where the cookie is
    /// not that of DHCP, the sixty bytes behind the cookie are left to the
    /// layers that follow.
    pub vend: Value<BootpVendorData>,
}

/// What a layer of type `Bootp` says, with its vectors as sequences.
pub struct BootpView {
    pub op: ValueView<u8>,
    pub htype: ValueView<u8>,
    pub hlen: ValueView<u8>,
    pub hops: ValueView<u8>,
    pub xid: ValueView<u32>,
    pub secs: ValueView<u16>,
    pub flags: ValueView<u16>,
    pub ciaddr: ValueView<Ipv4Address>,
    pub yiaddr: ValueView<Ipv4Address>,
    pub siaddr: ValueView<Ipv4Address>,
    pub giaddr: ValueView<Ipv4Address>,
    pub chaddr: ValueView<Seq<u8>>,
    pub sname: ValueView<Seq<u8>>,
    pub file: ValueView<Seq<u8>>,
    pub cookie: ValueView<u32>,
    pub vend: ValueView<VendorDataView>,
}

impl View for Bootp {
    type V = BootpView;

    open spec fn view(&self) -> BootpView {
        BootpView {
            op: self.op@,
            htype: self.htype@,
            hlen: self.hlen@,
            hops: self.hops@,
            xid: self.xid@,
            secs: self.secs@,
            flags: self.flags@,
            ciaddr: self.ciaddr@,
            yiaddr: self.yiaddr@,
            siaddr: self.siaddr@,
            giaddr: self.giaddr@,
            chaddr: self.chaddr@,
            sname: self.sname@,
            file: self.file@,
            cookie: self.cookie@,
            vend: self.vend@,
        }
    }
}

impl BootpView {
    /// A layer as it is made: every field at its default.
    pub open spec fn default_spec() -> BootpView {
        BootpView {
            op: ValueView::Fixed(1),
            htype: ValueView::Auto,
            hlen: ValueView::Auto,
            hops: ValueView::Auto,
            xid: ValueView::Auto,
            secs: ValueView::Auto,
            flags: ValueView::Auto,
            ciaddr: ValueView::Fixed(Ipv4Address::default_view()),
            yiaddr: ValueView::Fixed(Ipv4Address::default_view()),
            siaddr: ValueView::Fixed(Ipv4Address::default_view()),
            giaddr: ValueView::Fixed(Ipv4Address::default_view()),
            chaddr: ValueView::Auto,
            sname: ValueView::Auto,
            file: ValueView::Auto,
            cookie: ValueView::Fixed(0x123456),
            vend: ValueView::Auto,
        }
    }

    /// No field waits for a random number or for a function of the caller.
    pub open spec fn settled(self) -> bool {
        &&& self.op.settled()
        &&& self.htype.settled()
        &&& self.hlen.settled()
        &&& self.hops.settled()
        &&& self.xid.settled()
        &&& self.secs.settled()
        &&& self.flags.settled()
        &&& self.ciaddr.settled()
        &&& self.yiaddr.settled()
        &&& self.siaddr.settled()
        &&& self.giaddr.settled()
        &&& self.chaddr.settled()
        &&& self.sname.settled()
        &&& self.file.settled()
        &&& self.cookie.settled()
        &&& self.vend.settled()
    }

    /// `r` is the layer with every random or computed field given some value
    /// and every other field as it was. Which value a random field is given
    /// is said by `drawn_from`.
    pub open spec fn resolves_to(self, r: BootpView) -> bool {
        &&& self.op.resolves_to(r.op)
        &&& self.htype.resolves_to(r.htype)
        &&& self.hlen.resolves_to(r.hlen)
        &&& self.hops.resolves_to(r.hops)
        &&& self.xid.resolves_to(r.xid)
        &&& self.secs.resolves_to(r.secs)
        &&& self.flags.resolves_to(r.flags)
        &&& self.ciaddr.resolves_to(r.ciaddr)
        &&& self.yiaddr.resolves_to(r.yiaddr)
        &&& self.siaddr.resolves_to(r.siaddr)
        &&& self.giaddr.resolves_to(r.giaddr)
        &&& self.chaddr.resolves_to(r.chaddr)
        &&& self.sname.resolves_to(r.sname)
        &&& self.file.resolves_to(r.file)
        &&& self.cookie.resolves_to(r.cookie)
        &&& self.vend.resolves_to(r.vend)
    }

    /// `r` is the layer after a fill in a stack whose next layer is of kind
    /// `next`, with the tables `reg`: fixed fields stay, random and computed
    /// fields get some value, and each open field gets what its rule says.
    /// Which value a random field gets is said by `drawn_from`.
    pub open spec fn fills_to(
        self,
        reg: Seq<RegistryEntry>,
        next: Option<LayerKind>,
        r: BootpView,
    ) -> bool {
        &&& self.op.fills_to(ValueView::Fixed(0), r.op)
        &&& self.htype.fills_to(ValueView::Fixed(0), r.htype)
        &&& self.hlen.fills_to(ValueView::Fixed(0), r.hlen)
        &&& self.hops.fills_to(ValueView::Fixed(0), r.hops)
        &&& self.xid.fills_to(ValueView::Fixed(0), r.xid)
        &&& self.secs.fills_to(ValueView::Fixed(0), r.secs)
        &&& self.flags.fills_to(ValueView::Fixed(0), r.flags)
        &&& self.ciaddr.fills_to(ValueView::Fixed(Ipv4Address::default_view()), r.ciaddr)
        &&& self.yiaddr.fills_to(ValueView::Fixed(Ipv4Address::default_view()), r.yiaddr)
        &&& self.siaddr.fills_to(ValueView::Fixed(Ipv4Address::default_view()), r.siaddr)
        &&& self.giaddr.fills_to(ValueView::Fixed(Ipv4Address::default_view()), r.giaddr)
        &&& self.chaddr.fills_to(ValueView::Fixed(zeros(16)), r.chaddr)
        &&& self.sname.fills_to(ValueView::Fixed(zeros(64)), r.sname)
        &&& self.file.fills_to(ValueView::Fixed(zeros(128)), r.file)
        &&& self.cookie.fills_to(
            ValueView::Fixed(
                field_u32(next_key(reg, RegistryName::BootpVendor, next, 0xffff_ffff, 0))
            ),
            r.cookie,
        )
        &&& self.vend.fills_to(ValueView::Fixed(VendorDataView::Unset), r.vend)
    }

    /// How many numbers the layer takes from a random source when it is
    /// resolved or filled: those of its random fields together.
    pub open spec fn draws(self) -> nat {
        self.op.draws(u8::draws())
            + self.htype.draws(u8::draws())
            + self.hlen.draws(u8::draws())
            + self.hops.draws(u8::draws())
            + self.xid.draws(u32::draws())
            + self.secs.draws(u16::draws())
            + self.flags.draws(u16::draws())
            + self.ciaddr.draws(Ipv4Address::draws())
            + self.yiaddr.draws(Ipv4Address::draws())
            + self.siaddr.draws(Ipv4Address::draws())
            + self.giaddr.draws(Ipv4Address::draws())
            + self.chaddr.draws(FixedSizeString::<16>::draws())
            + self.sname.draws(FixedSizeString::<64>::draws())
            + self.file.draws(FixedSizeString::<128>::draws())
            + self.cookie.draws(u32::draws())
            + self.vend.draws(BootpVendorData::draws())
    }

    /// `r` holds in every field that is random in `self` the value made of
    /// that field's share of the numbers `d`. The fields take their shares
    /// in the order in which they are declared, each as many numbers as a
    /// random value of its type takes.
    pub open spec fn drawn_from(self, d: Seq<u32>, r: BootpView) -> bool {
        let d0 = d;
        let d1 = behind(d0, self.op.draws(u8::draws()));
        let d2 = behind(d1, self.htype.draws(u8::draws()));
        let d3 = behind(d2, self.hlen.draws(u8::draws()));
        let d4 = behind(d3, self.hops.draws(u8::draws()));
        let d5 = behind(d4, self.xid.draws(u32::draws()));
        let d6 = behind(d5, self.secs.draws(u16::draws()));
        let d7 = behind(d6, self.flags.draws(u16::draws()));
        let d8 = behind(d7, self.ciaddr.draws(Ipv4Address::draws()));
        let d9 = behind(d8, self.yiaddr.draws(Ipv4Address::draws()));
        let d10 = behind(d9, self.siaddr.draws(Ipv4Address::draws()));
        let d11 = behind(d10, self.giaddr.draws(Ipv4Address::draws()));
        let d12 = behind(d11, self.chaddr.draws(FixedSizeString::<16>::draws()));
        let d13 = behind(d12, self.sname.draws(FixedSizeString::<64>::draws()));
        let d14 = behind(d13, self.file.draws(FixedSizeString::<128>::draws()));
        let d15 = behind(d14, self.cookie.draws(u32::draws()));
        &&& self.op.drawn_as(u8::of_draws(share(d0, u8::draws())), r.op)
        &&& self.htype.drawn_as(u8::of_draws(share(d1, u8::draws())), r.htype)
        &&& self.hlen.drawn_as(u8::of_draws(share(d2, u8::draws())), r.hlen)
        &&& self.hops.drawn_as(u8::of_draws(share(d3, u8::draws())), r.hops)
        &&& self.xid.drawn_as(u32::of_draws(share(d4, u32::draws())), r.xid)
        &&& self.secs.drawn_as(u16::of_draws(share(d5, u16::draws())), r.secs)
        &&& self.flags.drawn_as(u16::of_draws(share(d6, u16::draws())), r.flags)
        &&& self.ciaddr.drawn_as(Ipv4Address::of_draws(share(d7, Ipv4Address::draws())), r.ciaddr)
        &&& self.yiaddr.drawn_as(Ipv4Address::of_draws(share(d8, Ipv4Address::draws())), r.yiaddr)
        &&& self.siaddr.drawn_as(Ipv4Address::of_draws(share(d9, Ipv4Address::draws())), r.siaddr)
        &&& self.giaddr.drawn_as(Ipv4Address::of_draws(share(d10, Ipv4Address::draws())), r.giaddr)
        &&& self.chaddr.drawn_as(
            FixedSizeString::<16>::of_draws(share(d11, FixedSizeString::<16>::draws())),
            r.chaddr,
        )
        &&& self.sname.drawn_as(
            FixedSizeString::<64>::of_draws(share(d12, FixedSizeString::<64>::draws())),
            r.sname,
        )
        &&& self.file.drawn_as(
            FixedSizeString::<128>::of_draws(share(d13, FixedSizeString::<128>::draws())),
            r.file,
        )
        &&& self.cookie.drawn_as(u32::of_draws(share(d14, u32::draws())), r.cookie)
        &&& self.vend.drawn_as(
            BootpVendorData::of_draws(share(d15, BootpVendorData::draws())),
            r.vend,
        )
    }

    /// No field of the layer is computed by a function of the caller.
    pub open spec fn without_funcs(self) -> bool {
        &&& !(self.op is Func)
        &&& !(self.htype is Func)
        &&& !(self.hlen is Func)
        &&& !(self.hops is Func)
        &&& !(self.xid is Func)
        &&& !(self.secs is Func)
        &&& !(self.flags is Func)
        &&& !(self.ciaddr is Func)
        &&& !(self.yiaddr is Func)
        &&& !(self.siaddr is Func)
        &&& !(self.giaddr is Func)
        &&& !(self.chaddr is Func)
        &&& !(self.sname is Func)
        &&& !(self.file is Func)
        &&& !(self.cookie is Func)
        &&& !(self.vend is Func)
    }

    /// Where no field is computed, the numbers drawn decide what the layer
    /// resolves to.
    pub proof fn lemma_resolve_decided(self, d: Seq<u32>, a: BootpView, b: BootpView)
        requires
            self.without_funcs(),
            self.resolves_to(a),
            self.drawn_from(d, a),
            self.resolves_to(b),
            self.drawn_from(d, b),
        ensures
            a == b,
    {
        assert(a.op == b.op);
        assert(a.htype == b.htype);
        assert(a.hlen == b.hlen);
        assert(a.hops == b.hops);
        assert(a.xid == b.xid);
        assert(a.secs == b.secs);
        assert(a.flags == b.flags);
        assert(a.ciaddr == b.ciaddr);
        assert(a.yiaddr == b.yiaddr);
        assert(a.siaddr == b.siaddr);
        assert(a.giaddr == b.giaddr);
        assert(a.chaddr == b.chaddr);
        assert(a.sname == b.sname);
        assert(a.file == b.file);
        assert(a.cookie == b.cookie);
        assert(a.vend == b.vend);
    }

    /// Where no field is computed, the numbers drawn decide what the layer
    /// is filled to.
    pub proof fn lemma_fill_decided(
        self,
        reg: Seq<RegistryEntry>,
        next: Option<LayerKind>,
        d: Seq<u32>,
        a: BootpView,
        b: BootpView,
    )
        requires
            self.without_funcs(),
            self.fills_to(reg, next, a),
            self.drawn_from(d, a),
            self.fills_to(reg, next, b),
            self.drawn_from(d, b),
        ensures
            a == b,
    {
        assert(a.op == b.op);
        assert(a.htype == b.htype);
        assert(a.hlen == b.hlen);
        assert(a.hops == b.hops);
        assert(a.xid == b.xid);
        assert(a.secs == b.secs);
        assert(a.flags == b.flags);
        assert(a.ciaddr == b.ciaddr);
        assert(a.yiaddr == b.yiaddr);
        assert(a.siaddr == b.siaddr);
        assert(a.giaddr == b.giaddr);
        assert(a.chaddr == b.chaddr);
        assert(a.sname == b.sname);
        assert(a.file == b.file);
        assert(a.cookie == b.cookie);
        assert(a.vend == b.vend);
    }

    /// What the fields drew one after the other is what the layer drew:
    /// `s0` is the record of the source before the first field, and each
    /// of the others the record after one more field.
    pub proof fn lemma_drawn(
        self,
        r: BootpView,
        s0: Seq<u32>,
        s1: Seq<u32>,
        s2: Seq<u32>,
        s3: Seq<u32>,
        s4: Seq<u32>,
        s5: Seq<u32>,
        s6: Seq<u32>,
        s7: Seq<u32>,
        s8: Seq<u32>,
        s9: Seq<u32>,
        s10: Seq<u32>,
        s11: Seq<u32>,
        s12: Seq<u32>,
        s13: Seq<u32>,
        s14: Seq<u32>,
        s15: Seq<u32>,
        s16: Seq<u32>,
    )
        requires
            drew(s0, s1, self.op.draws(u8::draws())),
            self.op.drawn_as(u8::of_draws(fresh(s0, s1)), r.op),
            drew(s1, s2, self.htype.draws(u8::draws())),
            self.htype.drawn_as(u8::of_draws(fresh(s1, s2)), r.htype),
            drew(s2, s3, self.hlen.draws(u8::draws())),
            self.hlen.drawn_as(u8::of_draws(fresh(s2, s3)), r.hlen),
            drew(s3, s4, self.hops.draws(u8::draws())),
            self.hops.drawn_as(u8::of_draws(fresh(s3, s4)), r.hops),
            drew(s4, s5, self.xid.draws(u32::draws())),
            self.xid.drawn_as(u32::of_draws(fresh(s4, s5)), r.xid),
            drew(s5, s6, self.secs.draws(u16::draws())),
            self.secs.drawn_as(u16::of_draws(fresh(s5, s6)), r.secs),
            drew(s6, s7, self.flags.draws(u16::draws())),
            self.flags.drawn_as(u16::of_draws(fresh(s6, s7)), r.flags),
            drew(s7, s8, self.ciaddr.draws(Ipv4Address::draws())),
            self.ciaddr.drawn_as(Ipv4Address::of_draws(fresh(s7, s8)), r.ciaddr),
            drew(s8, s9, self.yiaddr.draws(Ipv4Address::draws())),
            self.yiaddr.drawn_as(Ipv4Address::of_draws(fresh(s8, s9)), r.yiaddr),
            drew(s9, s10, self.siaddr.draws(Ipv4Address::draws())),
            self.siaddr.drawn_as(Ipv4Address::of_draws(fresh(s9, s10)), r.siaddr),
            drew(s10, s11, self.giaddr.draws(Ipv4Address::draws())),
            self.giaddr.drawn_as(Ipv4Address::of_draws(fresh(s10, s11)), r.giaddr),
            drew(s11, s12, self.chaddr.draws(FixedSizeString::<16>::draws())),
            self.chaddr.drawn_as(FixedSizeString::<16>::of_draws(fresh(s11, s12)), r.chaddr),
            drew(s12, s13, self.sname.draws(FixedSizeString::<64>::draws())),
            self.sname.drawn_as(FixedSizeString::<64>::of_draws(fresh(s12, s13)), r.sname),
            drew(s13, s14, self.file.draws(FixedSizeString::<128>::draws())),
            self.file.drawn_as(FixedSizeString::<128>::of_draws(fresh(s13, s14)), r.file),
            drew(s14, s15, self.cookie.draws(u32::draws())),
            self.cookie.drawn_as(u32::of_draws(fresh(s14, s15)), r.cookie),
            drew(s15, s16, self.vend.draws(BootpVendorData::draws())),
            self.vend.drawn_as(BootpVendorData::of_draws(fresh(s15, s16)), r.vend),
        ensures
            drew(s0, s16, self.draws()),
            self.drawn_from(fresh(s0, s16), r),
    {
        lemma_drew_none(s16);
        lemma_drew_first(s15, s16, s16);
        lemma_drew_first(s14, s15, s16);
        lemma_drew_first(s13, s14, s16);
        lemma_drew_first(s12, s13, s16);
        lemma_drew_first(s11, s12, s16);
        lemma_drew_first(s10, s11, s16);
        lemma_drew_first(s9, s10, s16);
        lemma_drew_first(s8, s9, s16);
        lemma_drew_first(s7, s8, s16);
        lemma_drew_first(s6, s7, s16);
        lemma_drew_first(s5, s6, s16);
        lemma_drew_first(s4, s5, s16);
        lemma_drew_first(s3, s4, s16);
        lemma_drew_first(s2, s3, s16);
        lemma_drew_first(s1, s2, s16);
        lemma_drew_first(s0, s1, s16);
    }

    /// The bytes of the header.
    pub open spec fn header(self) -> Seq<u8> {
        (self.op.or(0)).encoded(Endian::Big)
            + (self.htype.or(0)).encoded(Endian::Big)
            + (self.hlen.or(0)).encoded(Endian::Big)
            + (self.hops.or(0)).encoded(Endian::Big)
            + (self.xid.or(0)).encoded(Endian::Big)
            + (self.secs.or(0)).encoded(Endian::Big)
            + (self.flags.or(0)).encoded(Endian::Big)
            + (self.ciaddr.or(Ipv4Address::default_view())).encoded(Endian::Big)
            + (self.yiaddr.or(Ipv4Address::default_view())).encoded(Endian::Big)
            + (self.siaddr.or(Ipv4Address::default_view())).encoded(Endian::Big)
            + (self.giaddr.or(Ipv4Address::default_view())).encoded(Endian::Big)
            + self.chaddr.or(zeros(16))
            + self.sname.or(zeros(64))
            + self.file.or(zeros(128))
            + (self.cookie.or(0)).encoded(Endian::Big)
    }

    /// The bytes of the layer on the wire.
    pub open spec fn wire(self, outer: Outer, tail: Seq<Seq<u8>>) -> Seq<u8> {
        self.header()
    }

    /// The numbers by which the header names the protocol that follows, each
    /// with the table it is looked up in, in the order in which they are tried.
    pub open spec fn nexts(self) -> Seq<(RegistryName, u32)> {
        seq![(RegistryName::BootpVendor, key_of_u32(self.cookie.or(0)))]
    }

    /// The message at the front of `buf` and the number of its bytes, or `None`
    /// where `buf` is too short: the message takes 240 bytes, and where the
    /// cookie is not that of DHCP a vendor area of sixty bytes must follow it.
    pub open spec fn parse(buf: Seq<u8>) -> Option<(BootpView, nat)> {
        if buf.len() < 240 {
            None
        } else if u32_of(Endian::Big, buf.skip(236)) != DHCP_COOKIE_VAL && buf.len() < 300 {
            None
        } else {
            Some(
                (
                    BootpView {
                        op: ValueView::Fixed(buf[0]),
                        htype: ValueView::Fixed(buf[1]),
                        hlen: ValueView::Fixed(buf[2]),
                        hops: ValueView::Fixed(buf[3]),
                        xid: ValueView::Fixed(u32_of(Endian::Big, buf.skip(4))),
                        secs: ValueView::Fixed(u16_of(Endian::Big, buf.skip(8))),
                        flags: ValueView::Fixed(u16_of(Endian::Big, buf.skip(10))),
                        ciaddr: ValueView::Fixed(
                            Ipv4Address { bits: u32_of(Endian::Big, buf.skip(12)) }
                        ),
                        yiaddr: ValueView::Fixed(
                            Ipv4Address { bits: u32_of(Endian::Big, buf.skip(16)) }
                        ),
                        siaddr: ValueView::Fixed(
                            Ipv4Address { bits: u32_of(Endian::Big, buf.skip(20)) }
                        ),
                        giaddr: ValueView::Fixed(
                            Ipv4Address { bits: u32_of(Endian::Big, buf.skip(24)) }
                        ),
                        chaddr: ValueView::Fixed(buf.subrange(28, 44)),
                        sname: ValueView::Fixed(buf.subrange(44, 108)),
                        file: ValueView::Fixed(buf.subrange(108, 236)),
                        cookie: ValueView::Fixed(u32_of(Endian::Big, buf.skip(236))),
                        vend: ValueView::Fixed(VendorDataView::Unset),
                    },
                    240nat,
                ),
            )
        }
    }

    /// After a fill no field waits for a random number or a function, and
    /// every field is fixed but those that are left to the encoder.
    pub proof fn lemma_filled(self, reg: Seq<RegistryEntry>, next: Option<LayerKind>, r: BootpView)
        requires
            self.fills_to(reg, next, r),
        ensures
            r.settled(),
            r.op is Fixed,
            r.htype is Fixed,
            r.hlen is Fixed,
            r.hops is Fixed,
            r.xid is Fixed,
            r.secs is Fixed,
            r.flags is Fixed,
            r.ciaddr is Fixed,
            r.yiaddr is Fixed,
            r.siaddr is Fixed,
            r.giaddr is Fixed,
            r.chaddr is Fixed,
            r.sname is Fixed,
            r.file is Fixed,
            r.cookie is Fixed,
            r.vend is Fixed,
    {
    }

    /// Resolving a layer in which nothing is random or computed changes
    /// nothing.
    pub proof fn lemma_settled(self, r: BootpView)
        requires
            self.settled(),
            self.resolves_to(r),
        ensures
            r == self,
    {
    }

    /// A header that can be read lies within the buffer.
    pub proof fn lemma_parse_fits(buf: Seq<u8>)
        requires
            BootpView::parse(buf) is Some,
        ensures
            BootpView::parse(buf) matches Some((l, n)) && n <= buf.len(),
    {
    }

    /// A message that was read and then filled is written as the bytes it was
    /// read from.
    pub proof fn lemma_echo(
        buf: Seq<u8>,
        reg: Seq<RegistryEntry>,
        next: Option<LayerKind>,
        r: BootpView,
        outer: Outer,
        tail: Seq<Seq<u8>>,
    )
        requires
            BootpView::parse(buf) matches Some((l, n)) && l.fills_to(reg, next, r),
        ensures
            BootpView::parse(buf) matches Some((
                l,
                n,
            )) && n <= buf.len() && r.wire(outer, tail) == buf.subrange(
                0,
                n as int,
            ),
    {
        lemma_u32_inverse(Endian::Big, 0, buf.skip(4));
        lemma_u16_inverse(Endian::Big, 0, buf.skip(8));
        lemma_u16_inverse(Endian::Big, 0, buf.skip(10));
        lemma_u32_inverse(Endian::Big, 0, buf.skip(12));
        lemma_u32_inverse(Endian::Big, 0, buf.skip(16));
        lemma_u32_inverse(Endian::Big, 0, buf.skip(20));
        lemma_u32_inverse(Endian::Big, 0, buf.skip(24));
        lemma_u32_inverse(Endian::Big, 0, buf.skip(236));
        assert(buf.skip(4).subrange(0, 4) =~= buf.subrange(4, 8));
        assert(buf.skip(8).subrange(0, 2) =~= buf.subrange(8, 10));
        assert(buf.skip(10).subrange(0, 2) =~= buf.subrange(10, 12));
        assert(buf.skip(12).subrange(0, 4) =~= buf.subrange(12, 16));
        assert(buf.skip(16).subrange(0, 4) =~= buf.subrange(16, 20));
        assert(buf.skip(20).subrange(0, 4) =~= buf.subrange(20, 24));
        assert(buf.skip(24).subrange(0, 4) =~= buf.subrange(24, 28));
        assert(buf.skip(236).subrange(0, 4) =~= buf.subrange(236, 240));
        let front = seq![buf[0]] + seq![buf[1]] + seq![buf[2]] + seq![buf[3]] + buf.subrange(4, 8)
            + buf.subrange(
                8,
                10,
            ) + buf.subrange(10, 12) + buf.subrange(12, 16) + buf.subrange(16, 20)
            + buf.subrange(20, 24) + buf.subrange(24, 28);
        assert(front =~= buf.subrange(0, 28));
        assert(r.wire(outer, tail) =~= front + buf.subrange(28, 44) + buf.subrange(44, 108)
            + buf.subrange(108, 236) + buf.subrange(236, 240));
        assert(r.wire(outer, tail) =~= buf.subrange(0, 240));
    }
}

impl Default for Bootp {
    fn default() -> (r: Bootp)
        ensures
            r@ == BootpView::default_spec(),
    {
        Bootp::new()
    }
}

impl Bootp {
    /// A layer with every field at its default.
    pub fn new() -> (r: Bootp)
        ensures
            r@ == BootpView::default_spec(),
    {
        Bootp {
            op: Value::Fixed(1),
            htype: Value::Auto,
            hlen: Value::Auto,
            hops: Value::Auto,
            xid: Value::Auto,
            secs: Value::Auto,
            flags: Value::Auto,
            ciaddr: Value::Fixed(Ipv4Address::default_value()),
            yiaddr: Value::Fixed(Ipv4Address::default_value()),
            siaddr: Value::Fixed(Ipv4Address::default_value()),
            giaddr: Value::Fixed(Ipv4Address::default_value()),
            chaddr: Value::Auto,
            sname: Value::Auto,
            file: Value::Auto,
            cookie: Value::Fixed(0x123456),
            vend: Value::Auto,
        }
    }

    /// The layer with `op` fixed to the given value.
    pub fn op(self, op: u8) -> (r: Bootp)
        ensures
            r@ == (BootpView { op: ValueView::Fixed(op@), ..self@ }),
    {
        let mut r = self;
        r.op = Value::Fixed(op);
        r
    }

    /// The layer with `op` set to the given deferred value.
    pub fn set_op(self, op: Value<u8>) -> (r: Bootp)
        ensures
            r@ == (BootpView { op: op@, ..self@ }),
    {
        let mut r = self;
        r.op = op;
        r
    }

    /// The layer with `htype` fixed to the given value.
    pub fn htype(self, htype: u8) -> (r: Bootp)
        ensures
            r@ == (BootpView { htype: ValueView::Fixed(htype@), ..self@ }),
    {
        let mut r = self;
        r.htype = Value::Fixed(htype);
        r
    }

    /// The layer with `htype` set to the given deferred value.
    pub fn set_htype(self, htype: Value<u8>) -> (r: Bootp)
        ensures
            r@ == (BootpView { htype: htype@, ..self@ }),
    {
        let mut r = self;
        r.htype = htype;
        r
    }

    /// The layer with `hlen` fixed to the given value.
    pub fn hlen(self, hlen: u8) -> (r: Bootp)
        ensures
            r@ == (BootpView { hlen: ValueView::Fixed(hlen@), ..self@ }),
    {
        let mut r = self;
        r.hlen = Value::Fixed(hlen);
        r
    }

    /// The layer with `hlen` set to the given deferred value.
    pub fn set_hlen(self, hlen: Value<u8>) -> (r: Bootp)
        ensures
            r@ == (BootpView { hlen: hlen@, ..self@ }),
    {
        let mut r = self;
        r.hlen = hlen;
        r
    }

    /// The layer with `hops` fixed to the given value.
    pub fn hops(self, hops: u8) -> (r: Bootp)
        ensures
            r@ == (BootpView { hops: ValueView::Fixed(hops@), ..self@ }),
    {
        let mut r = self;
        r.hops = Value::Fixed(hops);
        r
    }

    /// The layer with `hops` set to the given deferred value.
    pub fn set_hops(self, hops: Value<u8>) -> (r: Bootp)
        ensures
            r@ == (BootpView { hops: hops@, ..self@ }),
    {
        let mut r = self;
        r.hops = hops;
        r
    }

    /// The layer with `xid` fixed to the given value.
    pub fn xid(self, xid: u32) -> (r: Bootp)
        ensures
            r@ == (BootpView { xid: ValueView::Fixed(xid@), ..self@ }),
    {
        let mut r = self;
        r.xid = Value::Fixed(xid);
        r
    }

    /// The layer with `xid` set to the given deferred value.
    pub fn set_xid(self, xid: Value<u32>) -> (r: Bootp)
        ensures
            r@ == (BootpView { xid: xid@, ..self@ }),
    {
        let mut r = self;
        r.xid = xid;
        r
    }

    /// The layer with `secs` fixed to the given value.
    pub fn secs(self, secs: u16) -> (r: Bootp)
        ensures
            r@ == (BootpView { secs: ValueView::Fixed(secs@), ..self@ }),
    {
        let mut r = self;
        r.secs = Value::Fixed(secs);
        r
    }

    /// The layer with `secs` set to the given deferred value.
    pub fn set_secs(self, secs: Value<u16>) -> (r: Bootp)
        ensures
            r@ == (BootpView { secs: secs@, ..self@ }),
    {
        let mut r = self;
        r.secs = secs;
        r
    }

    /// The layer with `flags` fixed to the given value.
    pub fn flags(self, flags: u16) -> (r: Bootp)
        ensures
            r@ == (BootpView { flags: ValueView::Fixed(flags@), ..self@ }),
    {
        let mut r = self;
        r.flags = Value::Fixed(flags);
        r
    }

    /// The layer with `flags` set to the given deferred value.
    pub fn set_flags(self, flags: Value<u16>) -> (r: Bootp)
        ensures
            r@ == (BootpView { flags: flags@, ..self@ }),
    {
        let mut r = self;
        r.flags = flags;
        r
    }

    /// The layer with `ciaddr` fixed to the given value.
    pub fn ciaddr(self, ciaddr: Ipv4Address) -> (r: Bootp)
        ensures
            r@ == (BootpView { ciaddr: ValueView::Fixed(ciaddr@), ..self@ }),
    {
        let mut r = self;
        r.ciaddr = Value::Fixed(ciaddr);
        r
    }

    /// The layer with `ciaddr` set to the given deferred value.
    pub fn set_ciaddr(self, ciaddr: Value<Ipv4Address>) -> (r: Bootp)
        ensures
            r@ == (BootpView { ciaddr: ciaddr@, ..self@ }),
    {
        let mut r = self;
        r.ciaddr = ciaddr;
        r
    }

    /// The layer with `yiaddr` fixed to the given value.
    pub fn yiaddr(self, yiaddr: Ipv4Address) -> (r: Bootp)
        ensures
            r@ == (BootpView { yiaddr: ValueView::Fixed(yiaddr@), ..self@ }),
    {
        let mut r = self;
        r.yiaddr = Value::Fixed(yiaddr);
        r
    }

    /// The layer with `yiaddr` set to the given deferred value.
    pub fn set_yiaddr(self, yiaddr: Value<Ipv4Address>) -> (r: Bootp)
        ensures
            r@ == (BootpView { yiaddr: yiaddr@, ..self@ }),
    {
        let mut r = self;
        r.yiaddr = yiaddr;
        r
    }

    /// The layer with `siaddr` fixed to the given value.
    pub fn siaddr(self, siaddr: Ipv4Address) -> (r: Bootp)
        ensures
            r@ == (BootpView { siaddr: ValueView::Fixed(siaddr@), ..self@ }),
    {
        let mut r = self;
        r.siaddr = Value::Fixed(siaddr);
        r
    }

    /// The layer with `siaddr` set to the given deferred value.
    pub fn set_siaddr(self, siaddr: Value<Ipv4Address>) -> (r: Bootp)
        ensures
            r@ == (BootpView { siaddr: siaddr@, ..self@ }),
    {
        let mut r = self;
        r.siaddr = siaddr;
        r
    }

    /// The layer with `giaddr` fixed to the given value.
    pub fn giaddr(self, giaddr: Ipv4Address) -> (r: Bootp)
        ensures
            r@ == (BootpView { giaddr: ValueView::Fixed(giaddr@), ..self@ }),
    {
        let mut r = self;
        r.giaddr = Value::Fixed(giaddr);
        r
    }

    /// The layer with `giaddr` set to the given deferred value.
    pub fn set_giaddr(self, giaddr: Value<Ipv4Address>) -> (r: Bootp)
        ensures
            r@ == (BootpView { giaddr: giaddr@, ..self@ }),
    {
        let mut r = self;
        r.giaddr = giaddr;
        r
    }

    /// The layer with `chaddr` fixed to the given value.
    pub fn chaddr(self, chaddr: FixedSizeString<16>) -> (r: Bootp)
        ensures
            r@ == (BootpView { chaddr: ValueView::Fixed(chaddr@), ..self@ }),
    {
        let mut r = self;
        r.chaddr = Value::Fixed(chaddr);
        r
    }

    /// The layer with `chaddr` set to the given deferred value.
    pub fn set_chaddr(self, chaddr: Value<FixedSizeString<16>>) -> (r: Bootp)
        ensures
            r@ == (BootpView { chaddr: chaddr@, ..self@ }),
    {
        let mut r = self;
        r.chaddr = chaddr;
        r
    }

    /// The layer with `sname` fixed to the given value.
    pub fn sname(self, sname: FixedSizeString<64>) -> (r: Bootp)
        ensures
            r@ == (BootpView { sname: ValueView::Fixed(sname@), ..self@ }),
    {
        let mut r = self;
        r.sname = Value::Fixed(sname);
        r
    }

    /// The layer with `sname` set to the given deferred value.
    pub fn set_sname(self, sname: Value<FixedSizeString<64>>) -> (r: Bootp)
        ensures
            r@ == (BootpView { sname: sname@, ..self@ }),
    {
        let mut r = self;
        r.sname = sname;
        r
    }

    /// The layer with `file` fixed to the given value.
    pub fn file(self, file: FixedSizeString<128>) -> (r: Bootp)
        ensures
            r@ == (BootpView { file: ValueView::Fixed(file@), ..self@ }),
    {
        let mut r = self;
        r.file = Value::Fixed(file);
        r
    }

    /// The layer with `file` set to the given deferred value.
    pub fn set_file(self, file: Value<FixedSizeString<128>>) -> (r: Bootp)
        ensures
            r@ == (BootpView { file: file@, ..self@ }),
    {
        let mut r = self;
        r.file = file;
        r
    }

    /// The layer with `cookie` fixed to the given value.
    pub fn cookie(self, cookie: u32) -> (r: Bootp)
        ensures
            r@ == (BootpView { cookie: ValueView::Fixed(cookie@), ..self@ }),
    {
        let mut r = self;
        r.cookie = Value::Fixed(cookie);
        r
    }

    /// The layer with `cookie` set to the given deferred value.
    pub fn set_cookie(self, cookie: Value<u32>) -> (r: Bootp)
        ensures
            r@ == (BootpView { cookie: cookie@, ..self@ }),
    {
        let mut r = self;
        r.cookie = cookie;
        r
    }

    /// The layer with `vend` fixed to the given value.
    pub fn vend(self, vend: BootpVendorData) -> (r: Bootp)
        ensures
            r@ == (BootpView { vend: ValueView::Fixed(vend@), ..self@ }),
    {
        let mut r = self;
        r.vend = Value::Fixed(vend);
        r
    }

    /// The layer with `vend` set to the given deferred value.
    pub fn set_vend(self, vend: Value<BootpVendorData>) -> (r: Bootp)
        ensures
            r@ == (BootpView { vend: vend@, ..self@ }),
    {
        let mut r = self;
        r.vend = vend;
        r
    }

    /// A copy of the layer in which every random field is drawn from `rng` and
    /// every computed field is computed. The random fields draw in the order
    /// in which they are declared.
    pub fn resolve<R: RandomSource>(&self, rng: &mut R) -> (r: Bootp)
        ensures
            self@.resolves_to(r@),
            r@.settled(),
            drew(old(rng).drawn(), final(rng).drawn(), self@.draws()),
            self@.drawn_from(fresh(old(rng).drawn(), final(rng).drawn()), r@),
    {
        let ghost s0 = rng.drawn();
        let op = self.op.resolved(rng);
        let ghost s1 = rng.drawn();
        let htype = self.htype.resolved(rng);
        let ghost s2 = rng.drawn();
        let hlen = self.hlen.resolved(rng);
        let ghost s3 = rng.drawn();
        let hops = self.hops.resolved(rng);
        let ghost s4 = rng.drawn();
        let xid = self.xid.resolved(rng);
        let ghost s5 = rng.drawn();
        let secs = self.secs.resolved(rng);
        let ghost s6 = rng.drawn();
        let flags = self.flags.resolved(rng);
        let ghost s7 = rng.drawn();
        let ciaddr = self.ciaddr.resolved(rng);
        let ghost s8 = rng.drawn();
        let yiaddr = self.yiaddr.resolved(rng);
        let ghost s9 = rng.drawn();
        let siaddr = self.siaddr.resolved(rng);
        let ghost s10 = rng.drawn();
        let giaddr = self.giaddr.resolved(rng);
        let ghost s11 = rng.drawn();
        let chaddr = self.chaddr.resolved(rng);
        let ghost s12 = rng.drawn();
        let sname = self.sname.resolved(rng);
        let ghost s13 = rng.drawn();
        let file = self.file.resolved(rng);
        let ghost s14 = rng.drawn();
        let cookie = self.cookie.resolved(rng);
        let ghost s15 = rng.drawn();
        let vend = self.vend.resolved(rng);
        let ghost s16 = rng.drawn();
        let r = Bootp {
            op,
            htype,
            hlen,
            hops,
            xid,
            secs,
            flags,
            ciaddr,
            yiaddr,
            siaddr,
            giaddr,
            chaddr,
            sname,
            file,
            cookie,
            vend,
        };
        proof {
            self@.lemma_drawn(
                r@,
                s0,
                s1,
                s2,
                s3,
                s4,
                s5,
                s6,
                s7,
                s8,
                s9,
                s10,
                s11,
                s12,
                s13,
                s14,
                s15,
                s16,
            );
        }
        r
    }

    /// The layer filled: resolved as by `resolve`, and with every open field
    /// given what its rule says. `next` is the kind of the layer that follows
    /// in the stack.
    pub fn filled<R: RandomSource>(
        &self,
        reg: &Registry,
        next: Option<LayerKind>,
        rng: &mut R,
    ) -> (r: Bootp)
        ensures
            self@.fills_to(reg@, next, r@),
            drew(old(rng).drawn(), final(rng).drawn(), self@.draws()),
            self@.drawn_from(fresh(old(rng).drawn(), final(rng).drawn()), r@),
    {
        let ghost s0 = rng.drawn();
        let op = self.op.filled(rng, u8::default_value());
        let ghost s1 = rng.drawn();
        let htype = self.htype.filled(rng, u8::default_value());
        let ghost s2 = rng.drawn();
        let hlen = self.hlen.filled(rng, u8::default_value());
        let ghost s3 = rng.drawn();
        let hops = self.hops.filled(rng, u8::default_value());
        let ghost s4 = rng.drawn();
        let xid = self.xid.filled(rng, u32::default_value());
        let ghost s5 = rng.drawn();
        let secs = self.secs.filled(rng, u16::default_value());
        let ghost s6 = rng.drawn();
        let flags = self.flags.filled(rng, u16::default_value());
        let ghost s7 = rng.drawn();
        let ciaddr = self.ciaddr.filled(rng, Ipv4Address::default_value());
        let ghost s8 = rng.drawn();
        let yiaddr = self.yiaddr.filled(rng, Ipv4Address::default_value());
        let ghost s9 = rng.drawn();
        let siaddr = self.siaddr.filled(rng, Ipv4Address::default_value());
        let ghost s10 = rng.drawn();
        let giaddr = self.giaddr.filled(rng, Ipv4Address::default_value());
        let ghost s11 = rng.drawn();
        let chaddr = self.chaddr.filled(rng, FixedSizeString::<16>::default_value());
        let ghost s12 = rng.drawn();
        let sname = self.sname.filled(rng, FixedSizeString::<64>::default_value());
        let ghost s13 = rng.drawn();
        let file = self.file.filled(rng, FixedSizeString::<128>::default_value());
        let ghost s14 = rng.drawn();
        let cookie = self.cookie.filled(
            rng,
            to_field_u32(reg.next_key(RegistryName::BootpVendor, next, 0xffff_ffff, 0)),
        );
        let ghost s15 = rng.drawn();
        let vend = self.vend.filled(rng, BootpVendorData::default_value());
        let ghost s16 = rng.drawn();
        let r = Bootp {
            op,
            htype,
            hlen,
            hops,
            xid,
            secs,
            flags,
            ciaddr,
            yiaddr,
            siaddr,
            giaddr,
            chaddr,
            sname,
            file,
            cookie,
            vend,
        };
        proof {
            self@.lemma_drawn(
                r@,
                s0,
                s1,
                s2,
                s3,
                s4,
                s5,
                s6,
                s7,
                s8,
                s9,
                s10,
                s11,
                s12,
                s13,
                s14,
                s15,
                s16,
            );
        }
        r
    }

    /// The bytes of the header.
    pub fn header_bytes(&self) -> (r: Vec<u8>)
        ensures
            r@ == self@.header(),
    {
        let mut out: Vec<u8> = Vec::new();
        assert(
            out@ + (self@.op.or(0)).encoded(Endian::Big) =~= (self@.op.or(0)).encoded(Endian::Big)
        );
        put::<u8, BinaryBigEndian>(&mut out, &(self.op.or(u8::default_value())));
        put::<u8, BinaryBigEndian>(&mut out, &(self.htype.or(u8::default_value())));
        put::<u8, BinaryBigEndian>(&mut out, &(self.hlen.or(u8::default_value())));
        put::<u8, BinaryBigEndian>(&mut out, &(self.hops.or(u8::default_value())));
        put::<u32, BinaryBigEndian>(&mut out, &(self.xid.or(u32::default_value())));
        put::<u16, BinaryBigEndian>(&mut out, &(self.secs.or(u16::default_value())));
        put::<u16, BinaryBigEndian>(&mut out, &(self.flags.or(u16::default_value())));
        put::<Ipv4Address, BinaryBigEndian>(
            &mut out,
            &(self.ciaddr.or(Ipv4Address::default_value())),
        );
        put::<Ipv4Address, BinaryBigEndian>(
            &mut out,
            &(self.yiaddr.or(Ipv4Address::default_value())),
        );
        put::<Ipv4Address, BinaryBigEndian>(
            &mut out,
            &(self.siaddr.or(Ipv4Address::default_value())),
        );
        put::<Ipv4Address, BinaryBigEndian>(
            &mut out,
            &(self.giaddr.or(Ipv4Address::default_value())),
        );
        put_bytes(&mut out, self.chaddr.or(FixedSizeString::<16>::default_value()).into_bytes());
        put_bytes(&mut out, self.sname.or(FixedSizeString::<64>::default_value()).into_bytes());
        put_bytes(&mut out, self.file.or(FixedSizeString::<128>::default_value()).into_bytes());
        put::<u32, BinaryBigEndian>(&mut out, &(self.cookie.or(u32::default_value())));
        out
    }

    /// The bytes of the layer on the wire. `outer` tells what stands before
    /// the layer in the stack and `tail` holds the bytes of the layers behind
    /// it; this protocol needs neither.
    pub fn wire_bytes(&self, outer: &Outer, tail: &EncodingVecVec) -> (r: Vec<u8>)
        ensures
            r@ == self@.wire(*outer, tail@),
    {
        self.header_bytes()
    }

    /// The numbers by which the header names the protocol that follows, each
    /// with the table it is looked up in.
    pub fn next_keys(&self) -> (r: Vec<(RegistryName, u32)>)
        ensures
            r@ == self@.nexts(),
    {
        let mut r: Vec<(RegistryName, u32)> = Vec::new();
        r.push((RegistryName::BootpVendor, key_u32(self.cookie.or(0))));
        assert(r@ =~= self@.nexts());
        r
    }

    /// `other` holds in every computed field the function that `self` holds
    /// there.
    pub open spec fn same_funcs(self, other: Bootp) -> bool {
        &&& other.op.func() == self.op.func()
        &&& other.htype.func() == self.htype.func()
        &&& other.hlen.func() == self.hlen.func()
        &&& other.hops.func() == self.hops.func()
        &&& other.xid.func() == self.xid.func()
        &&& other.secs.func() == self.secs.func()
        &&& other.flags.func() == self.flags.func()
        &&& other.ciaddr.func() == self.ciaddr.func()
        &&& other.yiaddr.func() == self.yiaddr.func()
        &&& other.siaddr.func() == self.siaddr.func()
        &&& other.giaddr.func() == self.giaddr.func()
        &&& other.chaddr.func() == self.chaddr.func()
        &&& other.sname.func() == self.sname.func()
        &&& other.file.func() == self.file.func()
        &&& other.cookie.func() == self.cookie.func()
        &&& other.vend.func() == self.vend.func()
    }

    /// A copy of the layer: the same values, and in the computed fields the
    /// same functions.
    pub fn dup(&self) -> (r: Bootp)
        ensures
            r@ == self@,
            self.same_funcs(r),
    {
        let op = self.op.dup();
        let htype = self.htype.dup();
        let hlen = self.hlen.dup();
        let hops = self.hops.dup();
        let xid = self.xid.dup();
        let secs = self.secs.dup();
        let flags = self.flags.dup();
        let ciaddr = self.ciaddr.dup();
        let yiaddr = self.yiaddr.dup();
        let siaddr = self.siaddr.dup();
        let giaddr = self.giaddr.dup();
        let chaddr = self.chaddr.dup();
        let sname = self.sname.dup();
        let file = self.file.dup();
        let cookie = self.cookie.dup();
        let vend = self.vend.dup();
        Bootp {
            op,
            htype,
            hlen,
            hops,
            xid,
            secs,
            flags,
            ciaddr,
            yiaddr,
            siaddr,
            giaddr,
            chaddr,
            sname,
            file,
            cookie,
            vend,
        }
    }

    /// Reads the message from the front of `buf`: the layer and the number of
    /// bytes taken, or `None` where `buf` is too short.
    pub fn decode_header(buf: &[u8]) -> (r: Option<(Bootp, usize)>)
        ensures
            match r {
                Some((l, n)) => BootpView::parse(buf@) == Some((l@, n as nat)) && n <= buf@.len(),
                None => BootpView::parse(buf@) is None,
            },
    {
        let mut pos: usize = 0;
        let op = take::<u8, BinaryBigEndian>(buf, &mut pos)?;
        let htype = take::<u8, BinaryBigEndian>(buf, &mut pos)?;
        let hlen = take::<u8, BinaryBigEndian>(buf, &mut pos)?;
        let hops = take::<u8, BinaryBigEndian>(buf, &mut pos)?;
        let xid = take::<u32, BinaryBigEndian>(buf, &mut pos)?;
        let secs = take::<u16, BinaryBigEndian>(buf, &mut pos)?;
        let flags = take::<u16, BinaryBigEndian>(buf, &mut pos)?;
        let ciaddr = take::<Ipv4Address, BinaryBigEndian>(buf, &mut pos)?;
        let yiaddr = take::<Ipv4Address, BinaryBigEndian>(buf, &mut pos)?;
        let siaddr = take::<Ipv4Address, BinaryBigEndian>(buf, &mut pos)?;
        let giaddr = take::<Ipv4Address, BinaryBigEndian>(buf, &mut pos)?;
        let chaddr = FixedSizeString::<16>::from_vec(take_bytes(buf, &mut pos, 16)?);
        let sname = FixedSizeString::<64>::from_vec(take_bytes(buf, &mut pos, 64)?);
        let file = FixedSizeString::<128>::from_vec(take_bytes(buf, &mut pos, 128)?);
        let cookie = take::<u32, BinaryBigEndian>(buf, &mut pos)?;
        assert(buf@.skip(0)[0] == buf@[0] && buf@.skip(1)[0] == buf@[1]);
        assert(buf@.skip(2)[0] == buf@[2] && buf@.skip(3)[0] == buf@[3]);
        if cookie != DHCP_COOKIE_VAL && buf.len() - pos < 60 {
            return None;
        }
        Some(
            (
                Bootp {
                    op: Value::Fixed(op),
                    htype: Value::Fixed(htype),
                    hlen: Value::Fixed(hlen),
                    hops: Value::Fixed(hops),
                    xid: Value::Fixed(xid),
                    secs: Value::Fixed(secs),
                    flags: Value::Fixed(flags),
                    ciaddr: Value::Fixed(ciaddr),
                    yiaddr: Value::Fixed(yiaddr),
                    siaddr: Value::Fixed(siaddr),
                    giaddr: Value::Fixed(giaddr),
                    chaddr: Value::Fixed(chaddr),
                    sname: Value::Fixed(sname),
                    file: Value::Fixed(file),
                    cookie: Value::Fixed(cookie),
                    vend: Value::Fixed(BootpVendorData::Unset),
                },
                pos,
            ),
        )
    }
}

/// The options of a DHCP message, which follow the vendor cookie of a BOOTP
/// message. The layer is read and never written: a stack that holds options,
/// built or read from a message, loses them on the wire, and what is encoded
/// ends with the vendor cookie.
#[derive(Clone, Debug, PartialEq, Eq)]
pub struct Dhcp {
    /// The options, in the order of the message.
    pub options: Vec<DhcpOption>,
}

/// What a layer of type `Dhcp` says, with its vectors as sequences.
pub struct DhcpView {
    pub options: Seq<DhcpOptionView>,
}

impl View for Dhcp {
    type V = DhcpView;

    open spec fn view(&self) -> DhcpView {
        DhcpView {
            options: dhcp_options_view(self.options@),
        }
    }
}

impl DhcpView {
    /// A layer as it is made: every field at its default.
    pub open spec fn default_spec() -> DhcpView {
        DhcpView {
            options: Seq::empty(),
        }
    }

    /// No field waits for a random number or for a function of the caller.
    pub open spec fn settled(self) -> bool {
        true
    }

    /// `r` is the layer with every random or computed field given some value
    /// and every other field as it was. Which value a random field is given
    /// is said by `drawn_from`.
    pub open spec fn resolves_to(self, r: DhcpView) -> bool {
        &&& r.options == self.options
    }

    /// `r` is the layer after a fill in a stack whose next layer is of kind
    /// `next`, with the tables `reg`: fixed fields stay, random and computed
    /// fields get some value, and each open field gets what its rule says.
    /// Which value a random field gets is said by `drawn_from`.
    pub open spec fn fills_to(
        self,
        reg: Seq<RegistryEntry>,
        next: Option<LayerKind>,
        r: DhcpView,
    ) -> bool {
        &&& r.options == self.options
    }

    /// How many numbers the layer takes from a random source when it is
    /// resolved or filled: those of its random fields together.
    pub open spec fn draws(self) -> nat {
        0
    }

    /// `r` holds in every field that is random in `self` the value made of
    /// that field's share of the numbers `d`. The fields take their shares
    /// in the order in which they are declared, each as many numbers as a
    /// random value of its type takes.
    pub open spec fn drawn_from(self, d: Seq<u32>, r: DhcpView) -> bool {
        true
    }

    /// No field of the layer is computed by a function of the caller.
    pub open spec fn without_funcs(self) -> bool {
        true
    }

    /// Where no field is computed, the numbers drawn decide what the layer
    /// resolves to.
    pub proof fn lemma_resolve_decided(self, d: Seq<u32>, a: DhcpView, b: DhcpView)
        requires
            self.without_funcs(),
            self.resolves_to(a),
            self.drawn_from(d, a),
            self.resolves_to(b),
            self.drawn_from(d, b),
        ensures
            a == b,
    {
    }

    /// Where no field is computed, the numbers drawn decide what the layer
    /// is filled to.
    pub proof fn lemma_fill_decided(
        self,
        reg: Seq<RegistryEntry>,
        next: Option<LayerKind>,
        d: Seq<u32>,
        a: DhcpView,
        b: DhcpView,
    )
        requires
            self.without_funcs(),
            self.fills_to(reg, next, a),
            self.drawn_from(d, a),
            self.fills_to(reg, next, b),
            self.drawn_from(d, b),
        ensures
            a == b,
    {
    }

    /// The header names no protocol to follow.
    pub open spec fn nexts(self) -> Seq<(RegistryName, u32)> {
        Seq::empty()
    }

    /// The bytes of the layer on the wire: none. The options are read from a
    /// message and kept with the layer, and they are not written back, so a
    /// message with options is not encoded as the bytes it was read from.
    pub open spec fn wire(self, outer: Outer, tail: Seq<Seq<u8>>) -> Seq<u8> {
        Seq::empty()
    }

    /// The options at the front of `buf` and the number of bytes they take.
    /// Every `buf` has such a front, if only an empty one.
    pub open spec fn parse(buf: Seq<u8>) -> Option<(DhcpView, nat)> {
        let found = parse_options(buf, 0);
        Some((DhcpView { options: found.0 }, found.1))
    }

    /// Where no option is read, no byte is taken.
    pub proof fn lemma_no_option_no_byte(buf: Seq<u8>)
        requires
            parse_options(buf, 0).0.len() == 0,
        ensures
            parse_options(buf, 0).1 == 0,
    {
    }

    /// After a fill no field waits for a random number or a function, and
    /// every field is fixed but those that are left to the encoder.
    pub proof fn lemma_filled(self, reg: Seq<RegistryEntry>, next: Option<LayerKind>, r: DhcpView)
        requires
            self.fills_to(reg, next, r),
        ensures
            r.settled(),
    {
    }

    /// Resolving a layer in which nothing is random or computed changes
    /// nothing.
    pub proof fn lemma_settled(self, r: DhcpView)
        requires
            self.settled(),
            self.resolves_to(r),
        ensures
            r == self,
    {
    }
}

impl Default for Dhcp {
    fn default() -> (r: Dhcp)
        ensures
            r@ == DhcpView::default_spec(),
    {
        Dhcp::new()
    }
}

impl Dhcp {
    /// A layer with every field at its default.
    pub fn new() -> (r: Dhcp)
        ensures
            r@ == DhcpView::default_spec(),
    {
        let r = Dhcp {
            options: Vec::new(),
        };
        assert(r@.options =~= DhcpView::default_spec().options);
        r
    }

    /// The layer with `options` replaced.
    pub fn options(self, options: Vec<DhcpOption>) -> (r: Dhcp)
        ensures
            r@ == (DhcpView { options: dhcp_options_view(options@), ..self@ }),
    {
        let mut r = self;
        r.options = options;
        r
    }

    /// A copy of the layer in which every random field is drawn from `rng` and
    /// every computed field is computed. The random fields draw in the order
    /// in which they are declared.
    pub fn resolve<R: RandomSource>(&self, rng: &mut R) -> (r: Dhcp)
        ensures
            self@.resolves_to(r@),
            r@.settled(),
            drew(old(rng).drawn(), final(rng).drawn(), self@.draws()),
            self@.drawn_from(fresh(old(rng).drawn(), final(rng).drawn()), r@),
    {
        let ghost s0 = rng.drawn();
        let options = copy_dhcp_options(&self.options);
        let r = Dhcp { options };
        proof {
            lemma_drew_none(s0);
        }
        r
    }

    /// The layer filled: resolved as by `resolve`, and with every open field
    /// given what its rule says. `next` is the kind of the layer that follows
    /// in the stack.
    pub fn filled<R: RandomSource>(
        &self,
        reg: &Registry,
        next: Option<LayerKind>,
        rng: &mut R,
    ) -> (r: Dhcp)
        ensures
            self@.fills_to(reg@, next, r@),
            drew(old(rng).drawn(), final(rng).drawn(), self@.draws()),
            self@.drawn_from(fresh(old(rng).drawn(), final(rng).drawn()), r@),
    {
        let ghost s0 = rng.drawn();
        let options = copy_dhcp_options(&self.options);
        let r = Dhcp { options };
        proof {
            lemma_drew_none(s0);
        }
        r
    }

    /// The numbers by which the header names the protocol that follows:
    /// none, for this header names no protocol to follow.
    pub fn next_keys(&self) -> (r: Vec<(RegistryName, u32)>)
        ensures
            r@ == self@.nexts(),
    {
        let mut r: Vec<(RegistryName, u32)> = Vec::new();
        assert(r@ =~= self@.nexts());
        r
    }

    /// `other` holds in every computed field the function that `self` holds
    /// there.
    pub open spec fn same_funcs(self, other: Dhcp) -> bool {
        true
    }

    /// A copy of the layer: the same values, and in the computed fields the
    /// same functions.
    pub fn dup(&self) -> (r: Dhcp)
        ensures
            r@ == self@,
            self.same_funcs(r),
    {
        let options = copy_dhcp_options(&self.options);
        Dhcp { options }
    }

    /// The bytes of the layer on the wire: none, whatever options it holds.
    pub fn wire_bytes(&self, outer: &Outer, tail: &EncodingVecVec) -> (r: Vec<u8>)
        ensures
            r@ == self@.wire(*outer, tail@),
    {
        Vec::new()
    }

    /// Reads the options from the front of `buf`: the layer and the number of
    /// bytes taken.
    pub fn decode_header(buf: &[u8]) -> (r: Option<(Dhcp, usize)>)
        ensures
            match r {
                Some((l, n)) => DhcpView::parse(buf@) == Some((l@, n as nat)) && n <= buf@.len(),
                None => DhcpView::parse(buf@) is None,
            },
    {
        let (options, n) = decode_dhcp_opts(buf);
        Some((Dhcp { options }, n))
    }
}

/// The vendor cookie that says that DHCP options follow.
pub const DHCP_COOKIE_VAL: u32 = 0x63825363;

/// `n` bytes of zero.
pub open spec fn zeros(n: nat) -> Seq<u8> {
    Seq::new(n, |i: int| 0u8)
}

/// The lowest eight bits of each of the first `n` numbers of `d`.
pub open spec fn low_bytes(d: Seq<u32>, n: nat) -> Seq<u8> {
    Seq::new(n, |i: int| low8(d[i]))
}

/// A byte string of exactly `N` bytes, such as a name padded with zeros.
#[derive(Debug, PartialEq, Eq)]
pub struct FixedSizeString<const N: usize> {
    bytes: Vec<u8>,
}

impl<const N: usize> Clone for FixedSizeString<N> {
    fn clone(&self) -> (r: FixedSizeString<N>)
        ensures
            r@ == self@,
    {
        proof {
            use_type_invariant(self);
        }
        FixedSizeString { bytes: copy_bytes(&self.bytes) }
    }
}

impl<const N: usize> View for FixedSizeString<N> {
    type V = Seq<u8>;

    closed spec fn view(&self) -> Seq<u8> {
        if self.bytes@.len() == N {
            self.bytes@
        } else {
            zeros(N as nat)
        }
    }
}

impl<const N: usize> FixedSizeString<N> {
    #[verifier::type_invariant]
    spec fn has_size(&self) -> bool {
        self.bytes@.len() == N
    }

    /// The string of the bytes of `v`, which are `N`.
    pub fn from_vec(v: Vec<u8>) -> (r: FixedSizeString<N>)
        requires
            v@.len() == N,
        ensures
            r@ == v@,
    {
        FixedSizeString { bytes: v }
    }

    /// The string of the bytes of `b` and zeros behind them up to `N` bytes,
    /// or `None` where `b` has more than `N` bytes.
    pub fn from_bytes(b: &[u8]) -> (r: Option<FixedSizeString<N>>)
        ensures
            r is Some <==> b@.len() <= N,
            r matches Some(s) ==> s@ == b@ + zeros((N - b@.len()) as nat),
    {
        if b.len() > N {
            return None;
        }
        let mut v = slice_bytes(b);
        while v.len() < N
            invariant
                b@.len() <= v@.len() <= N,
                v@ == b@ + zeros((v@.len() - b@.len()) as nat),
            decreases N - v@.len(),
        {
            v.push(0);
            assert(v@ =~= b@ + zeros((v@.len() - b@.len()) as nat));
        }
        assert(b@ + zeros(0) =~= b@);
        Some(FixedSizeString { bytes: v })
    }

    /// The string of the UTF-8 bytes of `s` and zeros behind them up to `N`
    /// bytes, or `None` where `s` has more than `N` bytes.
    pub fn from_str(s: &str) -> (r: Option<FixedSizeString<N>>)
        ensures
            r is Some <==> text_bytes(s@).len() <= N,
            r matches Some(x) ==> x@ == text_bytes(s@) + zeros((N - text_bytes(s@).len()) as nat),
    {
        FixedSizeString::<N>::from_bytes(s.as_bytes())
    }

    /// The `N` bytes as a vector.
    pub fn into_bytes(&self) -> (r: Vec<u8>)
        ensures
            r@ == self@,
            r@.len() == N,
    {
        proof {
            use_type_invariant(self);
        }
        copy_bytes(&self.bytes)
    }
}

impl<const N: usize> Field for FixedSizeString<N> {
    open spec fn default_view() -> Seq<u8> {
        zeros(N as nat)
    }

    fn default_value() -> (r: FixedSizeString<N>) {
        let mut v: Vec<u8> = Vec::new();
        while v.len() < N
            invariant
                v@.len() <= N,
                v@ == zeros(v@.len()),
            decreases N - v@.len(),
        {
            v.push(0);
            assert(v@ =~= zeros(v@.len()));
        }
        FixedSizeString { bytes: v }
    }

    open spec fn draws() -> nat {
        N as nat
    }

    open spec fn of_draws(d: Seq<u32>) -> Seq<u8> {
        low_bytes(d, N as nat)
    }

    fn random<R: RandomSource>(rng: &mut R) -> (r: FixedSizeString<N>) {
        let ghost start = rng.drawn();
        let mut v: Vec<u8> = Vec::new();
        assert(start.subrange(0, start.len() as int) =~= start);
        while v.len() < N
            invariant
                v@.len() <= N,
                drew(start, rng.drawn(), v@.len() as nat),
                forall|j: int|
                    0 <= j < v@.len() ==> v@[j] == low8(#[trigger] rng.drawn()[start.len() + j]),
            decreases N - v@.len(),
        {
            let ghost before = rng.drawn();
            let ghost k = v@.len() as nat;
            let x = u8::random(rng);
            proof {
                let now = rng.drawn();
                lemma_drew_more(start, before, now, k, 1);
                assert(fresh(before, now)[0] == now[(start.len() + k) as int]);
                assert forall|j: int| 0 <= j < k implies #[trigger] now[start.len() + j]
                    == before[start.len() + j] by {
                    assert(now.subrange(0, before.len() as int)[start.len() + j] == now[start.len()
                        + j]);
                }
            }
            v.push(x);
        }
        let r = FixedSizeString { bytes: v };
        proof {
            let made = fresh(start, rng.drawn());
            assert forall|i: int| 0 <= i < N implies r.bytes@[i] == low8(made[i]) by {
                assert(made[i] == rng.drawn()[start.len() + i]);
            }
            assert(r@ =~= low_bytes(made, N as nat));
        }
        r
    }

    fn dup(&self) -> (r: FixedSizeString<N>) {
        proof {
            use_type_invariant(self);
        }
        FixedSizeString { bytes: copy_bytes(&self.bytes) }
    }
}

/// The vendor area of a BOOTP message.
#[derive(Clone, Debug, PartialEq, Eq)]
pub enum BootpVendorData {
    Unset,
    Data(FixedSizeString<60>),
}

/// What a `BootpVendorData` says.
pub enum VendorDataView {
    Unset,
    Data(Seq<u8>),
}

impl View for BootpVendorData {
    type V = VendorDataView;

    open spec fn view(&self) -> VendorDataView {
        match self {
            BootpVendorData::Unset => VendorDataView::Unset,
            BootpVendorData::Data(s) => VendorDataView::Data(s@),
        }
    }
}

impl BootpVendorData {
    /// The vendor area that a text stands for: none for the empty text, else
    /// the bytes of the text padded to sixty; `None` where the text is longer.
    pub fn from_str(s: &str) -> (r: Option<BootpVendorData>)
        ensures
            r is Some <==> text_bytes(s@).len() <= 60,
            r matches Some(x) ==> x@ == (if text_bytes(s@).len() == 0 {
                VendorDataView::Unset
            } else {
                VendorDataView::Data(text_bytes(s@) + zeros((60 - text_bytes(s@).len()) as nat))
            }),
    {
        if s.as_bytes().len() == 0 {
            Some(BootpVendorData::Unset)
        } else {
            match FixedSizeString::<60>::from_str(s) {
                Some(x) => Some(BootpVendorData::Data(x)),
                None => None,
            }
        }
    }
}

impl Default for BootpVendorData {
    fn default() -> (r: BootpVendorData)
        ensures
            r@ == VendorDataView::Unset,
    {
        BootpVendorData::Unset
    }
}

impl Field for BootpVendorData {
    open spec fn default_view() -> VendorDataView {
        VendorDataView::Unset
    }

    fn default_value() -> (r: BootpVendorData) {
        BootpVendorData::Unset
    }

    open spec fn draws() -> nat {
        0
    }

    open spec fn of_draws(d: Seq<u32>) -> VendorDataView {
        VendorDataView::Unset
    }

    fn random<R: RandomSource>(rng: &mut R) -> (r: BootpVendorData) {
        assert(rng.drawn().subrange(0, rng.drawn().len() as int) =~= rng.drawn());
        BootpVendorData::Unset
    }

    fn dup(&self) -> (r: BootpVendorData) {
        match self {
            BootpVendorData::Unset => BootpVendorData::Unset,
            BootpVendorData::Data(s) => BootpVendorData::Data(s.dup()),
        }
    }
}

/// An option inside the vendor-specific option of DHCP.
#[derive(Clone, Copy, Debug, PartialEq, Eq)]
pub enum VendorOptions {
    Pad,
    End,
}

/// The type of a DHCP message.
#[derive(Clone, Copy, Debug, PartialEq, Eq)]
pub enum DhcpMessageType {
    DhcpDiscover,
    DhcpOffer,
    DhcpRequest,
    DhcpDecline,
    DhcpAck,
    DhcpNak,
    DhcpRelease,
}

impl DhcpMessageType {
    /// The type that the number `code` stands for, from 1 for a discover to 7
    /// for a release.
    pub open spec fn of(code: u8) -> Option<DhcpMessageType> {
        if code == 1 {
            Some(DhcpMessageType::DhcpDiscover)
        } else if code == 2 {
            Some(DhcpMessageType::DhcpOffer)
        } else if code == 3 {
            Some(DhcpMessageType::DhcpRequest)
        } else if code == 4 {
            Some(DhcpMessageType::DhcpDecline)
        } else if code == 5 {
            Some(DhcpMessageType::DhcpAck)
        } else if code == 6 {
            Some(DhcpMessageType::DhcpNak)
        } else if code == 7 {
            Some(DhcpMessageType::DhcpRelease)
        } else {
            None
        }
    }

    /// The type that the number `code` stands for.
    pub fn from_repr(code: u8) -> (r: Option<DhcpMessageType>)
        ensures
            r == DhcpMessageType::of(code),
    {
        match code {
            1 => Some(DhcpMessageType::DhcpDiscover),
            2 => Some(DhcpMessageType::DhcpOffer),
            3 => Some(DhcpMessageType::DhcpRequest),
            4 => Some(DhcpMessageType::DhcpDecline),
            5 => Some(DhcpMessageType::DhcpAck),
            6 => Some(DhcpMessageType::DhcpNak),
            7 => Some(DhcpMessageType::DhcpRelease),
            _ => None,
        }
    }
}

impl Default for DhcpMessageType {
    fn default() -> (r: DhcpMessageType)
        ensures
            r == DhcpMessageType::DhcpDiscover,
    {
        DhcpMessageType::DhcpDiscover
    }
}

/// A copy of a vector of plain items.
pub fn copy_items<T: Copy>(v: &Vec<T>) -> (r: Vec<T>)
    ensures
        r@ == v@,
{
    let mut r: Vec<T> = Vec::new();
    let mut i: usize = 0;
    while i < v.len()
        invariant
            i <= v@.len(),
            r@ == v@.subrange(0, i as int),
        decreases v@.len() - i,
    {
        r.push(v[i]);
        i += 1;
        assert(r@ =~= v@.subrange(0, i as int));
    }
    assert(v@.subrange(0, v@.len() as int) =~= v@);
    r
}

/// An option of a DHCP message. The decoder tells the options apart by
/// their numbers and leaves their contents at the defaults.
#[derive(Clone, Debug, PartialEq, Eq)]
pub enum DhcpOption {
    /// The end of the options.
    End,
    /// Padding.
    Pad,
    SubnetMask(Ipv4Address),
    TimeOffset(i32),
    Router(Vec<Ipv4Address>),
    TimeServer(Vec<Ipv4Address>),
    NameServer(Vec<Ipv4Address>),
    DnsServer(Vec<Ipv4Address>),
    LogServer(Vec<Ipv4Address>),
    CookieServer(Vec<Ipv4Address>),
    LprServer(Vec<Ipv4Address>),
    ImpressServer(Vec<Ipv4Address>),
    RlocServer(Vec<Ipv4Address>),
    HostName(String),
    BootFileSize(u16),
    MeritDumpFile(String),
    DomainName(String),
    SwapServer(Ipv4Address),
    RootPath(String),
    ExtensionsPath(String),
    IpForwarding(u8),
    NonLocalSrcRouting(u8),
    PolicyFilter(Vec<(Ipv4Address, Ipv4Address)>),
    MaxReassemblySize(u16),
    DefaultTTL(u8),
    PmtudAgingTimeout(u32),
    PmtudPlateauTable(Vec<u16>),
    InterfaceMtu(u16),
    AllSubnetsAreLocal(u8),
    BroadcastAddress(Ipv4Address),
    PerformMaskDiscovery(u8),
    MaskSupplier(u8),
    PerformRouterDiscovery(u8),
    RouterSolicitationAddress(Ipv4Address),
    StaticRoute(Vec<(Ipv4Address, Ipv4Address)>),
    TrailerEncapsulation(u8),
    ArpCacheTimeout(u32),
    EthernetEncapsulation(u8),
    TcpDefaultTtl(u8),
    TcpKeepaliveInterval(u32),
    TcpKeepaliveGarbage(u8),
    NisDomain(String),
    NisServers(Vec<Ipv4Address>),
    NtpServers(Vec<Ipv4Address>),
    VendorSpecific(Vec<VendorOptions>),
    NetBiosNameServer(Vec<Ipv4Address>),
    NetBiosDatagramServer(Vec<Ipv4Address>),
    NetBiosNodeType(u8),
    NetBiosScope(String),
    XWindowsFontServer(Vec<Ipv4Address>),
    XWindowsDisplayManager(Vec<Ipv4Address>),
    RequestedIpAddress(Ipv4Address),
    AddressLeaseTime(u32),
    OptionOverload(u8),
    DhcpMessageType(DhcpMessageType),
    ServerIdentifier(Ipv4Address),
    ParameterRequestList(Vec<u8>),
    NakMessage(String),
    MaxDhcpMessageSize(u16),
    RenewalT1Value(u32),
    RebindT2Value(u32),
    ClientClass(Vec<u8>),
    ClientIdentifier(u8, Vec<u8>),
}

/// What a `DhcpOption` says, with its vectors and strings as sequences.
pub enum DhcpOptionView {
    End,
    Pad,
    SubnetMask(Ipv4Address),
    TimeOffset(i32),
    Router(Seq<Ipv4Address>),
    TimeServer(Seq<Ipv4Address>),
    NameServer(Seq<Ipv4Address>),
    DnsServer(Seq<Ipv4Address>),
    LogServer(Seq<Ipv4Address>),
    CookieServer(Seq<Ipv4Address>),
    LprServer(Seq<Ipv4Address>),
    ImpressServer(Seq<Ipv4Address>),
    RlocServer(Seq<Ipv4Address>),
    HostName(Seq<char>),
    BootFileSize(u16),
    MeritDumpFile(Seq<char>),
    DomainName(Seq<char>),
    SwapServer(Ipv4Address),
    RootPath(Seq<char>),
    ExtensionsPath(Seq<char>),
    IpForwarding(u8),
    NonLocalSrcRouting(u8),
    PolicyFilter(Seq<(Ipv4Address, Ipv4Address)>),
    MaxReassemblySize(u16),
    DefaultTTL(u8),
    PmtudAgingTimeout(u32),
    PmtudPlateauTable(Seq<u16>),
    InterfaceMtu(u16),
    AllSubnetsAreLocal(u8),
    BroadcastAddress(Ipv4Address),
    PerformMaskDiscovery(u8),
    MaskSupplier(u8),
    PerformRouterDiscovery(u8),
    RouterSolicitationAddress(Ipv4Address),
    StaticRoute(Seq<(Ipv4Address, Ipv4Address)>),
    TrailerEncapsulation(u8),
    ArpCacheTimeout(u32),
    EthernetEncapsulation(u8),
    TcpDefaultTtl(u8),
    TcpKeepaliveInterval(u32),
    TcpKeepaliveGarbage(u8),
    NisDomain(Seq<char>),
    NisServers(Seq<Ipv4Address>),
    NtpServers(Seq<Ipv4Address>),
    VendorSpecific(Seq<VendorOptions>),
    NetBiosNameServer(Seq<Ipv4Address>),
    NetBiosDatagramServer(Seq<Ipv4Address>),
    NetBiosNodeType(u8),
    NetBiosScope(Seq<char>),
    XWindowsFontServer(Seq<Ipv4Address>),
    XWindowsDisplayManager(Seq<Ipv4Address>),
    RequestedIpAddress(Ipv4Address),
    AddressLeaseTime(u32),
    OptionOverload(u8),
    DhcpMessageType(DhcpMessageType),
    ServerIdentifier(Ipv4Address),
    ParameterRequestList(Seq<u8>),
    NakMessage(Seq<char>),
    MaxDhcpMessageSize(u16),
    RenewalT1Value(u32),
    RebindT2Value(u32),
    ClientClass(Seq<u8>),
    ClientIdentifier(u8, Seq<u8>),
}

impl View for DhcpOption {
    type V = DhcpOptionView;

    open spec fn view(&self) -> DhcpOptionView {
        match self {
            DhcpOption::End => DhcpOptionView::End,
            DhcpOption::Pad => DhcpOptionView::Pad,
            DhcpOption::SubnetMask(x) => DhcpOptionView::SubnetMask(*x),
            DhcpOption::TimeOffset(x) => DhcpOptionView::TimeOffset(*x),
            DhcpOption::Router(x) => DhcpOptionView::Router(x@),
            DhcpOption::TimeServer(x) => DhcpOptionView::TimeServer(x@),
            DhcpOption::NameServer(x) => DhcpOptionView::NameServer(x@),
            DhcpOption::DnsServer(x) => DhcpOptionView::DnsServer(x@),
            DhcpOption::LogServer(x) => DhcpOptionView::LogServer(x@),
            DhcpOption::CookieServer(x) => DhcpOptionView::CookieServer(x@),
            DhcpOption::LprServer(x) => DhcpOptionView::LprServer(x@),
            DhcpOption::ImpressServer(x) => DhcpOptionView::ImpressServer(x@),
            DhcpOption::RlocServer(x) => DhcpOptionView::RlocServer(x@),
            DhcpOption::HostName(x) => DhcpOptionView::HostName(x@),
            DhcpOption::BootFileSize(x) => DhcpOptionView::BootFileSize(*x),
            DhcpOption::MeritDumpFile(x) => DhcpOptionView::MeritDumpFile(x@),
            DhcpOption::DomainName(x) => DhcpOptionView::DomainName(x@),
            DhcpOption::SwapServer(x) => DhcpOptionView::SwapServer(*x),
            DhcpOption::RootPath(x) => DhcpOptionView::RootPath(x@),
            DhcpOption::ExtensionsPath(x) => DhcpOptionView::ExtensionsPath(x@),
            DhcpOption::IpForwarding(x) => DhcpOptionView::IpForwarding(*x),
            DhcpOption::NonLocalSrcRouting(x) => DhcpOptionView::NonLocalSrcRouting(*x),
            DhcpOption::PolicyFilter(x) => DhcpOptionView::PolicyFilter(x@),
            DhcpOption::MaxReassemblySize(x) => DhcpOptionView::MaxReassemblySize(*x),
            DhcpOption::DefaultTTL(x) => DhcpOptionView::DefaultTTL(*x),
            DhcpOption::PmtudAgingTimeout(x) => DhcpOptionView::PmtudAgingTimeout(*x),
            DhcpOption::PmtudPlateauTable(x) => DhcpOptionView::PmtudPlateauTable(x@),
            DhcpOption::InterfaceMtu(x) => DhcpOptionView::InterfaceMtu(*x),
            DhcpOption::AllSubnetsAreLocal(x) => DhcpOptionView::AllSubnetsAreLocal(*x),
            DhcpOption::BroadcastAddress(x) => DhcpOptionView::BroadcastAddress(*x),
            DhcpOption::PerformMaskDiscovery(x) => DhcpOptionView::PerformMaskDiscovery(*x),
            DhcpOption::MaskSupplier(x) => DhcpOptionView::MaskSupplier(*x),
            DhcpOption::PerformRouterDiscovery(x) => {
                DhcpOptionView::PerformRouterDiscovery(*x)
            },
            DhcpOption::RouterSolicitationAddress(x) => {
                DhcpOptionView::RouterSolicitationAddress(*x)
            },
            DhcpOption::StaticRoute(x) => DhcpOptionView::StaticRoute(x@),
            DhcpOption::TrailerEncapsulation(x) => DhcpOptionView::TrailerEncapsulation(*x),
            DhcpOption::ArpCacheTimeout(x) => DhcpOptionView::ArpCacheTimeout(*x),
            DhcpOption::EthernetEncapsulation(x) => {
                DhcpOptionView::EthernetEncapsulation(*x)
            },
            DhcpOption::TcpDefaultTtl(x) => DhcpOptionView::TcpDefaultTtl(*x),
            DhcpOption::TcpKeepaliveInterval(x) => DhcpOptionView::TcpKeepaliveInterval(*x),
            DhcpOption::TcpKeepaliveGarbage(x) => DhcpOptionView::TcpKeepaliveGarbage(*x),
            DhcpOption::NisDomain(x) => DhcpOptionView::NisDomain(x@),
            DhcpOption::NisServers(x) => DhcpOptionView::NisServers(x@),
            DhcpOption::NtpServers(x) => DhcpOptionView::NtpServers(x@),
            DhcpOption::VendorSpecific(x) => DhcpOptionView::VendorSpecific(x@),
            DhcpOption::NetBiosNameServer(x) => DhcpOptionView::NetBiosNameServer(x@),
            DhcpOption::NetBiosDatagramServer(x) => {
                DhcpOptionView::NetBiosDatagramServer(x@)
            },
            DhcpOption::NetBiosNodeType(x) => DhcpOptionView::NetBiosNodeType(*x),
            DhcpOption::NetBiosScope(x) => DhcpOptionView::NetBiosScope(x@),
            DhcpOption::XWindowsFontServer(x) => DhcpOptionView::XWindowsFontServer(x@),
            DhcpOption::XWindowsDisplayManager(x) => {
                DhcpOptionView::XWindowsDisplayManager(x@)
            },
            DhcpOption::RequestedIpAddress(x) => DhcpOptionView::RequestedIpAddress(*x),
            DhcpOption::AddressLeaseTime(x) => DhcpOptionView::AddressLeaseTime(*x),
            DhcpOption::OptionOverload(x) => DhcpOptionView::OptionOverload(*x),
            DhcpOption::DhcpMessageType(x) => DhcpOptionView::DhcpMessageType(*x),
            DhcpOption::ServerIdentifier(x) => DhcpOptionView::ServerIdentifier(*x),
            DhcpOption::ParameterRequestList(x) => DhcpOptionView::ParameterRequestList(x@),
            DhcpOption::NakMessage(x) => DhcpOptionView::NakMessage(x@),
            DhcpOption::MaxDhcpMessageSize(x) => DhcpOptionView::MaxDhcpMessageSize(*x),
            DhcpOption::RenewalT1Value(x) => DhcpOptionView::RenewalT1Value(*x),
            DhcpOption::RebindT2Value(x) => DhcpOptionView::RebindT2Value(*x),
            DhcpOption::ClientClass(x) => DhcpOptionView::ClientClass(x@),
            DhcpOption::ClientIdentifier(t, x) => DhcpOptionView::ClientIdentifier(*t, x@),
        }
    }
}

impl DhcpOptionView {
    /// The option with the number `code` and contents at their defaults, or
    /// `None` where no option has that number.
    pub open spec fn of(code: u8) -> Option<DhcpOptionView> {
        if code == 255 {
            Some(DhcpOptionView::End)
        } else if code == 0 {
            Some(DhcpOptionView::Pad)
        } else if code == 1 {
            Some(DhcpOptionView::SubnetMask(Ipv4Address::default_view()))
        } else if code == 2 {
            Some(DhcpOptionView::TimeOffset(0))
        } else if code == 3 {
            Some(DhcpOptionView::Router(Seq::empty()))
        } else if code == 4 {
            Some(DhcpOptionView::TimeServer(Seq::empty()))
        } else if code == 5 {
            Some(DhcpOptionView::NameServer(Seq::empty()))
        } else if code == 6 {
            Some(DhcpOptionView::DnsServer(Seq::empty()))
        } else if code == 7 {
            Some(DhcpOptionView::LogServer(Seq::empty()))
        } else if code == 8 {
            Some(DhcpOptionView::CookieServer(Seq::empty()))
        } else if code == 9 {
            Some(DhcpOptionView::LprServer(Seq::empty()))
        } else if code == 10 {
            Some(DhcpOptionView::ImpressServer(Seq::empty()))
        } else if code == 11 {
            Some(DhcpOptionView::RlocServer(Seq::empty()))
        } else if code == 12 {
            Some(DhcpOptionView::HostName(Seq::empty()))
        } else if code == 13 {
            Some(DhcpOptionView::BootFileSize(0))
        } else if code == 14 {
            Some(DhcpOptionView::MeritDumpFile(Seq::empty()))
        } else if code == 15 {
            Some(DhcpOptionView::DomainName(Seq::empty()))
        } else if code == 16 {
            Some(DhcpOptionView::SwapServer(Ipv4Address::default_view()))
        } else if code == 17 {
            Some(DhcpOptionView::RootPath(Seq::empty()))
        } else if code == 18 {
            Some(DhcpOptionView::ExtensionsPath(Seq::empty()))
        } else if code == 19 {
            Some(DhcpOptionView::IpForwarding(0))
        } else if code == 20 {
            Some(DhcpOptionView::NonLocalSrcRouting(0))
        } else if code == 21 {
            Some(DhcpOptionView::PolicyFilter(Seq::empty()))
        } else if code == 22 {
            Some(DhcpOptionView::MaxReassemblySize(0))
        } else if code == 23 {
            Some(DhcpOptionView::DefaultTTL(0))
        } else if code == 24 {
            Some(DhcpOptionView::PmtudAgingTimeout(0))
        } else if code == 25 {
            Some(DhcpOptionView::PmtudPlateauTable(Seq::empty()))
        } else if code == 26 {
            Some(DhcpOptionView::InterfaceMtu(0))
        } else if code == 27 {
            Some(DhcpOptionView::AllSubnetsAreLocal(0))
        } else if code == 28 {
            Some(DhcpOptionView::BroadcastAddress(Ipv4Address::default_view()))
        } else if code == 29 {
            Some(DhcpOptionView::PerformMaskDiscovery(0))
        } else if code == 30 {
            Some(DhcpOptionView::MaskSupplier(0))
        } else if code == 31 {
            Some(DhcpOptionView::PerformRouterDiscovery(0))
        } else if code == 32 {
            Some(DhcpOptionView::RouterSolicitationAddress(Ipv4Address::default_view()))
        } else if code == 33 {
            Some(DhcpOptionView::StaticRoute(Seq::empty()))
        } else if code == 34 {
            Some(DhcpOptionView::TrailerEncapsulation(0))
        } else if code == 35 {
            Some(DhcpOptionView::ArpCacheTimeout(0))
        } else if code == 36 {
            Some(DhcpOptionView::EthernetEncapsulation(0))
        } else if code == 37 {
            Some(DhcpOptionView::TcpDefaultTtl(0))
        } else if code == 38 {
            Some(DhcpOptionView::TcpKeepaliveInterval(0))
        } else if code == 39 {
            Some(DhcpOptionView::TcpKeepaliveGarbage(0))
        } else if code == 40 {
            Some(DhcpOptionView::NisDomain(Seq::empty()))
        } else if code == 41 {
            Some(DhcpOptionView::NisServers(Seq::empty()))
        } else if code == 42 {
            Some(DhcpOptionView::NtpServers(Seq::empty()))
        } else if code == 43 {
            Some(DhcpOptionView::VendorSpecific(Seq::empty()))
        } else if code == 44 {
            Some(DhcpOptionView::NetBiosNameServer(Seq::empty()))
        } else if code == 45 {
            Some(DhcpOptionView::NetBiosDatagramServer(Seq::empty()))
        } else if code == 46 {
            Some(DhcpOptionView::NetBiosNodeType(0))
        } else if code == 47 {
            Some(DhcpOptionView::NetBiosScope(Seq::empty()))
        } else if code == 48 {
            Some(DhcpOptionView::XWindowsFontServer(Seq::empty()))
        } else if code == 49 {
            Some(DhcpOptionView::XWindowsDisplayManager(Seq::empty()))
        } else if code == 50 {
            Some(DhcpOptionView::RequestedIpAddress(Ipv4Address::default_view()))
        } else if code == 51 {
            Some(DhcpOptionView::AddressLeaseTime(0))
        } else if code == 52 {
            Some(DhcpOptionView::OptionOverload(0))
        } else if code == 53 {
            Some(DhcpOptionView::DhcpMessageType(DhcpMessageType::DhcpDiscover))
        } else if code == 54 {
            Some(DhcpOptionView::ServerIdentifier(Ipv4Address::default_view()))
        } else if code == 55 {
            Some(DhcpOptionView::ParameterRequestList(Seq::empty()))
        } else if code == 56 {
            Some(DhcpOptionView::NakMessage(Seq::empty()))
        } else if code == 57 {
            Some(DhcpOptionView::MaxDhcpMessageSize(0))
        } else if code == 58 {
            Some(DhcpOptionView::RenewalT1Value(0))
        } else if code == 59 {
            Some(DhcpOptionView::RebindT2Value(0))
        } else if code == 60 {
            Some(DhcpOptionView::ClientClass(Seq::empty()))
        } else if code == 61 {
            Some(DhcpOptionView::ClientIdentifier(0, Seq::empty()))
        } else {
            None
        }
    }

    /// The number of the option.
    pub open spec fn code(self) -> u8 {
        match self {
            DhcpOptionView::End => 255,
            DhcpOptionView::Pad => 0,
            DhcpOptionView::SubnetMask(_) => 1,
            DhcpOptionView::TimeOffset(_) => 2,
            DhcpOptionView::Router(_) => 3,
            DhcpOptionView::TimeServer(_) => 4,
            DhcpOptionView::NameServer(_) => 5,
            DhcpOptionView::DnsServer(_) => 6,
            DhcpOptionView::LogServer(_) => 7,
            DhcpOptionView::CookieServer(_) => 8,
            DhcpOptionView::LprServer(_) => 9,
            DhcpOptionView::ImpressServer(_) => 10,
            DhcpOptionView::RlocServer(_) => 11,
            DhcpOptionView::HostName(_) => 12,
            DhcpOptionView::BootFileSize(_) => 13,
            DhcpOptionView::MeritDumpFile(_) => 14,
            DhcpOptionView::DomainName(_) => 15,
            DhcpOptionView::SwapServer(_) => 16,
            DhcpOptionView::RootPath(_) => 17,
            DhcpOptionView::ExtensionsPath(_) => 18,
            DhcpOptionView::IpForwarding(_) => 19,
            DhcpOptionView::NonLocalSrcRouting(_) => 20,
            DhcpOptionView::PolicyFilter(_) => 21,
            DhcpOptionView::MaxReassemblySize(_) => 22,
            DhcpOptionView::DefaultTTL(_) => 23,
            DhcpOptionView::PmtudAgingTimeout(_) => 24,
            DhcpOptionView::PmtudPlateauTable(_) => 25,
            DhcpOptionView::InterfaceMtu(_) => 26,
            DhcpOptionView::AllSubnetsAreLocal(_) => 27,
            DhcpOptionView::BroadcastAddress(_) => 28,
            DhcpOptionView::PerformMaskDiscovery(_) => 29,
            DhcpOptionView::MaskSupplier(_) => 30,
            DhcpOptionView::PerformRouterDiscovery(_) => 31,
            DhcpOptionView::RouterSolicitationAddress(_) => 32,
            DhcpOptionView::StaticRoute(_) => 33,
            DhcpOptionView::TrailerEncapsulation(_) => 34,
            DhcpOptionView::ArpCacheTimeout(_) => 35,
            DhcpOptionView::EthernetEncapsulation(_) => 36,
            DhcpOptionView::TcpDefaultTtl(_) => 37,
            DhcpOptionView::TcpKeepaliveInterval(_) => 38,
            DhcpOptionView::TcpKeepaliveGarbage(_) => 39,
            DhcpOptionView::NisDomain(_) => 40,
            DhcpOptionView::NisServers(_) => 41,
            DhcpOptionView::NtpServers(_) => 42,
            DhcpOptionView::VendorSpecific(_) => 43,
            DhcpOptionView::NetBiosNameServer(_) => 44,
            DhcpOptionView::NetBiosDatagramServer(_) => 45,
            DhcpOptionView::NetBiosNodeType(_) => 46,
            DhcpOptionView::NetBiosScope(_) => 47,
            DhcpOptionView::XWindowsFontServer(_) => 48,
            DhcpOptionView::XWindowsDisplayManager(_) => 49,
            DhcpOptionView::RequestedIpAddress(_) => 50,
            DhcpOptionView::AddressLeaseTime(_) => 51,
            DhcpOptionView::OptionOverload(_) => 52,
            DhcpOptionView::DhcpMessageType(_) => 53,
            DhcpOptionView::ServerIdentifier(_) => 54,
            DhcpOptionView::ParameterRequestList(_) => 55,
            DhcpOptionView::NakMessage(_) => 56,
            DhcpOptionView::MaxDhcpMessageSize(_) => 57,
            DhcpOptionView::RenewalT1Value(_) => 58,
            DhcpOptionView::RebindT2Value(_) => 59,
            DhcpOptionView::ClientClass(_) => 60,
            DhcpOptionView::ClientIdentifier(_, _) => 61,
        }
    }
}

impl DhcpOption {
    /// The option with the number `code` and contents at their defaults, or
    /// `None` where no option has that number.
    pub fn from_repr(code: u8) -> (r: Option<DhcpOption>)
        ensures
            match r {
                Some(o) => DhcpOptionView::of(code) == Some(o@),
                None => DhcpOptionView::of(code) is None,
            },
    {
        match code {
            255 => Some(DhcpOption::End),
            0 => Some(DhcpOption::Pad),
            1 => Some(DhcpOption::SubnetMask(Ipv4Address::default_value())),
            2 => Some(DhcpOption::TimeOffset(0)),
            3 => Some(DhcpOption::Router(Vec::new())),
            4 => Some(DhcpOption::TimeServer(Vec::new())),
            5 => Some(DhcpOption::NameServer(Vec::new())),
            6 => Some(DhcpOption::DnsServer(Vec::new())),
            7 => Some(DhcpOption::LogServer(Vec::new())),
            8 => Some(DhcpOption::CookieServer(Vec::new())),
            9 => Some(DhcpOption::LprServer(Vec::new())),
            10 => Some(DhcpOption::ImpressServer(Vec::new())),
            11 => Some(DhcpOption::RlocServer(Vec::new())),
            12 => Some(DhcpOption::HostName(String::new())),
            13 => Some(DhcpOption::BootFileSize(0)),
            14 => Some(DhcpOption::MeritDumpFile(String::new())),
            15 => Some(DhcpOption::DomainName(String::new())),
            16 => Some(DhcpOption::SwapServer(Ipv4Address::default_value())),
            17 => Some(DhcpOption::RootPath(String::new())),
            18 => Some(DhcpOption::ExtensionsPath(String::new())),
            19 => Some(DhcpOption::IpForwarding(0)),
            20 => Some(DhcpOption::NonLocalSrcRouting(0)),
            21 => Some(DhcpOption::PolicyFilter(Vec::new())),
            22 => Some(DhcpOption::MaxReassemblySize(0)),
            23 => Some(DhcpOption::DefaultTTL(0)),
            24 => Some(DhcpOption::PmtudAgingTimeout(0)),
            25 => Some(DhcpOption::PmtudPlateauTable(Vec::new())),
            26 => Some(DhcpOption::InterfaceMtu(0)),
            27 => Some(DhcpOption::AllSubnetsAreLocal(0)),
            28 => Some(DhcpOption::BroadcastAddress(Ipv4Address::default_value())),
            29 => Some(DhcpOption::PerformMaskDiscovery(0)),
            30 => Some(DhcpOption::MaskSupplier(0)),
            31 => Some(DhcpOption::PerformRouterDiscovery(0)),
            32 => Some(DhcpOption::RouterSolicitationAddress(Ipv4Address::default_value())),
            33 => Some(DhcpOption::StaticRoute(Vec::new())),
            34 => Some(DhcpOption::TrailerEncapsulation(0)),
            35 => Some(DhcpOption::ArpCacheTimeout(0)),
            36 => Some(DhcpOption::EthernetEncapsulation(0)),
            37 => Some(DhcpOption::TcpDefaultTtl(0)),
            38 => Some(DhcpOption::TcpKeepaliveInterval(0)),
            39 => Some(DhcpOption::TcpKeepaliveGarbage(0)),
            40 => Some(DhcpOption::NisDomain(String::new())),
            41 => Some(DhcpOption::NisServers(Vec::new())),
            42 => Some(DhcpOption::NtpServers(Vec::new())),
            43 => Some(DhcpOption::VendorSpecific(Vec::new())),
            44 => Some(DhcpOption::NetBiosNameServer(Vec::new())),
            45 => Some(DhcpOption::NetBiosDatagramServer(Vec::new())),
            46 => Some(DhcpOption::NetBiosNodeType(0)),
            47 => Some(DhcpOption::NetBiosScope(String::new())),
            48 => Some(DhcpOption::XWindowsFontServer(Vec::new())),
            49 => Some(DhcpOption::XWindowsDisplayManager(Vec::new())),
            50 => Some(DhcpOption::RequestedIpAddress(Ipv4Address::default_value())),
            51 => Some(DhcpOption::AddressLeaseTime(0)),
            52 => Some(DhcpOption::OptionOverload(0)),
            53 => Some(DhcpOption::DhcpMessageType(DhcpMessageType::DhcpDiscover)),
            54 => Some(DhcpOption::ServerIdentifier(Ipv4Address::default_value())),
            55 => Some(DhcpOption::ParameterRequestList(Vec::new())),
            56 => Some(DhcpOption::NakMessage(String::new())),
            57 => Some(DhcpOption::MaxDhcpMessageSize(0)),
            58 => Some(DhcpOption::RenewalT1Value(0)),
            59 => Some(DhcpOption::RebindT2Value(0)),
            60 => Some(DhcpOption::ClientClass(Vec::new())),
            61 => Some(DhcpOption::ClientIdentifier(0, Vec::new())),
            _ => None,
        }
    }

    /// The number of the option.
    pub fn code(&self) -> (r: u8)
        ensures
            r == self@.code(),
    {
        match self {
            DhcpOption::End => 255,
            DhcpOption::Pad => 0,
            DhcpOption::SubnetMask(_) => 1,
            DhcpOption::TimeOffset(_) => 2,
            DhcpOption::Router(_) => 3,
            DhcpOption::TimeServer(_) => 4,
            DhcpOption::NameServer(_) => 5,
            DhcpOption::DnsServer(_) => 6,
            DhcpOption::LogServer(_) => 7,
            DhcpOption::CookieServer(_) => 8,
            DhcpOption::LprServer(_) => 9,
            DhcpOption::ImpressServer(_) => 10,
            DhcpOption::RlocServer(_) => 11,
            DhcpOption::HostName(_) => 12,
            DhcpOption::BootFileSize(_) => 13,
            DhcpOption::MeritDumpFile(_) => 14,
            DhcpOption::DomainName(_) => 15,
            DhcpOption::SwapServer(_) => 16,
            DhcpOption::RootPath(_) => 17,
            DhcpOption::ExtensionsPath(_) => 18,
            DhcpOption::IpForwarding(_) => 19,
            DhcpOption::NonLocalSrcRouting(_) => 20,
            DhcpOption::PolicyFilter(_) => 21,
            DhcpOption::MaxReassemblySize(_) => 22,
            DhcpOption::DefaultTTL(_) => 23,
            DhcpOption::PmtudAgingTimeout(_) => 24,
            DhcpOption::PmtudPlateauTable(_) => 25,
            DhcpOption::InterfaceMtu(_) => 26,
            DhcpOption::AllSubnetsAreLocal(_) => 27,
            DhcpOption::BroadcastAddress(_) => 28,
            DhcpOption::PerformMaskDiscovery(_) => 29,
            DhcpOption::MaskSupplier(_) => 30,
            DhcpOption::PerformRouterDiscovery(_) => 31,
            DhcpOption::RouterSolicitationAddress(_) => 32,
            DhcpOption::StaticRoute(_) => 33,
            DhcpOption::TrailerEncapsulation(_) => 34,
            DhcpOption::ArpCacheTimeout(_) => 35,
            DhcpOption::EthernetEncapsulation(_) => 36,
            DhcpOption::TcpDefaultTtl(_) => 37,
            DhcpOption::TcpKeepaliveInterval(_) => 38,
            DhcpOption::TcpKeepaliveGarbage(_) => 39,
            DhcpOption::NisDomain(_) => 40,
            DhcpOption::NisServers(_) => 41,
            DhcpOption::NtpServers(_) => 42,
            DhcpOption::VendorSpecific(_) => 43,
            DhcpOption::NetBiosNameServer(_) => 44,
            DhcpOption::NetBiosDatagramServer(_) => 45,
            DhcpOption::NetBiosNodeType(_) => 46,
            DhcpOption::NetBiosScope(_) => 47,
            DhcpOption::XWindowsFontServer(_) => 48,
            DhcpOption::XWindowsDisplayManager(_) => 49,
            DhcpOption::RequestedIpAddress(_) => 50,
            DhcpOption::AddressLeaseTime(_) => 51,
            DhcpOption::OptionOverload(_) => 52,
            DhcpOption::DhcpMessageType(_) => 53,
            DhcpOption::ServerIdentifier(_) => 54,
            DhcpOption::ParameterRequestList(_) => 55,
            DhcpOption::NakMessage(_) => 56,
            DhcpOption::MaxDhcpMessageSize(_) => 57,
            DhcpOption::RenewalT1Value(_) => 58,
            DhcpOption::RebindT2Value(_) => 59,
            DhcpOption::ClientClass(_) => 60,
            DhcpOption::ClientIdentifier(_, _) => 61,
        }
    }

    /// A copy of the option.
    pub fn dup(&self) -> (r: DhcpOption)
        ensures
            r@ == self@,
    {
        match self {
            DhcpOption::End => DhcpOption::End,
            DhcpOption::Pad => DhcpOption::Pad,
            DhcpOption::SubnetMask(x) => DhcpOption::SubnetMask(*x),
            DhcpOption::TimeOffset(x) => DhcpOption::TimeOffset(*x),
            DhcpOption::Router(x) => DhcpOption::Router(copy_items(x)),
            DhcpOption::TimeServer(x) => DhcpOption::TimeServer(copy_items(x)),
            DhcpOption::NameServer(x) => DhcpOption::NameServer(copy_items(x)),
            DhcpOption::DnsServer(x) => DhcpOption::DnsServer(copy_items(x)),
            DhcpOption::LogServer(x) => DhcpOption::LogServer(copy_items(x)),
            DhcpOption::CookieServer(x) => DhcpOption::CookieServer(copy_items(x)),
            DhcpOption::LprServer(x) => DhcpOption::LprServer(copy_items(x)),
            DhcpOption::ImpressServer(x) => DhcpOption::ImpressServer(copy_items(x)),
            DhcpOption::RlocServer(x) => DhcpOption::RlocServer(copy_items(x)),
            DhcpOption::HostName(x) => DhcpOption::HostName(x.clone()),
            DhcpOption::BootFileSize(x) => DhcpOption::BootFileSize(*x),
            DhcpOption::MeritDumpFile(x) => DhcpOption::MeritDumpFile(x.clone()),
            DhcpOption::DomainName(x) => DhcpOption::DomainName(x.clone()),
            DhcpOption::SwapServer(x) => DhcpOption::SwapServer(*x),
            DhcpOption::RootPath(x) => DhcpOption::RootPath(x.clone()),
            DhcpOption::ExtensionsPath(x) => DhcpOption::ExtensionsPath(x.clone()),
            DhcpOption::IpForwarding(x) => DhcpOption::IpForwarding(*x),
            DhcpOption::NonLocalSrcRouting(x) => DhcpOption::NonLocalSrcRouting(*x),
            DhcpOption::PolicyFilter(x) => DhcpOption::PolicyFilter(copy_items(x)),
            DhcpOption::MaxReassemblySize(x) => DhcpOption::MaxReassemblySize(*x),
            DhcpOption::DefaultTTL(x) => DhcpOption::DefaultTTL(*x),
            DhcpOption::PmtudAgingTimeout(x) => DhcpOption::PmtudAgingTimeout(*x),
            DhcpOption::PmtudPlateauTable(x) => {
                DhcpOption::PmtudPlateauTable(copy_items(x))
            },
            DhcpOption::InterfaceMtu(x) => DhcpOption::InterfaceMtu(*x),
            DhcpOption::AllSubnetsAreLocal(x) => DhcpOption::AllSubnetsAreLocal(*x),
            DhcpOption::BroadcastAddress(x) => DhcpOption::BroadcastAddress(*x),
            DhcpOption::PerformMaskDiscovery(x) => DhcpOption::PerformMaskDiscovery(*x),
            DhcpOption::MaskSupplier(x) => DhcpOption::MaskSupplier(*x),
            DhcpOption::PerformRouterDiscovery(x) => DhcpOption::PerformRouterDiscovery(*x),
            DhcpOption::RouterSolicitationAddress(x) => {
                DhcpOption::RouterSolicitationAddress(*x)
            },
            DhcpOption::StaticRoute(x) => DhcpOption::StaticRoute(copy_items(x)),
            DhcpOption::TrailerEncapsulation(x) => DhcpOption::TrailerEncapsulation(*x),
            DhcpOption::ArpCacheTimeout(x) => DhcpOption::ArpCacheTimeout(*x),
            DhcpOption::EthernetEncapsulation(x) => DhcpOption::EthernetEncapsulation(*x),
            DhcpOption::TcpDefaultTtl(x) => DhcpOption::TcpDefaultTtl(*x),
            DhcpOption::TcpKeepaliveInterval(x) => DhcpOption::TcpKeepaliveInterval(*x),
            DhcpOption::TcpKeepaliveGarbage(x) => DhcpOption::TcpKeepaliveGarbage(*x),
            DhcpOption::NisDomain(x) => DhcpOption::NisDomain(x.clone()),
            DhcpOption::NisServers(x) => DhcpOption::NisServers(copy_items(x)),
            DhcpOption::NtpServers(x) => DhcpOption::NtpServers(copy_items(x)),
            DhcpOption::VendorSpecific(x) => DhcpOption::VendorSpecific(copy_items(x)),
            DhcpOption::NetBiosNameServer(x) => {
                DhcpOption::NetBiosNameServer(copy_items(x))
            },
            DhcpOption::NetBiosDatagramServer(x) => {
                DhcpOption::NetBiosDatagramServer(copy_items(x))
            },
            DhcpOption::NetBiosNodeType(x) => DhcpOption::NetBiosNodeType(*x),
            DhcpOption::NetBiosScope(x) => DhcpOption::NetBiosScope(x.clone()),
            DhcpOption::XWindowsFontServer(x) => {
                DhcpOption::XWindowsFontServer(copy_items(x))
            },
            DhcpOption::XWindowsDisplayManager(x) => {
                DhcpOption::XWindowsDisplayManager(copy_items(x))
            },
            DhcpOption::RequestedIpAddress(x) => DhcpOption::RequestedIpAddress(*x),
            DhcpOption::AddressLeaseTime(x) => DhcpOption::AddressLeaseTime(*x),
            DhcpOption::OptionOverload(x) => DhcpOption::OptionOverload(*x),
            DhcpOption::DhcpMessageType(x) => DhcpOption::DhcpMessageType(*x),
            DhcpOption::ServerIdentifier(x) => DhcpOption::ServerIdentifier(*x),
            DhcpOption::ParameterRequestList(x) => {
                DhcpOption::ParameterRequestList(copy_items(x))
            },
            DhcpOption::NakMessage(x) => DhcpOption::NakMessage(x.clone()),
            DhcpOption::MaxDhcpMessageSize(x) => DhcpOption::MaxDhcpMessageSize(*x),
            DhcpOption::RenewalT1Value(x) => DhcpOption::RenewalT1Value(*x),
            DhcpOption::RebindT2Value(x) => DhcpOption::RebindT2Value(*x),
            DhcpOption::ClientClass(x) => DhcpOption::ClientClass(copy_items(x)),
            DhcpOption::ClientIdentifier(t, x) => {
                DhcpOption::ClientIdentifier(*t, copy_items(x))
            },
        }
    }
}

/// The options of `options`, each by its view.
pub open spec fn dhcp_options_view(options: Seq<DhcpOption>) -> Seq<DhcpOptionView> {
    Seq::new(options.len(), |i: int| options[i]@)
}

/// A copy of a list of options.
pub fn copy_dhcp_options(options: &Vec<DhcpOption>) -> (r: Vec<DhcpOption>)
    ensures
        dhcp_options_view(r@) == dhcp_options_view(options@),
{
    let mut r: Vec<DhcpOption> = Vec::new();
    let mut i: usize = 0;
    while i < options.len()
        invariant
            i <= options@.len(),
            r@.len() == i,
            forall|k: int| 0 <= k < i ==> (#[trigger] r@[k])@ == options@[k]@,
        decreases options@.len() - i,
    {
        r.push(options[i].dup());
        i += 1;
    }
    assert(dhcp_options_view(r@) =~= dhcp_options_view(options@));
    r
}

/// The options of `buf` from position `ci` on and the position behind the
/// last of them. A byte of zero is padding and a byte of 255 ends the
/// options; any other known number begins an option of a length byte and
/// that many bytes of content, which is passed over. Reading stops before a
/// number that is not known and before an option that `buf` does not hold in
/// full.
pub open spec fn parse_options(buf: Seq<u8>, ci: int) -> (Seq<DhcpOptionView>, nat)
    decreases buf.len() - ci,
{
    if ci < 0 || ci >= buf.len() {
        (Seq::empty(), buf.len())
    } else if buf[ci] == 0 {
        let rest = parse_options(buf, ci + 1);
        (seq![DhcpOptionView::Pad] + rest.0, rest.1)
    } else if buf[ci] == 255 {
        (seq![DhcpOptionView::End], (ci + 1) as nat)
    } else if DhcpOptionView::of(buf[ci]) is Some && ci + 1 < buf.len() && ci + 2 + buf[ci + 1]
        <= buf.len() {
        let rest = parse_options(buf, ci + 2 + buf[ci + 1]);
        (seq![DhcpOptionView::of(buf[ci])->0] + rest.0, rest.1)
    } else {
        (Seq::empty(), ci as nat)
    }
}

/// Reads the options at the front of `buf`: the options and the number of
/// bytes they take.
pub fn decode_dhcp_opts(buf: &[u8]) -> (r: (Vec<DhcpOption>, usize))
    ensures
        parse_options(buf@, 0) == (dhcp_options_view(r.0@), r.1 as nat),
        r.1 <= buf@.len(),
{
    let mut ci: usize = 0;
    let mut out: Vec<DhcpOption> = Vec::new();
    assert(dhcp_options_view(out@) + parse_options(buf@, 0).0 =~= parse_options(buf@, 0).0);
    while ci < buf.len()
        invariant
            ci <= buf@.len(),
            parse_options(buf@, 0).0 == dhcp_options_view(out@) + parse_options(buf@, ci as int).0,
            parse_options(buf@, 0).1 == parse_options(buf@, ci as int).1,
        decreases buf@.len() - ci,
    {
        let code: u8 = buf[ci];
        let ghost before = dhcp_options_view(out@);
        if code == 0 {
            out.push(DhcpOption::Pad);
            assert(dhcp_options_view(out@) =~= before.push(DhcpOptionView::Pad));
            assert(before + (seq![DhcpOptionView::Pad] + parse_options(buf@, ci + 1).0)
                =~= before.push(DhcpOptionView::Pad) + parse_options(buf@, ci + 1).0);
            ci += 1;
        } else if code == 255 {
            out.push(DhcpOption::End);
            assert(dhcp_options_view(out@) =~= before + seq![DhcpOptionView::End]);
            return (out, ci + 1);
        } else {
            match DhcpOption::from_repr(code) {
                Some(o) => {
                    if buf.len() - ci < 2 || buf.len() - ci - 2 < buf[ci + 1] as usize {
                        assert(before + Seq::<DhcpOptionView>::empty() =~= before);
                        return (out, ci);
                    }
                    let ghost ov = o@;
                    let step: usize = 2 + buf[ci + 1] as usize;
                    out.push(o);
                    assert(dhcp_options_view(out@) =~= before.push(ov));
                    assert(before + (seq![ov] + parse_options(buf@, ci + step).0)
                        =~= before.push(ov) + parse_options(buf@, ci + step).0);
                    ci += step;
                },
                None => {
                    assert(before + Seq::<DhcpOptionView>::empty() =~= before);
                    return (out, ci);
                },
            }
        }
    }
    assert(dhcp_options_view(out@) + Seq::<DhcpOptionView>::empty() =~= dhcp_options_view(out@));
    (out, ci)
}

} // verus!
