//! The User Datagram Protocol.

use crate::addr::Ipv4Address;
use crate::checksum::fold_u32;
use crate::checksum::folded;
use crate::checksum::get_inet_sum;
use crate::checksum::inet_sum;
use crate::checksum::inet_sum_all;
use crate::checksum::update_inet_sum;
use crate::codec::BinaryBigEndian;
use crate::codec::Encoder;
use crate::codec::Endian;
use crate::codec::lemma_u16_inverse;
use crate::codec::u16_bytes;
use crate::codec::u16_of;
use crate::codec::u32_bytes;
use crate::encoding::EncodingVecVec;
use crate::encoding::Outer;
use crate::registry::LayerKind;
use crate::registry::Registry;
use crate::registry::RegistryEntry;
use crate::registry::RegistryName;
use crate::registry::field_u16;
use crate::registry::key_of_u16;
use crate::registry::key_u16;
use crate::registry::next_key;
use crate::registry::to_field_u16;
use crate::value::Field;
use crate::value::RandomSource;
use crate::value::Value;
use crate::value::ValueView;
use crate::value::behind;
use crate::value::drew;
use crate::value::fresh;
use crate::value::lemma_drew_first;
use crate::value::lemma_drew_none;
use crate::value::share;
use crate::wire::put;
use crate::wire::put_bytes;
use crate::wire::take;
use crate::wire::wire_len;
use vstd::prelude::*;

verus! {

/// A UDP header: ports, length and checksum.
#[derive(Clone, Copy, Debug, PartialEq, Eq)]
pub struct Udp {
    /// The source port. An open one is filled with the port registered for
    /// the layer that follows, or with 65535.
    pub sport: Value<u16>,
    /// The destination port. An open one is filled with the port registered
    /// for the layer that follows, or with 0.
    pub dport: Value<u16>,
    /// The length of header and payload. An open one is computed when the
    /// layer is encoded.
    pub len: Value<u16>,
    /// The checksum. An open one is computed when the layer is encoded.
    pub chksum: Value<u16>,
}

impl View for Udp {
    type V = Udp;

    open spec fn view(&self) -> Udp {
        *self
    }
}

impl Udp {
    /// A layer as it is made: every field at its default.
    pub open spec fn default_spec() -> Udp {
        Udp {
            sport: Value::Auto,
            dport: Value::Auto,
            len: Value::Auto,
            chksum: Value::Auto,
        }
    }

    /// No field waits for a random number or for a function of the caller.
    pub open spec fn settled(self) -> bool {
        &&& self.sport@.settled()
        &&& self.dport@.settled()
        &&& self.len@.settled()
        &&& self.chksum@.settled()
    }

    /// `r` is the layer with every random or computed field given some value
    /// and every other field as it was. Which value a random field is given
    /// is said by `drawn_from`.
    pub open spec fn resolves_to(self, r: Udp) -> bool {
        &&& self.sport@.resolves_to(r.sport@)
        &&& self.dport@.resolves_to(r.dport@)
        &&& self.len@.resolves_to(r.len@)
        &&& self.chksum@.resolves_to(r.chksum@)
    }

    /// `r` is the layer after a fill in a stack whose next layer is of kind
    /// `next`, with the tables `reg`: fixed fields stay, random and computed
    /// fields get some value, and each open field gets what its rule says.
    /// Which value a random field gets is said by `drawn_from`.
    pub open spec fn fills_to(
        self,
        reg: Seq<RegistryEntry>,
        next: Option<LayerKind>,
        r: Udp,
    ) -> bool {
        &&& self.sport@.fills_to(
            ValueView::Fixed(
                field_u16(next_key(reg, RegistryName::UdpSrcPort, next, 0xffff, 0xffff))
            ),
            r.sport@,
        )
        &&& self.dport@.fills_to(
            ValueView::Fixed(field_u16(next_key(reg, RegistryName::UdpDstPort, next, 0xffff, 0))),
            r.dport@,
        )
        &&& self.len@.fills_to(ValueView::Auto, r.len@)
        &&& self.chksum@.fills_to(ValueView::Auto, r.chksum@)
    }

    /// How many numbers the layer takes from a random source when it is
    /// resolved or filled: those of its random fields together.
    pub open spec fn draws(self) -> nat {
        self.sport@.draws(u16::draws())
            + self.dport@.draws(u16::draws())
            + self.len@.draws(u16::draws())
            + self.chksum@.draws(u16::draws())
    }

    /// `r` holds in every field that is random in `self` the value made of
    /// that field's share of the numbers `d`. The fields take their shares
    /// in the order in which they are declared, each as many numbers as a
    /// random value of its type takes.
    pub open spec fn drawn_from(self, d: Seq<u32>, r: Udp) -> bool {
        let d0 = d;
        let d1 = behind(d0, self.sport@.draws(u16::draws()));
        let d2 = behind(d1, self.dport@.draws(u16::draws()));
        let d3 = behind(d2, self.len@.draws(u16::draws()));
        &&& self.sport@.drawn_as(u16::of_draws(share(d0, u16::draws())), r.sport@)
        &&& self.dport@.drawn_as(u16::of_draws(share(d1, u16::draws())), r.dport@)
        &&& self.len@.drawn_as(u16::of_draws(share(d2, u16::draws())), r.len@)
        &&& self.chksum@.drawn_as(u16::of_draws(share(d3, u16::draws())), r.chksum@)
    }

    /// No field of the layer is computed by a function of the caller.
    pub open spec fn without_funcs(self) -> bool {
        &&& !(self.sport@ is Func)
        &&& !(self.dport@ is Func)
        &&& !(self.len@ is Func)
        &&& !(self.chksum@ is Func)
    }

    /// Where no field is computed, the numbers drawn decide what the layer
    /// resolves to.
    pub proof fn lemma_resolve_decided(self, d: Seq<u32>, a: Udp, b: Udp)
        requires
            self.without_funcs(),
            self.resolves_to(a),
            self.drawn_from(d, a),
            self.resolves_to(b),
            self.drawn_from(d, b),
        ensures
            a == b,
    {
    }

    /// Where no field is computed, the numbers drawn decide what the layer
    /// is filled to.
    pub proof fn lemma_fill_decided(
        self,
        reg: Seq<RegistryEntry>,
        next: Option<LayerKind>,
        d: Seq<u32>,
        a: Udp,
        b: Udp,
    )
        requires
            self.without_funcs(),
            self.fills_to(reg, next, a),
            self.drawn_from(d, a),
            self.fills_to(reg, next, b),
            self.drawn_from(d, b),
        ensures
            a == b,
    {
    }

    /// What the fields drew one after the other is what the layer drew:
    /// `s0` is the record of the source before the first field, and each
    /// of the others the record after one more field.
    pub proof fn lemma_drawn(
        self,
        r: Udp,
        s0: Seq<u32>,
        s1: Seq<u32>,
        s2: Seq<u32>,
        s3: Seq<u32>,
        s4: Seq<u32>,
    )
        requires
            drew(s0, s1, self.sport@.draws(u16::draws())),
            self.sport@.drawn_as(u16::of_draws(fresh(s0, s1)), r.sport@),
            drew(s1, s2, self.dport@.draws(u16::draws())),
            self.dport@.drawn_as(u16::of_draws(fresh(s1, s2)), r.dport@),
            drew(s2, s3, self.len@.draws(u16::draws())),
            self.len@.drawn_as(u16::of_draws(fresh(s2, s3)), r.len@),
            drew(s3, s4, self.chksum@.draws(u16::draws())),
            self.chksum@.drawn_as(u16::of_draws(fresh(s3, s4)), r.chksum@),
        ensures
            drew(s0, s4, self.draws()),
            self.drawn_from(fresh(s0, s4), r),
    {
        lemma_drew_none(s4);
        lemma_drew_first(s3, s4, s4);
        lemma_drew_first(s2, s3, s4);
        lemma_drew_first(s1, s2, s4);
        lemma_drew_first(s0, s1, s4);
    }

    /// The numbers by which the header names the protocol that follows, each
    /// with the table it is looked up in, in the order in which they are tried.
    pub open spec fn nexts(self) -> Seq<(RegistryName, u32)> {
        seq![
            (RegistryName::UdpSrcPort, key_of_u16(self.sport@.or(0))),
            (RegistryName::UdpDstPort, key_of_u16(self.dport@.or(0))),
        ]
    }

    /// The length field: a fixed one as it is, an open one the length of the
    /// header and the layers behind.
    pub open spec fn length(self, tail: Seq<Seq<u8>>) -> u16 {
        self.len@.or(wire_len(8, tail))
    }

    /// The first six bytes of the header, which do not depend on the checksum.
    pub open spec fn front(self, tail: Seq<Seq<u8>>) -> Seq<u8> {
        u16_bytes(Endian::Big, self.sport@.or(0)) + u16_bytes(Endian::Big, self.dport@.or(0))
            + u16_bytes(Endian::Big, self.length(tail))
    }

    /// The checksum over the pseudo-header of an enclosing IP header with the
    /// addresses `src` and `dst`, the header with a checksum of zero and the
    /// bytes of the layers behind.
    pub open spec fn checksum(self, src: Ipv4Address, dst: Ipv4Address, tail: Seq<Seq<u8>>) -> u16 {
        let s0 = inet_sum(0, u32_bytes(Endian::Big, src.bits));
        let s1 = inet_sum(s0, u32_bytes(Endian::Big, dst.bits));
        let s2 = inet_sum(s1, u16_bytes(Endian::Big, 17));
        let s3 = inet_sum(s2, u16_bytes(Endian::Big, wire_len(8, tail)));
        let s4 = inet_sum(s3, self.front(tail) + u16_bytes(Endian::Big, 0));
        folded(inet_sum_all(s4, tail))
    }

    /// The two bytes of the checksum field: a fixed checksum as it is; an open
    /// one computed where an IP header stands before the layer, `ee ea` where
    /// the layer is the first of its stack and `dd dd` behind any other layer.
    pub open spec fn checksum_bytes(self, outer: Outer, tail: Seq<Seq<u8>>) -> Seq<u8> {
        match self.chksum@ {
            ValueView::Fixed(x) => u16_bytes(Endian::Big, x),
            _ => match outer {
                Outer::Outermost => seq![0xee, 0xea],
                Outer::Other => seq![0xdd, 0xdd],
                Outer::Ip { src, dst } => u16_bytes(Endian::Big, self.checksum(src, dst, tail)),
            },
        }
    }

    /// The bytes of the layer on the wire.
    pub open spec fn wire(self, outer: Outer, tail: Seq<Seq<u8>>) -> Seq<u8> {
        self.front(tail) + self.checksum_bytes(outer, tail)
    }

    /// The number of bytes of the header.
    pub open spec fn header_len() -> nat {
        8
    }

    /// The layer that the first bytes of `buf` stand for, or `None` where
    /// `buf` is shorter than the header.
    pub open spec fn parse(buf: Seq<u8>) -> Option<Udp> {
        if buf.len() < 8 {
            None
        } else {
            Some(
                Udp {
                    sport: Value::Fixed(u16_of(Endian::Big, buf.skip(0))),
                    dport: Value::Fixed(u16_of(Endian::Big, buf.skip(2))),
                    len: Value::Fixed(u16_of(Endian::Big, buf.skip(4))),
                    chksum: Value::Fixed(u16_of(Endian::Big, buf.skip(6))),
                },
            )
        }
    }

    /// After a fill no field waits for a random number or a function, and
    /// every field is fixed but those that are left to the encoder.
    pub proof fn lemma_filled(self, reg: Seq<RegistryEntry>, next: Option<LayerKind>, r: Udp)
        requires
            self.fills_to(reg, next, r),
        ensures
            r.settled(),
            r.sport@ is Fixed,
            r.dport@ is Fixed,
    {
    }

    /// Resolving a layer in which nothing is random or computed changes
    /// nothing.
    pub proof fn lemma_settled(self, r: Udp)
        requires
            self.settled(),
            self.resolves_to(r),
        ensures
            r == self,
    {
    }

    /// A header that can be read lies within the buffer.
    pub proof fn lemma_parse_fits(buf: Seq<u8>)
        requires
            Udp::parse(buf) is Some,
        ensures
            Udp::header_len() <= buf.len(),
    {
    }

    /// A header that was read and then filled is written as the bytes it was
    /// read from, whatever stands around it in its stack.
    pub proof fn lemma_echo(
        buf: Seq<u8>,
        reg: Seq<RegistryEntry>,
        next: Option<LayerKind>,
        r: Udp,
        outer: Outer,
        tail: Seq<Seq<u8>>,
    )
        requires
            Udp::parse(buf) matches Some(l) && l.fills_to(reg, next, r),
        ensures
            r.wire(outer, tail) == buf.subrange(0, 8),
    {
        lemma_u16_inverse(Endian::Big, 0, buf.skip(0));
        lemma_u16_inverse(Endian::Big, 0, buf.skip(2));
        lemma_u16_inverse(Endian::Big, 0, buf.skip(4));
        lemma_u16_inverse(Endian::Big, 0, buf.skip(6));
        assert(buf.skip(0).subrange(0, 2) =~= buf.subrange(0, 2));
        assert(buf.skip(2).subrange(0, 2) =~= buf.subrange(2, 4));
        assert(buf.skip(4).subrange(0, 2) =~= buf.subrange(4, 6));
        assert(buf.skip(6).subrange(0, 2) =~= buf.subrange(6, 8));
        assert(r.wire(outer, tail) =~= buf.subrange(0, 8));
    }
}

impl Default for Udp {
    fn default() -> (r: Udp)
        ensures
            r@ == Udp::default_spec(),
    {
        Udp::new()
    }
}

impl Udp {
    /// A layer with every field at its default.
    pub fn new() -> (r: Udp)
        ensures
            r@ == Udp::default_spec(),
    {
        Udp {
            sport: Value::Auto,
            dport: Value::Auto,
            len: Value::Auto,
            chksum: Value::Auto,
        }
    }

    /// The layer with `sport` fixed to the given value.
    pub fn sport(self, sport: u16) -> (r: Udp)
        ensures
            r == (Udp { sport: Value::Fixed(sport), ..self }),
    {
        let mut r = self;
        r.sport = Value::Fixed(sport);
        r
    }

    /// The layer with `sport` set to the given deferred value.
    pub fn set_sport(self, sport: Value<u16>) -> (r: Udp)
        ensures
            r == (Udp { sport, ..self }),
    {
        let mut r = self;
        r.sport = sport;
        r
    }

    /// The layer with `dport` fixed to the given value.
    pub fn dport(self, dport: u16) -> (r: Udp)
        ensures
            r == (Udp { dport: Value::Fixed(dport), ..self }),
    {
        let mut r = self;
        r.dport = Value::Fixed(dport);
        r
    }

    /// The layer with `dport` set to the given deferred value.
    pub fn set_dport(self, dport: Value<u16>) -> (r: Udp)
        ensures
            r == (Udp { dport, ..self }),
    {
        let mut r = self;
        r.dport = dport;
        r
    }

    /// The layer with `len` fixed to the given value.
    pub fn len(self, len: u16) -> (r: Udp)
        ensures
            r == (Udp { len: Value::Fixed(len), ..self }),
    {
        let mut r = self;
        r.len = Value::Fixed(len);
        r
    }

    /// The layer with `len` set to the given deferred value.
    pub fn set_len(self, len: Value<u16>) -> (r: Udp)
        ensures
            r == (Udp { len, ..self }),
    {
        let mut r = self;
        r.len = len;
        r
    }

    /// The layer with `chksum` fixed to the given value.
    pub fn chksum(self, chksum: u16) -> (r: Udp)
        ensures
            r == (Udp { chksum: Value::Fixed(chksum), ..self }),
    {
        let mut r = self;
        r.chksum = Value::Fixed(chksum);
        r
    }

    /// The layer with `chksum` set to the given deferred value.
    pub fn set_chksum(self, chksum: Value<u16>) -> (r: Udp)
        ensures
            r == (Udp { chksum, ..self }),
    {
        let mut r = self;
        r.chksum = chksum;
        r
    }

    /// A copy of the layer in which every random field is drawn from `rng` and
    /// every computed field is computed. The random fields draw in the order
    /// in which they are declared.
    pub fn resolve<R: RandomSource>(&self, rng: &mut R) -> (r: Udp)
        ensures
            self@.resolves_to(r@),
            r@.settled(),
            drew(old(rng).drawn(), final(rng).drawn(), self@.draws()),
            self@.drawn_from(fresh(old(rng).drawn(), final(rng).drawn()), r@),
    {
        let ghost s0 = rng.drawn();
        let sport = self.sport.resolved(rng);
        let ghost s1 = rng.drawn();
        let dport = self.dport.resolved(rng);
        let ghost s2 = rng.drawn();
        let len = self.len.resolved(rng);
        let ghost s3 = rng.drawn();
        let chksum = self.chksum.resolved(rng);
        let ghost s4 = rng.drawn();
        let r = Udp { sport, dport, len, chksum };
        proof {
            self@.lemma_drawn(r@, s0, s1, s2, s3, s4);
        }
        r
    }

    /// The layer filled: resolved as by `resolve`, and with every open field
    /// given what its rule says. `next` is the kind of the layer that follows
    /// in the stack.
    pub fn filled<R: RandomSource>(
        &self,
        reg: &Registry,
        next: Option<LayerKind>,
        rng: &mut R,
    ) -> (r: Udp)
        ensures
            self@.fills_to(reg@, next, r@),
            drew(old(rng).drawn(), final(rng).drawn(), self@.draws()),
            self@.drawn_from(fresh(old(rng).drawn(), final(rng).drawn()), r@),
    {
        let ghost s0 = rng.drawn();
        let sport = self.sport.filled(
            rng,
            to_field_u16(reg.next_key(RegistryName::UdpSrcPort, next, 0xffff, 0xffff)),
        );
        let ghost s1 = rng.drawn();
        let dport = self.dport.filled(
            rng,
            to_field_u16(reg.next_key(RegistryName::UdpDstPort, next, 0xffff, 0)),
        );
        let ghost s2 = rng.drawn();
        let len = self.len.resolved(rng);
        let ghost s3 = rng.drawn();
        let chksum = self.chksum.resolved(rng);
        let ghost s4 = rng.drawn();
        let r = Udp { sport, dport, len, chksum };
        proof {
            self@.lemma_drawn(r@, s0, s1, s2, s3, s4);
        }
        r
    }

    /// The numbers by which the header names the protocol that follows, each
    /// with the table it is looked up in.
    pub fn next_keys(&self) -> (r: Vec<(RegistryName, u32)>)
        ensures
            r@ == self@.nexts(),
    {
        let mut r: Vec<(RegistryName, u32)> = Vec::new();
        r.push((RegistryName::UdpSrcPort, key_u16(self.sport.or(0))));
        r.push((RegistryName::UdpDstPort, key_u16(self.dport.or(0))));
        assert(r@ =~= self@.nexts());
        r
    }

    /// `other` holds in every computed field the function that `self` holds
    /// there.
    pub open spec fn same_funcs(self, other: Udp) -> bool {
        &&& other.sport.func() == self.sport.func()
        &&& other.dport.func() == self.dport.func()
        &&& other.len.func() == self.len.func()
        &&& other.chksum.func() == self.chksum.func()
    }

    /// A copy of the layer: the same values, and in the computed fields the
    /// same functions.
    pub fn dup(&self) -> (r: Udp)
        ensures
            r@ == self@,
            self.same_funcs(r),
    {
        *self
    }

    /// The first six bytes of the header.
    pub fn front_bytes(&self, tail: &EncodingVecVec) -> (r: Vec<u8>)
        ensures
            r@ == self.front(tail@),
    {
        let len: u16 = match self.len {
            Value::Fixed(x) => x,
            _ => tail.wire_len(8),
        };
        let mut out: Vec<u8> = BinaryBigEndian::encode_u16(self.sport.or(0));
        put::<u16, BinaryBigEndian>(&mut out, &self.dport.or(0));
        put::<u16, BinaryBigEndian>(&mut out, &len);
        out
    }

    /// The header with a checksum of zero.
    fn zero_header(&self, tail: &EncodingVecVec) -> (r: Vec<u8>)
        ensures
            r@ == self.front(tail@) + u16_bytes(Endian::Big, 0),
    {
        let mut out = self.front_bytes(tail);
        put::<u16, BinaryBigEndian>(&mut out, &0u16);
        out
    }

    /// The two bytes of the checksum field.
    pub fn checksum_field(&self, outer: &Outer, tail: &EncodingVecVec) -> (r: Vec<u8>)
        ensures
            r@ == self.checksum_bytes(*outer, tail@),
    {
        match self.chksum {
            Value::Fixed(x) => BinaryBigEndian::encode_u16(x),
            _ => match outer {
                Outer::Outermost => {
                    let mut r: Vec<u8> = Vec::new();
                    r.push(0xee);
                    r.push(0xea);
                    assert(r@ =~= seq![0xee, 0xea]);
                    r
                },
                Outer::Other => {
                    let mut r: Vec<u8> = Vec::new();
                    r.push(0xdd);
                    r.push(0xdd);
                    assert(r@ =~= seq![0xdd, 0xdd]);
                    r
                },
                Outer::Ip { src, dst } => {
                    let sum = get_inet_sum(BinaryBigEndian::encode_u32(src.bits).as_slice());
                    let sum = update_inet_sum(
                        sum,
                        BinaryBigEndian::encode_u32(dst.bits).as_slice(),
                    );
                    let sum = update_inet_sum(sum, BinaryBigEndian::encode_u16(17).as_slice());
                    let sum = update_inet_sum(
                        sum,
                        BinaryBigEndian::encode_u16(tail.wire_len(8)).as_slice(),
                    );
                    let sum = update_inet_sum(sum, self.zero_header(tail).as_slice());
                    let sum = tail.add_to_sum(sum);
                    BinaryBigEndian::encode_u16(fold_u32(sum))
                },
            },
        }
    }

    /// The bytes of the layer on the wire. `outer` tells what stands before the
    /// layer in the stack and `tail` holds the bytes of the layers behind it.
    pub fn wire_bytes(&self, outer: &Outer, tail: &EncodingVecVec) -> (r: Vec<u8>)
        ensures
            r@ == self.wire(*outer, tail@),
    {
        let mut out = self.front_bytes(tail);
        let chk = self.checksum_field(outer, tail);
        crate::wire::put_bytes(&mut out, chk);
        out
    }

    /// Reads the header from the front of `buf`: the layer and the number of
    /// bytes of the header, or `None` where `buf` is too short.
    pub fn decode_header(buf: &[u8]) -> (r: Option<(Udp, usize)>)
        ensures
            match r {
                Some((l, n)) => Udp::parse(buf@) == Some(l@) && n == Udp::header_len(),
                None => Udp::parse(buf@) is None,
            },
    {
        let mut pos: usize = 0;
        let sport = take::<u16, BinaryBigEndian>(buf, &mut pos)?;
        let dport = take::<u16, BinaryBigEndian>(buf, &mut pos)?;
        let len = take::<u16, BinaryBigEndian>(buf, &mut pos)?;
        let chksum = take::<u16, BinaryBigEndian>(buf, &mut pos)?;
        Some(
            (
                Udp {
                    sport: Value::Fixed(sport),
                    dport: Value::Fixed(dport),
                    len: Value::Fixed(len),
                    chksum: Value::Fixed(chksum),
                },
                pos,
            ),
        )
    }
}

} // verus!
