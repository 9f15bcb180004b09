//! Ethernet II framing.

use crate::addr::MacAddr;
use crate::codec::BinaryBigEndian;
use crate::codec::Encode;
use crate::codec::Endian;
use crate::codec::lemma_u16_inverse;
use crate::codec::u16_of;
use crate::encoding::EncodingVecVec;
use crate::encoding::Outer;
use crate::registry::LayerKind;
use crate::registry::Registry;
use crate::registry::RegistryEntry;
use crate::registry::RegistryName;
use crate::registry::field_u16;
use crate::registry::key_of_u16;
use crate::registry::key_u16;
use crate::registry::next_key;
use crate::registry::to_field_u16;
use crate::value::Field;
use crate::value::RandomSource;
use crate::value::Value;
use crate::value::ValueView;
use crate::value::behind;
use crate::value::drew;
use crate::value::fresh;
use crate::value::lemma_drew_first;
use crate::value::lemma_drew_none;
use crate::value::share;
use crate::wire::put;
use crate::wire::take;
use vstd::prelude::*;

verus! {

/// An Ethernet II header: destination, source and Ethertype.
#[allow(non_camel_case_types)]
#[derive(Clone, Copy, Debug, PartialEq, Eq)]
pub struct ether {
    /// The destination address. It is made `01:02:03:04:05:06`; an open one
    /// is filled with the broadcast address.
    pub dst: Value<MacAddr>,
    /// The source address. An open one is filled with `00:00:00:00:00:00`.
    pub src: Value<MacAddr>,
    /// The Ethertype. An open one is filled with the Ethertype of the layer
    /// that follows.
    pub etype: Value<u16>,
}

impl View for ether {
    type V = ether;

    open spec fn view(&self) -> ether {
        *self
    }
}

impl ether {
    /// A layer as it is made: every field at its default.
    pub open spec fn default_spec() -> ether {
        ether {
            dst: Value::Fixed(MacAddr { o1: 1, o2: 2, o3: 3, o4: 4, o5: 5, o6: 6 }),
            src: Value::Auto,
            etype: Value::Auto,
        }
    }

    /// No field waits for a random number or for a function of the caller.
    pub open spec fn settled(self) -> bool {
        &&& self.dst@.settled()
        &&& self.src@.settled()
        &&& self.etype@.settled()
    }

    /// `r` is the layer with every random or computed field given some value
    /// and every other field as it was. Which value a random field is given
    /// is said by `drawn_from`.
    pub open spec fn resolves_to(self, r: ether) -> bool {
        &&& self.dst@.resolves_to(r.dst@)
        &&& self.src@.resolves_to(r.src@)
        &&& self.etype@.resolves_to(r.etype@)
    }

    /// `r` is the layer after a fill in a stack whose next layer is of kind
    /// `next`, with the tables `reg`: fixed fields stay, random and computed
    /// fields get some value, and each open field gets what its rule says.
    /// Which value a random field gets is said by `drawn_from`.
    pub open spec fn fills_to(
        self,
        reg: Seq<RegistryEntry>,
        next: Option<LayerKind>,
        r: ether,
    ) -> bool {
        &&& self.dst@.fills_to(
            ValueView::Fixed(
                MacAddr { o1: 0xff, o2: 0xff, o3: 0xff, o4: 0xff, o5: 0xff, o6: 0xff }
            ),
            r.dst@,
        )
        &&& self.src@.fills_to(ValueView::Fixed(MacAddr::default_view()), r.src@)
        &&& self.etype@.fills_to(
            ValueView::Fixed(field_u16(next_key(reg, RegistryName::Ethertype, next, 0xffff, 0))),
            r.etype@,
        )
    }

    /// How many numbers the layer takes from a random source when it is
    /// resolved or filled: those of its random fields together.
    pub open spec fn draws(self) -> nat {
        self.dst@.draws(MacAddr::draws())
            + self.src@.draws(MacAddr::draws())
            + self.etype@.draws(u16::draws())
    }

    /// `r` holds in every field that is random in `self` the value made of
    /// that field's share of the numbers `d`. The fields take their shares
    /// in the order in which they are declared, each as many numbers as a
    /// random value of its type takes.
    pub open spec fn drawn_from(self, d: Seq<u32>, r: ether) -> bool {
        let d0 = d;
        let d1 = behind(d0, self.dst@.draws(MacAddr::draws()));
        let d2 = behind(d1, self.src@.draws(MacAddr::draws()));
        &&& self.dst@.drawn_as(MacAddr::of_draws(share(d0, MacAddr::draws())), r.dst@)
        &&& self.src@.drawn_as(MacAddr::of_draws(share(d1, MacAddr::draws())), r.src@)
        &&& self.etype@.drawn_as(u16::of_draws(share(d2, u16::draws())), r.etype@)
    }

    /// No field of the layer is computed by a function of the caller.
    pub open spec fn without_funcs(self) -> bool {
        &&& !(self.dst@ is Func)
        &&& !(self.src@ is Func)
        &&& !(self.etype@ is Func)
    }

    /// Where no field is computed, the numbers drawn decide what the layer
    /// resolves to.
    pub proof fn lemma_resolve_decided(self, d: Seq<u32>, a: ether, b: ether)
        requires
            self.without_funcs(),
            self.resolves_to(a),
            self.drawn_from(d, a),
            self.resolves_to(b),
            self.drawn_from(d, b),
        ensures
            a == b,
    {
    }

    /// Where no field is computed, the numbers drawn decide what the layer
    /// is filled to.
    pub proof fn lemma_fill_decided(
        self,
        reg: Seq<RegistryEntry>,
        next: Option<LayerKind>,
        d: Seq<u32>,
        a: ether,
        b: ether,
    )
        requires
            self.without_funcs(),
            self.fills_to(reg, next, a),
            self.drawn_from(d, a),
            self.fills_to(reg, next, b),
            self.drawn_from(d, b),
        ensures
            a == b,
    {
    }

    /// What the fields drew one after the other is what the layer drew:
    /// `s0` is the record of the source before the first field, and each
    /// of the others the record after one more field.
    pub proof fn lemma_drawn(self, r: ether, s0: Seq<u32>, s1: Seq<u32>, s2: Seq<u32>, s3: Seq<u32>)
        requires
            drew(s0, s1, self.dst@.draws(MacAddr::draws())),
            self.dst@.drawn_as(MacAddr::of_draws(fresh(s0, s1)), r.dst@),
            drew(s1, s2, self.src@.draws(MacAddr::draws())),
            self.src@.drawn_as(MacAddr::of_draws(fresh(s1, s2)), r.src@),
            drew(s2, s3, self.etype@.draws(u16::draws())),
            self.etype@.drawn_as(u16::of_draws(fresh(s2, s3)), r.etype@),
        ensures
            drew(s0, s3, self.draws()),
            self.drawn_from(fresh(s0, s3), r),
    {
        lemma_drew_none(s3);
        lemma_drew_first(s2, s3, s3);
        lemma_drew_first(s1, s2, s3);
        lemma_drew_first(s0, s1, s3);
    }

    /// The bytes of the header.
    pub open spec fn header(self) -> Seq<u8> {
        (self.dst@.or(MacAddr::default_view())).encoded(Endian::Big)
            + (self.src@.or(MacAddr::default_view())).encoded(Endian::Big)
            + (self.etype@.or(0)).encoded(Endian::Big)
    }

    /// The bytes of the layer on the wire.
    pub open spec fn wire(self, outer: Outer, tail: Seq<Seq<u8>>) -> Seq<u8> {
        self.header()
    }

    /// The number of bytes of the header.
    pub open spec fn header_len() -> nat {
        14
    }

    /// The layer that the first bytes of `buf` stand for, or `None` where
    /// `buf` is shorter than the header.
    pub open spec fn parse(buf: Seq<u8>) -> Option<ether> {
        if buf.len() < 14 {
            None
        } else {
            Some(
                ether {
                    dst: Value::Fixed(MacAddr::of(buf.skip(0))),
                    src: Value::Fixed(MacAddr::of(buf.skip(6))),
                    etype: Value::Fixed(u16_of(Endian::Big, buf.skip(12))),
                    ..ether::default_spec()
                },
            )
        }
    }

    /// The numbers by which the header names the protocol that follows, each
    /// with the table it is looked up in, in the order in which they are tried.
    pub open spec fn nexts(self) -> Seq<(RegistryName, u32)> {
        seq![(RegistryName::Ethertype, key_of_u16(self.etype@.or(0)))]
    }

    /// After a fill no field waits for a random number or a function, and
    /// every field is fixed but those that are left to the encoder.
    pub proof fn lemma_filled(self, reg: Seq<RegistryEntry>, next: Option<LayerKind>, r: ether)
        requires
            self.fills_to(reg, next, r),
        ensures
            r.settled(),
            r.dst@ is Fixed,
            r.src@ is Fixed,
            r.etype@ is Fixed,
    {
    }

    /// Resolving a layer in which nothing is random or computed changes
    /// nothing.
    pub proof fn lemma_settled(self, r: ether)
        requires
            self.settled(),
            self.resolves_to(r),
        ensures
            r == self,
    {
    }

    /// A header that was read and then filled is written as the bytes it
    /// was read from, whatever stands around it in its stack.
    pub proof fn lemma_echo(
        buf: Seq<u8>,
        reg: Seq<RegistryEntry>,
        next: Option<LayerKind>,
        r: ether,
        outer: Outer,
        tail: Seq<Seq<u8>>,
    )
        requires
            ether::parse(buf) matches Some(l) && l.fills_to(reg, next, r),
        ensures
            r.wire(outer, tail) == buf.subrange(0, 14),
    {
        assert(MacAddr::of(buf.skip(0)).octets() =~= buf.skip(0).subrange(0, 6));
        assert(buf.skip(0).subrange(0, 6) =~= buf.subrange(0, 6));
        assert(MacAddr::of(buf.skip(6)).octets() =~= buf.skip(6).subrange(0, 6));
        assert(buf.skip(6).subrange(0, 6) =~= buf.subrange(6, 12));
        lemma_u16_inverse(Endian::Big, 0, buf.skip(12));
        assert(buf.skip(12).subrange(0, 2) =~= buf.subrange(12, 14));
        assert(r.wire(outer, tail) =~= buf.subrange(0, 14));
    }

    /// A header that can be read lies within the buffer.
    pub proof fn lemma_parse_fits(buf: Seq<u8>)
        requires
            ether::parse(buf) is Some,
        ensures
            ether::header_len() <= buf.len(),
    {
    }
}

impl Default for ether {
    fn default() -> (r: ether)
        ensures
            r@ == ether::default_spec(),
    {
        ether::new()
    }
}

impl ether {
    /// A layer with every field at its default.
    pub fn new() -> (r: ether)
        ensures
            r@ == ether::default_spec(),
    {
        ether {
            dst: Value::Fixed(MacAddr::new(1, 2, 3, 4, 5, 6)),
            src: Value::Auto,
            etype: Value::Auto,
        }
    }

    /// The layer with `dst` fixed to the given value.
    pub fn dst(self, dst: MacAddr) -> (r: ether)
        ensures
            r == (ether { dst: Value::Fixed(dst), ..self }),
    {
        let mut r = self;
        r.dst = Value::Fixed(dst);
        r
    }

    /// The layer with `dst` set to the given deferred value.
    pub fn set_dst(self, dst: Value<MacAddr>) -> (r: ether)
        ensures
            r == (ether { dst, ..self }),
    {
        let mut r = self;
        r.dst = dst;
        r
    }

    /// The layer with `src` fixed to the given value.
    pub fn src(self, src: MacAddr) -> (r: ether)
        ensures
            r == (ether { src: Value::Fixed(src), ..self }),
    {
        let mut r = self;
        r.src = Value::Fixed(src);
        r
    }

    /// The layer with `src` set to the given deferred value.
    pub fn set_src(self, src: Value<MacAddr>) -> (r: ether)
        ensures
            r == (ether { src, ..self }),
    {
        let mut r = self;
        r.src = src;
        r
    }

    /// The layer with `etype` fixed to the given value.
    pub fn etype(self, etype: u16) -> (r: ether)
        ensures
            r == (ether { etype: Value::Fixed(etype), ..self }),
    {
        let mut r = self;
        r.etype = Value::Fixed(etype);
        r
    }

    /// The layer with `etype` set to the given deferred value.
    pub fn set_etype(self, etype: Value<u16>) -> (r: ether)
        ensures
            r == (ether { etype, ..self }),
    {
        let mut r = self;
        r.etype = etype;
        r
    }

    /// A copy of the layer in which every random field is drawn from `rng` and
    /// every computed field is computed. The random fields draw in the order
    /// in which they are declared.
    pub fn resolve<R: RandomSource>(&self, rng: &mut R) -> (r: ether)
        ensures
            self@.resolves_to(r@),
            r@.settled(),
            drew(old(rng).drawn(), final(rng).drawn(), self@.draws()),
            self@.drawn_from(fresh(old(rng).drawn(), final(rng).drawn()), r@),
    {
        let ghost s0 = rng.drawn();
        let dst = self.dst.resolved(rng);
        let ghost s1 = rng.drawn();
        let src = self.src.resolved(rng);
        let ghost s2 = rng.drawn();
        let etype = self.etype.resolved(rng);
        let ghost s3 = rng.drawn();
        let r = ether { dst, src, etype };
        proof {
            self@.lemma_drawn(r@, s0, s1, s2, s3);
        }
        r
    }

    /// The layer filled: resolved as by `resolve`, and with every open field
    /// given what its rule says. `next` is the kind of the layer that follows
    /// in the stack.
    pub fn filled<R: RandomSource>(
        &self,
        reg: &Registry,
        next: Option<LayerKind>,
        rng: &mut R,
    ) -> (r: ether)
        ensures
            self@.fills_to(reg@, next, r@),
            drew(old(rng).drawn(), final(rng).drawn(), self@.draws()),
            self@.drawn_from(fresh(old(rng).drawn(), final(rng).drawn()), r@),
    {
        let ghost s0 = rng.drawn();
        let dst = self.dst.filled(rng, MacAddr::new(0xff, 0xff, 0xff, 0xff, 0xff, 0xff));
        let ghost s1 = rng.drawn();
        let src = self.src.filled(rng, MacAddr::default_value());
        let ghost s2 = rng.drawn();
        let etype = self.etype.filled(
            rng,
            to_field_u16(reg.next_key(RegistryName::Ethertype, next, 0xffff, 0)),
        );
        let ghost s3 = rng.drawn();
        let r = ether { dst, src, etype };
        proof {
            self@.lemma_drawn(r@, s0, s1, s2, s3);
        }
        r
    }

    /// The bytes of the header.
    pub fn header_bytes(&self) -> (r: Vec<u8>)
        ensures
            r@ == self@.header(),
    {
        let mut out: Vec<u8> = Vec::new();
        assert(
            out@ + (self.dst@.or(MacAddr::default_view())).encoded(Endian::Big)
                =~= (self.dst@.or(MacAddr::default_view())).encoded(Endian::Big)
        );
        put::<MacAddr, BinaryBigEndian>(&mut out, &(self.dst.or(MacAddr::default_value())));
        put::<MacAddr, BinaryBigEndian>(&mut out, &(self.src.or(MacAddr::default_value())));
        put::<u16, BinaryBigEndian>(&mut out, &(self.etype.or(u16::default_value())));
        out
    }

    /// The bytes of the layer on the wire. `outer` tells what stands before
    /// the layer in the stack and `tail` holds the bytes of the layers behind
    /// it; this protocol needs neither.
    pub fn wire_bytes(&self, outer: &Outer, tail: &EncodingVecVec) -> (r: Vec<u8>)
        ensures
            r@ == self@.wire(*outer, tail@),
    {
        self.header_bytes()
    }

    /// Reads the header from the front of `buf`: the layer and the number of
    /// bytes of the header, or `None` where `buf` is too short.
    pub fn decode_header(buf: &[u8]) -> (r: Option<(ether, usize)>)
        ensures
            match r {
                Some((l, n)) => ether::parse(buf@) == Some(l@) && n == ether::header_len(),
                None => ether::parse(buf@) is None,
            },
    {
        let mut pos: usize = 0;
        let mut l = ether::new();
        let v0 = take::<MacAddr, BinaryBigEndian>(buf, &mut pos)?;
        l.dst = Value::Fixed(v0);
        let v1 = take::<MacAddr, BinaryBigEndian>(buf, &mut pos)?;
        l.src = Value::Fixed(v1);
        let v2 = take::<u16, BinaryBigEndian>(buf, &mut pos)?;
        l.etype = Value::Fixed(v2);
        Some((l, pos))
    }

    /// The numbers by which the header names the protocol that follows, each
    /// with the table it is looked up in.
    pub fn next_keys(&self) -> (r: Vec<(RegistryName, u32)>)
        ensures
            r@ == self@.nexts(),
    {
        let mut r: Vec<(RegistryName, u32)> = Vec::new();
        r.push((RegistryName::Ethertype, key_u16(self.etype.or(0))));
        assert(r@ =~= self@.nexts());
        r
    }

    /// `other` holds in every computed field the function that `self` holds
    /// there.
    pub open spec fn same_funcs(self, other: ether) -> bool {
        &&& other.dst.func() == self.dst.func()
        &&& other.src.func() == self.src.func()
        &&& other.etype.func() == self.etype.func()
    }

    /// A copy of the layer: the same values, and in the computed fields the
    /// same functions.
    pub fn dup(&self) -> (r: ether)
        ensures
            r@ == self@,
            self.same_funcs(r),
    {
        *self
    }
}

} // verus!
