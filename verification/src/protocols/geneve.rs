//! Geneve encapsulation, without options.

use crate::codec::BinaryBigEndian;
use crate::codec::Encode;
use crate::codec::Endian;
use crate::codec::lemma_u16_inverse;
use crate::codec::lemma_u32_inverse;
use crate::codec::u16_of;
use crate::codec::u32_of;
use crate::encoding::EncodingVecVec;
use crate::encoding::Outer;
use crate::registry::LayerKind;
use crate::registry::Registry;
use crate::registry::RegistryEntry;
use crate::registry::RegistryName;
use crate::registry::field_u16;
use crate::registry::key_of_u16;
use crate::registry::key_u16;
use crate::registry::next_key;
use crate::registry::to_field_u16;
use crate::value::Field;
use crate::value::RandomSource;
use crate::value::Value;
use crate::value::ValueView;
use crate::value::behind;
use crate::value::drew;
use crate::value::fresh;
use crate::value::lemma_drew_first;
use crate::value::lemma_drew_none;
use crate::value::share;
use crate::wire::put;
use crate::wire::take;
use vstd::prelude::*;

verus! {

/// A Geneve header without options.
#[derive(Clone, Copy, Debug, PartialEq, Eq)]
pub struct Geneve {
    /// Version, option length and flags, all zero in a layer as it is made.
    pub init: Value<u16>,
    /// The Ethertype of what the tunnel carries.
    pub protocol: Value<u16>,
    /// The virtual network identifier, 24 bits.
    pub vni: Value<u32>,
    /// The reserved byte behind the identifier.
    pub reserved_u8_2: Value<u8>,
}

impl View for Geneve {
    type V = Geneve;

    open spec fn view(&self) -> Geneve {
        *self
    }
}

impl Geneve {
    /// A layer as it is made: every field at its default.
    pub open spec fn default_spec() -> Geneve {
        Geneve {
            init: Value::Fixed(0),
            protocol: Value::Auto,
            vni: Value::Auto,
            reserved_u8_2: Value::Auto,
        }
    }

    /// No field waits for a random number or for a function of the caller.
    pub open spec fn settled(self) -> bool {
        &&& self.init@.settled()
        &&& self.protocol@.settled()
        &&& self.vni@.settled()
        &&& self.reserved_u8_2@.settled()
    }

    /// `r` is the layer with every random or computed field given some value
    /// and every other field as it was. Which value a random field is given
    /// is said by `drawn_from`.
    pub open spec fn resolves_to(self, r: Geneve) -> bool {
        &&& self.init@.resolves_to(r.init@)
        &&& self.protocol@.resolves_to(r.protocol@)
        &&& self.vni@.resolves_to(r.vni@)
        &&& self.reserved_u8_2@.resolves_to(r.reserved_u8_2@)
    }

    /// `r` is the layer after a fill in a stack whose next layer is of kind
    /// `next`, with the tables `reg`: fixed fields stay, random and computed
    /// fields get some value, and each open field gets what its rule says.
    /// Which value a random field gets is said by `drawn_from`.
    pub open spec fn fills_to(
        self,
        reg: Seq<RegistryEntry>,
        next: Option<LayerKind>,
        r: Geneve,
    ) -> bool {
        &&& self.init@.fills_to(ValueView::Fixed(0), r.init@)
        &&& self.protocol@.fills_to(
            ValueView::Fixed(field_u16(next_key(reg, RegistryName::Ethertype, next, 0xffff, 0))),
            r.protocol@,
        )
        &&& self.vni@.fills_to(ValueView::Fixed(0), r.vni@)
        &&& self.reserved_u8_2@.fills_to(ValueView::Fixed(0), r.reserved_u8_2@)
    }

    /// How many numbers the layer takes from a random source when it is
    /// resolved or filled: those of its random fields together.
    pub open spec fn draws(self) -> nat {
        self.init@.draws(u16::draws())
            + self.protocol@.draws(u16::draws())
            + self.vni@.draws(u32::draws())
            + self.reserved_u8_2@.draws(u8::draws())
    }

    /// `r` holds in every field that is random in `self` the value made of
    /// that field's share of the numbers `d`. The fields take their shares
    /// in the order in which they are declared, each as many numbers as a
    /// random value of its type takes.
    pub open spec fn drawn_from(self, d: Seq<u32>, r: Geneve) -> bool {
        let d0 = d;
        let d1 = behind(d0, self.init@.draws(u16::draws()));
        let d2 = behind(d1, self.protocol@.draws(u16::draws()));
        let d3 = behind(d2, self.vni@.draws(u32::draws()));
        &&& self.init@.drawn_as(u16::of_draws(share(d0, u16::draws())), r.init@)
        &&& self.protocol@.drawn_as(u16::of_draws(share(d1, u16::draws())), r.protocol@)
        &&& self.vni@.drawn_as(u32::of_draws(share(d2, u32::draws())), r.vni@)
        &&& self.reserved_u8_2@.drawn_as(u8::of_draws(share(d3, u8::draws())), r.reserved_u8_2@)
    }

    /// No field of the layer is computed by a function of the caller.
    pub open spec fn without_funcs(self) -> bool {
        &&& !(self.init@ is Func)
        &&& !(self.protocol@ is Func)
        &&& !(self.vni@ is Func)
        &&& !(self.reserved_u8_2@ is Func)
    }

    /// Where no field is computed, the numbers drawn decide what the layer
    /// resolves to.
    pub proof fn lemma_resolve_decided(self, d: Seq<u32>, a: Geneve, b: Geneve)
        requires
            self.without_funcs(),
            self.resolves_to(a),
            self.drawn_from(d, a),
            self.resolves_to(b),
            self.drawn_from(d, b),
        ensures
            a == b,
    {
    }

    /// Where no field is computed, the numbers drawn decide what the layer
    /// is filled to.
    pub proof fn lemma_fill_decided(
        self,
        reg: Seq<RegistryEntry>,
        next: Option<LayerKind>,
        d: Seq<u32>,
        a: Geneve,
        b: Geneve,
    )
        requires
            self.without_funcs(),
            self.fills_to(reg, next, a),
            self.drawn_from(d, a),
            self.fills_to(reg, next, b),
            self.drawn_from(d, b),
        ensures
            a == b,
    {
    }

    /// What the fields drew one after the other is what the layer drew:
    /// `s0` is the record of the source before the first field, and each
    /// of the others the record after one more field.
    pub proof fn lemma_drawn(
        self,
        r: Geneve,
        s0: Seq<u32>,
        s1: Seq<u32>,
        s2: Seq<u32>,
        s3: Seq<u32>,
        s4: Seq<u32>,
    )
        requires
            drew(s0, s1, self.init@.draws(u16::draws())),
            self.init@.drawn_as(u16::of_draws(fresh(s0, s1)), r.init@),
            drew(s1, s2, self.protocol@.draws(u16::draws())),
            self.protocol@.drawn_as(u16::of_draws(fresh(s1, s2)), r.protocol@),
            drew(s2, s3, self.vni@.draws(u32::draws())),
            self.vni@.drawn_as(u32::of_draws(fresh(s2, s3)), r.vni@),
            drew(s3, s4, self.reserved_u8_2@.draws(u8::draws())),
            self.reserved_u8_2@.drawn_as(u8::of_draws(fresh(s3, s4)), r.reserved_u8_2@),
        ensures
            drew(s0, s4, self.draws()),
            self.drawn_from(fresh(s0, s4), r),
    {
        lemma_drew_none(s4);
        lemma_drew_first(s3, s4, s4);
        lemma_drew_first(s2, s3, s4);
        lemma_drew_first(s1, s2, s4);
        lemma_drew_first(s0, s1, s4);
    }

    /// The bytes of the header.
    pub open spec fn header(self) -> Seq<u8> {
        (self.init@.or(0)).encoded(Endian::Big)
            + (self.protocol@.or(0)).encoded(Endian::Big)
            + (self.vni_word()).encoded(Endian::Big)
    }

    /// The bytes of the layer on the wire.
    pub open spec fn wire(self, outer: Outer, tail: Seq<Seq<u8>>) -> Seq<u8> {
        self.header()
    }

    /// The number of bytes of the header.
    pub open spec fn header_len() -> nat {
        8
    }

    /// The layer that the first bytes of `buf` stand for, or `None` where
    /// `buf` is shorter than the header.
    pub open spec fn parse(buf: Seq<u8>) -> Option<Geneve> {
        if buf.len() < 8 {
            None
        } else {
            Some(
                Geneve {
                    init: Value::Fixed(u16_of(Endian::Big, buf.skip(0))),
                    protocol: Value::Fixed(u16_of(Endian::Big, buf.skip(2))),
                    vni: Value::Fixed(u32_of(Endian::Big, buf.skip(4)) / 0x100),
                    reserved_u8_2: Value::Fixed((u32_of(Endian::Big, buf.skip(4)) % 0x100) as u8),
                    ..Geneve::default_spec()
                },
            )
        }
    }

    /// The numbers by which the header names the protocol that follows, each
    /// with the table it is looked up in, in the order in which they are tried.
    pub open spec fn nexts(self) -> Seq<(RegistryName, u32)> {
        seq![(RegistryName::Ethertype, key_of_u16(self.protocol@.or(0)))]
    }

    /// The last four bytes as one number: the low 24 bits of the identifier,
    /// then the reserved byte.
    pub open spec fn vni_word(self) -> u32 {
        ((self.vni@.or(0) % 0x100_0000) * 0x100 + self.reserved_u8_2@.or(0)) as u32
    }

    /// After a fill no field waits for a random number or a function, and
    /// every field is fixed but those that are left to the encoder.
    pub proof fn lemma_filled(self, reg: Seq<RegistryEntry>, next: Option<LayerKind>, r: Geneve)
        requires
            self.fills_to(reg, next, r),
        ensures
            r.settled(),
            r.init@ is Fixed,
            r.protocol@ is Fixed,
            r.vni@ is Fixed,
            r.reserved_u8_2@ is Fixed,
    {
    }

    /// Resolving a layer in which nothing is random or computed changes
    /// nothing.
    pub proof fn lemma_settled(self, r: Geneve)
        requires
            self.settled(),
            self.resolves_to(r),
        ensures
            r == self,
    {
    }

    /// A header that was read and then filled is written as the bytes it
    /// was read from, whatever stands around it in its stack.
    pub proof fn lemma_echo(
        buf: Seq<u8>,
        reg: Seq<RegistryEntry>,
        next: Option<LayerKind>,
        r: Geneve,
        outer: Outer,
        tail: Seq<Seq<u8>>,
    )
        requires
            Geneve::parse(buf) matches Some(l) && l.fills_to(reg, next, r),
        ensures
            r.wire(outer, tail) == buf.subrange(0, 8),
    {
        lemma_u16_inverse(Endian::Big, 0, buf.skip(0));
        assert(buf.skip(0).subrange(0, 2) =~= buf.subrange(0, 2));
        lemma_u16_inverse(Endian::Big, 0, buf.skip(2));
        assert(buf.skip(2).subrange(0, 2) =~= buf.subrange(2, 4));
        lemma_u32_inverse(Endian::Big, 0, buf.skip(4));
        assert(buf.skip(4).subrange(0, 4) =~= buf.subrange(4, 8));
        assert(r.vni_word() == u32_of(Endian::Big, buf.skip(4)));
        assert(r.wire(outer, tail) =~= buf.subrange(0, 8));
    }

    /// A header that can be read lies within the buffer.
    pub proof fn lemma_parse_fits(buf: Seq<u8>)
        requires
            Geneve::parse(buf) is Some,
        ensures
            Geneve::header_len() <= buf.len(),
    {
    }
}

impl Default for Geneve {
    fn default() -> (r: Geneve)
        ensures
            r@ == Geneve::default_spec(),
    {
        Geneve::new()
    }
}

impl Geneve {
    /// A layer with every field at its default.
    pub fn new() -> (r: Geneve)
        ensures
            r@ == Geneve::default_spec(),
    {
        Geneve {
            init: Value::Fixed(0),
            protocol: Value::Auto,
            vni: Value::Auto,
            reserved_u8_2: Value::Auto,
        }
    }

    /// The layer with `init` fixed to the given value.
    pub fn init(self, init: u16) -> (r: Geneve)
        ensures
            r == (Geneve { init: Value::Fixed(init), ..self }),
    {
        let mut r = self;
        r.init = Value::Fixed(init);
        r
    }

    /// The layer with `init` set to the given deferred value.
    pub fn set_init(self, init: Value<u16>) -> (r: Geneve)
        ensures
            r == (Geneve { init, ..self }),
    {
        let mut r = self;
        r.init = init;
        r
    }

    /// The layer with `protocol` fixed to the given value.
    pub fn protocol(self, protocol: u16) -> (r: Geneve)
        ensures
            r == (Geneve { protocol: Value::Fixed(protocol), ..self }),
    {
        let mut r = self;
        r.protocol = Value::Fixed(protocol);
        r
    }

    /// The layer with `protocol` set to the given deferred value.
    pub fn set_protocol(self, protocol: Value<u16>) -> (r: Geneve)
        ensures
            r == (Geneve { protocol, ..self }),
    {
        let mut r = self;
        r.protocol = protocol;
        r
    }

    /// The layer with `vni` fixed to the given value.
    pub fn vni(self, vni: u32) -> (r: Geneve)
        ensures
            r == (Geneve { vni: Value::Fixed(vni), ..self }),
    {
        let mut r = self;
        r.vni = Value::Fixed(vni);
        r
    }

    /// The layer with `vni` set to the given deferred value.
    pub fn set_vni(self, vni: Value<u32>) -> (r: Geneve)
        ensures
            r == (Geneve { vni, ..self }),
    {
        let mut r = self;
        r.vni = vni;
        r
    }

    /// The layer with `reserved_u8_2` fixed to the given value.
    pub fn reserved_u8_2(self, reserved_u8_2: u8) -> (r: Geneve)
        ensures
            r == (Geneve { reserved_u8_2: Value::Fixed(reserved_u8_2), ..self }),
    {
        let mut r = self;
        r.reserved_u8_2 = Value::Fixed(reserved_u8_2);
        r
    }

    /// The layer with `reserved_u8_2` set to the given deferred value.
    pub fn set_reserved_u8_2(self, reserved_u8_2: Value<u8>) -> (r: Geneve)
        ensures
            r == (Geneve { reserved_u8_2, ..self }),
    {
        let mut r = self;
        r.reserved_u8_2 = reserved_u8_2;
        r
    }

    /// A copy of the layer in which every random field is drawn from `rng` and
    /// every computed field is computed. The random fields draw in the order
    /// in which they are declared.
    pub fn resolve<R: RandomSource>(&self, rng: &mut R) -> (r: Geneve)
        ensures
            self@.resolves_to(r@),
            r@.settled(),
            drew(old(rng).drawn(), final(rng).drawn(), self@.draws()),
            self@.drawn_from(fresh(old(rng).drawn(), final(rng).drawn()), r@),
    {
        let ghost s0 = rng.drawn();
        let init = self.init.resolved(rng);
        let ghost s1 = rng.drawn();
        let protocol = self.protocol.resolved(rng);
        let ghost s2 = rng.drawn();
        let vni = self.vni.resolved(rng);
        let ghost s3 = rng.drawn();
        let reserved_u8_2 = self.reserved_u8_2.resolved(rng);
        let ghost s4 = rng.drawn();
        let r = Geneve { init, protocol, vni, reserved_u8_2 };
        proof {
            self@.lemma_drawn(r@, s0, s1, s2, s3, s4);
        }
        r
    }

    /// The layer filled: resolved as by `resolve`, and with every open field
    /// given what its rule says. `next` is the kind of the layer that follows
    /// in the stack.
    pub fn filled<R: RandomSource>(
        &self,
        reg: &Registry,
        next: Option<LayerKind>,
        rng: &mut R,
    ) -> (r: Geneve)
        ensures
            self@.fills_to(reg@, next, r@),
            drew(old(rng).drawn(), final(rng).drawn(), self@.draws()),
            self@.drawn_from(fresh(old(rng).drawn(), final(rng).drawn()), r@),
    {
        let ghost s0 = rng.drawn();
        let init = self.init.filled(rng, u16::default_value());
        let ghost s1 = rng.drawn();
        let protocol = self.protocol.filled(
            rng,
            to_field_u16(reg.next_key(RegistryName::Ethertype, next, 0xffff, 0)),
        );
        let ghost s2 = rng.drawn();
        let vni = self.vni.filled(rng, u32::default_value());
        let ghost s3 = rng.drawn();
        let reserved_u8_2 = self.reserved_u8_2.filled(rng, u8::default_value());
        let ghost s4 = rng.drawn();
        let r = Geneve { init, protocol, vni, reserved_u8_2 };
        proof {
            self@.lemma_drawn(r@, s0, s1, s2, s3, s4);
        }
        r
    }

    /// The bytes of the header.
    pub fn header_bytes(&self) -> (r: Vec<u8>)
        ensures
            r@ == self@.header(),
    {
        let mut out: Vec<u8> = Vec::new();
        assert(
            out@ + (self.init@.or(0)).encoded(Endian::Big)
                =~= (self.init@.or(0)).encoded(Endian::Big)
        );
        put::<u16, BinaryBigEndian>(&mut out, &(self.init.or(u16::default_value())));
        put::<u16, BinaryBigEndian>(&mut out, &(self.protocol.or(u16::default_value())));
        put::<u32, BinaryBigEndian>(&mut out, &(self.vni_and_reserved()));
        out
    }

    /// The bytes of the layer on the wire. `outer` tells what stands before
    /// the layer in the stack and `tail` holds the bytes of the layers behind
    /// it; this protocol needs neither.
    pub fn wire_bytes(&self, outer: &Outer, tail: &EncodingVecVec) -> (r: Vec<u8>)
        ensures
            r@ == self@.wire(*outer, tail@),
    {
        self.header_bytes()
    }

    /// Reads the header from the front of `buf`: the layer and the number of
    /// bytes of the header, or `None` where `buf` is too short.
    pub fn decode_header(buf: &[u8]) -> (r: Option<(Geneve, usize)>)
        ensures
            match r {
                Some((l, n)) => Geneve::parse(buf@) == Some(l@) && n == Geneve::header_len(),
                None => Geneve::parse(buf@) is None,
            },
    {
        let mut pos: usize = 0;
        let mut l = Geneve::new();
        let v0 = take::<u16, BinaryBigEndian>(buf, &mut pos)?;
        l.init = Value::Fixed(v0);
        let v1 = take::<u16, BinaryBigEndian>(buf, &mut pos)?;
        l.protocol = Value::Fixed(v1);
        let v2 = take::<u32, BinaryBigEndian>(buf, &mut pos)?;
        l.vni = Value::Fixed(v2 / 0x100);
        l.reserved_u8_2 = Value::Fixed((v2 % 0x100) as u8);
        Some((l, pos))
    }

    /// The numbers by which the header names the protocol that follows, each
    /// with the table it is looked up in.
    pub fn next_keys(&self) -> (r: Vec<(RegistryName, u32)>)
        ensures
            r@ == self@.nexts(),
    {
        let mut r: Vec<(RegistryName, u32)> = Vec::new();
        r.push((RegistryName::Ethertype, key_u16(self.protocol.or(0))));
        assert(r@ =~= self@.nexts());
        r
    }

    /// `other` holds in every computed field the function that `self` holds
    /// there.
    pub open spec fn same_funcs(self, other: Geneve) -> bool {
        &&& other.init.func() == self.init.func()
        &&& other.protocol.func() == self.protocol.func()
        &&& other.vni.func() == self.vni.func()
        &&& other.reserved_u8_2.func() == self.reserved_u8_2.func()
    }

    /// A copy of the layer: the same values, and in the computed fields the
    /// same functions.
    pub fn dup(&self) -> (r: Geneve)
        ensures
            r@ == self@,
            self.same_funcs(r),
    {
        *self
    }

    /// The identifier and the reserved byte as one number.
    pub fn vni_and_reserved(&self) -> (r: u32)
        ensures
            r == self.vni_word(),
    {
        (self.vni.or(0) % 0x100_0000) * 0x100 + (self.reserved_u8_2.or(0) as u32)
    }
}

} // verus!
