//! The 802.1Q VLAN tag.

use crate::codec::BinaryBigEndian;
use crate::codec::Encode;
use crate::codec::Endian;
use crate::codec::lemma_u16_inverse;
use crate::codec::u16_of;
use crate::encoding::EncodingVecVec;
use crate::encoding::Outer;
use crate::registry::LayerKind;
use crate::registry::Registry;
use crate::registry::RegistryEntry;
use crate::registry::RegistryName;
use crate::registry::field_u16;
use crate::registry::key_of_u16;
use crate::registry::key_u16;
use crate::registry::next_key;
use crate::registry::to_field_u16;
use crate::value::Field;
use crate::value::RandomSource;
use crate::value::Value;
use crate::value::ValueView;
use crate::value::behind;
use crate::value::drew;
use crate::value::fresh;
use crate::value::lemma_drew_first;
use crate::value::lemma_drew_none;
use crate::value::share;
use crate::wire::put;
use crate::wire::take;
use vstd::prelude::*;

verus! {

/// An 802.1Q tag: the tag control word and the Ethertype of what follows.
#[allow(non_camel_case_types)]
#[derive(Clone, Copy, Debug, PartialEq, Eq)]
pub struct dot1Q {
    /// The priority code point, three bits.
    pub prio: Value<u8>,
    /// The drop eligible indicator, one bit.
    pub id: Value<u8>,
    /// The VLAN identifier, twelve bits.
    pub vlan: Value<u16>,
    /// The Ethertype of what the tag encloses.
    pub etype: Value<u16>,
}

impl View for dot1Q {
    type V = dot1Q;

    open spec fn view(&self) -> dot1Q {
        *self
    }
}

impl dot1Q {
    /// A layer as it is made: every field at its default.
    pub open spec fn default_spec() -> dot1Q {
        dot1Q {
            prio: Value::Fixed(0),
            id: Value::Fixed(0),
            vlan: Value::Fixed(1),
            etype: Value::Auto,
        }
    }

    /// No field waits for a random number or for a function of the caller.
    pub open spec fn settled(self) -> bool {
        &&& self.prio@.settled()
        &&& self.id@.settled()
        &&& self.vlan@.settled()
        &&& self.etype@.settled()
    }

    /// `r` is the layer with every random or computed field given some value
    /// and every other field as it was. Which value a random field is given
    /// is said by `drawn_from`.
    pub open spec fn resolves_to(self, r: dot1Q) -> bool {
        &&& self.prio@.resolves_to(r.prio@)
        &&& self.id@.resolves_to(r.id@)
        &&& self.vlan@.resolves_to(r.vlan@)
        &&& self.etype@.resolves_to(r.etype@)
    }

    /// `r` is the layer after a fill in a stack whose next layer is of kind
    /// `next`, with the tables `reg`: fixed fields stay, random and computed
    /// fields get some value, and each open field gets what its rule says.
    /// Which value a random field gets is said by `drawn_from`.
    pub open spec fn fills_to(
        self,
        reg: Seq<RegistryEntry>,
        next: Option<LayerKind>,
        r: dot1Q,
    ) -> bool {
        &&& self.prio@.fills_to(ValueView::Fixed(0), r.prio@)
        &&& self.id@.fills_to(ValueView::Fixed(0), r.id@)
        &&& self.vlan@.fills_to(ValueView::Auto, r.vlan@)
        &&& self.etype@.fills_to(
            ValueView::Fixed(field_u16(next_key(reg, RegistryName::Ethertype, next, 0xffff, 0))),
            r.etype@,
        )
    }

    /// How many numbers the layer takes from a random source when it is
    /// resolved or filled: those of its random fields together.
    pub open spec fn draws(self) -> nat {
        self.prio@.draws(u8::draws())
            + self.id@.draws(u8::draws())
            + self.vlan@.draws(u16::draws())
            + self.etype@.draws(u16::draws())
    }

    /// `r` holds in every field that is random in `self` the value made of
    /// that field's share of the numbers `d`. The fields take their shares
    /// in the order in which they are declared, each as many numbers as a
    /// random value of its type takes.
    pub open spec fn drawn_from(self, d: Seq<u32>, r: dot1Q) -> bool {
        let d0 = d;
        let d1 = behind(d0, self.prio@.draws(u8::draws()));
        let d2 = behind(d1, self.id@.draws(u8::draws()));
        let d3 = behind(d2, self.vlan@.draws(u16::draws()));
        &&& self.prio@.drawn_as(u8::of_draws(share(d0, u8::draws())), r.prio@)
        &&& self.id@.drawn_as(u8::of_draws(share(d1, u8::draws())), r.id@)
        &&& self.vlan@.drawn_as(u16::of_draws(share(d2, u16::draws())), r.vlan@)
        &&& self.etype@.drawn_as(u16::of_draws(share(d3, u16::draws())), r.etype@)
    }

    /// No field of the layer is computed by a function of the caller.
    pub open spec fn without_funcs(self) -> bool {
        &&& !(self.prio@ is Func)
        &&& !(self.id@ is Func)
        &&& !(self.vlan@ is Func)
        &&& !(self.etype@ is Func)
    }

    /// Where no field is computed, the numbers drawn decide what the layer
    /// resolves to.
    pub proof fn lemma_resolve_decided(self, d: Seq<u32>, a: dot1Q, b: dot1Q)
        requires
            self.without_funcs(),
            self.resolves_to(a),
            self.drawn_from(d, a),
            self.resolves_to(b),
            self.drawn_from(d, b),
        ensures
            a == b,
    {
    }

    /// Where no field is computed, the numbers drawn decide what the layer
    /// is filled to.
    pub proof fn lemma_fill_decided(
        self,
        reg: Seq<RegistryEntry>,
        next: Option<LayerKind>,
        d: Seq<u32>,
        a: dot1Q,
        b: dot1Q,
    )
        requires
            self.without_funcs(),
            self.fills_to(reg, next, a),
            self.drawn_from(d, a),
            self.fills_to(reg, next, b),
            self.drawn_from(d, b),
        ensures
            a == b,
    {
    }

    /// What the fields drew one after the other is what the layer drew:
    /// `s0` is the record of the source before the first field, and each
    /// of the others the record after one more field.
    pub proof fn lemma_drawn(
        self,
        r: dot1Q,
        s0: Seq<u32>,
        s1: Seq<u32>,
        s2: Seq<u32>,
        s3: Seq<u32>,
        s4: Seq<u32>,
    )
        requires
            drew(s0, s1, self.prio@.draws(u8::draws())),
            self.prio@.drawn_as(u8::of_draws(fresh(s0, s1)), r.prio@),
            drew(s1, s2, self.id@.draws(u8::draws())),
            self.id@.drawn_as(u8::of_draws(fresh(s1, s2)), r.id@),
            drew(s2, s3, self.vlan@.draws(u16::draws())),
            self.vlan@.drawn_as(u16::of_draws(fresh(s2, s3)), r.vlan@),
            drew(s3, s4, self.etype@.draws(u16::draws())),
            self.etype@.drawn_as(u16::of_draws(fresh(s3, s4)), r.etype@),
        ensures
            drew(s0, s4, self.draws()),
            self.drawn_from(fresh(s0, s4), r),
    {
        lemma_drew_none(s4);
        lemma_drew_first(s3, s4, s4);
        lemma_drew_first(s2, s3, s4);
        lemma_drew_first(s1, s2, s4);
        lemma_drew_first(s0, s1, s4);
    }

    /// The bytes of the header.
    pub open spec fn header(self) -> Seq<u8> {
        (self.tci()).encoded(Endian::Big)
            + (self.etype@.or(0)).encoded(Endian::Big)
    }

    /// The bytes of the layer on the wire.
    pub open spec fn wire(self, outer: Outer, tail: Seq<Seq<u8>>) -> Seq<u8> {
        self.header()
    }

    /// The number of bytes of the header.
    pub open spec fn header_len() -> nat {
        4
    }

    /// The layer that the first bytes of `buf` stand for, or `None` where
    /// `buf` is shorter than the header.
    pub open spec fn parse(buf: Seq<u8>) -> Option<dot1Q> {
        if buf.len() < 4 {
            None
        } else {
            Some(
                dot1Q {
                    vlan: Value::Fixed(u16_of(Endian::Big, buf.skip(0)) % 0x1000),
                    id: Value::Fixed((u16_of(Endian::Big, buf.skip(0)) / 0x1000 % 2) as u8),
                    prio: Value::Fixed((u16_of(Endian::Big, buf.skip(0)) / 0x2000) as u8),
                    etype: Value::Fixed(u16_of(Endian::Big, buf.skip(2))),
                    ..dot1Q::default_spec()
                },
            )
        }
    }

    /// The numbers by which the header names the protocol that follows, each
    /// with the table it is looked up in, in the order in which they are tried.
    pub open spec fn nexts(self) -> Seq<(RegistryName, u32)> {
        seq![(RegistryName::Ethertype, key_of_u16(self.etype@.or(0)))]
    }

    /// The tag control word: the priority in the three highest bits, the drop
    /// eligible indicator in the next one and the VLAN identifier in the twelve
    /// lowest. An open field counts as zero.
    pub open spec fn tci(self) -> u16 {
        (
            (self.prio@.or(0) % 8) * 0x2000
                + (self.id@.or(0) % 2) * 0x1000
                + self.vlan@.or(0) % 0x1000
        ) as u16
    }

    /// After a fill no field waits for a random number or a function, and
    /// every field is fixed but those that are left to the encoder.
    pub proof fn lemma_filled(self, reg: Seq<RegistryEntry>, next: Option<LayerKind>, r: dot1Q)
        requires
            self.fills_to(reg, next, r),
        ensures
            r.settled(),
            r.prio@ is Fixed,
            r.id@ is Fixed,
            r.etype@ is Fixed,
    {
    }

    /// Resolving a layer in which nothing is random or computed changes
    /// nothing.
    pub proof fn lemma_settled(self, r: dot1Q)
        requires
            self.settled(),
            self.resolves_to(r),
        ensures
            r == self,
    {
    }

    /// A header that was read and then filled is written as the bytes it
    /// was read from, whatever stands around it in its stack.
    pub proof fn lemma_echo(
        buf: Seq<u8>,
        reg: Seq<RegistryEntry>,
        next: Option<LayerKind>,
        r: dot1Q,
        outer: Outer,
        tail: Seq<Seq<u8>>,
    )
        requires
            dot1Q::parse(buf) matches Some(l) && l.fills_to(reg, next, r),
        ensures
            r.wire(outer, tail) == buf.subrange(0, 4),
    {
        lemma_u16_inverse(Endian::Big, 0, buf.skip(0));
        assert(buf.skip(0).subrange(0, 2) =~= buf.subrange(0, 2));
        assert(r.tci() == u16_of(Endian::Big, buf.skip(0)));
        lemma_u16_inverse(Endian::Big, 0, buf.skip(2));
        assert(buf.skip(2).subrange(0, 2) =~= buf.subrange(2, 4));
        assert(r.wire(outer, tail) =~= buf.subrange(0, 4));
    }

    /// A header that can be read lies within the buffer.
    pub proof fn lemma_parse_fits(buf: Seq<u8>)
        requires
            dot1Q::parse(buf) is Some,
        ensures
            dot1Q::header_len() <= buf.len(),
    {
    }
}

impl Default for dot1Q {
    fn default() -> (r: dot1Q)
        ensures
            r@ == dot1Q::default_spec(),
    {
        dot1Q::new()
    }
}

impl dot1Q {
    /// A layer with every field at its default.
    pub fn new() -> (r: dot1Q)
        ensures
            r@ == dot1Q::default_spec(),
    {
        dot1Q {
            prio: Value::Fixed(0),
            id: Value::Fixed(0),
            vlan: Value::Fixed(1),
            etype: Value::Auto,
        }
    }

    /// The layer with `prio` fixed to the given value.
    pub fn prio(self, prio: u8) -> (r: dot1Q)
        ensures
            r == (dot1Q { prio: Value::Fixed(prio), ..self }),
    {
        let mut r = self;
        r.prio = Value::Fixed(prio);
        r
    }

    /// The layer with `prio` set to the given deferred value.
    pub fn set_prio(self, prio: Value<u8>) -> (r: dot1Q)
        ensures
            r == (dot1Q { prio, ..self }),
    {
        let mut r = self;
        r.prio = prio;
        r
    }

    /// The layer with `id` fixed to the given value.
    pub fn id(self, id: u8) -> (r: dot1Q)
        ensures
            r == (dot1Q { id: Value::Fixed(id), ..self }),
    {
        let mut r = self;
        r.id = Value::Fixed(id);
        r
    }

    /// The layer with `id` set to the given deferred value.
    pub fn set_id(self, id: Value<u8>) -> (r: dot1Q)
        ensures
            r == (dot1Q { id, ..self }),
    {
        let mut r = self;
        r.id = id;
        r
    }

    /// The layer with `vlan` fixed to the given value.
    pub fn vlan(self, vlan: u16) -> (r: dot1Q)
        ensures
            r == (dot1Q { vlan: Value::Fixed(vlan), ..self }),
    {
        let mut r = self;
        r.vlan = Value::Fixed(vlan);
        r
    }

    /// The layer with `vlan` set to the given deferred value.
    pub fn set_vlan(self, vlan: Value<u16>) -> (r: dot1Q)
        ensures
            r == (dot1Q { vlan, ..self }),
    {
        let mut r = self;
        r.vlan = vlan;
        r
    }

    /// The layer with `etype` fixed to the given value.
    pub fn etype(self, etype: u16) -> (r: dot1Q)
        ensures
            r == (dot1Q { etype: Value::Fixed(etype), ..self }),
    {
        let mut r = self;
        r.etype = Value::Fixed(etype);
        r
    }

    /// The layer with `etype` set to the given deferred value.
    pub fn set_etype(self, etype: Value<u16>) -> (r: dot1Q)
        ensures
            r == (dot1Q { etype, ..self }),
    {
        let mut r = self;
        r.etype = etype;
        r
    }

    /// A copy of the layer in which every random field is drawn from `rng` and
    /// every computed field is computed. The random fields draw in the order
    /// in which they are declared.
    pub fn resolve<R: RandomSource>(&self, rng: &mut R) -> (r: dot1Q)
        ensures
            self@.resolves_to(r@),
            r@.settled(),
            drew(old(rng).drawn(), final(rng).drawn(), self@.draws()),
            self@.drawn_from(fresh(old(rng).drawn(), final(rng).drawn()), r@),
    {
        let ghost s0 = rng.drawn();
        let prio = self.prio.resolved(rng);
        let ghost s1 = rng.drawn();
        let id = self.id.resolved(rng);
        let ghost s2 = rng.drawn();
        let vlan = self.vlan.resolved(rng);
        let ghost s3 = rng.drawn();
        let etype = self.etype.resolved(rng);
        let ghost s4 = rng.drawn();
        let r = dot1Q { prio, id, vlan, etype };
        proof {
            self@.lemma_drawn(r@, s0, s1, s2, s3, s4);
        }
        r
    }

    /// The layer filled: resolved as by `resolve`, and with every open field
    /// given what its rule says. `next` is the kind of the layer that follows
    /// in the stack.
    pub fn filled<R: RandomSource>(
        &self,
        reg: &Registry,
        next: Option<LayerKind>,
        rng: &mut R,
    ) -> (r: dot1Q)
        ensures
            self@.fills_to(reg@, next, r@),
            drew(old(rng).drawn(), final(rng).drawn(), self@.draws()),
            self@.drawn_from(fresh(old(rng).drawn(), final(rng).drawn()), r@),
    {
        let ghost s0 = rng.drawn();
        let prio = self.prio.filled(rng, u8::default_value());
        let ghost s1 = rng.drawn();
        let id = self.id.filled(rng, u8::default_value());
        let ghost s2 = rng.drawn();
        let vlan = self.vlan.resolved(rng);
        let ghost s3 = rng.drawn();
        let etype = self.etype.filled(
            rng,
            to_field_u16(reg.next_key(RegistryName::Ethertype, next, 0xffff, 0)),
        );
        let ghost s4 = rng.drawn();
        let r = dot1Q { prio, id, vlan, etype };
        proof {
            self@.lemma_drawn(r@, s0, s1, s2, s3, s4);
        }
        r
    }

    /// The bytes of the header.
    pub fn header_bytes(&self) -> (r: Vec<u8>)
        ensures
            r@ == self@.header(),
    {
        let mut out: Vec<u8> = Vec::new();
        assert(out@ + (self.tci()).encoded(Endian::Big) =~= (self.tci()).encoded(Endian::Big));
        put::<u16, BinaryBigEndian>(&mut out, &(self.tci_word()));
        put::<u16, BinaryBigEndian>(&mut out, &(self.etype.or(u16::default_value())));
        out
    }

    /// The bytes of the layer on the wire. `outer` tells what stands before
    /// the layer in the stack and `tail` holds the bytes of the layers behind
    /// it; this protocol needs neither.
    pub fn wire_bytes(&self, outer: &Outer, tail: &EncodingVecVec) -> (r: Vec<u8>)
        ensures
            r@ == self@.wire(*outer, tail@),
    {
        self.header_bytes()
    }

    /// Reads the header from the front of `buf`: the layer and the number of
    /// bytes of the header, or `None` where `buf` is too short.
    pub fn decode_header(buf: &[u8]) -> (r: Option<(dot1Q, usize)>)
        ensures
            match r {
                Some((l, n)) => dot1Q::parse(buf@) == Some(l@) && n == dot1Q::header_len(),
                None => dot1Q::parse(buf@) is None,
            },
    {
        let mut pos: usize = 0;
        let mut l = dot1Q::new();
        let v0 = take::<u16, BinaryBigEndian>(buf, &mut pos)?;
        l.vlan = Value::Fixed(v0 % 0x1000);
        l.id = Value::Fixed((v0 / 0x1000 % 2) as u8);
        l.prio = Value::Fixed((v0 / 0x2000) as u8);
        let v1 = take::<u16, BinaryBigEndian>(buf, &mut pos)?;
        l.etype = Value::Fixed(v1);
        Some((l, pos))
    }

    /// The numbers by which the header names the protocol that follows, each
    /// with the table it is looked up in.
    pub fn next_keys(&self) -> (r: Vec<(RegistryName, u32)>)
        ensures
            r@ == self@.nexts(),
    {
        let mut r: Vec<(RegistryName, u32)> = Vec::new();
        r.push((RegistryName::Ethertype, key_u16(self.etype.or(0))));
        assert(r@ =~= self@.nexts());
        r
    }

    /// `other` holds in every computed field the function that `self` holds
    /// there.
    pub open spec fn same_funcs(self, other: dot1Q) -> bool {
        &&& other.prio.func() == self.prio.func()
        &&& other.id.func() == self.id.func()
        &&& other.vlan.func() == self.vlan.func()
        &&& other.etype.func() == self.etype.func()
    }

    /// A copy of the layer: the same values, and in the computed fields the
    /// same functions.
    pub fn dup(&self) -> (r: dot1Q)
        ensures
            r@ == self@,
            self.same_funcs(r),
    {
        *self
    }

    /// The tag control word.
    pub fn tci_word(&self) -> (r: u16)
        ensures
            r == self.tci(),
    {
        let vlan: u16 = self.vlan.or(0) % 0x1000;
        let dei: u16 = (self.id.or(0) % 2) as u16;
        let pcp: u16 = (self.prio.or(0) % 8) as u16;
        pcp * 0x2000 + dei * 0x1000 + vlan
    }
}

} // verus!
