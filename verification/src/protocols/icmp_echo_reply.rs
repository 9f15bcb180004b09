//! The body of an ICMP echo reply.

use crate::codec::BinaryBigEndian;
use crate::codec::Encode;
use crate::codec::Endian;
use crate::codec::lemma_u16_inverse;
use crate::codec::u16_of;
use crate::encoding::EncodingVecVec;
use crate::encoding::Outer;
use crate::registry::LayerKind;
use crate::registry::Registry;
use crate::registry::RegistryEntry;
use crate::registry::RegistryName;
use crate::value::Field;
use crate::value::RandomSource;
use crate::value::Value;
use crate::value::ValueView;
use crate::value::behind;
use crate::value::drew;
use crate::value::fresh;
use crate::value::lemma_drew_first;
use crate::value::lemma_drew_none;
use crate::value::share;
use crate::wire::put;
use crate::wire::take;
use vstd::prelude::*;

verus! {

/// The identifier and the sequence number of an echo reply.
#[derive(Clone, Copy, Debug, PartialEq, Eq)]
pub struct IcmpEchoReply {
    pub identifier: Value<u16>,
    pub sequence: Value<u16>,
}

impl View for IcmpEchoReply {
    type V = IcmpEchoReply;

    open spec fn view(&self) -> IcmpEchoReply {
        *self
    }
}

impl IcmpEchoReply {
    /// A layer as it is made: every field at its default.
    pub open spec fn default_spec() -> IcmpEchoReply {
        IcmpEchoReply {
            identifier: Value::Auto,
            sequence: Value::Auto,
        }
    }

    /// No field waits for a random number or for a function of the caller.
    pub open spec fn settled(self) -> bool {
        &&& self.identifier@.settled()
        &&& self.sequence@.settled()
    }

    /// `r` is the layer with every random or computed field given some value
    /// and every other field as it was. Which value a random field is given
    /// is said by `drawn_from`.
    pub open spec fn resolves_to(self, r: IcmpEchoReply) -> bool {
        &&& self.identifier@.resolves_to(r.identifier@)
        &&& self.sequence@.resolves_to(r.sequence@)
    }

    /// `r` is the layer after a fill in a stack whose next layer is of kind
    /// `next`, with the tables `reg`: fixed fields stay, random and computed
    /// fields get some value, and each open field gets what its rule says.
    /// Which value a random field gets is said by `drawn_from`.
    pub open spec fn fills_to(
        self,
        reg: Seq<RegistryEntry>,
        next: Option<LayerKind>,
        r: IcmpEchoReply,
    ) -> bool {
        &&& self.identifier@.fills_to(ValueView::Fixed(0), r.identifier@)
        &&& self.sequence@.fills_to(ValueView::Fixed(0), r.sequence@)
    }

    /// How many numbers the layer takes from a random source when it is
    /// resolved or filled: those of its random fields together.
    pub open spec fn draws(self) -> nat {
        self.identifier@.draws(u16::draws()) + self.sequence@.draws(u16::draws())
    }

    /// `r` holds in every field that is random in `self` the value made of
    /// that field's share of the numbers `d`. The fields take their shares
    /// in the order in which they are declared, each as many numbers as a
    /// random value of its type takes.
    pub open spec fn drawn_from(self, d: Seq<u32>, r: IcmpEchoReply) -> bool {
        let d0 = d;
        let d1 = behind(d0, self.identifier@.draws(u16::draws()));
        &&& self.identifier@.drawn_as(u16::of_draws(share(d0, u16::draws())), r.identifier@)
        &&& self.sequence@.drawn_as(u16::of_draws(share(d1, u16::draws())), r.sequence@)
    }

    /// No field of the layer is computed by a function of the caller.
    pub open spec fn without_funcs(self) -> bool {
        &&& !(self.identifier@ is Func)
        &&& !(self.sequence@ is Func)
    }

    /// Where no field is computed, the numbers drawn decide what the layer
    /// resolves to.
    pub proof fn lemma_resolve_decided(self, d: Seq<u32>, a: IcmpEchoReply, b: IcmpEchoReply)
        requires
            self.without_funcs(),
            self.resolves_to(a),
            self.drawn_from(d, a),
            self.resolves_to(b),
            self.drawn_from(d, b),
        ensures
            a == b,
    {
    }

    /// Where no field is computed, the numbers drawn decide what the layer
    /// is filled to.
    pub proof fn lemma_fill_decided(
        self,
        reg: Seq<RegistryEntry>,
        next: Option<LayerKind>,
        d: Seq<u32>,
        a: IcmpEchoReply,
        b: IcmpEchoReply,
    )
        requires
            self.without_funcs(),
            self.fills_to(reg, next, a),
            self.drawn_from(d, a),
            self.fills_to(reg, next, b),
            self.drawn_from(d, b),
        ensures
            a == b,
    {
    }

    /// What the fields drew one after the other is what the layer drew:
    /// `s0` is the record of the source before the first field, and each
    /// of the others the record after one more field.
    pub proof fn lemma_drawn(self, r: IcmpEchoReply, s0: Seq<u32>, s1: Seq<u32>, s2: Seq<u32>)
        requires
            drew(s0, s1, self.identifier@.draws(u16::draws())),
            self.identifier@.drawn_as(u16::of_draws(fresh(s0, s1)), r.identifier@),
            drew(s1, s2, self.sequence@.draws(u16::draws())),
            self.sequence@.drawn_as(u16::of_draws(fresh(s1, s2)), r.sequence@),
        ensures
            drew(s0, s2, self.draws()),
            self.drawn_from(fresh(s0, s2), r),
    {
        lemma_drew_none(s2);
        lemma_drew_first(s1, s2, s2);
        lemma_drew_first(s0, s1, s2);
    }

    /// The bytes of the header.
    pub open spec fn header(self) -> Seq<u8> {
        (self.identifier@.or(0)).encoded(Endian::Big)
            + (self.sequence@.or(0)).encoded(Endian::Big)
    }

    /// The bytes of the layer on the wire.
    pub open spec fn wire(self, outer: Outer, tail: Seq<Seq<u8>>) -> Seq<u8> {
        self.header()
    }

    /// The number of bytes of the header.
    pub open spec fn header_len() -> nat {
        4
    }

    /// The layer that the first bytes of `buf` stand for, or `None` where
    /// `buf` is shorter than the header.
    pub open spec fn parse(buf: Seq<u8>) -> Option<IcmpEchoReply> {
        if buf.len() < 4 {
            None
        } else {
            Some(
                IcmpEchoReply {
                    identifier: Value::Fixed(u16_of(Endian::Big, buf.skip(0))),
                    sequence: Value::Fixed(u16_of(Endian::Big, buf.skip(2))),
                    ..IcmpEchoReply::default_spec()
                },
            )
        }
    }

    /// The header names no protocol to follow.
    pub open spec fn nexts(self) -> Seq<(RegistryName, u32)> {
        Seq::empty()
    }

    /// After a fill no field waits for a random number or a function, and
    /// every field is fixed but those that are left to the encoder.
    pub proof fn lemma_filled(
        self,
        reg: Seq<RegistryEntry>,
        next: Option<LayerKind>,
        r: IcmpEchoReply,
    )
        requires
            self.fills_to(reg, next, r),
        ensures
            r.settled(),
            r.identifier@ is Fixed,
            r.sequence@ is Fixed,
    {
    }

    /// Resolving a layer in which nothing is random or computed changes
    /// nothing.
    pub proof fn lemma_settled(self, r: IcmpEchoReply)
        requires
            self.settled(),
            self.resolves_to(r),
        ensures
            r == self,
    {
    }

    /// A header that was read and then filled is written as the bytes it
    /// was read from, whatever stands around it in its stack.
    pub proof fn lemma_echo(
        buf: Seq<u8>,
        reg: Seq<RegistryEntry>,
        next: Option<LayerKind>,
        r: IcmpEchoReply,
        outer: Outer,
        tail: Seq<Seq<u8>>,
    )
        requires
            IcmpEchoReply::parse(buf) matches Some(l) && l.fills_to(reg, next, r),
        ensures
            r.wire(outer, tail) == buf.subrange(0, 4),
    {
        lemma_u16_inverse(Endian::Big, 0, buf.skip(0));
        assert(buf.skip(0).subrange(0, 2) =~= buf.subrange(0, 2));
        lemma_u16_inverse(Endian::Big, 0, buf.skip(2));
        assert(buf.skip(2).subrange(0, 2) =~= buf.subrange(2, 4));
        assert(r.wire(outer, tail) =~= buf.subrange(0, 4));
    }

    /// A header that can be read lies within the buffer.
    pub proof fn lemma_parse_fits(buf: Seq<u8>)
        requires
            IcmpEchoReply::parse(buf) is Some,
        ensures
            IcmpEchoReply::header_len() <= buf.len(),
    {
    }
}

impl Default for IcmpEchoReply {
    fn default() -> (r: IcmpEchoReply)
        ensures
            r@ == IcmpEchoReply::default_spec(),
    {
        IcmpEchoReply::new()
    }
}

impl IcmpEchoReply {
    /// A layer with every field at its default.
    pub fn new() -> (r: IcmpEchoReply)
        ensures
            r@ == IcmpEchoReply::default_spec(),
    {
        IcmpEchoReply {
            identifier: Value::Auto,
            sequence: Value::Auto,
        }
    }

    /// The layer with `identifier` fixed to the given value.
    pub fn identifier(self, identifier: u16) -> (r: IcmpEchoReply)
        ensures
            r == (IcmpEchoReply { identifier: Value::Fixed(identifier), ..self }),
    {
        let mut r = self;
        r.identifier = Value::Fixed(identifier);
        r
    }

    /// The layer with `identifier` set to the given deferred value.
    pub fn set_identifier(self, identifier: Value<u16>) -> (r: IcmpEchoReply)
        ensures
            r == (IcmpEchoReply { identifier, ..self }),
    {
        let mut r = self;
        r.identifier = identifier;
        r
    }

    /// The layer with `sequence` fixed to the given value.
    pub fn sequence(self, sequence: u16) -> (r: IcmpEchoReply)
        ensures
            r == (IcmpEchoReply { sequence: Value::Fixed(sequence), ..self }),
    {
        let mut r = self;
        r.sequence = Value::Fixed(sequence);
        r
    }

    /// The layer with `sequence` set to the given deferred value.
    pub fn set_sequence(self, sequence: Value<u16>) -> (r: IcmpEchoReply)
        ensures
            r == (IcmpEchoReply { sequence, ..self }),
    {
        let mut r = self;
        r.sequence = sequence;
        r
    }

    /// A copy of the layer in which every random field is drawn from `rng` and
    /// every computed field is computed. The random fields draw in the order
    /// in which they are declared.
    pub fn resolve<R: RandomSource>(&self, rng: &mut R) -> (r: IcmpEchoReply)
        ensures
            self@.resolves_to(r@),
            r@.settled(),
            drew(old(rng).drawn(), final(rng).drawn(), self@.draws()),
            self@.drawn_from(fresh(old(rng).drawn(), final(rng).drawn()), r@),
    {
        let ghost s0 = rng.drawn();
        let identifier = self.identifier.resolved(rng);
        let ghost s1 = rng.drawn();
        let sequence = self.sequence.resolved(rng);
        let ghost s2 = rng.drawn();
        let r = IcmpEchoReply { identifier, sequence };
        proof {
            self@.lemma_drawn(r@, s0, s1, s2);
        }
        r
    }

    /// The layer filled: resolved as by `resolve`, and with every open field
    /// given what its rule says. `next` is the kind of the layer that follows
    /// in the stack.
    pub fn filled<R: RandomSource>(
        &self,
        reg: &Registry,
        next: Option<LayerKind>,
        rng: &mut R,
    ) -> (r: IcmpEchoReply)
        ensures
            self@.fills_to(reg@, next, r@),
            drew(old(rng).drawn(), final(rng).drawn(), self@.draws()),
            self@.drawn_from(fresh(old(rng).drawn(), final(rng).drawn()), r@),
    {
        let ghost s0 = rng.drawn();
        let identifier = self.identifier.filled(rng, u16::default_value());
        let ghost s1 = rng.drawn();
        let sequence = self.sequence.filled(rng, u16::default_value());
        let ghost s2 = rng.drawn();
        let r = IcmpEchoReply { identifier, sequence };
        proof {
            self@.lemma_drawn(r@, s0, s1, s2);
        }
        r
    }

    /// The bytes of the header.
    pub fn header_bytes(&self) -> (r: Vec<u8>)
        ensures
            r@ == self@.header(),
    {
        let mut out: Vec<u8> = Vec::new();
        assert(
            out@ + (self.identifier@.or(0)).encoded(Endian::Big)
                =~= (self.identifier@.or(0)).encoded(Endian::Big)
        );
        put::<u16, BinaryBigEndian>(&mut out, &(self.identifier.or(u16::default_value())));
        put::<u16, BinaryBigEndian>(&mut out, &(self.sequence.or(u16::default_value())));
        out
    }

    /// The bytes of the layer on the wire. `outer` tells what stands before
    /// the layer in the stack and `tail` holds the bytes of the layers behind
    /// it; this protocol needs neither.
    pub fn wire_bytes(&self, outer: &Outer, tail: &EncodingVecVec) -> (r: Vec<u8>)
        ensures
            r@ == self@.wire(*outer, tail@),
    {
        self.header_bytes()
    }

    /// Reads the header from the front of `buf`: the layer and the number of
    /// bytes of the header, or `None` where `buf` is too short.
    pub fn decode_header(buf: &[u8]) -> (r: Option<(IcmpEchoReply, usize)>)
        ensures
            match r {
                Some((
                    l,
                    n,
                )) => IcmpEchoReply::parse(buf@) == Some(l@) && n == IcmpEchoReply::header_len(),
                None => IcmpEchoReply::parse(buf@) is None,
            },
    {
        let mut pos: usize = 0;
        let mut l = IcmpEchoReply::new();
        let v0 = take::<u16, BinaryBigEndian>(buf, &mut pos)?;
        l.identifier = Value::Fixed(v0);
        let v1 = take::<u16, BinaryBigEndian>(buf, &mut pos)?;
        l.sequence = Value::Fixed(v1);
        Some((l, pos))
    }

    /// The numbers by which the header names the protocol that follows:
    /// none, for this header names no protocol to follow.
    pub fn next_keys(&self) -> (r: Vec<(RegistryName, u32)>)
        ensures
            r@ == self@.nexts(),
    {
        let mut r: Vec<(RegistryName, u32)> = Vec::new();
        assert(r@ =~= self@.nexts());
        r
    }

    /// `other` holds in every computed field the function that `self` holds
    /// there.
    pub open spec fn same_funcs(self, other: IcmpEchoReply) -> bool {
        &&& other.identifier.func() == self.identifier.func()
        &&& other.sequence.func() == self.sequence.func()
    }

    /// A copy of the layer: the same values, and in the computed fields the
    /// same functions.
    pub fn dup(&self) -> (r: IcmpEchoReply)
        ensures
            r@ == self@,
            self.same_funcs(r),
    {
        *self
    }
}

} // verus!
