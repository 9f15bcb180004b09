//! The Internet Control Message Protocol.

use crate::checksum::fold_u32;
use crate::checksum::folded;
use crate::checksum::get_inet_sum;
use crate::checksum::inet_sum;
use crate::codec::BinaryBigEndian;
use crate::codec::Encode;
use crate::codec::Endian;
use crate::codec::lemma_u16_inverse;
use crate::codec::u16_of;
use crate::encoding::EncodingVecVec;
use crate::encoding::Outer;
use crate::registry::LayerKind;
use crate::registry::Registry;
use crate::registry::RegistryEntry;
use crate::registry::RegistryName;
use crate::registry::field_u8;
use crate::registry::key_of_u8;
use crate::registry::key_u8;
use crate::registry::next_key;
use crate::registry::to_field_u8;
use crate::value::Field;
use crate::value::RandomSource;
use crate::value::Value;
use crate::value::ValueView;
use crate::value::behind;
use crate::value::drew;
use crate::value::fresh;
use crate::value::lemma_drew_first;
use crate::value::lemma_drew_none;
use crate::value::share;
use crate::wire::put;
use crate::wire::take;
use vstd::prelude::*;

verus! {

/// An ICMP header: type, code and checksum.
#[derive(Clone, Copy, Debug, PartialEq, Eq)]
pub struct Icmp {
    /// The message type. An open one is filled with the type registered for
    /// the layer that follows.
    pub typ: Value<u8>,
    /// The message code.
    pub code: Value<u8>,
    /// The checksum. An open one is computed over the header when the layer
    /// is encoded.
    pub chksum: Value<u16>,
}

impl View for Icmp {
    type V = Icmp;

    open spec fn view(&self) -> Icmp {
        *self
    }
}

impl Icmp {
    /// A layer as it is made: every field at its default.
    pub open spec fn default_spec() -> Icmp {
        Icmp {
            typ: Value::Auto,
            code: Value::Auto,
            chksum: Value::Auto,
        }
    }

    /// No field waits for a random number or for a function of the caller.
    pub open spec fn settled(self) -> bool {
        &&& self.typ@.settled()
        &&& self.code@.settled()
        &&& self.chksum@.settled()
    }

    /// `r` is the layer with every random or computed field given some value
    /// and every other field as it was. Which value a random field is given
    /// is said by `drawn_from`.
    pub open spec fn resolves_to(self, r: Icmp) -> bool {
        &&& self.typ@.resolves_to(r.typ@)
        &&& self.code@.resolves_to(r.code@)
        &&& self.chksum@.resolves_to(r.chksum@)
    }

    /// `r` is the layer after a fill in a stack whose next layer is of kind
    /// `next`, with the tables `reg`: fixed fields stay, random and computed
    /// fields get some value, and each open field gets what its rule says.
    /// Which value a random field gets is said by `drawn_from`.
    pub open spec fn fills_to(
        self,
        reg: Seq<RegistryEntry>,
        next: Option<LayerKind>,
        r: Icmp,
    ) -> bool {
        &&& self.typ@.fills_to(
            ValueView::Fixed(field_u8(next_key(reg, RegistryName::IcmpType, next, 0xff, 0))),
            r.typ@,
        )
        &&& self.code@.fills_to(ValueView::Fixed(0), r.code@)
        &&& self.chksum@.fills_to(ValueView::Auto, r.chksum@)
    }

    /// How many numbers the layer takes from a random source when it is
    /// resolved or filled: those of its random fields together.
    pub open spec fn draws(self) -> nat {
        self.typ@.draws(u8::draws())
            + self.code@.draws(u8::draws())
            + self.chksum@.draws(u16::draws())
    }

    /// `r` holds in every field that is random in `self` the value made of
    /// that field's share of the numbers `d`. The fields take their shares
    /// in the order in which they are declared, each as many numbers as a
    /// random value of its type takes.
    pub open spec fn drawn_from(self, d: Seq<u32>, r: Icmp) -> bool {
        let d0 = d;
        let d1 = behind(d0, self.typ@.draws(u8::draws()));
        let d2 = behind(d1, self.code@.draws(u8::draws()));
        &&& self.typ@.drawn_as(u8::of_draws(share(d0, u8::draws())), r.typ@)
        &&& self.code@.drawn_as(u8::of_draws(share(d1, u8::draws())), r.code@)
        &&& self.chksum@.drawn_as(u16::of_draws(share(d2, u16::draws())), r.chksum@)
    }

    /// No field of the layer is computed by a function of the caller.
    pub open spec fn without_funcs(self) -> bool {
        &&& !(self.typ@ is Func)
        &&& !(self.code@ is Func)
        &&& !(self.chksum@ is Func)
    }

    /// Where no field is computed, the numbers drawn decide what the layer
    /// resolves to.
    pub proof fn lemma_resolve_decided(self, d: Seq<u32>, a: Icmp, b: Icmp)
        requires
            self.without_funcs(),
            self.resolves_to(a),
            self.drawn_from(d, a),
            self.resolves_to(b),
            self.drawn_from(d, b),
        ensures
            a == b,
    {
    }

    /// Where no field is computed, the numbers drawn decide what the layer
    /// is filled to.
    pub proof fn lemma_fill_decided(
        self,
        reg: Seq<RegistryEntry>,
        next: Option<LayerKind>,
        d: Seq<u32>,
        a: Icmp,
        b: Icmp,
    )
        requires
            self.without_funcs(),
            self.fills_to(reg, next, a),
            self.drawn_from(d, a),
            self.fills_to(reg, next, b),
            self.drawn_from(d, b),
        ensures
            a == b,
    {
    }

    /// What the fields drew one after the other is what the layer drew:
    /// `s0` is the record of the source before the first field, and each
    /// of the others the record after one more field.
    pub proof fn lemma_drawn(self, r: Icmp, s0: Seq<u32>, s1: Seq<u32>, s2: Seq<u32>, s3: Seq<u32>)
        requires
            drew(s0, s1, self.typ@.draws(u8::draws())),
            self.typ@.drawn_as(u8::of_draws(fresh(s0, s1)), r.typ@),
            drew(s1, s2, self.code@.draws(u8::draws())),
            self.code@.drawn_as(u8::of_draws(fresh(s1, s2)), r.code@),
            drew(s2, s3, self.chksum@.draws(u16::draws())),
            self.chksum@.drawn_as(u16::of_draws(fresh(s2, s3)), r.chksum@),
        ensures
            drew(s0, s3, self.draws()),
            self.drawn_from(fresh(s0, s3), r),
    {
        lemma_drew_none(s3);
        lemma_drew_first(s2, s3, s3);
        lemma_drew_first(s1, s2, s3);
        lemma_drew_first(s0, s1, s3);
    }

    /// The bytes of the header, with the given values in the fields that are computed.
    pub open spec fn header(self, chksum: u16) -> Seq<u8> {
        (self.typ@.or(0)).encoded(Endian::Big)
            + (self.code@.or(0)).encoded(Endian::Big)
            + (chksum).encoded(Endian::Big)
    }

    /// The number of bytes of the header.
    pub open spec fn header_len() -> nat {
        4
    }

    /// The layer that the first bytes of `buf` stand for, or `None` where
    /// `buf` is shorter than the header.
    pub open spec fn parse(buf: Seq<u8>) -> Option<Icmp> {
        if buf.len() < 4 {
            None
        } else {
            Some(
                Icmp {
                    typ: Value::Fixed(buf.skip(0)[0]),
                    code: Value::Fixed(buf.skip(1)[0]),
                    chksum: Value::Fixed(u16_of(Endian::Big, buf.skip(2))),
                    ..Icmp::default_spec()
                },
            )
        }
    }

    /// The numbers by which the header names the protocol that follows, each
    /// with the table it is looked up in, in the order in which they are tried.
    pub open spec fn nexts(self) -> Seq<(RegistryName, u32)> {
        seq![(RegistryName::IcmpType, key_of_u8(self.typ@.or(0)))]
    }

    /// The checksum field: a fixed one as it is, an open one the checksum of
    /// the header with a checksum of zero.
    pub open spec fn checksum(self) -> u16 {
        match self.chksum@ {
            ValueView::Fixed(x) => x,
            _ => folded(inet_sum(0, self.header(0))),
        }
    }

    /// The bytes of the layer on the wire.
    pub open spec fn wire(self, outer: Outer, tail: Seq<Seq<u8>>) -> Seq<u8> {
        self.header(self.checksum())
    }

    /// After a fill no field waits for a random number or a function, and
    /// every field is fixed but those that are left to the encoder.
    pub proof fn lemma_filled(self, reg: Seq<RegistryEntry>, next: Option<LayerKind>, r: Icmp)
        requires
            self.fills_to(reg, next, r),
        ensures
            r.settled(),
            r.typ@ is Fixed,
            r.code@ is Fixed,
    {
    }

    /// Resolving a layer in which nothing is random or computed changes
    /// nothing.
    pub proof fn lemma_settled(self, r: Icmp)
        requires
            self.settled(),
            self.resolves_to(r),
        ensures
            r == self,
    {
    }

    /// A header that was read and then filled is written as the bytes it
    /// was read from, whatever stands around it in its stack.
    pub proof fn lemma_echo(
        buf: Seq<u8>,
        reg: Seq<RegistryEntry>,
        next: Option<LayerKind>,
        r: Icmp,
        outer: Outer,
        tail: Seq<Seq<u8>>,
    )
        requires
            Icmp::parse(buf) matches Some(l) && l.fills_to(reg, next, r),
        ensures
            r.wire(outer, tail) == buf.subrange(0, 4),
    {
        assert(seq![buf.skip(0)[0]] =~= buf.skip(0).subrange(0, 1));
        assert(buf.skip(0).subrange(0, 1) =~= buf.subrange(0, 1));
        assert(seq![buf.skip(1)[0]] =~= buf.skip(1).subrange(0, 1));
        assert(buf.skip(1).subrange(0, 1) =~= buf.subrange(1, 2));
        lemma_u16_inverse(Endian::Big, 0, buf.skip(2));
        assert(buf.skip(2).subrange(0, 2) =~= buf.subrange(2, 4));
        assert(r.wire(outer, tail) =~= buf.subrange(0, 4));
    }

    /// A header that can be read lies within the buffer.
    pub proof fn lemma_parse_fits(buf: Seq<u8>)
        requires
            Icmp::parse(buf) is Some,
        ensures
            Icmp::header_len() <= buf.len(),
    {
    }
}

impl Default for Icmp {
    fn default() -> (r: Icmp)
        ensures
            r@ == Icmp::default_spec(),
    {
        Icmp::new()
    }
}

impl Icmp {
    /// A layer with every field at its default.
    pub fn new() -> (r: Icmp)
        ensures
            r@ == Icmp::default_spec(),
    {
        Icmp {
            typ: Value::Auto,
            code: Value::Auto,
            chksum: Value::Auto,
        }
    }

    /// The layer with `typ` fixed to the given value.
    pub fn typ(self, typ: u8) -> (r: Icmp)
        ensures
            r == (Icmp { typ: Value::Fixed(typ), ..self }),
    {
        let mut r = self;
        r.typ = Value::Fixed(typ);
        r
    }

    /// The layer with `typ` set to the given deferred value.
    pub fn set_typ(self, typ: Value<u8>) -> (r: Icmp)
        ensures
            r == (Icmp { typ, ..self }),
    {
        let mut r = self;
        r.typ = typ;
        r
    }

    /// The layer with `code` fixed to the given value.
    pub fn code(self, code: u8) -> (r: Icmp)
        ensures
            r == (Icmp { code: Value::Fixed(code), ..self }),
    {
        let mut r = self;
        r.code = Value::Fixed(code);
        r
    }

    /// The layer with `code` set to the given deferred value.
    pub fn set_code(self, code: Value<u8>) -> (r: Icmp)
        ensures
            r == (Icmp { code, ..self }),
    {
        let mut r = self;
        r.code = code;
        r
    }

    /// The layer with `chksum` fixed to the given value.
    pub fn chksum(self, chksum: u16) -> (r: Icmp)
        ensures
            r == (Icmp { chksum: Value::Fixed(chksum), ..self }),
    {
        let mut r = self;
        r.chksum = Value::Fixed(chksum);
        r
    }

    /// The layer with `chksum` set to the given deferred value.
    pub fn set_chksum(self, chksum: Value<u16>) -> (r: Icmp)
        ensures
            r == (Icmp { chksum, ..self }),
    {
        let mut r = self;
        r.chksum = chksum;
        r
    }

    /// A copy of the layer in which every random field is drawn from `rng` and
    /// every computed field is computed. The random fields draw in the order
    /// in which they are declared.
    pub fn resolve<R: RandomSource>(&self, rng: &mut R) -> (r: Icmp)
        ensures
            self@.resolves_to(r@),
            r@.settled(),
            drew(old(rng).drawn(), final(rng).drawn(), self@.draws()),
            self@.drawn_from(fresh(old(rng).drawn(), final(rng).drawn()), r@),
    {
        let ghost s0 = rng.drawn();
        let typ = self.typ.resolved(rng);
        let ghost s1 = rng.drawn();
        let code = self.code.resolved(rng);
        let ghost s2 = rng.drawn();
        let chksum = self.chksum.resolved(rng);
        let ghost s3 = rng.drawn();
        let r = Icmp { typ, code, chksum };
        proof {
            self@.lemma_drawn(r@, s0, s1, s2, s3);
        }
        r
    }

    /// The layer filled: resolved as by `resolve`, and with every open field
    /// given what its rule says. `next` is the kind of the layer that follows
    /// in the stack.
    pub fn filled<R: RandomSource>(
        &self,
        reg: &Registry,
        next: Option<LayerKind>,
        rng: &mut R,
    ) -> (r: Icmp)
        ensures
            self@.fills_to(reg@, next, r@),
            drew(old(rng).drawn(), final(rng).drawn(), self@.draws()),
            self@.drawn_from(fresh(old(rng).drawn(), final(rng).drawn()), r@),
    {
        let ghost s0 = rng.drawn();
        let typ = self.typ.filled(
            rng,
            to_field_u8(reg.next_key(RegistryName::IcmpType, next, 0xff, 0)),
        );
        let ghost s1 = rng.drawn();
        let code = self.code.filled(rng, u8::default_value());
        let ghost s2 = rng.drawn();
        let chksum = self.chksum.resolved(rng);
        let ghost s3 = rng.drawn();
        let r = Icmp { typ, code, chksum };
        proof {
            self@.lemma_drawn(r@, s0, s1, s2, s3);
        }
        r
    }

    /// The bytes of the header, with the given values in the fields that are computed.
    pub fn header_bytes(&self, chksum: u16) -> (r: Vec<u8>)
        ensures
            r@ == self@.header(chksum),
    {
        let mut out: Vec<u8> = Vec::new();
        assert(
            out@ + (self.typ@.or(0)).encoded(Endian::Big) =~= (self.typ@.or(0)).encoded(Endian::Big)
        );
        put::<u8, BinaryBigEndian>(&mut out, &(self.typ.or(u8::default_value())));
        put::<u8, BinaryBigEndian>(&mut out, &(self.code.or(u8::default_value())));
        put::<u16, BinaryBigEndian>(&mut out, &(chksum));
        out
    }

    /// Reads the header from the front of `buf`: the layer and the number of
    /// bytes of the header, or `None` where `buf` is too short.
    pub fn decode_header(buf: &[u8]) -> (r: Option<(Icmp, usize)>)
        ensures
            match r {
                Some((l, n)) => Icmp::parse(buf@) == Some(l@) && n == Icmp::header_len(),
                None => Icmp::parse(buf@) is None,
            },
    {
        let mut pos: usize = 0;
        let mut l = Icmp::new();
        let v0 = take::<u8, BinaryBigEndian>(buf, &mut pos)?;
        l.typ = Value::Fixed(v0);
        let v1 = take::<u8, BinaryBigEndian>(buf, &mut pos)?;
        l.code = Value::Fixed(v1);
        let v2 = take::<u16, BinaryBigEndian>(buf, &mut pos)?;
        l.chksum = Value::Fixed(v2);
        Some((l, pos))
    }

    /// The numbers by which the header names the protocol that follows, each
    /// with the table it is looked up in.
    pub fn next_keys(&self) -> (r: Vec<(RegistryName, u32)>)
        ensures
            r@ == self@.nexts(),
    {
        let mut r: Vec<(RegistryName, u32)> = Vec::new();
        r.push((RegistryName::IcmpType, key_u8(self.typ.or(0))));
        assert(r@ =~= self@.nexts());
        r
    }

    /// `other` holds in every computed field the function that `self` holds
    /// there.
    pub open spec fn same_funcs(self, other: Icmp) -> bool {
        &&& other.typ.func() == self.typ.func()
        &&& other.code.func() == self.code.func()
        &&& other.chksum.func() == self.chksum.func()
    }

    /// A copy of the layer: the same values, and in the computed fields the
    /// same functions.
    pub fn dup(&self) -> (r: Icmp)
        ensures
            r@ == self@,
            self.same_funcs(r),
    {
        *self
    }

    /// The bytes of the layer on the wire. `outer` tells what stands before the
    /// layer in the stack and `tail` holds the bytes of the layers behind it;
    /// this protocol needs neither.
    pub fn wire_bytes(&self, outer: &Outer, tail: &EncodingVecVec) -> (r: Vec<u8>)
        ensures
            r@ == self.wire(*outer, tail@),
    {
        let chksum: u16 = match self.chksum {
            Value::Fixed(x) => x,
            _ => {
                let zero = self.header_bytes(0);
                fold_u32(get_inet_sum(zero.as_slice()))
            },
        };
        self.header_bytes(chksum)
    }
}

} // verus!
