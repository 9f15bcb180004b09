//! ERSPAN, the encapsulated remote switch port analyzer header.

use crate::codec::BinaryBigEndian;
use crate::codec::Encode;
use crate::codec::Endian;
use crate::codec::lemma_u16_inverse;
use crate::codec::lemma_u32_inverse;
use crate::codec::u16_of;
use crate::codec::u32_of;
use crate::encoding::EncodingVecVec;
use crate::encoding::Outer;
use crate::registry::LayerKind;
use crate::registry::Registry;
use crate::registry::RegistryEntry;
use crate::registry::RegistryName;
use crate::value::Field;
use crate::value::RandomSource;
use crate::value::Value;
use crate::value::ValueView;
use crate::value::behind;
use crate::value::drew;
use crate::value::fresh;
use crate::value::lemma_drew_first;
use crate::value::lemma_drew_none;
use crate::value::low8;
use crate::value::share;
use crate::wire::put;
use crate::wire::take;
use vstd::prelude::*;

verus! {

/// An ERSPAN header of eight bytes.
#[allow(non_camel_case_types)]
#[derive(Clone, Copy, Debug, PartialEq, Eq)]
pub struct erspan {
    /// The ERSPAN type, in the four highest bits of the first word.
    pub version: Value<ErspanType>,
    /// The VLAN of the mirrored frame, twelve bits.
    pub vlan: Value<u16>,
    /// The class of service, three bits.
    pub cos: Value<u8>,
    /// The encapsulation type, two bits.
    pub encap_type: Value<u8>,
    /// Whether the mirrored frame was truncated.
    pub truncated: Value<bool>,
    /// The session identifier, ten bits.
    pub session_id: Value<u16>,
    /// The port index, twenty bits.
    pub port_index: Value<u32>,
    /// The reserved twelve bits before the port index.
    pub reserved1: Value<u32>,
}

impl View for erspan {
    type V = erspan;

    open spec fn view(&self) -> erspan {
        *self
    }
}

impl erspan {
    /// A layer as it is made: every field at its default.
    pub open spec fn default_spec() -> erspan {
        erspan {
            version: Value::Auto,
            vlan: Value::Auto,
            cos: Value::Auto,
            encap_type: Value::Auto,
            truncated: Value::Auto,
            session_id: Value::Auto,
            port_index: Value::Auto,
            reserved1: Value::Auto,
        }
    }

    /// No field waits for a random number or for a function of the caller.
    pub open spec fn settled(self) -> bool {
        &&& self.version@.settled()
        &&& self.vlan@.settled()
        &&& self.cos@.settled()
        &&& self.encap_type@.settled()
        &&& self.truncated@.settled()
        &&& self.session_id@.settled()
        &&& self.port_index@.settled()
        &&& self.reserved1@.settled()
    }

    /// `r` is the layer with every random or computed field given some value
    /// and every other field as it was. Which value a random field is given
    /// is said by `drawn_from`.
    pub open spec fn resolves_to(self, r: erspan) -> bool {
        &&& self.version@.resolves_to(r.version@)
        &&& self.vlan@.resolves_to(r.vlan@)
        &&& self.cos@.resolves_to(r.cos@)
        &&& self.encap_type@.resolves_to(r.encap_type@)
        &&& self.truncated@.resolves_to(r.truncated@)
        &&& self.session_id@.resolves_to(r.session_id@)
        &&& self.port_index@.resolves_to(r.port_index@)
        &&& self.reserved1@.resolves_to(r.reserved1@)
    }

    /// `r` is the layer after a fill in a stack whose next layer is of kind
    /// `next`, with the tables `reg`: fixed fields stay, random and computed
    /// fields get some value, and each open field gets what its rule says.
    /// Which value a random field gets is said by `drawn_from`.
    pub open spec fn fills_to(
        self,
        reg: Seq<RegistryEntry>,
        next: Option<LayerKind>,
        r: erspan,
    ) -> bool {
        &&& self.version@.fills_to(ValueView::Fixed(ErspanType::Type1), r.version@)
        &&& self.vlan@.fills_to(ValueView::Fixed(0), r.vlan@)
        &&& self.cos@.fills_to(ValueView::Fixed(0), r.cos@)
        &&& self.encap_type@.fills_to(ValueView::Fixed(0), r.encap_type@)
        &&& self.truncated@.fills_to(ValueView::Fixed(false), r.truncated@)
        &&& self.session_id@.fills_to(ValueView::Fixed(0), r.session_id@)
        &&& self.port_index@.fills_to(ValueView::Fixed(0), r.port_index@)
        &&& self.reserved1@.fills_to(ValueView::Fixed(0), r.reserved1@)
    }

    /// How many numbers the layer takes from a random source when it is
    /// resolved or filled: those of its random fields together.
    pub open spec fn draws(self) -> nat {
        self.version@.draws(ErspanType::draws())
            + self.vlan@.draws(u16::draws())
            + self.cos@.draws(u8::draws())
            + self.encap_type@.draws(u8::draws())
            + self.truncated@.draws(bool::draws())
            + self.session_id@.draws(u16::draws())
            + self.port_index@.draws(u32::draws())
            + self.reserved1@.draws(u32::draws())
    }

    /// `r` holds in every field that is random in `self` the value made of
    /// that field's share of the numbers `d`. The fields take their shares
    /// in the order in which they are declared, each as many numbers as a
    /// random value of its type takes.
    pub open spec fn drawn_from(self, d: Seq<u32>, r: erspan) -> bool {
        let d0 = d;
        let d1 = behind(d0, self.version@.draws(ErspanType::draws()));
        let d2 = behind(d1, self.vlan@.draws(u16::draws()));
        let d3 = behind(d2, self.cos@.draws(u8::draws()));
        let d4 = behind(d3, self.encap_type@.draws(u8::draws()));
        let d5 = behind(d4, self.truncated@.draws(bool::draws()));
        let d6 = behind(d5, self.session_id@.draws(u16::draws()));
        let d7 = behind(d6, self.port_index@.draws(u32::draws()));
        &&& self.version@.drawn_as(ErspanType::of_draws(share(d0, ErspanType::draws())), r.version@)
        &&& self.vlan@.drawn_as(u16::of_draws(share(d1, u16::draws())), r.vlan@)
        &&& self.cos@.drawn_as(u8::of_draws(share(d2, u8::draws())), r.cos@)
        &&& self.encap_type@.drawn_as(u8::of_draws(share(d3, u8::draws())), r.encap_type@)
        &&& self.truncated@.drawn_as(bool::of_draws(share(d4, bool::draws())), r.truncated@)
        &&& self.session_id@.drawn_as(u16::of_draws(share(d5, u16::draws())), r.session_id@)
        &&& self.port_index@.drawn_as(u32::of_draws(share(d6, u32::draws())), r.port_index@)
        &&& self.reserved1@.drawn_as(u32::of_draws(share(d7, u32::draws())), r.reserved1@)
    }

    /// No field of the layer is computed by a function of the caller.
    pub open spec fn without_funcs(self) -> bool {
        &&& !(self.version@ is Func)
        &&& !(self.vlan@ is Func)
        &&& !(self.cos@ is Func)
        &&& !(self.encap_type@ is Func)
        &&& !(self.truncated@ is Func)
        &&& !(self.session_id@ is Func)
        &&& !(self.port_index@ is Func)
        &&& !(self.reserved1@ is Func)
    }

    /// Where no field is computed, the numbers drawn decide what the layer
    /// resolves to.
    pub proof fn lemma_resolve_decided(self, d: Seq<u32>, a: erspan, b: erspan)
        requires
            self.without_funcs(),
            self.resolves_to(a),
            self.drawn_from(d, a),
            self.resolves_to(b),
            self.drawn_from(d, b),
        ensures
            a == b,
    {
    }

    /// Where no field is computed, the numbers drawn decide what the layer
    /// is filled to.
    pub proof fn lemma_fill_decided(
        self,
        reg: Seq<RegistryEntry>,
        next: Option<LayerKind>,
        d: Seq<u32>,
        a: erspan,
        b: erspan,
    )
        requires
            self.without_funcs(),
            self.fills_to(reg, next, a),
            self.drawn_from(d, a),
            self.fills_to(reg, next, b),
            self.drawn_from(d, b),
        ensures
            a == b,
    {
    }

    /// What the fields drew one after the other is what the layer drew:
    /// `s0` is the record of the source before the first field, and each
    /// of the others the record after one more field.
    pub proof fn lemma_drawn(
        self,
        r: erspan,
        s0: Seq<u32>,
        s1: Seq<u32>,
        s2: Seq<u32>,
        s3: Seq<u32>,
        s4: Seq<u32>,
        s5: Seq<u32>,
        s6: Seq<u32>,
        s7: Seq<u32>,
        s8: Seq<u32>,
    )
        requires
            drew(s0, s1, self.version@.draws(ErspanType::draws())),
            self.version@.drawn_as(ErspanType::of_draws(fresh(s0, s1)), r.version@),
            drew(s1, s2, self.vlan@.draws(u16::draws())),
            self.vlan@.drawn_as(u16::of_draws(fresh(s1, s2)), r.vlan@),
            drew(s2, s3, self.cos@.draws(u8::draws())),
            self.cos@.drawn_as(u8::of_draws(fresh(s2, s3)), r.cos@),
            drew(s3, s4, self.encap_type@.draws(u8::draws())),
            self.encap_type@.drawn_as(u8::of_draws(fresh(s3, s4)), r.encap_type@),
            drew(s4, s5, self.truncated@.draws(bool::draws())),
            self.truncated@.drawn_as(bool::of_draws(fresh(s4, s5)), r.truncated@),
            drew(s5, s6, self.session_id@.draws(u16::draws())),
            self.session_id@.drawn_as(u16::of_draws(fresh(s5, s6)), r.session_id@),
            drew(s6, s7, self.port_index@.draws(u32::draws())),
            self.port_index@.drawn_as(u32::of_draws(fresh(s6, s7)), r.port_index@),
            drew(s7, s8, self.reserved1@.draws(u32::draws())),
            self.reserved1@.drawn_as(u32::of_draws(fresh(s7, s8)), r.reserved1@),
        ensures
            drew(s0, s8, self.draws()),
            self.drawn_from(fresh(s0, s8), r),
    {
        lemma_drew_none(s8);
        lemma_drew_first(s7, s8, s8);
        lemma_drew_first(s6, s7, s8);
        lemma_drew_first(s5, s6, s8);
        lemma_drew_first(s4, s5, s8);
        lemma_drew_first(s3, s4, s8);
        lemma_drew_first(s2, s3, s8);
        lemma_drew_first(s1, s2, s8);
        lemma_drew_first(s0, s1, s8);
    }

    /// The bytes of the header.
    pub open spec fn header(self) -> Seq<u8> {
        (self.first_word()).encoded(Endian::Big)
            + (self.second_word()).encoded(Endian::Big)
            + (self.third_word()).encoded(Endian::Big)
    }

    /// The bytes of the layer on the wire.
    pub open spec fn wire(self, outer: Outer, tail: Seq<Seq<u8>>) -> Seq<u8> {
        self.header()
    }

    /// The number of bytes of the header.
    pub open spec fn header_len() -> nat {
        8
    }

    /// The layer that the first bytes of `buf` stand for, or `None` where
    /// `buf` is shorter than the header.
    pub open spec fn parse(buf: Seq<u8>) -> Option<erspan> {
        if buf.len() < 8 {
            None
        } else {
            Some(
                erspan {
                    version: Value::Fixed(
                        ErspanType::from_code((u16_of(Endian::Big, buf.skip(0)) / 0x1000) as u8)
                    ),
                    vlan: Value::Fixed(u16_of(Endian::Big, buf.skip(0)) % 0x1000),
                    cos: Value::Fixed((u16_of(Endian::Big, buf.skip(2)) / 0x2000) as u8),
                    encap_type: Value::Fixed((u16_of(Endian::Big, buf.skip(2)) / 0x800 % 4) as u8),
                    truncated: Value::Fixed(u16_of(Endian::Big, buf.skip(2)) / 0x400 % 2 == 1),
                    session_id: Value::Fixed(u16_of(Endian::Big, buf.skip(2)) % 0x400),
                    port_index: Value::Fixed(u32_of(Endian::Big, buf.skip(4)) % 0x10_0000),
                    reserved1: Value::Fixed(u32_of(Endian::Big, buf.skip(4)) / 0x10_0000),
                    ..erspan::default_spec()
                },
            )
        }
    }

    /// The header names no protocol to follow.
    pub open spec fn nexts(self) -> Seq<(RegistryName, u32)> {
        Seq::empty()
    }

    /// The first word: the type in the four highest bits, the VLAN below.
    pub open spec fn first_word(self) -> u16 {
        (
            (self.version@.or(ErspanType::Type1).code() % 16) * 0x1000 + self.vlan@.or(0) % 0x1000
        ) as u16
    }

    /// The second word: class of service, encapsulation type, the truncated
    /// bit and the session identifier, from the highest bits down.
    pub open spec fn second_word(self) -> u16 {
        let cut: int = if self.truncated@.or(false) {
            0x400
        } else {
            0
        };
        ((self.cos@.or(0) % 8) * 0x2000 + (self.encap_type@.or(0) % 4) * 0x800 + cut
            + self.session_id@.or(0) % 0x400) as u16
    }

    /// The last four bytes: the reserved bits above the port index.
    pub open spec fn third_word(self) -> u32 {
        ((self.reserved1@.or(0) % 0x1000) * 0x10_0000 + self.port_index@.or(0) % 0x10_0000) as u32
    }

    /// After a fill no field waits for a random number or a function, and
    /// every field is fixed but those that are left to the encoder.
    pub proof fn lemma_filled(self, reg: Seq<RegistryEntry>, next: Option<LayerKind>, r: erspan)
        requires
            self.fills_to(reg, next, r),
        ensures
            r.settled(),
            r.version@ is Fixed,
            r.vlan@ is Fixed,
            r.cos@ is Fixed,
            r.encap_type@ is Fixed,
            r.truncated@ is Fixed,
            r.session_id@ is Fixed,
            r.port_index@ is Fixed,
            r.reserved1@ is Fixed,
    {
    }

    /// Resolving a layer in which nothing is random or computed changes
    /// nothing.
    pub proof fn lemma_settled(self, r: erspan)
        requires
            self.settled(),
            self.resolves_to(r),
        ensures
            r == self,
    {
    }

    /// A header that was read and then filled is written as the bytes it
    /// was read from, whatever stands around it in its stack.
    pub proof fn lemma_echo(
        buf: Seq<u8>,
        reg: Seq<RegistryEntry>,
        next: Option<LayerKind>,
        r: erspan,
        outer: Outer,
        tail: Seq<Seq<u8>>,
    )
        requires
            erspan::parse(buf) matches Some(l) && l.fills_to(reg, next, r),
        ensures
            r.wire(outer, tail) == buf.subrange(0, 8),
    {
        let a = u16_of(Endian::Big, buf.skip(0));
        let b = u16_of(Endian::Big, buf.skip(2));
        let c = u32_of(Endian::Big, buf.skip(4));
        assert(a == (a / 0x1000) * 0x1000 + a % 0x1000 && a / 0x1000 < 16) by (bit_vector);
        assert(ErspanType::of((a / 0x1000) as u8).code() == a / 0x1000);
        assert(b == (b / 0x2000) * 0x2000 + (b / 0x800 % 4) * 0x800 + (b / 0x400 % 2) * 0x400 + b
            % 0x400 && b / 0x2000 < 8) by (bit_vector);
        assert(c == (c / 0x10_0000) * 0x10_0000 + c % 0x10_0000 && c / 0x10_0000 < 0x1000)
            by (bit_vector);
        lemma_u16_inverse(Endian::Big, 0, buf.skip(0));
        assert(buf.skip(0).subrange(0, 2) =~= buf.subrange(0, 2));
        assert(r.first_word() == u16_of(Endian::Big, buf.skip(0)));
        lemma_u16_inverse(Endian::Big, 0, buf.skip(2));
        assert(buf.skip(2).subrange(0, 2) =~= buf.subrange(2, 4));
        assert(r.second_word() == u16_of(Endian::Big, buf.skip(2)));
        lemma_u32_inverse(Endian::Big, 0, buf.skip(4));
        assert(buf.skip(4).subrange(0, 4) =~= buf.subrange(4, 8));
        assert(r.third_word() == u32_of(Endian::Big, buf.skip(4)));
        assert(r.wire(outer, tail) =~= buf.subrange(0, 8));
    }

    /// A header that can be read lies within the buffer.
    pub proof fn lemma_parse_fits(buf: Seq<u8>)
        requires
            erspan::parse(buf) is Some,
        ensures
            erspan::header_len() <= buf.len(),
    {
    }
}

impl Default for erspan {
    fn default() -> (r: erspan)
        ensures
            r@ == erspan::default_spec(),
    {
        erspan::new()
    }
}

impl erspan {
    /// A layer with every field at its default.
    pub fn new() -> (r: erspan)
        ensures
            r@ == erspan::default_spec(),
    {
        erspan {
            version: Value::Auto,
            vlan: Value::Auto,
            cos: Value::Auto,
            encap_type: Value::Auto,
            truncated: Value::Auto,
            session_id: Value::Auto,
            port_index: Value::Auto,
            reserved1: Value::Auto,
        }
    }

    /// The layer with `version` fixed to the given value.
    pub fn version(self, version: ErspanType) -> (r: erspan)
        ensures
            r == (erspan { version: Value::Fixed(version), ..self }),
    {
        let mut r = self;
        r.version = Value::Fixed(version);
        r
    }

    /// The layer with `version` set to the given deferred value.
    pub fn set_version(self, version: Value<ErspanType>) -> (r: erspan)
        ensures
            r == (erspan { version, ..self }),
    {
        let mut r = self;
        r.version = version;
        r
    }

    /// The layer with `vlan` fixed to the given value.
    pub fn vlan(self, vlan: u16) -> (r: erspan)
        ensures
            r == (erspan { vlan: Value::Fixed(vlan), ..self }),
    {
        let mut r = self;
        r.vlan = Value::Fixed(vlan);
        r
    }

    /// The layer with `vlan` set to the given deferred value.
    pub fn set_vlan(self, vlan: Value<u16>) -> (r: erspan)
        ensures
            r == (erspan { vlan, ..self }),
    {
        let mut r = self;
        r.vlan = vlan;
        r
    }

    /// The layer with `cos` fixed to the given value.
    pub fn cos(self, cos: u8) -> (r: erspan)
        ensures
            r == (erspan { cos: Value::Fixed(cos), ..self }),
    {
        let mut r = self;
        r.cos = Value::Fixed(cos);
        r
    }

    /// The layer with `cos` set to the given deferred value.
    pub fn set_cos(self, cos: Value<u8>) -> (r: erspan)
        ensures
            r == (erspan { cos, ..self }),
    {
        let mut r = self;
        r.cos = cos;
        r
    }

    /// The layer with `encap_type` fixed to the given value.
    pub fn encap_type(self, encap_type: u8) -> (r: erspan)
        ensures
            r == (erspan { encap_type: Value::Fixed(encap_type), ..self }),
    {
        let mut r = self;
        r.encap_type = Value::Fixed(encap_type);
        r
    }

    /// The layer with `encap_type` set to the given deferred value.
    pub fn set_encap_type(self, encap_type: Value<u8>) -> (r: erspan)
        ensures
            r == (erspan { encap_type, ..self }),
    {
        let mut r = self;
        r.encap_type = encap_type;
        r
    }

    /// The layer with `truncated` fixed to the given value.
    pub fn truncated(self, truncated: bool) -> (r: erspan)
        ensures
            r == (erspan { truncated: Value::Fixed(truncated), ..self }),
    {
        let mut r = self;
        r.truncated = Value::Fixed(truncated);
        r
    }

    /// The layer with `truncated` set to the given deferred value.
    pub fn set_truncated(self, truncated: Value<bool>) -> (r: erspan)
        ensures
            r == (erspan { truncated, ..self }),
    {
        let mut r = self;
        r.truncated = truncated;
        r
    }

    /// The layer with `session_id` fixed to the given value.
    pub fn session_id(self, session_id: u16) -> (r: erspan)
        ensures
            r == (erspan { session_id: Value::Fixed(session_id), ..self }),
    {
        let mut r = self;
        r.session_id = Value::Fixed(session_id);
        r
    }

    /// The layer with `session_id` set to the given deferred value.
    pub fn set_session_id(self, session_id: Value<u16>) -> (r: erspan)
        ensures
            r == (erspan { session_id, ..self }),
    {
        let mut r = self;
        r.session_id = session_id;
        r
    }

    /// The layer with `port_index` fixed to the given value.
    pub fn port_index(self, port_index: u32) -> (r: erspan)
        ensures
            r == (erspan { port_index: Value::Fixed(port_index), ..self }),
    {
        let mut r = self;
        r.port_index = Value::Fixed(port_index);
        r
    }

    /// The layer with `port_index` set to the given deferred value.
    pub fn set_port_index(self, port_index: Value<u32>) -> (r: erspan)
        ensures
            r == (erspan { port_index, ..self }),
    {
        let mut r = self;
        r.port_index = port_index;
        r
    }

    /// The layer with `reserved1` fixed to the given value.
    pub fn reserved1(self, reserved1: u32) -> (r: erspan)
        ensures
            r == (erspan { reserved1: Value::Fixed(reserved1), ..self }),
    {
        let mut r = self;
        r.reserved1 = Value::Fixed(reserved1);
        r
    }

    /// The layer with `reserved1` set to the given deferred value.
    pub fn set_reserved1(self, reserved1: Value<u32>) -> (r: erspan)
        ensures
            r == (erspan { reserved1, ..self }),
    {
        let mut r = self;
        r.reserved1 = reserved1;
        r
    }

    /// A copy of the layer in which every random field is drawn from `rng` and
    /// every computed field is computed. The random fields draw in the order
    /// in which they are declared.
    pub fn resolve<R: RandomSource>(&self, rng: &mut R) -> (r: erspan)
        ensures
            self@.resolves_to(r@),
            r@.settled(),
            drew(old(rng).drawn(), final(rng).drawn(), self@.draws()),
            self@.drawn_from(fresh(old(rng).drawn(), final(rng).drawn()), r@),
    {
        let ghost s0 = rng.drawn();
        let version = self.version.resolved(rng);
        let ghost s1 = rng.drawn();
        let vlan = self.vlan.resolved(rng);
        let ghost s2 = rng.drawn();
        let cos = self.cos.resolved(rng);
        let ghost s3 = rng.drawn();
        let encap_type = self.encap_type.resolved(rng);
        let ghost s4 = rng.drawn();
        let truncated = self.truncated.resolved(rng);
        let ghost s5 = rng.drawn();
        let session_id = self.session_id.resolved(rng);
        let ghost s6 = rng.drawn();
        let port_index = self.port_index.resolved(rng);
        let ghost s7 = rng.drawn();
        let reserved1 = self.reserved1.resolved(rng);
        let ghost s8 = rng.drawn();
        let r = erspan {
            version,
            vlan,
            cos,
            encap_type,
            truncated,
            session_id,
            port_index,
            reserved1,
        };
        proof {
            self@.lemma_drawn(r@, s0, s1, s2, s3, s4, s5, s6, s7, s8);
        }
        r
    }

    /// The layer filled: resolved as by `resolve`, and with every open field
    /// given what its rule says. `next` is the kind of the layer that follows
    /// in the stack.
    pub fn filled<R: RandomSource>(
        &self,
        reg: &Registry,
        next: Option<LayerKind>,
        rng: &mut R,
    ) -> (r: erspan)
        ensures
            self@.fills_to(reg@, next, r@),
            drew(old(rng).drawn(), final(rng).drawn(), self@.draws()),
            self@.drawn_from(fresh(old(rng).drawn(), final(rng).drawn()), r@),
    {
        let ghost s0 = rng.drawn();
        let version = self.version.filled(rng, ErspanType::default_value());
        let ghost s1 = rng.drawn();
        let vlan = self.vlan.filled(rng, u16::default_value());
        let ghost s2 = rng.drawn();
        let cos = self.cos.filled(rng, u8::default_value());
        let ghost s3 = rng.drawn();
        let encap_type = self.encap_type.filled(rng, u8::default_value());
        let ghost s4 = rng.drawn();
        let truncated = self.truncated.filled(rng, bool::default_value());
        let ghost s5 = rng.drawn();
        let session_id = self.session_id.filled(rng, u16::default_value());
        let ghost s6 = rng.drawn();
        let port_index = self.port_index.filled(rng, u32::default_value());
        let ghost s7 = rng.drawn();
        let reserved1 = self.reserved1.filled(rng, u32::default_value());
        let ghost s8 = rng.drawn();
        let r = erspan {
            version,
            vlan,
            cos,
            encap_type,
            truncated,
            session_id,
            port_index,
            reserved1,
        };
        proof {
            self@.lemma_drawn(r@, s0, s1, s2, s3, s4, s5, s6, s7, s8);
        }
        r
    }

    /// The bytes of the header.
    pub fn header_bytes(&self) -> (r: Vec<u8>)
        ensures
            r@ == self@.header(),
    {
        let mut out: Vec<u8> = Vec::new();
        assert(
            out@ + (self.first_word()).encoded(Endian::Big)
                =~= (self.first_word()).encoded(Endian::Big)
        );
        put::<u16, BinaryBigEndian>(&mut out, &(self.first()));
        put::<u16, BinaryBigEndian>(&mut out, &(self.second()));
        put::<u32, BinaryBigEndian>(&mut out, &(self.third()));
        out
    }

    /// The bytes of the layer on the wire. `outer` tells what stands before
    /// the layer in the stack and `tail` holds the bytes of the layers behind
    /// it; this protocol needs neither.
    pub fn wire_bytes(&self, outer: &Outer, tail: &EncodingVecVec) -> (r: Vec<u8>)
        ensures
            r@ == self@.wire(*outer, tail@),
    {
        self.header_bytes()
    }

    /// Reads the header from the front of `buf`: the layer and the number of
    /// bytes of the header, or `None` where `buf` is too short.
    pub fn decode_header(buf: &[u8]) -> (r: Option<(erspan, usize)>)
        ensures
            match r {
                Some((l, n)) => erspan::parse(buf@) == Some(l@) && n == erspan::header_len(),
                None => erspan::parse(buf@) is None,
            },
    {
        let mut pos: usize = 0;
        let mut l = erspan::new();
        let v0 = take::<u16, BinaryBigEndian>(buf, &mut pos)?;
        l.version = Value::Fixed(ErspanType::from_code((v0 / 0x1000) as u8));
        l.vlan = Value::Fixed(v0 % 0x1000);
        let v1 = take::<u16, BinaryBigEndian>(buf, &mut pos)?;
        l.cos = Value::Fixed((v1 / 0x2000) as u8);
        l.encap_type = Value::Fixed((v1 / 0x800 % 4) as u8);
        l.truncated = Value::Fixed(v1 / 0x400 % 2 == 1);
        l.session_id = Value::Fixed(v1 % 0x400);
        let v2 = take::<u32, BinaryBigEndian>(buf, &mut pos)?;
        l.port_index = Value::Fixed(v2 % 0x10_0000);
        l.reserved1 = Value::Fixed(v2 / 0x10_0000);
        Some((l, pos))
    }

    /// The numbers by which the header names the protocol that follows:
    /// none, for this header names no protocol to follow.
    pub fn next_keys(&self) -> (r: Vec<(RegistryName, u32)>)
        ensures
            r@ == self@.nexts(),
    {
        let mut r: Vec<(RegistryName, u32)> = Vec::new();
        assert(r@ =~= self@.nexts());
        r
    }

    /// `other` holds in every computed field the function that `self` holds
    /// there.
    pub open spec fn same_funcs(self, other: erspan) -> bool {
        &&& other.version.func() == self.version.func()
        &&& other.vlan.func() == self.vlan.func()
        &&& other.cos.func() == self.cos.func()
        &&& other.encap_type.func() == self.encap_type.func()
        &&& other.truncated.func() == self.truncated.func()
        &&& other.session_id.func() == self.session_id.func()
        &&& other.port_index.func() == self.port_index.func()
        &&& other.reserved1.func() == self.reserved1.func()
    }

    /// A copy of the layer: the same values, and in the computed fields the
    /// same functions.
    pub fn dup(&self) -> (r: erspan)
        ensures
            r@ == self@,
            self.same_funcs(r),
    {
        *self
    }

    /// The first word.
    pub fn first(&self) -> (r: u16)
        ensures
            r == self.first_word(),
    {
        let version: u8 = self.version.or(ErspanType::Type1).to_code();
        ((version % 16) as u16) * 0x1000 + self.vlan.or(0) % 0x1000
    }

    /// The second word.
    pub fn second(&self) -> (r: u16)
        ensures
            r == self.second_word(),
    {
        let t: u16 = if self.truncated.or(false) {
            0x400
        } else {
            0
        };
        ((self.cos.or(0) % 8) as u16) * 0x2000 + ((self.encap_type.or(0) % 4) as u16) * 0x800 + t
            + self.session_id.or(0) % 0x400
    }

    /// The last four bytes as one number.
    pub fn third(&self) -> (r: u32)
        ensures
            r == self.third_word(),
    {
        (self.reserved1.or(0) % 0x1000) * 0x10_0000 + self.port_index.or(0) % 0x10_0000
    }
}

/// The type of an ERSPAN header.
#[derive(Clone, Copy, Debug, PartialEq, Eq)]
pub enum ErspanType {
    Type1,
    Type2,
    Type3,
    Unknown(u8),
}

impl View for ErspanType {
    type V = ErspanType;

    open spec fn view(&self) -> ErspanType {
        *self
    }
}

impl ErspanType {
    /// The type that the number `u` stands for.
    pub open spec fn of(u: u8) -> ErspanType {
        if u == 0 {
            ErspanType::Type1
        } else if u == 1 {
            ErspanType::Type2
        } else if u == 2 {
            ErspanType::Type3
        } else {
            ErspanType::Unknown(u)
        }
    }

    /// The number that stands for the type.
    pub open spec fn code(self) -> u8 {
        match self {
            ErspanType::Type1 => 0,
            ErspanType::Type2 => 1,
            ErspanType::Type3 => 2,
            ErspanType::Unknown(x) => x,
        }
    }

    /// The type that the number `u` stands for.
    #[verifier::when_used_as_spec(of)]
    pub fn from_code(u: u8) -> (r: ErspanType)
        ensures
            r == ErspanType::of(u),
    {
        if u == 0 {
            ErspanType::Type1
        } else if u == 1 {
            ErspanType::Type2
        } else if u == 2 {
            ErspanType::Type3
        } else {
            ErspanType::Unknown(u)
        }
    }

    /// The number that stands for the type.
    pub fn to_code(&self) -> (r: u8)
        ensures
            r == self.code(),
    {
        match self {
            ErspanType::Type1 => 0,
            ErspanType::Type2 => 1,
            ErspanType::Type3 => 2,
            ErspanType::Unknown(x) => *x,
        }
    }
}

impl Default for ErspanType {
    fn default() -> (r: ErspanType)
        ensures
            r == ErspanType::Type1,
    {
        ErspanType::Type1
    }
}

impl Field for ErspanType {
    open spec fn default_view() -> ErspanType {
        ErspanType::Type1
    }

    fn default_value() -> (r: ErspanType) {
        ErspanType::Type1
    }

    open spec fn draws() -> nat {
        1
    }

    open spec fn of_draws(d: Seq<u32>) -> ErspanType {
        ErspanType::of(low8(d[0]))
    }

    fn random<R: RandomSource>(rng: &mut R) -> (r: ErspanType) {
        ErspanType::from_code(u8::random(rng))
    }

    fn dup(&self) -> (r: ErspanType) {
        *self
    }
}

/// The number of a type stands for that type again.
pub proof fn lemma_erspan_type_code(t: ErspanType, u: u8)
    ensures
        ErspanType::of(u).code() == u,
        !(t matches ErspanType::Unknown(x) && x <= 2) ==> ErspanType::of(t.code()) == t,
{
}

} // verus!
