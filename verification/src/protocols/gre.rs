//! Generic Routing Encapsulation, with the fields of all its versions.

use crate::codec::BinaryBigEndian;
use crate::codec::Encode;
use crate::codec::Endian;
use crate::codec::copy_bytes;
use crate::codec::lemma_u16_inverse;
use crate::codec::lemma_u32_inverse;
use crate::codec::u16_of;
use crate::codec::u32_of;
use crate::encoding::EncodingVecVec;
use crate::encoding::Outer;
use crate::registry::LayerKind;
use crate::registry::Registry;
use crate::registry::RegistryEntry;
use crate::registry::RegistryName;
use crate::registry::field_u16;
use crate::registry::key_of_u16;
use crate::registry::key_u16;
use crate::registry::next_key;
use crate::registry::to_field_u16;
use crate::value::Field;
use crate::value::RandomSource;
use crate::value::Value;
use crate::value::ValueView;
use crate::value::behind;
use crate::value::drew;
use crate::value::fresh;
use crate::value::lemma_drew_first;
use crate::value::lemma_drew_none;
use crate::value::share;
use crate::wire::put;
use crate::wire::take;
use vstd::prelude::*;

verus! {

/// A GRE header. The first word holds the flags that say which of the
/// optional fields are on the wire.
#[derive(Clone, Debug, PartialEq, Eq)]
pub struct Gre {
    /// The C bit: a checksum and a reserved word follow the first four bytes.
    pub chksum_present: Value<bool>,
    /// The R bit: a checksum place and a routing offset follow the first four
    /// bytes.
    pub routing_present: Value<bool>,
    /// The K bit: the header holds a key.
    pub key_present: Value<bool>,
    /// The S bit: the header holds a sequence number.
    pub seqnum_present: Value<bool>,
    /// The s bit.
    pub strict_source_route: Value<bool>,
    /// The recursion control, three bits.
    pub recursion_control: Value<u8>,
    /// The A bit: the header holds an acknowledgement number.
    pub acknum_present: Value<bool>,
    /// The four flag bits below the A bit.
    pub flags: Value<u8>,
    /// The version, three bits.
    pub version: Value<u8>,
    /// The Ethertype of what the tunnel carries.
    pub proto: Value<u16>,
    /// The checksum, on the wire where the C bit is set.
    pub chksum: Value<u16>,
    /// The place of the checksum, on the wire where the R bit is set and the
    /// C bit is not.
    pub ignored_chksum: Value<u16>,
    /// The reserved word behind the checksum, on the wire where the C bit is
    /// set and the R bit is not.
    pub reserved1: Value<u16>,
    /// The routing offset, on the wire where the R bit is set.
    pub routing_offset: Value<u16>,
    /// The key, on the wire where the K bit is set.
    pub key: Value<u32>,
    /// The sequence number, on the wire where the S bit is set.
    pub sequence_number: Value<u32>,
    /// The acknowledgement number, on the wire where the A bit is set.
    pub ack_number: Value<u32>,
    /// Routing data. It is kept with the layer and takes no bytes on the
    /// wire.
    pub routing: Vec<u8>,
}

/// What a layer of type `Gre` says, with its vectors as sequences.
pub struct GreView {
    pub chksum_present: ValueView<bool>,
    pub routing_present: ValueView<bool>,
    pub key_present: ValueView<bool>,
    pub seqnum_present: ValueView<bool>,
    pub strict_source_route: ValueView<bool>,
    pub recursion_control: ValueView<u8>,
    pub acknum_present: ValueView<bool>,
    pub flags: ValueView<u8>,
    pub version: ValueView<u8>,
    pub proto: ValueView<u16>,
    pub chksum: ValueView<u16>,
    pub ignored_chksum: ValueView<u16>,
    pub reserved1: ValueView<u16>,
    pub routing_offset: ValueView<u16>,
    pub key: ValueView<u32>,
    pub sequence_number: ValueView<u32>,
    pub ack_number: ValueView<u32>,
    pub routing: Seq<u8>,
}

impl View for Gre {
    type V = GreView;

    open spec fn view(&self) -> GreView {
        GreView {
            chksum_present: self.chksum_present@,
            routing_present: self.routing_present@,
            key_present: self.key_present@,
            seqnum_present: self.seqnum_present@,
            strict_source_route: self.strict_source_route@,
            recursion_control: self.recursion_control@,
            acknum_present: self.acknum_present@,
            flags: self.flags@,
            version: self.version@,
            proto: self.proto@,
            chksum: self.chksum@,
            ignored_chksum: self.ignored_chksum@,
            reserved1: self.reserved1@,
            routing_offset: self.routing_offset@,
            key: self.key@,
            sequence_number: self.sequence_number@,
            ack_number: self.ack_number@,
            routing: self.routing@,
        }
    }
}

impl GreView {
    /// A layer as it is made: every field at its default.
    pub open spec fn default_spec() -> GreView {
        GreView {
            chksum_present: ValueView::Auto,
            routing_present: ValueView::Auto,
            key_present: ValueView::Auto,
            seqnum_present: ValueView::Auto,
            strict_source_route: ValueView::Auto,
            recursion_control: ValueView::Auto,
            acknum_present: ValueView::Auto,
            flags: ValueView::Auto,
            version: ValueView::Auto,
            proto: ValueView::Auto,
            chksum: ValueView::Auto,
            ignored_chksum: ValueView::Auto,
            reserved1: ValueView::Auto,
            routing_offset: ValueView::Auto,
            key: ValueView::Auto,
            sequence_number: ValueView::Auto,
            ack_number: ValueView::Auto,
            routing: Seq::empty(),
        }
    }

    /// No field waits for a random number or for a function of the caller.
    pub open spec fn settled(self) -> bool {
        &&& self.chksum_present.settled()
        &&& self.routing_present.settled()
        &&& self.key_present.settled()
        &&& self.seqnum_present.settled()
        &&& self.strict_source_route.settled()
        &&& self.recursion_control.settled()
        &&& self.acknum_present.settled()
        &&& self.flags.settled()
        &&& self.version.settled()
        &&& self.proto.settled()
        &&& self.chksum.settled()
        &&& self.ignored_chksum.settled()
        &&& self.reserved1.settled()
        &&& self.routing_offset.settled()
        &&& self.key.settled()
        &&& self.sequence_number.settled()
        &&& self.ack_number.settled()
    }

    /// `r` is the layer with every random or computed field given some value
    /// and every other field as it was. Which value a random field is given
    /// is said by `drawn_from`.
    pub open spec fn resolves_to(self, r: GreView) -> bool {
        &&& self.chksum_present.resolves_to(r.chksum_present)
        &&& self.routing_present.resolves_to(r.routing_present)
        &&& self.key_present.resolves_to(r.key_present)
        &&& self.seqnum_present.resolves_to(r.seqnum_present)
        &&& self.strict_source_route.resolves_to(r.strict_source_route)
        &&& self.recursion_control.resolves_to(r.recursion_control)
        &&& self.acknum_present.resolves_to(r.acknum_present)
        &&& self.flags.resolves_to(r.flags)
        &&& self.version.resolves_to(r.version)
        &&& self.proto.resolves_to(r.proto)
        &&& self.chksum.resolves_to(r.chksum)
        &&& self.ignored_chksum.resolves_to(r.ignored_chksum)
        &&& self.reserved1.resolves_to(r.reserved1)
        &&& self.routing_offset.resolves_to(r.routing_offset)
        &&& self.key.resolves_to(r.key)
        &&& self.sequence_number.resolves_to(r.sequence_number)
        &&& self.ack_number.resolves_to(r.ack_number)
        &&& r.routing == self.routing
    }

    /// `r` is the layer after a fill in a stack whose next layer is of kind
    /// `next`, with the tables `reg`: fixed fields stay, random and computed
    /// fields get some value, and each open field gets what its rule says.
    /// Which value a random field gets is said by `drawn_from`.
    pub open spec fn fills_to(
        self,
        reg: Seq<RegistryEntry>,
        next: Option<LayerKind>,
        r: GreView,
    ) -> bool {
        &&& self.chksum_present.fills_to(ValueView::Fixed(false), r.chksum_present)
        &&& self.routing_present.fills_to(ValueView::Fixed(false), r.routing_present)
        &&& self.key_present.fills_to(ValueView::Fixed(false), r.key_present)
        &&& self.seqnum_present.fills_to(ValueView::Fixed(false), r.seqnum_present)
        &&& self.strict_source_route.fills_to(ValueView::Fixed(false), r.strict_source_route)
        &&& self.recursion_control.fills_to(ValueView::Fixed(0), r.recursion_control)
        &&& self.acknum_present.fills_to(ValueView::Fixed(false), r.acknum_present)
        &&& self.flags.fills_to(ValueView::Fixed(0), r.flags)
        &&& self.version.fills_to(ValueView::Fixed(0), r.version)
        &&& self.proto.fills_to(
            ValueView::Fixed(field_u16(next_key(reg, RegistryName::Ethertype, next, 0xffff, 0))),
            r.proto,
        )
        &&& self.chksum.fills_to(ValueView::Fixed(0), r.chksum)
        &&& self.ignored_chksum.fills_to(ValueView::Fixed(0), r.ignored_chksum)
        &&& self.reserved1.fills_to(ValueView::Fixed(0), r.reserved1)
        &&& self.routing_offset.fills_to(ValueView::Fixed(0), r.routing_offset)
        &&& self.key.fills_to(ValueView::Fixed(0), r.key)
        &&& self.sequence_number.fills_to(ValueView::Fixed(0), r.sequence_number)
        &&& self.ack_number.fills_to(ValueView::Fixed(0), r.ack_number)
        &&& r.routing == self.routing
    }

    /// How many numbers the layer takes from a random source when it is
    /// resolved or filled: those of its random fields together.
    pub open spec fn draws(self) -> nat {
        self.chksum_present.draws(bool::draws())
            + self.routing_present.draws(bool::draws())
            + self.key_present.draws(bool::draws())
            + self.seqnum_present.draws(bool::draws())
            + self.strict_source_route.draws(bool::draws())
            + self.recursion_control.draws(u8::draws())
            + self.acknum_present.draws(bool::draws())
            + self.flags.draws(u8::draws())
            + self.version.draws(u8::draws())
            + self.proto.draws(u16::draws())
            + self.chksum.draws(u16::draws())
            + self.ignored_chksum.draws(u16::draws())
            + self.reserved1.draws(u16::draws())
            + self.routing_offset.draws(u16::draws())
            + self.key.draws(u32::draws())
            + self.sequence_number.draws(u32::draws())
            + self.ack_number.draws(u32::draws())
    }

    /// `r` holds in every field that is random in `self` the value made of
    /// that field's share of the numbers `d`. The fields take their shares
    /// in the order in which they are declared, each as many numbers as a
    /// random value of its type takes.
    pub open spec fn drawn_from(self, d: Seq<u32>, r: GreView) -> bool {
        let d0 = d;
        let d1 = behind(d0, self.chksum_present.draws(bool::draws()));
        let d2 = behind(d1, self.routing_present.draws(bool::draws()));
        let d3 = behind(d2, self.key_present.draws(bool::draws()));
        let d4 = behind(d3, self.seqnum_present.draws(bool::draws()));
        let d5 = behind(d4, self.strict_source_route.draws(bool::draws()));
        let d6 = behind(d5, self.recursion_control.draws(u8::draws()));
        let d7 = behind(d6, self.acknum_present.draws(bool::draws()));
        let d8 = behind(d7, self.flags.draws(u8::draws()));
        let d9 = behind(d8, self.version.draws(u8::draws()));
        let d10 = behind(d9, self.proto.draws(u16::draws()));
        let d11 = behind(d10, self.chksum.draws(u16::draws()));
        let d12 = behind(d11, self.ignored_chksum.draws(u16::draws()));
        let d13 = behind(d12, self.reserved1.draws(u16::draws()));
        let d14 = behind(d13, self.routing_offset.draws(u16::draws()));
        let d15 = behind(d14, self.key.draws(u32::draws()));
        let d16 = behind(d15, self.sequence_number.draws(u32::draws()));
        &&& self.chksum_present.drawn_as(bool::of_draws(share(d0, bool::draws())), r.chksum_present)
        &&& self.routing_present.drawn_as(
            bool::of_draws(share(d1, bool::draws())),
            r.routing_present,
        )
        &&& self.key_present.drawn_as(bool::of_draws(share(d2, bool::draws())), r.key_present)
        &&& self.seqnum_present.drawn_as(bool::of_draws(share(d3, bool::draws())), r.seqnum_present)
        &&& self.strict_source_route.drawn_as(
            bool::of_draws(share(d4, bool::draws())),
            r.strict_source_route,
        )
        &&& self.recursion_control.drawn_as(
            u8::of_draws(share(d5, u8::draws())),
            r.recursion_control,
        )
        &&& self.acknum_present.drawn_as(bool::of_draws(share(d6, bool::draws())), r.acknum_present)
        &&& self.flags.drawn_as(u8::of_draws(share(d7, u8::draws())), r.flags)
        &&& self.version.drawn_as(u8::of_draws(share(d8, u8::draws())), r.version)
        &&& self.proto.drawn_as(u16::of_draws(share(d9, u16::draws())), r.proto)
        &&& self.chksum.drawn_as(u16::of_draws(share(d10, u16::draws())), r.chksum)
        &&& self.ignored_chksum.drawn_as(u16::of_draws(share(d11, u16::draws())), r.ignored_chksum)
        &&& self.reserved1.drawn_as(u16::of_draws(share(d12, u16::draws())), r.reserved1)
        &&& self.routing_offset.drawn_as(u16::of_draws(share(d13, u16::draws())), r.routing_offset)
        &&& self.key.drawn_as(u32::of_draws(share(d14, u32::draws())), r.key)
        &&& self.sequence_number.drawn_as(
            u32::of_draws(share(d15, u32::draws())),
            r.sequence_number,
        )
        &&& self.ack_number.drawn_as(u32::of_draws(share(d16, u32::draws())), r.ack_number)
    }

    /// No field of the layer is computed by a function of the caller.
    pub open spec fn without_funcs(self) -> bool {
        &&& !(self.chksum_present is Func)
        &&& !(self.routing_present is Func)
        &&& !(self.key_present is Func)
        &&& !(self.seqnum_present is Func)
        &&& !(self.strict_source_route is Func)
        &&& !(self.recursion_control is Func)
        &&& !(self.acknum_present is Func)
        &&& !(self.flags is Func)
        &&& !(self.version is Func)
        &&& !(self.proto is Func)
        &&& !(self.chksum is Func)
        &&& !(self.ignored_chksum is Func)
        &&& !(self.reserved1 is Func)
        &&& !(self.routing_offset is Func)
        &&& !(self.key is Func)
        &&& !(self.sequence_number is Func)
        &&& !(self.ack_number is Func)
    }

    /// Where no field is computed, the numbers drawn decide what the layer
    /// resolves to.
    pub proof fn lemma_resolve_decided(self, d: Seq<u32>, a: GreView, b: GreView)
        requires
            self.without_funcs(),
            self.resolves_to(a),
            self.drawn_from(d, a),
            self.resolves_to(b),
            self.drawn_from(d, b),
        ensures
            a == b,
    {
        assert(a.chksum_present == b.chksum_present);
        assert(a.routing_present == b.routing_present);
        assert(a.key_present == b.key_present);
        assert(a.seqnum_present == b.seqnum_present);
        assert(a.strict_source_route == b.strict_source_route);
        assert(a.recursion_control == b.recursion_control);
        assert(a.acknum_present == b.acknum_present);
        assert(a.flags == b.flags);
        assert(a.version == b.version);
        assert(a.proto == b.proto);
        assert(a.chksum == b.chksum);
        assert(a.ignored_chksum == b.ignored_chksum);
        assert(a.reserved1 == b.reserved1);
        assert(a.routing_offset == b.routing_offset);
        assert(a.key == b.key);
        assert(a.sequence_number == b.sequence_number);
        assert(a.ack_number == b.ack_number);
    }

    /// Where no field is computed, the numbers drawn decide what the layer
    /// is filled to.
    pub proof fn lemma_fill_decided(
        self,
        reg: Seq<RegistryEntry>,
        next: Option<LayerKind>,
        d: Seq<u32>,
        a: GreView,
        b: GreView,
    )
        requires
            self.without_funcs(),
            self.fills_to(reg, next, a),
            self.drawn_from(d, a),
            self.fills_to(reg, next, b),
            self.drawn_from(d, b),
        ensures
            a == b,
    {
        assert(a.chksum_present == b.chksum_present);
        assert(a.routing_present == b.routing_present);
        assert(a.key_present == b.key_present);
        assert(a.seqnum_present == b.seqnum_present);
        assert(a.strict_source_route == b.strict_source_route);
        assert(a.recursion_control == b.recursion_control);
        assert(a.acknum_present == b.acknum_present);
        assert(a.flags == b.flags);
        assert(a.version == b.version);
        assert(a.proto == b.proto);
        assert(a.chksum == b.chksum);
        assert(a.ignored_chksum == b.ignored_chksum);
        assert(a.reserved1 == b.reserved1);
        assert(a.routing_offset == b.routing_offset);
        assert(a.key == b.key);
        assert(a.sequence_number == b.sequence_number);
        assert(a.ack_number == b.ack_number);
    }

    /// What the fields drew one after the other is what the layer drew:
    /// `s0` is the record of the source before the first field, and each
    /// of the others the record after one more field.
    pub proof fn lemma_drawn(
        self,
        r: GreView,
        s0: Seq<u32>,
        s1: Seq<u32>,
        s2: Seq<u32>,
        s3: Seq<u32>,
        s4: Seq<u32>,
        s5: Seq<u32>,
        s6: Seq<u32>,
        s7: Seq<u32>,
        s8: Seq<u32>,
        s9: Seq<u32>,
        s10: Seq<u32>,
        s11: Seq<u32>,
        s12: Seq<u32>,
        s13: Seq<u32>,
        s14: Seq<u32>,
        s15: Seq<u32>,
        s16: Seq<u32>,
        s17: Seq<u32>,
    )
        requires
            drew(s0, s1, self.chksum_present.draws(bool::draws())),
            self.chksum_present.drawn_as(bool::of_draws(fresh(s0, s1)), r.chksum_present),
            drew(s1, s2, self.routing_present.draws(bool::draws())),
            self.routing_present.drawn_as(bool::of_draws(fresh(s1, s2)), r.routing_present),
            drew(s2, s3, self.key_present.draws(bool::draws())),
            self.key_present.drawn_as(bool::of_draws(fresh(s2, s3)), r.key_present),
            drew(s3, s4, self.seqnum_present.draws(bool::draws())),
            self.seqnum_present.drawn_as(bool::of_draws(fresh(s3, s4)), r.seqnum_present),
            drew(s4, s5, self.strict_source_route.draws(bool::draws())),
            self.strict_source_route.drawn_as(bool::of_draws(fresh(s4, s5)), r.strict_source_route),
            drew(s5, s6, self.recursion_control.draws(u8::draws())),
            self.recursion_control.drawn_as(u8::of_draws(fresh(s5, s6)), r.recursion_control),
            drew(s6, s7, self.acknum_present.draws(bool::draws())),
            self.acknum_present.drawn_as(bool::of_draws(fresh(s6, s7)), r.acknum_present),
            drew(s7, s8, self.flags.draws(u8::draws())),
            self.flags.drawn_as(u8::of_draws(fresh(s7, s8)), r.flags),
            drew(s8, s9, self.version.draws(u8::draws())),
            self.version.drawn_as(u8::of_draws(fresh(s8, s9)), r.version),
            drew(s9, s10, self.proto.draws(u16::draws())),
            self.proto.drawn_as(u16::of_draws(fresh(s9, s10)), r.proto),
            drew(s10, s11, self.chksum.draws(u16::draws())),
            self.chksum.drawn_as(u16::of_draws(fresh(s10, s11)), r.chksum),
            drew(s11, s12, self.ignored_chksum.draws(u16::draws())),
            self.ignored_chksum.drawn_as(u16::of_draws(fresh(s11, s12)), r.ignored_chksum),
            drew(s12, s13, self.reserved1.draws(u16::draws())),
            self.reserved1.drawn_as(u16::of_draws(fresh(s12, s13)), r.reserved1),
            drew(s13, s14, self.routing_offset.draws(u16::draws())),
            self.routing_offset.drawn_as(u16::of_draws(fresh(s13, s14)), r.routing_offset),
            drew(s14, s15, self.key.draws(u32::draws())),
            self.key.drawn_as(u32::of_draws(fresh(s14, s15)), r.key),
            drew(s15, s16, self.sequence_number.draws(u32::draws())),
            self.sequence_number.drawn_as(u32::of_draws(fresh(s15, s16)), r.sequence_number),
            drew(s16, s17, self.ack_number.draws(u32::draws())),
            self.ack_number.drawn_as(u32::of_draws(fresh(s16, s17)), r.ack_number),
        ensures
            drew(s0, s17, self.draws()),
            self.drawn_from(fresh(s0, s17), r),
    {
        lemma_drew_none(s17);
        lemma_drew_first(s16, s17, s17);
        lemma_drew_first(s15, s16, s17);
        lemma_drew_first(s14, s15, s17);
        lemma_drew_first(s13, s14, s17);
        lemma_drew_first(s12, s13, s17);
        lemma_drew_first(s11, s12, s17);
        lemma_drew_first(s10, s11, s17);
        lemma_drew_first(s9, s10, s17);
        lemma_drew_first(s8, s9, s17);
        lemma_drew_first(s7, s8, s17);
        lemma_drew_first(s6, s7, s17);
        lemma_drew_first(s5, s6, s17);
        lemma_drew_first(s4, s5, s17);
        lemma_drew_first(s3, s4, s17);
        lemma_drew_first(s2, s3, s17);
        lemma_drew_first(s1, s2, s17);
        lemma_drew_first(s0, s1, s17);
    }

    /// The bytes of the header.
    pub open spec fn header(self) -> Seq<u8> {
        (self.first_word()).encoded(Endian::Big)
            + (self.proto.or(0)).encoded(Endian::Big)
            + (
                if self.chksum_present.or(false) {
                    (self.chksum.or(0)).encoded(Endian::Big)
                } else { Seq::<u8>::empty() }
            )
            + (
                if self.routing_present.or(false)
                    && !self.chksum_present.or(false) {
                        (self.ignored_chksum.or(0)).encoded(Endian::Big)
                    } else { Seq::<u8>::empty() }
            )
            + (
                if self.chksum_present.or(false)
                    && !self.routing_present.or(false) {
                        (self.reserved1.or(0)).encoded(Endian::Big)
                    } else { Seq::<u8>::empty() }
            )
            + (
                if self.routing_present.or(false) {
                    (self.routing_offset.or(0)).encoded(Endian::Big)
                } else { Seq::<u8>::empty() }
            )
            + (
                if self.key_present.or(false) {
                    (self.key.or(0)).encoded(Endian::Big)
                } else { Seq::<u8>::empty() }
            )
            + (
                if self.seqnum_present.or(false) {
                    (self.sequence_number.or(0)).encoded(Endian::Big)
                } else { Seq::<u8>::empty() }
            )
            + (
                if self.acknum_present.or(false) {
                    (self.ack_number.or(0)).encoded(Endian::Big)
                } else { Seq::<u8>::empty() }
            )
    }

    /// The bytes of the layer on the wire.
    pub open spec fn wire(self, outer: Outer, tail: Seq<Seq<u8>>) -> Seq<u8> {
        self.header()
    }

    /// The numbers by which the header names the protocol that follows, each
    /// with the table it is looked up in, in the order in which they are tried.
    pub open spec fn nexts(self) -> Seq<(RegistryName, u32)> {
        seq![(RegistryName::Ethertype, key_of_u16(self.proto.or(0)))]
    }

    /// The first word: the bits C, R, K, S and s, the recursion control, the A
    /// bit, four flag bits and the version, from the highest bit down. An open
    /// field counts as zero.
    pub open spec fn first_word(self) -> u16 {
        (bit(self.chksum_present.or(false)) * 0x8000 + bit(self.routing_present.or(false)) * 0x4000
            + bit(self.key_present.or(false)) * 0x2000 + bit(self.seqnum_present.or(false)) * 0x1000
            + bit(self.strict_source_route.or(false)) * 0x800 + (self.recursion_control.or(0) % 8)
            * 0x100 + bit(self.acknum_present.or(false)) * 0x80 + (self.flags.or(0) % 16) * 8
            + self.version.or(0) % 8) as u16
    }

    /// The layer that the first bytes of `buf` stand for and the number of
    /// bytes of the header, or `None` where `buf` is shorter than the header.
    /// The first word says which optional fields follow the first four bytes:
    /// two words where C or R is set, then key, sequence number and
    /// acknowledgement number as K, S and A say. A field that is not on the
    /// wire is zero in the layer.
    pub open spec fn parse(buf: Seq<u8>) -> Option<(GreView, nat)> {
        if buf.len() < 4 {
            None
        } else {
            let w = u16_of(Endian::Big, buf);
            let c = w / 0x8000 % 2 == 1;
            let r = w / 0x4000 % 2 == 1;
            let k = w / 0x2000 % 2 == 1;
            let s = w / 0x1000 % 2 == 1;
            let a = w / 0x80 % 2 == 1;
            let koff: int = if c || r {
                8
            } else {
                4
            };
            let soff: int = koff + (if k {
                4int
            } else {
                0int
            });
            let aoff: int = soff + (if s {
                4int
            } else {
                0int
            });
            let total: int = aoff + (if a {
                4int
            } else {
                0int
            });
            if buf.len() < total {
                None
            } else {
                Some(
                    (
                        GreView {
                            chksum_present: ValueView::Fixed(c),
                            routing_present: ValueView::Fixed(r),
                            key_present: ValueView::Fixed(k),
                            seqnum_present: ValueView::Fixed(s),
                            strict_source_route: ValueView::Fixed(w / 0x800 % 2 == 1),
                            recursion_control: ValueView::Fixed((w / 0x100 % 8) as u8),
                            acknum_present: ValueView::Fixed(a),
                            flags: ValueView::Fixed((w / 8 % 16) as u8),
                            version: ValueView::Fixed((w % 8) as u8),
                            proto: ValueView::Fixed(u16_of(Endian::Big, buf.skip(2))),
                            chksum: ValueView::Fixed(
                                if c {
                                    u16_of(Endian::Big, buf.skip(4))
                                } else {
                                    0
                                },
                            ),
                            ignored_chksum: ValueView::Fixed(
                                if r && !c {
                                    u16_of(Endian::Big, buf.skip(4))
                                } else {
                                    0
                                },
                            ),
                            reserved1: ValueView::Fixed(
                                if c && !r {
                                    u16_of(Endian::Big, buf.skip(6))
                                } else {
                                    0
                                },
                            ),
                            routing_offset: ValueView::Fixed(
                                if r {
                                    u16_of(Endian::Big, buf.skip(6))
                                } else {
                                    0
                                },
                            ),
                            key: ValueView::Fixed(
                                if k {
                                    u32_of(Endian::Big, buf.skip(koff))
                                } else {
                                    0
                                },
                            ),
                            sequence_number: ValueView::Fixed(
                                if s {
                                    u32_of(Endian::Big, buf.skip(soff))
                                } else {
                                    0
                                },
                            ),
                            ack_number: ValueView::Fixed(
                                if a {
                                    u32_of(Endian::Big, buf.skip(aoff))
                                } else {
                                    0
                                },
                            ),
                            routing: Seq::empty(),
                        },
                        total as nat,
                    ),
                )
            }
        }
    }

    /// After a fill no field waits for a random number or a function, and
    /// every field is fixed but those that are left to the encoder.
    pub proof fn lemma_filled(self, reg: Seq<RegistryEntry>, next: Option<LayerKind>, r: GreView)
        requires
            self.fills_to(reg, next, r),
        ensures
            r.settled(),
            r.chksum_present is Fixed,
            r.routing_present is Fixed,
            r.key_present is Fixed,
            r.seqnum_present is Fixed,
            r.strict_source_route is Fixed,
            r.recursion_control is Fixed,
            r.acknum_present is Fixed,
            r.flags is Fixed,
            r.version is Fixed,
            r.proto is Fixed,
            r.chksum is Fixed,
            r.ignored_chksum is Fixed,
            r.reserved1 is Fixed,
            r.routing_offset is Fixed,
            r.key is Fixed,
            r.sequence_number is Fixed,
            r.ack_number is Fixed,
    {
    }

    /// Resolving a layer in which nothing is random or computed changes
    /// nothing.
    pub proof fn lemma_settled(self, r: GreView)
        requires
            self.settled(),
            self.resolves_to(r),
        ensures
            r == self,
    {
    }

    /// A header that can be read lies within the buffer.
    pub proof fn lemma_parse_fits(buf: Seq<u8>)
        requires
            GreView::parse(buf) is Some,
        ensures
            GreView::parse(buf) matches Some((l, n)) && n <= buf.len(),
    {
    }

    /// A header that was read and then filled is written as the bytes it was
    /// read from, whichever optional fields it holds.
    #[verifier::rlimit(60)]
    pub proof fn lemma_echo(
        buf: Seq<u8>,
        reg: Seq<RegistryEntry>,
        next: Option<LayerKind>,
        r: GreView,
        outer: Outer,
        tail: Seq<Seq<u8>>,
    )
        requires
            GreView::parse(buf) matches Some((l, n)) && l.fills_to(reg, next, r),
        ensures
            GreView::parse(buf) matches Some((
                l,
                n,
            )) && n <= buf.len() && r.wire(outer, tail) == buf.subrange(
                0,
                n as int,
            ),
    {
        let w = u16_of(Endian::Big, buf);
        let c = w / 0x8000 % 2 == 1;
        let rr = w / 0x4000 % 2 == 1;
        let k = w / 0x2000 % 2 == 1;
        let s = w / 0x1000 % 2 == 1;
        let a = w / 0x80 % 2 == 1;
        let koff: int = if c || rr {
            8
        } else {
            4
        };
        let soff: int = koff + (if k {
            4int
        } else {
            0int
        });
        let aoff: int = soff + (if s {
            4int
        } else {
            0int
        });
        let total: int = aoff + (if a {
            4int
        } else {
            0int
        });
        assert(w == (w / 0x8000 % 2) * 0x8000 + (w / 0x4000 % 2) * 0x4000 + (w / 0x2000 % 2)
            * 0x2000 + (w / 0x1000 % 2) * 0x1000 + (w / 0x800 % 2) * 0x800 + (w / 0x100 % 8)
            * 0x100 + (w / 0x80 % 2) * 0x80 + (w / 8 % 16) * 8 + w % 8) by (bit_vector);
        assert(r.first_word() == w);
        lemma_u16_inverse(Endian::Big, 0, buf);
        lemma_u16_inverse(Endian::Big, 0, buf.skip(2));
        assert(buf.skip(2).subrange(0, 2) =~= buf.subrange(2, 4));
        if c || rr {
            lemma_u16_inverse(Endian::Big, 0, buf.skip(4));
            lemma_u16_inverse(Endian::Big, 0, buf.skip(6));
            assert(buf.skip(4).subrange(0, 2) =~= buf.subrange(4, 6));
            assert(buf.skip(6).subrange(0, 2) =~= buf.subrange(6, 8));
        }
        if k {
            lemma_u32_inverse(Endian::Big, 0, buf.skip(koff));
            assert(buf.skip(koff).subrange(0, 4) =~= buf.subrange(koff, koff + 4));
        }
        if s {
            lemma_u32_inverse(Endian::Big, 0, buf.skip(soff));
            assert(buf.skip(soff).subrange(0, 4) =~= buf.subrange(soff, soff + 4));
        }
        if a {
            lemma_u32_inverse(Endian::Big, 0, buf.skip(aoff));
            assert(buf.skip(aoff).subrange(0, 4) =~= buf.subrange(aoff, aoff + 4));
        }
        assert(r.wire(outer, tail) =~= buf.subrange(0, total));
    }
}

impl Default for Gre {
    fn default() -> (r: Gre)
        ensures
            r@ == GreView::default_spec(),
    {
        Gre::new()
    }
}

impl Gre {
    /// A layer with every field at its default.
    pub fn new() -> (r: Gre)
        ensures
            r@ == GreView::default_spec(),
    {
        let r = Gre {
            chksum_present: Value::Auto,
            routing_present: Value::Auto,
            key_present: Value::Auto,
            seqnum_present: Value::Auto,
            strict_source_route: Value::Auto,
            recursion_control: Value::Auto,
            acknum_present: Value::Auto,
            flags: Value::Auto,
            version: Value::Auto,
            proto: Value::Auto,
            chksum: Value::Auto,
            ignored_chksum: Value::Auto,
            reserved1: Value::Auto,
            routing_offset: Value::Auto,
            key: Value::Auto,
            sequence_number: Value::Auto,
            ack_number: Value::Auto,
            routing: Vec::new(),
        };
        assert(r@.routing =~= GreView::default_spec().routing);
        r
    }

    /// The layer with `chksum_present` fixed to the given value.
    pub fn chksum_present(self, chksum_present: bool) -> (r: Gre)
        ensures
            r@ == (GreView { chksum_present: ValueView::Fixed(chksum_present@), ..self@ }),
    {
        let mut r = self;
        r.chksum_present = Value::Fixed(chksum_present);
        r
    }

    /// The layer with `chksum_present` set to the given deferred value.
    pub fn set_chksum_present(self, chksum_present: Value<bool>) -> (r: Gre)
        ensures
            r@ == (GreView { chksum_present: chksum_present@, ..self@ }),
    {
        let mut r = self;
        r.chksum_present = chksum_present;
        r
    }

    /// The layer with `routing_present` fixed to the given value.
    pub fn routing_present(self, routing_present: bool) -> (r: Gre)
        ensures
            r@ == (GreView { routing_present: ValueView::Fixed(routing_present@), ..self@ }),
    {
        let mut r = self;
        r.routing_present = Value::Fixed(routing_present);
        r
    }

    /// The layer with `routing_present` set to the given deferred value.
    pub fn set_routing_present(self, routing_present: Value<bool>) -> (r: Gre)
        ensures
            r@ == (GreView { routing_present: routing_present@, ..self@ }),
    {
        let mut r = self;
        r.routing_present = routing_present;
        r
    }

    /// The layer with `key_present` fixed to the given value.
    pub fn key_present(self, key_present: bool) -> (r: Gre)
        ensures
            r@ == (GreView { key_present: ValueView::Fixed(key_present@), ..self@ }),
    {
        let mut r = self;
        r.key_present = Value::Fixed(key_present);
        r
    }

    /// The layer with `key_present` set to the given deferred value.
    pub fn set_key_present(self, key_present: Value<bool>) -> (r: Gre)
        ensures
            r@ == (GreView { key_present: key_present@, ..self@ }),
    {
        let mut r = self;
        r.key_present = key_present;
        r
    }

    /// The layer with `seqnum_present` fixed to the given value.
    pub fn seqnum_present(self, seqnum_present: bool) -> (r: Gre)
        ensures
            r@ == (GreView { seqnum_present: ValueView::Fixed(seqnum_present@), ..self@ }),
    {
        let mut r = self;
        r.seqnum_present = Value::Fixed(seqnum_present);
        r
    }

    /// The layer with `seqnum_present` set to the given deferred value.
    pub fn set_seqnum_present(self, seqnum_present: Value<bool>) -> (r: Gre)
        ensures
            r@ == (GreView { seqnum_present: seqnum_present@, ..self@ }),
    {
        let mut r = self;
        r.seqnum_present = seqnum_present;
        r
    }

    /// The layer with `strict_source_route` fixed to the given value.
    pub fn strict_source_route(self, strict_source_route: bool) -> (r: Gre)
        ensures
            r@ == (
                GreView { strict_source_route: ValueView::Fixed(strict_source_route@), ..self@ }
            ),
    {
        let mut r = self;
        r.strict_source_route = Value::Fixed(strict_source_route);
        r
    }

    /// The layer with `strict_source_route` set to the given deferred value.
    pub fn set_strict_source_route(self, strict_source_route: Value<bool>) -> (r: Gre)
        ensures
            r@ == (GreView { strict_source_route: strict_source_route@, ..self@ }),
    {
        let mut r = self;
        r.strict_source_route = strict_source_route;
        r
    }

    /// The layer with `recursion_control` fixed to the given value.
    pub fn recursion_control(self, recursion_control: u8) -> (r: Gre)
        ensures
            r@ == (GreView { recursion_control: ValueView::Fixed(recursion_control@), ..self@ }),
    {
        let mut r = self;
        r.recursion_control = Value::Fixed(recursion_control);
        r
    }

    /// The layer with `recursion_control` set to the given deferred value.
    pub fn set_recursion_control(self, recursion_control: Value<u8>) -> (r: Gre)
        ensures
            r@ == (GreView { recursion_control: recursion_control@, ..self@ }),
    {
        let mut r = self;
        r.recursion_control = recursion_control;
        r
    }

    /// The layer with `acknum_present` fixed to the given value.
    pub fn acknum_present(self, acknum_present: bool) -> (r: Gre)
        ensures
            r@ == (GreView { acknum_present: ValueView::Fixed(acknum_present@), ..self@ }),
    {
        let mut r = self;
        r.acknum_present = Value::Fixed(acknum_present);
        r
    }

    /// The layer with `acknum_present` set to the given deferred value.
    pub fn set_acknum_present(self, acknum_present: Value<bool>) -> (r: Gre)
        ensures
            r@ == (GreView { acknum_present: acknum_present@, ..self@ }),
    {
        let mut r = self;
        r.acknum_present = acknum_present;
        r
    }

    /// The layer with `flags` fixed to the given value.
    pub fn flags(self, flags: u8) -> (r: Gre)
        ensures
            r@ == (GreView { flags: ValueView::Fixed(flags@), ..self@ }),
    {
        let mut r = self;
        r.flags = Value::Fixed(flags);
        r
    }

    /// The layer with `flags` set to the given deferred value.
    pub fn set_flags(self, flags: Value<u8>) -> (r: Gre)
        ensures
            r@ == (GreView { flags: flags@, ..self@ }),
    {
        let mut r = self;
        r.flags = flags;
        r
    }

    /// The layer with `version` fixed to the given value.
    pub fn version(self, version: u8) -> (r: Gre)
        ensures
            r@ == (GreView { version: ValueView::Fixed(version@), ..self@ }),
    {
        let mut r = self;
        r.version = Value::Fixed(version);
        r
    }

    /// The layer with `version` set to the given deferred value.
    pub fn set_version(self, version: Value<u8>) -> (r: Gre)
        ensures
            r@ == (GreView { version: version@, ..self@ }),
    {
        let mut r = self;
        r.version = version;
        r
    }

    /// The layer with `proto` fixed to the given value.
    pub fn proto(self, proto: u16) -> (r: Gre)
        ensures
            r@ == (GreView { proto: ValueView::Fixed(proto@), ..self@ }),
    {
        let mut r = self;
        r.proto = Value::Fixed(proto);
        r
    }

    /// The layer with `proto` set to the given deferred value.
    pub fn set_proto(self, proto: Value<u16>) -> (r: Gre)
        ensures
            r@ == (GreView { proto: proto@, ..self@ }),
    {
        let mut r = self;
        r.proto = proto;
        r
    }

    /// The layer with `chksum` fixed to the given value.
    pub fn chksum(self, chksum: u16) -> (r: Gre)
        ensures
            r@ == (GreView { chksum: ValueView::Fixed(chksum@), ..self@ }),
    {
        let mut r = self;
        r.chksum = Value::Fixed(chksum);
        r
    }

    /// The layer with `chksum` set to the given deferred value.
    pub fn set_chksum(self, chksum: Value<u16>) -> (r: Gre)
        ensures
            r@ == (GreView { chksum: chksum@, ..self@ }),
    {
        let mut r = self;
        r.chksum = chksum;
        r
    }

    /// The layer with `ignored_chksum` fixed to the given value.
    pub fn ignored_chksum(self, ignored_chksum: u16) -> (r: Gre)
        ensures
            r@ == (GreView { ignored_chksum: ValueView::Fixed(ignored_chksum@), ..self@ }),
    {
        let mut r = self;
        r.ignored_chksum = Value::Fixed(ignored_chksum);
        r
    }

    /// The layer with `ignored_chksum` set to the given deferred value.
    pub fn set_ignored_chksum(self, ignored_chksum: Value<u16>) -> (r: Gre)
        ensures
            r@ == (GreView { ignored_chksum: ignored_chksum@, ..self@ }),
    {
        let mut r = self;
        r.ignored_chksum = ignored_chksum;
        r
    }

    /// The layer with `reserved1` fixed to the given value.
    pub fn reserved1(self, reserved1: u16) -> (r: Gre)
        ensures
            r@ == (GreView { reserved1: ValueView::Fixed(reserved1@), ..self@ }),
    {
        let mut r = self;
        r.reserved1 = Value::Fixed(reserved1);
        r
    }

    /// The layer with `reserved1` set to the given deferred value.
    pub fn set_reserved1(self, reserved1: Value<u16>) -> (r: Gre)
        ensures
            r@ == (GreView { reserved1: reserved1@, ..self@ }),
    {
        let mut r = self;
        r.reserved1 = reserved1;
        r
    }

    /// The layer with `routing_offset` fixed to the given value.
    pub fn routing_offset(self, routing_offset: u16) -> (r: Gre)
        ensures
            r@ == (GreView { routing_offset: ValueView::Fixed(routing_offset@), ..self@ }),
    {
        let mut r = self;
        r.routing_offset = Value::Fixed(routing_offset);
        r
    }

    /// The layer with `routing_offset` set to the given deferred value.
    pub fn set_routing_offset(self, routing_offset: Value<u16>) -> (r: Gre)
        ensures
            r@ == (GreView { routing_offset: routing_offset@, ..self@ }),
    {
        let mut r = self;
        r.routing_offset = routing_offset;
        r
    }

    /// The layer with `key` fixed to the given value.
    pub fn key(self, key: u32) -> (r: Gre)
        ensures
            r@ == (GreView { key: ValueView::Fixed(key@), ..self@ }),
    {
        let mut r = self;
        r.key = Value::Fixed(key);
        r
    }

    /// The layer with `key` set to the given deferred value.
    pub fn set_key(self, key: Value<u32>) -> (r: Gre)
        ensures
            r@ == (GreView { key: key@, ..self@ }),
    {
        let mut r = self;
        r.key = key;
        r
    }

    /// The layer with `sequence_number` fixed to the given value.
    pub fn sequence_number(self, sequence_number: u32) -> (r: Gre)
        ensures
            r@ == (GreView { sequence_number: ValueView::Fixed(sequence_number@), ..self@ }),
    {
        let mut r = self;
        r.sequence_number = Value::Fixed(sequence_number);
        r
    }

    /// The layer with `sequence_number` set to the given deferred value.
    pub fn set_sequence_number(self, sequence_number: Value<u32>) -> (r: Gre)
        ensures
            r@ == (GreView { sequence_number: sequence_number@, ..self@ }),
    {
        let mut r = self;
        r.sequence_number = sequence_number;
        r
    }

    /// The layer with `ack_number` fixed to the given value.
    pub fn ack_number(self, ack_number: u32) -> (r: Gre)
        ensures
            r@ == (GreView { ack_number: ValueView::Fixed(ack_number@), ..self@ }),
    {
        let mut r = self;
        r.ack_number = Value::Fixed(ack_number);
        r
    }

    /// The layer with `ack_number` set to the given deferred value.
    pub fn set_ack_number(self, ack_number: Value<u32>) -> (r: Gre)
        ensures
            r@ == (GreView { ack_number: ack_number@, ..self@ }),
    {
        let mut r = self;
        r.ack_number = ack_number;
        r
    }

    /// The layer with `routing` replaced.
    pub fn routing(self, routing: Vec<u8>) -> (r: Gre)
        ensures
            r@ == (GreView { routing: routing@, ..self@ }),
    {
        let mut r = self;
        r.routing = routing;
        r
    }

    /// A copy of the layer in which every random field is drawn from `rng` and
    /// every computed field is computed. The random fields draw in the order
    /// in which they are declared.
    pub fn resolve<R: RandomSource>(&self, rng: &mut R) -> (r: Gre)
        ensures
            self@.resolves_to(r@),
            r@.settled(),
            drew(old(rng).drawn(), final(rng).drawn(), self@.draws()),
            self@.drawn_from(fresh(old(rng).drawn(), final(rng).drawn()), r@),
    {
        let ghost s0 = rng.drawn();
        let chksum_present = self.chksum_present.resolved(rng);
        let ghost s1 = rng.drawn();
        let routing_present = self.routing_present.resolved(rng);
        let ghost s2 = rng.drawn();
        let key_present = self.key_present.resolved(rng);
        let ghost s3 = rng.drawn();
        let seqnum_present = self.seqnum_present.resolved(rng);
        let ghost s4 = rng.drawn();
        let strict_source_route = self.strict_source_route.resolved(rng);
        let ghost s5 = rng.drawn();
        let recursion_control = self.recursion_control.resolved(rng);
        let ghost s6 = rng.drawn();
        let acknum_present = self.acknum_present.resolved(rng);
        let ghost s7 = rng.drawn();
        let flags = self.flags.resolved(rng);
        let ghost s8 = rng.drawn();
        let version = self.version.resolved(rng);
        let ghost s9 = rng.drawn();
        let proto = self.proto.resolved(rng);
        let ghost s10 = rng.drawn();
        let chksum = self.chksum.resolved(rng);
        let ghost s11 = rng.drawn();
        let ignored_chksum = self.ignored_chksum.resolved(rng);
        let ghost s12 = rng.drawn();
        let reserved1 = self.reserved1.resolved(rng);
        let ghost s13 = rng.drawn();
        let routing_offset = self.routing_offset.resolved(rng);
        let ghost s14 = rng.drawn();
        let key = self.key.resolved(rng);
        let ghost s15 = rng.drawn();
        let sequence_number = self.sequence_number.resolved(rng);
        let ghost s16 = rng.drawn();
        let ack_number = self.ack_number.resolved(rng);
        let ghost s17 = rng.drawn();
        let routing = copy_bytes(&self.routing);
        let r = Gre {
            chksum_present,
            routing_present,
            key_present,
            seqnum_present,
            strict_source_route,
            recursion_control,
            acknum_present,
            flags,
            version,
            proto,
            chksum,
            ignored_chksum,
            reserved1,
            routing_offset,
            key,
            sequence_number,
            ack_number,
            routing,
        };
        proof {
            self@.lemma_drawn(
                r@,
                s0,
                s1,
                s2,
                s3,
                s4,
                s5,
                s6,
                s7,
                s8,
                s9,
                s10,
                s11,
                s12,
                s13,
                s14,
                s15,
                s16,
                s17,
            );
        }
        r
    }

    /// The layer filled: resolved as by `resolve`, and with every open field
    /// given what its rule says. `next` is the kind of the layer that follows
    /// in the stack.
    pub fn filled<R: RandomSource>(
        &self,
        reg: &Registry,
        next: Option<LayerKind>,
        rng: &mut R,
    ) -> (r: Gre)
        ensures
            self@.fills_to(reg@, next, r@),
            drew(old(rng).drawn(), final(rng).drawn(), self@.draws()),
            self@.drawn_from(fresh(old(rng).drawn(), final(rng).drawn()), r@),
    {
        let ghost s0 = rng.drawn();
        let chksum_present = self.chksum_present.filled(rng, bool::default_value());
        let ghost s1 = rng.drawn();
        let routing_present = self.routing_present.filled(rng, bool::default_value());
        let ghost s2 = rng.drawn();
        let key_present = self.key_present.filled(rng, bool::default_value());
        let ghost s3 = rng.drawn();
        let seqnum_present = self.seqnum_present.filled(rng, bool::default_value());
        let ghost s4 = rng.drawn();
        let strict_source_route = self.strict_source_route.filled(rng, bool::default_value());
        let ghost s5 = rng.drawn();
        let recursion_control = self.recursion_control.filled(rng, u8::default_value());
        let ghost s6 = rng.drawn();
        let acknum_present = self.acknum_present.filled(rng, bool::default_value());
        let ghost s7 = rng.drawn();
        let flags = self.flags.filled(rng, u8::default_value());
        let ghost s8 = rng.drawn();
        let version = self.version.filled(rng, u8::default_value());
        let ghost s9 = rng.drawn();
        let proto = self.proto.filled(
            rng,
            to_field_u16(reg.next_key(RegistryName::Ethertype, next, 0xffff, 0)),
        );
        let ghost s10 = rng.drawn();
        let chksum = self.chksum.filled(rng, u16::default_value());
        let ghost s11 = rng.drawn();
        let ignored_chksum = self.ignored_chksum.filled(rng, u16::default_value());
        let ghost s12 = rng.drawn();
        let reserved1 = self.reserved1.filled(rng, u16::default_value());
        let ghost s13 = rng.drawn();
        let routing_offset = self.routing_offset.filled(rng, u16::default_value());
        let ghost s14 = rng.drawn();
        let key = self.key.filled(rng, u32::default_value());
        let ghost s15 = rng.drawn();
        let sequence_number = self.sequence_number.filled(rng, u32::default_value());
        let ghost s16 = rng.drawn();
        let ack_number = self.ack_number.filled(rng, u32::default_value());
        let ghost s17 = rng.drawn();
        let routing = copy_bytes(&self.routing);
        let r = Gre {
            chksum_present,
            routing_present,
            key_present,
            seqnum_present,
            strict_source_route,
            recursion_control,
            acknum_present,
            flags,
            version,
            proto,
            chksum,
            ignored_chksum,
            reserved1,
            routing_offset,
            key,
            sequence_number,
            ack_number,
            routing,
        };
        proof {
            self@.lemma_drawn(
                r@,
                s0,
                s1,
                s2,
                s3,
                s4,
                s5,
                s6,
                s7,
                s8,
                s9,
                s10,
                s11,
                s12,
                s13,
                s14,
                s15,
                s16,
                s17,
            );
        }
        r
    }

    /// The bytes of the header.
    pub fn header_bytes(&self) -> (r: Vec<u8>)
        ensures
            r@ == self@.header(),
    {
        let mut out: Vec<u8> = Vec::new();
        assert(
            out@ + (self@.first_word()).encoded(Endian::Big)
                =~= (self@.first_word()).encoded(Endian::Big)
        );
        put::<u16, BinaryBigEndian>(&mut out, &(self.first()));
        put::<u16, BinaryBigEndian>(&mut out, &(self.proto.or(u16::default_value())));
        if self.chksum_present.or(false) {
            put::<u16, BinaryBigEndian>(&mut out, &(self.chksum.or(u16::default_value())));
        } else {
            assert(out@ + Seq::<u8>::empty() =~= out@);
        }
        if self.routing_present.or(false) && !self.chksum_present.or(false) {
            put::<u16, BinaryBigEndian>(&mut out, &(self.ignored_chksum.or(u16::default_value())));
        } else {
            assert(out@ + Seq::<u8>::empty() =~= out@);
        }
        if self.chksum_present.or(false) && !self.routing_present.or(false) {
            put::<u16, BinaryBigEndian>(&mut out, &(self.reserved1.or(u16::default_value())));
        } else {
            assert(out@ + Seq::<u8>::empty() =~= out@);
        }
        if self.routing_present.or(false) {
            put::<u16, BinaryBigEndian>(&mut out, &(self.routing_offset.or(u16::default_value())));
        } else {
            assert(out@ + Seq::<u8>::empty() =~= out@);
        }
        if self.key_present.or(false) {
            put::<u32, BinaryBigEndian>(&mut out, &(self.key.or(u32::default_value())));
        } else {
            assert(out@ + Seq::<u8>::empty() =~= out@);
        }
        if self.seqnum_present.or(false) {
            put::<u32, BinaryBigEndian>(&mut out, &(self.sequence_number.or(u32::default_value())));
        } else {
            assert(out@ + Seq::<u8>::empty() =~= out@);
        }
        if self.acknum_present.or(false) {
            put::<u32, BinaryBigEndian>(&mut out, &(self.ack_number.or(u32::default_value())));
        } else {
            assert(out@ + Seq::<u8>::empty() =~= out@);
        }
        out
    }

    /// The bytes of the layer on the wire. `outer` tells what stands before
    /// the layer in the stack and `tail` holds the bytes of the layers behind
    /// it; this protocol needs neither.
    pub fn wire_bytes(&self, outer: &Outer, tail: &EncodingVecVec) -> (r: Vec<u8>)
        ensures
            r@ == self@.wire(*outer, tail@),
    {
        self.header_bytes()
    }

    /// The numbers by which the header names the protocol that follows, each
    /// with the table it is looked up in.
    pub fn next_keys(&self) -> (r: Vec<(RegistryName, u32)>)
        ensures
            r@ == self@.nexts(),
    {
        let mut r: Vec<(RegistryName, u32)> = Vec::new();
        r.push((RegistryName::Ethertype, key_u16(self.proto.or(0))));
        assert(r@ =~= self@.nexts());
        r
    }

    /// `other` holds in every computed field the function that `self` holds
    /// there.
    pub open spec fn same_funcs(self, other: Gre) -> bool {
        &&& other.chksum_present.func() == self.chksum_present.func()
        &&& other.routing_present.func() == self.routing_present.func()
        &&& other.key_present.func() == self.key_present.func()
        &&& other.seqnum_present.func() == self.seqnum_present.func()
        &&& other.strict_source_route.func() == self.strict_source_route.func()
        &&& other.recursion_control.func() == self.recursion_control.func()
        &&& other.acknum_present.func() == self.acknum_present.func()
        &&& other.flags.func() == self.flags.func()
        &&& other.version.func() == self.version.func()
        &&& other.proto.func() == self.proto.func()
        &&& other.chksum.func() == self.chksum.func()
        &&& other.ignored_chksum.func() == self.ignored_chksum.func()
        &&& other.reserved1.func() == self.reserved1.func()
        &&& other.routing_offset.func() == self.routing_offset.func()
        &&& other.key.func() == self.key.func()
        &&& other.sequence_number.func() == self.sequence_number.func()
        &&& other.ack_number.func() == self.ack_number.func()
    }

    /// A copy of the layer: the same values, and in the computed fields the
    /// same functions.
    pub fn dup(&self) -> (r: Gre)
        ensures
            r@ == self@,
            self.same_funcs(r),
    {
        let chksum_present = self.chksum_present.dup();
        let routing_present = self.routing_present.dup();
        let key_present = self.key_present.dup();
        let seqnum_present = self.seqnum_present.dup();
        let strict_source_route = self.strict_source_route.dup();
        let recursion_control = self.recursion_control.dup();
        let acknum_present = self.acknum_present.dup();
        let flags = self.flags.dup();
        let version = self.version.dup();
        let proto = self.proto.dup();
        let chksum = self.chksum.dup();
        let ignored_chksum = self.ignored_chksum.dup();
        let reserved1 = self.reserved1.dup();
        let routing_offset = self.routing_offset.dup();
        let key = self.key.dup();
        let sequence_number = self.sequence_number.dup();
        let ack_number = self.ack_number.dup();
        let routing = copy_bytes(&self.routing);
        Gre {
            chksum_present,
            routing_present,
            key_present,
            seqnum_present,
            strict_source_route,
            recursion_control,
            acknum_present,
            flags,
            version,
            proto,
            chksum,
            ignored_chksum,
            reserved1,
            routing_offset,
            key,
            sequence_number,
            ack_number,
            routing,
        }
    }

    /// The first word of the header.
    pub fn first(&self) -> (r: u16)
        ensures
            r == self@.first_word(),
    {
        let c: u16 = bit_of(self.chksum_present.or(false));
        let r: u16 = bit_of(self.routing_present.or(false));
        let k: u16 = bit_of(self.key_present.or(false));
        let s: u16 = bit_of(self.seqnum_present.or(false));
        let ssr: u16 = bit_of(self.strict_source_route.or(false));
        let a: u16 = bit_of(self.acknum_present.or(false));
        let rc: u16 = (self.recursion_control.or(0) % 8) as u16;
        let flags: u16 = (self.flags.or(0) % 16) as u16;
        let version: u16 = (self.version.or(0) % 8) as u16;
        c * 0x8000 + r * 0x4000 + k * 0x2000 + s * 0x1000 + ssr * 0x800 + rc * 0x100 + a * 0x80
            + flags * 8 + version
    }

    /// Reads the header from the front of `buf`: the layer and the number of
    /// bytes of the header, or `None` where `buf` is too short.
    pub fn decode_header(buf: &[u8]) -> (r: Option<(Gre, usize)>)
        ensures
            match r {
                Some((l, n)) => GreView::parse(buf@) == Some((l@, n as nat)),
                None => GreView::parse(buf@) is None,
            },
    {
        let mut pos: usize = 0;
        let mut l = Gre::new();
        let w = take::<u16, BinaryBigEndian>(buf, &mut pos)?;
        assert(buf@.skip(0) =~= buf@);
        let c = w / 0x8000 % 2 == 1;
        let r = w / 0x4000 % 2 == 1;
        let k = w / 0x2000 % 2 == 1;
        let s = w / 0x1000 % 2 == 1;
        let a = w / 0x80 % 2 == 1;
        l.chksum_present = Value::Fixed(c);
        l.routing_present = Value::Fixed(r);
        l.key_present = Value::Fixed(k);
        l.seqnum_present = Value::Fixed(s);
        l.strict_source_route = Value::Fixed(w / 0x800 % 2 == 1);
        l.recursion_control = Value::Fixed((w / 0x100 % 8) as u8);
        l.acknum_present = Value::Fixed(a);
        l.flags = Value::Fixed((w / 8 % 16) as u8);
        l.version = Value::Fixed((w % 8) as u8);
        l.proto = Value::Fixed(take::<u16, BinaryBigEndian>(buf, &mut pos)?);
        let mut first: u16 = 0;
        let mut second: u16 = 0;
        if c || r {
            first = take::<u16, BinaryBigEndian>(buf, &mut pos)?;
            second = take::<u16, BinaryBigEndian>(buf, &mut pos)?;
        }
        l.chksum = Value::Fixed(if c { first } else { 0 });
        l.ignored_chksum = Value::Fixed(if r && !c { first } else { 0 });
        l.reserved1 = Value::Fixed(if c && !r { second } else { 0 });
        l.routing_offset = Value::Fixed(if r { second } else { 0 });
        let mut key: u32 = 0;
        if k {
            key = take::<u32, BinaryBigEndian>(buf, &mut pos)?;
        }
        l.key = Value::Fixed(key);
        let mut seq: u32 = 0;
        if s {
            seq = take::<u32, BinaryBigEndian>(buf, &mut pos)?;
        }
        l.sequence_number = Value::Fixed(seq);
        let mut ack: u32 = 0;
        if a {
            ack = take::<u32, BinaryBigEndian>(buf, &mut pos)?;
        }
        l.ack_number = Value::Fixed(ack);
        Some((l, pos))
    }
}

/// A flag as the bit it sets.
pub open spec fn bit(b: bool) -> int {
    if b {
        1
    } else {
        0
    }
}

/// A flag as the bit it sets.
pub fn bit_of(b: bool) -> (r: u16)
    ensures
        r == bit(b),
{
    if b {
        1
    } else {
        0
    }
}

} // verus!
