//! Bytes that stand for themselves: a payload, or what no decoder could read.

use crate::codec::copy_bytes;
use crate::encoding::EncodingVecVec;
use crate::encoding::Outer;
use crate::registry::LayerKind;
use crate::registry::Registry;
use crate::registry::RegistryEntry;
use crate::registry::RegistryName;
use crate::value::RandomSource;
use crate::value::drew;
use crate::value::fresh;
use crate::value::lemma_drew_none;
use crate::value::share;
use crate::wire::take;
use vstd::prelude::*;

verus! {

/// A layer of bytes without structure.
#[allow(non_camel_case_types)]
#[derive(Clone, Debug, PartialEq, Eq)]
pub struct raw {
    /// The bytes.
    pub data: Vec<u8>,
}

/// What a layer of type `raw` says, with its vectors as sequences.
#[allow(non_camel_case_types)]
pub struct rawView {
    pub data: Seq<u8>,
}

impl View for raw {
    type V = rawView;

    open spec fn view(&self) -> rawView {
        rawView {
            data: self.data@,
        }
    }
}

impl rawView {
    /// A layer as it is made: every field at its default.
    pub open spec fn default_spec() -> rawView {
        rawView {
            data: Seq::empty(),
        }
    }

    /// No field waits for a random number or for a function of the caller.
    pub open spec fn settled(self) -> bool {
        true
    }

    /// `r` is the layer with every random or computed field given some value
    /// and every other field as it was. Which value a random field is given
    /// is said by `drawn_from`.
    pub open spec fn resolves_to(self, r: rawView) -> bool {
        &&& r.data == self.data
    }

    /// `r` is the layer after a fill in a stack whose next layer is of kind
    /// `next`, with the tables `reg`: fixed fields stay, random and computed
    /// fields get some value, and each open field gets what its rule says.
    /// Which value a random field gets is said by `drawn_from`.
    pub open spec fn fills_to(
        self,
        reg: Seq<RegistryEntry>,
        next: Option<LayerKind>,
        r: rawView,
    ) -> bool {
        &&& r.data == self.data
    }

    /// How many numbers the layer takes from a random source when it is
    /// resolved or filled: those of its random fields together.
    pub open spec fn draws(self) -> nat {
        0
    }

    /// `r` holds in every field that is random in `self` the value made of
    /// that field's share of the numbers `d`. The fields take their shares
    /// in the order in which they are declared, each as many numbers as a
    /// random value of its type takes.
    pub open spec fn drawn_from(self, d: Seq<u32>, r: rawView) -> bool {
        true
    }

    /// No field of the layer is computed by a function of the caller.
    pub open spec fn without_funcs(self) -> bool {
        true
    }

    /// Where no field is computed, the numbers drawn decide what the layer
    /// resolves to.
    pub proof fn lemma_resolve_decided(self, d: Seq<u32>, a: rawView, b: rawView)
        requires
            self.without_funcs(),
            self.resolves_to(a),
            self.drawn_from(d, a),
            self.resolves_to(b),
            self.drawn_from(d, b),
        ensures
            a == b,
    {
    }

    /// Where no field is computed, the numbers drawn decide what the layer
    /// is filled to.
    pub proof fn lemma_fill_decided(
        self,
        reg: Seq<RegistryEntry>,
        next: Option<LayerKind>,
        d: Seq<u32>,
        a: rawView,
        b: rawView,
    )
        requires
            self.without_funcs(),
            self.fills_to(reg, next, a),
            self.drawn_from(d, a),
            self.fills_to(reg, next, b),
            self.drawn_from(d, b),
        ensures
            a == b,
    {
    }

    /// The header names no protocol to follow.
    pub open spec fn nexts(self) -> Seq<(RegistryName, u32)> {
        Seq::empty()
    }

    /// The bytes of the layer on the wire: its bytes.
    pub open spec fn wire(self, outer: Outer, tail: Seq<Seq<u8>>) -> Seq<u8> {
        self.data
    }

    /// After a fill no field waits for a random number or a function, and
    /// every field is fixed but those that are left to the encoder.
    pub proof fn lemma_filled(self, reg: Seq<RegistryEntry>, next: Option<LayerKind>, r: rawView)
        requires
            self.fills_to(reg, next, r),
        ensures
            r.settled(),
    {
    }

    /// Resolving a layer in which nothing is random or computed changes
    /// nothing.
    pub proof fn lemma_settled(self, r: rawView)
        requires
            self.settled(),
            self.resolves_to(r),
        ensures
            r == self,
    {
    }
}

impl Default for raw {
    fn default() -> (r: raw)
        ensures
            r@ == rawView::default_spec(),
    {
        raw::new()
    }
}

impl raw {
    /// A layer with every field at its default.
    pub fn new() -> (r: raw)
        ensures
            r@ == rawView::default_spec(),
    {
        let r = raw {
            data: Vec::new(),
        };
        assert(r@.data =~= rawView::default_spec().data);
        r
    }

    /// The layer with `data` replaced.
    pub fn data(self, data: Vec<u8>) -> (r: raw)
        ensures
            r@ == (rawView { data: data@, ..self@ }),
    {
        let mut r = self;
        r.data = data;
        r
    }

    /// A copy of the layer in which every random field is drawn from `rng` and
    /// every computed field is computed. The random fields draw in the order
    /// in which they are declared.
    pub fn resolve<R: RandomSource>(&self, rng: &mut R) -> (r: raw)
        ensures
            self@.resolves_to(r@),
            r@.settled(),
            drew(old(rng).drawn(), final(rng).drawn(), self@.draws()),
            self@.drawn_from(fresh(old(rng).drawn(), final(rng).drawn()), r@),
    {
        let ghost s0 = rng.drawn();
        let data = copy_bytes(&self.data);
        let r = raw { data };
        proof {
            lemma_drew_none(s0);
        }
        r
    }

    /// The layer filled: resolved as by `resolve`, and with every open field
    /// given what its rule says. `next` is the kind of the layer that follows
    /// in the stack.
    pub fn filled<R: RandomSource>(
        &self,
        reg: &Registry,
        next: Option<LayerKind>,
        rng: &mut R,
    ) -> (r: raw)
        ensures
            self@.fills_to(reg@, next, r@),
            drew(old(rng).drawn(), final(rng).drawn(), self@.draws()),
            self@.drawn_from(fresh(old(rng).drawn(), final(rng).drawn()), r@),
    {
        let ghost s0 = rng.drawn();
        let data = copy_bytes(&self.data);
        let r = raw { data };
        proof {
            lemma_drew_none(s0);
        }
        r
    }

    /// The numbers by which the header names the protocol that follows:
    /// none, for this header names no protocol to follow.
    pub fn next_keys(&self) -> (r: Vec<(RegistryName, u32)>)
        ensures
            r@ == self@.nexts(),
    {
        let mut r: Vec<(RegistryName, u32)> = Vec::new();
        assert(r@ =~= self@.nexts());
        r
    }

    /// `other` holds in every computed field the function that `self` holds
    /// there.
    pub open spec fn same_funcs(self, other: raw) -> bool {
        true
    }

    /// A copy of the layer: the same values, and in the computed fields the
    /// same functions.
    pub fn dup(&self) -> (r: raw)
        ensures
            r@ == self@,
            self.same_funcs(r),
    {
        let data = copy_bytes(&self.data);
        raw { data }
    }

    /// The bytes of the layer on the wire: a copy of its bytes.
    pub fn wire_bytes(&self, outer: &Outer, tail: &EncodingVecVec) -> (r: Vec<u8>)
        ensures
            r@ == self@.wire(*outer, tail@),
    {
        copy_bytes(&self.data)
    }
}

} // verus!
