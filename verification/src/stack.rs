//! The stack of layers that makes a packet, outermost layer first, and the
//! three passes over it: `fill` resolves what was left open, `encode` writes
//! the wire bytes from the innermost layer outwards, and `decode` reads wire
//! bytes back into layers.

use crate::encoding::EncodingVecVec;
use crate::encoding::Outer;
use crate::laws::lemma_fill_settles;
use crate::laws::lemma_settled_stack_resolves;
use crate::layer::is_greedy;
use crate::layer::layers_view;
use crate::layer::parse_header;
use crate::layer::AnyLayer;
use crate::layer::Layer;
use crate::layer::LayerView;
use crate::protocols::raw::raw;
use crate::protocols::raw::rawView;
use crate::registry::builtin_entries;
use crate::registry::kind_for;
use crate::registry::LayerKind;
use crate::registry::Registry;
use crate::registry::RegistryEntry;
use crate::registry::RegistryName;
use crate::value::behind;
use crate::value::drew;
use crate::value::fresh;
use crate::value::lemma_drew_first;
use crate::value::lemma_drew_none;
use crate::value::share;
use crate::value::RandomSource;
use crate::value::ThreadRandom;
use vstd::pervasive::unreached;
use vstd::prelude::*;

verus! {

/// A packet as its layers, outermost first.
#[derive(Clone, Debug)]
pub struct LayerStack {
    pub layers: Vec<AnyLayer>,
    /// Whether the stack came out of `decode` or `fill`.
    pub filled: bool,
}

impl View for LayerStack {
    type V = Seq<LayerView>;

    open spec fn view(&self) -> Seq<LayerView> {
        layers_view(self.layers@)
    }
}

/// What stands before position `i` of `stack`, as an encoder sees it.
pub open spec fn outer_at(stack: Seq<LayerView>, i: int) -> Outer {
    if i <= 0 {
        Outer::Outermost
    } else if i - 1 < stack.len() {
        stack[i - 1].as_outer()
    } else {
        Outer::Other
    }
}

/// The kind of the layer behind position `i` of `stack`, if there is one.
pub open spec fn next_kind(stack: Seq<LayerView>, i: int) -> Option<LayerKind> {
    if 0 <= i + 1 < stack.len() {
        Some(stack[i + 1].kind())
    } else {
        None
    }
}

/// The encoded buffers of the layers from position `i` on, in stack order.
/// Each layer is encoded with the buffers of the layers behind it at hand.
pub open spec fn encode_tail(stack: Seq<LayerView>, i: int) -> Seq<Seq<u8>>
    decreases stack.len() - i,
{
    if i < 0 || i >= stack.len() {
        Seq::empty()
    } else {
        let tail = encode_tail(stack, i + 1);
        seq![stack[i].wire(outer_at(stack, i), tail)] + tail
    }
}

/// The wire bytes of a stack: the buffers of its layers, joined in stack
/// order.
pub open spec fn stack_bytes(stack: Seq<LayerView>) -> Seq<u8> {
    encode_tail(stack, 0).flatten()
}

/// No field of any layer waits for a random number or a function.
pub open spec fn stack_settled(stack: Seq<LayerView>) -> bool {
    forall|i: int| 0 <= i < stack.len() ==> (#[trigger] stack[i]).settled()
}

/// `new` is `old` resolved: layer by layer, every random or computed field has
/// got some value and nothing else has changed. Which value a random field
/// has got is said by `stack_drawn_from`.
pub open spec fn stack_resolves_to(old: Seq<LayerView>, new: Seq<LayerView>) -> bool {
    &&& new.len() == old.len()
    &&& forall|i: int| 0 <= i < old.len() ==> (#[trigger] old[i]).resolves_to(new[i])
}

/// How many numbers the layers of `stack` take from a random source together
/// when the stack is resolved or filled.
pub open spec fn stack_draws(stack: Seq<LayerView>) -> nat
    decreases stack.len(),
{
    if stack.len() == 0 {
        0
    } else {
        stack_draws(stack.drop_last()) + stack.last().draws()
    }
}

/// Each layer of `new` holds in its random fields the values made of its
/// share of the numbers `d`. The layers take their shares one after the other,
/// the outermost layer first, and within a layer the fields in the order in
/// which the layer declares them.
pub open spec fn stack_drawn_from(old: Seq<LayerView>, d: Seq<u32>, new: Seq<LayerView>) -> bool
    decreases old.len(),
{
    if old.len() == 0 {
        new.len() == 0
    } else {
        let n = stack_draws(old.drop_last());
        &&& new.len() == old.len()
        &&& stack_drawn_from(old.drop_last(), share(d, n), new.drop_last())
        &&& old.last().drawn_from(behind(d, n), new.last())
    }
}

/// The numbers of `d` that are at hand when layer `i` of `stack` draws: those
/// behind the shares of the layers before it.
pub open spec fn layer_share(stack: Seq<LayerView>, d: Seq<u32>, i: int) -> Seq<u32>
    decreases stack.len(),
{
    if i < 0 || i >= stack.len() {
        d
    } else if i == stack.len() - 1 {
        behind(d, stack_draws(stack.drop_last()))
    } else {
        layer_share(stack.drop_last(), share(d, stack_draws(stack.drop_last())), i)
    }
}

/// No field of any layer is computed by a function of the caller.
pub open spec fn stack_without_funcs(stack: Seq<LayerView>) -> bool {
    forall|i: int| 0 <= i < stack.len() ==> (#[trigger] stack[i]).without_funcs()
}

/// `new` is `old` filled with the tables `reg`: layer by layer, fixed fields
/// stay, random and computed fields have got some value, and every open field
/// has got what its rule says, given the kind of the layer behind it in `old`.
/// Which value a random field has got is said by `stack_drawn_from`.
pub open spec fn stack_fills_to(
    reg: Seq<RegistryEntry>,
    old: Seq<LayerView>,
    new: Seq<LayerView>,
) -> bool {
    &&& new.len() == old.len()
    &&& forall|i: int|
        0 <= i < old.len() ==> (#[trigger] old[i]).fills_to(reg, next_kind(old, i), new[i])
}

/// The layers that bytes without a decoder make: one layer of raw bytes, or
/// none where there are no bytes.
pub open spec fn raw_layers(buf: Seq<u8>) -> Seq<LayerView> {
    if buf.len() > 0 {
        seq![LayerView::Raw(rawView { data: buf })]
    } else {
        Seq::empty()
    }
}

/// The layers that a decoder of kind `kind` reads from `buf` with the tables
/// `reg`, and the number of bytes it takes; `None` where `buf` is too short
/// for the header of `kind`.
///
/// Raw bytes and text have no header: all of `buf` becomes one raw layer.
/// Any other kind reads its header, and then tries each number by which the
/// header names a following protocol: where the table knows the number and
/// the decoder of the kind found there can read what is left, its layers
/// follow. What is still left after that becomes a raw layer, unless the
/// kind stops at its own end.
pub open spec fn decode_spec(reg: Seq<RegistryEntry>, kind: LayerKind, buf: Seq<u8>) -> Option<
    (Seq<LayerView>, nat),
>
    decreases buf.len(), 0nat, 0nat,
{
    if kind == LayerKind::Raw || kind == LayerKind::Text {
        Some((raw_layers(buf), buf.len()))
    } else {
        match parse_header(kind, buf) {
            None => None,
            Some((l, n)) => {
                let (inner, m) = if 0 < n <= buf.len() {
                    chain_spec(reg, l.nexts(), buf.skip(n as int))
                } else {
                    (Seq::empty(), 0nat)
                };
                let used = n + m;
                if is_greedy(kind) && used < buf.len() {
                    Some((seq![l] + inner + raw_layers(buf.skip(used as int)), buf.len()))
                } else {
                    Some((seq![l] + inner, used))
                }
            },
        }
    }
}

/// The layers that follow a header which names the following protocol by the
/// numbers `nexts`, read from `rest`, and the number of bytes they take. Each
/// number is tried in turn on what the ones before it have left.
pub open spec fn chain_spec(
    reg: Seq<RegistryEntry>,
    nexts: Seq<(RegistryName, u32)>,
    rest: Seq<u8>,
) -> (Seq<LayerView>, nat)
    decreases rest.len(), 1nat, nexts.len(),
{
    if nexts.len() == 0 {
        (Seq::empty(), 0nat)
    } else {
        let first = attempt_spec(reg, nexts[0], rest);
        let d = if first.1 <= rest.len() {
            first.1
        } else {
            0nat
        };
        let others = chain_spec(reg, nexts.skip(1), rest.skip(d as int));
        (first.0 + others.0, d + others.1)
    }
}

/// The layers that one number `next` of a header selects from `rest`: those
/// of the decoder that the table gives for the number, or none where the
/// table does not know it or the decoder cannot read `rest`.
pub open spec fn attempt_spec(
    reg: Seq<RegistryEntry>,
    next: (RegistryName, u32),
    rest: Seq<u8>,
) -> (Seq<LayerView>, nat)
    decreases rest.len(), 0nat, 1nat,
{
    match kind_for(reg, next.0, next.1) {
        None => (Seq::empty(), 0nat),
        Some(kind) => match decode_spec(reg, kind, rest) {
            Some((ls, d)) => if d <= rest.len() {
                (ls, d)
            } else {
                (Seq::empty(), 0nat)
            },
            None => (Seq::empty(), 0nat),
        },
    }
}

/// The first position from `i` on at which `stack` holds a layer of kind
/// `kind`, or the length of `stack` where there is none.
pub open spec fn first_from(stack: Seq<LayerView>, kind: LayerKind, i: int) -> int
    decreases stack.len() - i,
{
    if i < 0 || i >= stack.len() {
        stack.len() as int
    } else if stack[i].kind() == kind {
        i
    } else {
        first_from(stack, kind, i + 1)
    }
}

/// The first position at which `stack` holds a layer of kind `kind`, or the
/// length of `stack` where there is none.
pub open spec fn first_index(stack: Seq<LayerView>, kind: LayerKind) -> int {
    first_from(stack, kind, 0)
}

/// The last position at which `stack` holds a layer of kind `kind`, or -1
/// where there is none.
pub open spec fn last_index(stack: Seq<LayerView>, kind: LayerKind) -> int
    decreases stack.len(),
{
    if stack.len() == 0 {
        -1
    } else if stack.last().kind() == kind {
        stack.len() - 1
    } else {
        last_index(stack.drop_last(), kind)
    }
}

/// The positions at which `stack` holds a layer of kind `kind`, in rising
/// order.
pub open spec fn positions(stack: Seq<LayerView>, kind: LayerKind) -> Seq<usize>
    decreases stack.len(),
{
    if stack.len() == 0 {
        Seq::empty()
    } else if stack.last().kind() == kind {
        positions(stack.drop_last(), kind).push((stack.len() - 1) as usize)
    } else {
        positions(stack.drop_last(), kind)
    }
}

/// Whether `stack` holds a layer of kind `kind`.
pub open spec fn has_kind(stack: Seq<LayerView>, kind: LayerKind) -> bool {
    exists|i: int| 0 <= i < stack.len() && (#[trigger] stack[i]).kind() == kind
}

/// `first_from` finds a layer of the kind at or behind `i`, and none stands
/// between `i` and what it finds.
pub proof fn lemma_first_from(stack: Seq<LayerView>, kind: LayerKind, i: int)
    requires
        0 <= i <= stack.len(),
    ensures
        i <= first_from(stack, kind, i) <= stack.len(),
        first_from(stack, kind, i) < stack.len() ==> stack[first_from(stack, kind, i)].kind()
            == kind,
        forall|j: int| i <= j < first_from(stack, kind, i) ==> (#[trigger] stack[j]).kind() != kind,
    decreases stack.len() - i,
{
    if i < stack.len() && stack[i].kind() != kind {
        lemma_first_from(stack, kind, i + 1);
    }
}

/// `last_index` finds a layer of the kind, and none stands behind what it
/// finds.
pub proof fn lemma_last_index(stack: Seq<LayerView>, kind: LayerKind)
    ensures
        -1 <= last_index(stack, kind) < stack.len(),
        last_index(stack, kind) >= 0 ==> stack[last_index(stack, kind)].kind() == kind,
        forall|j: int|
            last_index(stack, kind) < j < stack.len() ==> (#[trigger] stack[j]).kind() != kind,
    decreases stack.len(),
{
    if stack.len() > 0 && stack.last().kind() != kind {
        lemma_last_index(stack.drop_last(), kind);
        assert forall|j: int| last_index(stack, kind) < j < stack.len() implies (
        #[trigger] stack[j]).kind() != kind by {
            if j < stack.len() - 1 {
                assert(stack.drop_last()[j] == stack[j]);
            }
        }
    }
}

/// The first and the last layer of a kind: a stack that holds a layer of
/// kind `kind` has a first and a last one, nothing of the kind stands before
/// the first or behind the last, and where the stack holds the kind more than
/// once the first stands before the last.
pub proof fn lemma_first_and_last(stack: Seq<LayerView>, kind: LayerKind)
    ensures
        has_kind(stack, kind) <==> first_index(stack, kind) < stack.len(),
        has_kind(stack, kind) <==> last_index(stack, kind) >= 0,
        has_kind(stack, kind) ==> 0 <= first_index(stack, kind) <= last_index(stack, kind)
            < stack.len() && stack[first_index(stack, kind)].kind() == kind && stack[last_index(
            stack,
            kind,
        )].kind() == kind,
        forall|j: int|
            0 <= j < stack.len() && (#[trigger] stack[j]).kind() == kind ==> first_index(
                stack,
                kind,
            ) <= j <= last_index(stack, kind),
{
    lemma_first_from(stack, kind, 0);
    lemma_last_index(stack, kind);
}

/// The buffers of `bufs` as sequences.
pub open spec fn buffers_view(bufs: Seq<Vec<u8>>) -> Seq<Seq<u8>> {
    Seq::new(bufs.len(), |i: int| bufs[i]@)
}

/// `itertools::concat` on a vector of byte vectors: the first vector extended
/// by each of the others in turn, or an empty vector where there is none. That
/// is the vectors joined in order.
#[verifier::external_body]
fn concat_buffers(bufs: Vec<Vec<u8>>) -> (r: Vec<u8>)
    ensures
        r@ == buffers_view(bufs@).flatten(),
{
    itertools::concat(bufs)
}

/// The layers that bytes without a decoder make.
pub fn decode_as_raw(buf: &[u8]) -> (r: Vec<AnyLayer>)
    ensures
        layers_view(r@) == raw_layers(buf@),
{
    let mut layers: Vec<AnyLayer> = Vec::new();
    if buf.len() > 0 {
        let layer = raw::new().data(crate::codec::slice_bytes(buf));
        layers.push(AnyLayer::Raw(layer));
    }
    assert(layers_view(layers@) =~= raw_layers(buf@));
    layers
}

/// Reads layers from `buf`, starting with a header of kind `kind` and going on
/// as the tables `reg` say: the layers and the number of bytes taken, or
/// `None` where `buf` is too short for the first header.
pub fn decode_layers(reg: &Registry, kind: LayerKind, buf: &[u8]) -> (r: Option<
    (Vec<AnyLayer>, usize),
>)
    ensures
        match r {
            Some((ls, n)) => decode_spec(reg@, kind, buf@) == Some((layers_view(ls@), n as nat))
                && n <= buf@.len(),
            None => decode_spec(reg@, kind, buf@) is None,
        },
    decreases buf@.len(), 0nat, 0nat,
{
    if kind == LayerKind::Raw || kind == LayerKind::Text {
        return Some((decode_as_raw(buf), buf.len()));
    }
    match AnyLayer::decode_header(kind, buf) {
        None => None,
        Some((l, n)) => {
            let nexts = l.next_keys();
            let mut layers: Vec<AnyLayer> = Vec::new();
            let ghost lv = l@;
            layers.push(l);
            assert(layers_view(layers@) =~= seq![lv]);
            let mut used: usize = n;
            if 0 < n && n <= buf.len() {
                let rest = vstd::slice::slice_subrange(buf, n, buf.len());
                assert(rest@ =~= buf@.skip(n as int));
                assert(nexts@.skip(0) =~= nexts@);
                let (mut inner, m) = decode_chain(reg, &nexts, 0, rest);
                let ghost inner_view = layers_view(inner@);
                layers.append(&mut inner);
                assert(layers_view(layers@) =~= seq![lv] + inner_view);
                used = n + m;
            } else {
                assert(seq![lv] + Seq::<LayerView>::empty() =~= seq![lv]);
            }
            if kind != LayerKind::PcapPacket && used < buf.len() {
                let rest = vstd::slice::slice_subrange(buf, used, buf.len());
                assert(rest@ =~= buf@.skip(used as int));
                let mut tail = decode_as_raw(rest);
                let ghost front = layers_view(layers@);
                let ghost tail_view = layers_view(tail@);
                layers.append(&mut tail);
                assert(layers_view(layers@) =~= front + tail_view);
                Some((layers, buf.len()))
            } else {
                Some((layers, used))
            }
        },
    }
}

/// Reads the layers that follow a header which names the following protocol
/// by the numbers `nexts`, from the number at position `from` on.
fn decode_chain(reg: &Registry, nexts: &Vec<(RegistryName, u32)>, from: usize, rest: &[u8]) -> (r: (
    Vec<AnyLayer>,
    usize,
))
    requires
        from <= nexts@.len(),
    ensures
        chain_spec(reg@, nexts@.skip(from as int), rest@) == (layers_view(r.0@), r.1 as nat),
        r.1 <= rest@.len(),
    decreases rest@.len(), 1nat, nexts@.len() - from,
{
    if from >= nexts.len() {
        let r: Vec<AnyLayer> = Vec::new();
        assert(layers_view(r@) =~= Seq::<LayerView>::empty());
        return (r, 0);
    }
    let next = nexts[from];
    assert(nexts@.skip(from as int)[0] == next);
    assert(nexts@.skip(from as int).skip(1) =~= nexts@.skip(from + 1));
    let (mut first, d) = match reg.lookup_by_discriminant(next.0, next.1) {
        None => (Vec::new(), 0),
        Some(kind) => match decode_layers(reg, kind, rest) {
            Some((ls, d)) => (ls, d),
            None => (Vec::new(), 0),
        },
    };
    assert(attempt_spec(reg@, next, rest@) == (layers_view(first@), d as nat)) by {
        assert(layers_view(Seq::<AnyLayer>::empty()) =~= Seq::<LayerView>::empty());
    }
    let left = vstd::slice::slice_subrange(rest, d, rest.len());
    assert(left@ =~= rest@.skip(d as int));
    let (mut others, e) = decode_chain(reg, nexts, from + 1, left);
    let ghost first_view = layers_view(first@);
    let ghost others_view = layers_view(others@);
    first.append(&mut others);
    assert(layers_view(first@) =~= first_view + others_view);
    (first, d + e)
}

impl LayerStack {
    /// A stack without layers.
    pub fn new() -> (r: LayerStack)
        ensures
            r@ == Seq::<LayerView>::empty(),
            !r.filled,
    {
        let r = LayerStack { layers: Vec::new(), filled: false };
        assert(r@ =~= Seq::<LayerView>::empty());
        r
    }

    /// The number of layers.
    pub fn len(&self) -> (r: usize)
        ensures
            r == self@.len(),
    {
        self.layers.len()
    }

    /// Reads a stack from `buf`, starting with a header of kind `kind`, with
    /// the tables `reg`: the stack and the number of bytes taken, or `None`
    /// where `buf` is too short for the first header.
    pub fn decode_with(reg: &Registry, kind: LayerKind, buf: &[u8]) -> (r: Option<
        (LayerStack, usize),
    >)
        ensures
            match r {
                Some((stack, n)) => decode_spec(reg@, kind, buf@) == Some((stack@, n as nat))
                    && n <= buf@.len() && stack.filled,
                None => decode_spec(reg@, kind, buf@) is None,
            },
    {
        match decode_layers(reg, kind, buf) {
            Some((layers, n)) => Some((LayerStack { layers, filled: true }, n)),
            None => None,
        }
    }

    /// Reads a stack from `buf`, starting with a header of kind `kind`, with
    /// the tables of the protocols that the library knows.
    pub fn decode_as(kind: LayerKind, buf: &[u8]) -> (r: Option<(LayerStack, usize)>)
        ensures
            match r {
                Some((stack, n)) => decode_spec(builtin_entries(), kind, buf@) == Some(
                    (stack@, n as nat),
                ) && n <= buf@.len() && stack.filled,
                None => decode_spec(builtin_entries(), kind, buf@) is None,
            },
    {
        let reg = Registry::builtin();
        LayerStack::decode_with(&reg, kind, buf)
    }

    /// The first layer of the kind of `T`, or `None` where the stack holds no
    /// layer of that kind.
    pub fn get_layer<T: Layer>(&self, item: T) -> (r: Option<&T>)
        ensures
            match r {
                Some(x) => first_index(self@, T::layer_kind()) < self@.len() && x.boxed()
                    == self.layers@[first_index(self@, T::layer_kind())],
                None => first_index(self@, T::layer_kind()) == self@.len(),
            },
    {
        let mut i: usize = 0;
        while i < self.layers.len()
            invariant
                i <= self.layers@.len(),
                first_index(self@, T::layer_kind()) == first_from(self@, T::layer_kind(), i as int),
            decreases self.layers@.len() - i,
        {
            assert(self@[i as int] == self.layers@[i as int]@);
            match T::unbox(&self.layers[i]) {
                Some(x) => {
                    return Some(x);
                },
                None => {},
            }
            i += 1;
        }
        None
    }

    /// The position of the first layer of kind `kind`, or the number of layers
    /// where the stack holds none.
    pub fn position_of(&self, kind: LayerKind) -> (r: usize)
        ensures
            r == first_index(self@, kind),
            r <= self@.len(),
    {
        let mut i: usize = 0;
        while i < self.layers.len()
            invariant
                i <= self.layers@.len(),
                first_index(self@, kind) == first_from(self@, kind, i as int),
            decreases self.layers@.len() - i,
        {
            assert(self@[i as int] == self.layers@[i as int]@);
            if self.layers[i].kind() == kind {
                return i;
            }
            i += 1;
        }
        i
    }

    /// The first layer of the kind of `T`, to be changed in place, or `None`
    /// where the stack holds no layer of that kind. The other layers stay as
    /// they are.
    pub fn get_layer_mut<T: Layer>(&mut self, item: T) -> (r: Option<&mut T>)
        ensures
            final(self).filled == old(self).filled,
            r is Some <==> first_index(old(self)@, T::layer_kind()) < old(self)@.len(),
            r matches Some(x) ==> x.boxed() == old(self).layers@[first_index(
                old(self)@,
                T::layer_kind(),
            )],
            r matches Some(x) ==> final(self).layers@ == old(self).layers@.update(
                first_index(old(self)@, T::layer_kind()),
                final(x).boxed(),
            ),
            r is None ==> final(self).layers@ == old(self).layers@,
    {
        let idx = self.position_of(T::kind_of());
        if idx < self.layers.len() {
            assert(self@[idx as int] == self.layers@[idx as int]@) by {
                lemma_first_from(self@, T::layer_kind(), 0);
            }
            proof {
                lemma_first_from(self@, T::layer_kind(), 0);
            }
            T::unbox_mut(&mut self.layers[idx])
        } else {
            None
        }
    }

    /// The last layer of the kind of `T`, the innermost one, or `None` where
    /// the stack holds no layer of that kind.
    pub fn get_innermost_layer<T: Layer>(&self, item: T) -> (r: Option<&T>)
        ensures
            match r {
                Some(x) => 0 <= last_index(self@, T::layer_kind()) < self@.len() && x.boxed()
                    == self.layers@[last_index(self@, T::layer_kind())],
                None => last_index(self@, T::layer_kind()) == -1,
            },
    {
        let mut i: usize = self.layers.len();
        assert(self@.subrange(0, i as int) =~= self@);
        while i > 0
            invariant
                i <= self.layers@.len(),
                last_index(self@, T::layer_kind()) == last_index(
                    self@.subrange(0, i as int),
                    T::layer_kind(),
                ),
            decreases i,
        {
            i -= 1;
            proof {
                let prefix = self@.subrange(0, i + 1);
                assert(prefix.last() == self.layers@[i as int]@);
                assert(prefix.drop_last() =~= self@.subrange(0, i as int));
            }
            match T::unbox(&self.layers[i]) {
                Some(x) => {
                    return Some(x);
                },
                None => {},
            }
        }
        None
    }

    /// The first layer of the kind of `T`, in a stack that holds one.
    pub fn g<T: Layer>(&self, idx: T) -> (r: &T)
        requires
            has_kind(self@, T::layer_kind()),
        ensures
            first_index(self@, T::layer_kind()) < self@.len(),
            r.boxed() == self.layers@[first_index(self@, T::layer_kind())],
    {
        proof {
            lemma_first_and_last(self@, T::layer_kind());
        }
        match self.get_layer(idx) {
            Some(x) => x,
            None => unreached(),
        }
    }

    /// The layer at position `idx`, where it is of the kind of `T`; `None`
    /// where it is of another kind or the stack ends before `idx`.
    pub fn item_at<T: Layer>(&self, item: T, idx: usize) -> (r: Option<&T>)
        ensures
            r is Some <==> idx < self@.len() && self@[idx as int].kind() == T::layer_kind(),
            r matches Some(x) ==> x.boxed() == self.layers@[idx as int],
    {
        if idx < self.layers.len() {
            assert(self@[idx as int] == self.layers@[idx as int]@);
            T::unbox(&self.layers[idx])
        } else {
            None
        }
    }

    /// The record in `layer`, which is of the kind of `T`.
    pub fn gg<T: Layer>(layer: AnyLayer) -> (r: T)
        requires
            layer@.kind() == T::layer_kind(),
        ensures
            r.boxed() == layer,
    {
        match T::unbox_owned(layer) {
            Some(x) => x,
            None => unreached(),
        }
    }

    /// All the layers of the kind of `T`, outermost first.
    pub fn layers_of<T: Layer>(&self, item: T) -> (r: Vec<&T>)
        ensures
            r@.len() == positions(self@, T::layer_kind()).len(),
            forall|k: int|
                0 <= k < r@.len() ==> 0 <= #[trigger] positions(self@, T::layer_kind())[k]
                    < self@.len() && r@[k].boxed() == self.layers@[positions(
                    self@,
                    T::layer_kind(),
                )[k] as int],
    {
        let mut out: Vec<&T> = Vec::new();
        let mut i: usize = 0;
        assert(self@.subrange(0, 0) =~= Seq::<LayerView>::empty());
        while i < self.layers.len()
            invariant
                i <= self.layers@.len(),
                out@.len() == positions(self@.subrange(0, i as int), T::layer_kind()).len(),
                forall|k: int|
                    0 <= k < out@.len() ==> 0 <= #[trigger] positions(
                        self@.subrange(0, i as int),
                        T::layer_kind(),
                    )[k] < i && out@[k].boxed() == self.layers@[positions(
                        self@.subrange(0, i as int),
                        T::layer_kind(),
                    )[k] as int],
            decreases self.layers@.len() - i,
        {
            proof {
                let prefix = self@.subrange(0, i + 1);
                assert(prefix.last() == self.layers@[i as int]@);
                assert(prefix.drop_last() =~= self@.subrange(0, i as int));
            }
            match T::unbox(&self.layers[i]) {
                Some(x) => {
                    out.push(x);
                },
                None => {},
            }
            i += 1;
        }
        assert(self@.subrange(0, i as int) =~= self@);
        out
    }

    /// All the layers of the kind of `T`, outermost first.
    pub fn items_of<T: Layer>(&self, typ: T) -> (r: Vec<&T>)
        ensures
            r@.len() == positions(self@, T::layer_kind()).len(),
            forall|k: int|
                0 <= k < r@.len() ==> 0 <= #[trigger] positions(self@, T::layer_kind())[k]
                    < self@.len() && r@[k].boxed() == self.layers@[positions(
                    self@,
                    T::layer_kind(),
                )[k] as int],
    {
        self.layers_of(typ)
    }

    /// The positions of the layers of the kind of `T`, in rising order.
    pub fn indices_of<T: Layer>(&self, typ: T) -> (r: Vec<usize>)
        ensures
            r@ == positions(self@, T::layer_kind()),
    {
        let mut out: Vec<usize> = Vec::new();
        let mut i: usize = 0;
        assert(self@.subrange(0, 0) =~= Seq::<LayerView>::empty());
        while i < self.layers.len()
            invariant
                i <= self.layers@.len(),
                out@ == positions(self@.subrange(0, i as int), T::layer_kind()),
            decreases self.layers@.len() - i,
        {
            proof {
                let prefix = self@.subrange(0, i + 1);
                assert(prefix.last() == self.layers@[i as int]@);
                assert(prefix.drop_last() =~= self@.subrange(0, i as int));
            }
            if self.layers[i].kind() == T::kind_of() {
                out.push(i);
            }
            i += 1;
        }
        assert(self@.subrange(0, i as int) =~= self@);
        out
    }

    /// The first layer of kind `kind`, in a stack that holds one.
    pub fn index(&self, kind: LayerKind) -> (r: &AnyLayer)
        requires
            has_kind(self@, kind),
        ensures
            first_index(self@, kind) < self@.len(),
            *r == self.layers@[first_index(self@, kind)],
    {
        proof {
            lemma_first_and_last(self@, kind);
        }
        let mut i: usize = 0;
        while i < self.layers.len()
            invariant
                i <= self.layers@.len(),
                first_index(self@, kind) < self@.len(),
                first_index(self@, kind) == first_from(self@, kind, i as int),
            decreases self.layers@.len() - i,
        {
            assert(self@[i as int] == self.layers@[i as int]@);
            if self.layers[i].kind() == kind {
                return &self.layers[i];
            }
            i += 1;
        }
        unreached()
    }

    /// The stack with `layer` behind its last layer. Nothing is filled or
    /// encoded; the stack counts as not filled, for the new layer is not.
    pub fn push_layer<T: Layer>(self, layer: T) -> (r: LayerStack)
        ensures
            r.layers@ == self.layers@.push(layer.boxed()),
            r@ == self@.push(layer.boxed()@),
            !r.filled,
    {
        let mut layers = self.layers;
        layers.push(layer.embox());
        let r = LayerStack { layers, filled: false };
        assert(r@ =~= self@.push(layer.boxed()@));
        r
    }

    /// The stack with the layers of `other` behind its own, in their order.
    /// Nothing is filled or encoded; the result counts as filled where both
    /// stacks do.
    pub fn join(self, other: LayerStack) -> (r: LayerStack)
        ensures
            r.layers@ == self.layers@ + other.layers@,
            r@ == self@ + other@,
            r.filled == (self.filled && other.filled),
    {
        let mut layers = self.layers;
        let mut more = other.layers;
        layers.append(&mut more);
        let r = LayerStack { layers, filled: self.filled && other.filled };
        assert(r@ =~= self@ + other@);
        r
    }

    /// What stands before position `i`, as an encoder sees it.
    pub fn outer_for(&self, i: usize) -> (r: Outer)
        ensures
            r == outer_at(self@, i as int),
    {
        if i == 0 {
            Outer::Outermost
        } else if i - 1 < self.layers.len() {
            self.layers[i - 1].outer()
        } else {
            Outer::Other
        }
    }

    /// The kind of the layer behind position `i`, if there is one.
    pub fn kind_after(&self, i: usize) -> (r: Option<LayerKind>)
        ensures
            r == next_kind(self@, i as int),
    {
        if i < self.layers.len() && i + 1 < self.layers.len() {
            Some(self.layers[i + 1].kind())
        } else {
            None
        }
    }

    /// A copy of the stack in which every random field is drawn from `rng` and
    /// every computed field is computed. The layers draw one after the other,
    /// the outermost first.
    pub fn resolve_with<R: RandomSource>(&self, rng: &mut R) -> (r: LayerStack)
        ensures
            stack_resolves_to(self@, r@),
            stack_settled(r@),
            r.filled == self.filled,
            drew(old(rng).drawn(), final(rng).drawn(), stack_draws(self@)),
            stack_drawn_from(self@, fresh(old(rng).drawn(), final(rng).drawn()), r@),
    {
        let mut out: Vec<AnyLayer> = Vec::new();
        let mut i: usize = 0;
        let ghost start = rng.drawn();
        proof {
            lemma_drew_none(start);
            assert(self@.take(0) =~= Seq::<LayerView>::empty());
        }
        while i < self.layers.len()
            invariant
                i <= self.layers@.len(),
                out@.len() == i,
                forall|k: int| 0 <= k < i ==> (#[trigger] self@[k]).resolves_to(out@[k]@),
                forall|k: int| 0 <= k < i ==> (#[trigger] out@[k])@.settled(),
                drew(start, rng.drawn(), stack_draws(self@.take(i as int))),
                stack_drawn_from(
                    self@.take(i as int),
                    fresh(start, rng.drawn()),
                    layers_view(out@),
                ),
            decreases self.layers@.len() - i,
        {
            let ghost before = rng.drawn();
            let ghost done = layers_view(out@);
            let l = self.layers[i].resolve(rng);
            assert(self@[i as int] == self.layers@[i as int]@);
            out.push(l);
            proof {
                lemma_drew_first(start, before, rng.drawn());
                assert(self@.take(i + 1).drop_last() =~= self@.take(i as int));
                assert(self@.take(i + 1).last() == self@[i as int]);
                assert(layers_view(out@).drop_last() =~= done);
                assert(layers_view(out@).last() == l@);
            }
            i += 1;
        }
        assert(self@.take(i as int) =~= self@);
        LayerStack { layers: out, filled: self.filled }
    }

    /// The stack filled with the tables `reg` and the random source `rng`:
    /// every layer resolved and its open fields given what their rules say. A
    /// layer is filled with the stack as it was before the fill at hand, so
    /// that a field that names the next protocol goes by the kind of the
    /// layer behind it.
    pub fn fill_with<R: RandomSource>(&self, reg: &Registry, rng: &mut R) -> (r: LayerStack)
        ensures
            stack_fills_to(reg@, self@, r@),
            stack_settled(r@),
            r.filled,
            drew(old(rng).drawn(), final(rng).drawn(), stack_draws(self@)),
            stack_drawn_from(self@, fresh(old(rng).drawn(), final(rng).drawn()), r@),
    {
        let mut out: Vec<AnyLayer> = Vec::new();
        let mut i: usize = 0;
        let ghost start = rng.drawn();
        proof {
            lemma_drew_none(start);
            assert(self@.take(0) =~= Seq::<LayerView>::empty());
        }
        while i < self.layers.len()
            invariant
                i <= self.layers@.len(),
                out@.len() == i,
                forall|k: int|
                    0 <= k < i ==> (#[trigger] self@[k]).fills_to(
                        reg@,
                        next_kind(self@, k),
                        out@[k]@,
                    ),
                drew(start, rng.drawn(), stack_draws(self@.take(i as int))),
                stack_drawn_from(
                    self@.take(i as int),
                    fresh(start, rng.drawn()),
                    layers_view(out@),
                ),
            decreases self.layers@.len() - i,
        {
            let ghost before = rng.drawn();
            let ghost done = layers_view(out@);
            let next = self.kind_after(i);
            let l = self.layers[i].filled(reg, next, rng);
            assert(self@[i as int] == self.layers@[i as int]@);
            out.push(l);
            proof {
                lemma_drew_first(start, before, rng.drawn());
                assert(self@.take(i + 1).drop_last() =~= self@.take(i as int));
                assert(self@.take(i + 1).last() == self@[i as int]);
                assert(layers_view(out@).drop_last() =~= done);
                assert(layers_view(out@).last() == l@);
            }
            i += 1;
        }
        assert(self@.take(i as int) =~= self@);
        let r = LayerStack { layers: out, filled: true };
        proof {
            lemma_fill_settles(reg@, self@, r@);
        }
        r
    }

    /// The stack filled, with the tables of the protocols that the library
    /// knows and the random source of the calling thread.
    pub fn fill(&self) -> (r: LayerStack)
        ensures
            stack_fills_to(builtin_entries(), self@, r@),
            stack_settled(r@),
            r.filled,
    {
        let reg = Registry::builtin();
        let mut rng = ThreadRandom::new();
        self.fill_with(&reg, &mut rng)
    }

    /// The wire bytes of the stack as it stands. Layers are encoded from the
    /// last to the first, each with the bytes of the layers behind it at
    /// hand, and the buffers are joined in stack order. A field that is still
    /// random or computed counts as open.
    pub fn encode_settled(&self) -> (r: Vec<u8>)
        ensures
            r@ == stack_bytes(self@),
    {
        let n: usize = self.layers.len();
        let mut enc = EncodingVecVec::new(n);
        let mut i: usize = n;
        while i > 0
            invariant
                n == self.layers@.len(),
                i <= n,
                enc.pending() == i,
                enc@ == encode_tail(self@, i as int),
            decreases i,
        {
            i -= 1;
            let outer = self.outer_for(i);
            let bytes = self.layers[i].wire_bytes(&outer, &enc);
            assert(self@[i as int] == self.layers@[i as int]@);
            enc.push_front(bytes);
        }
        let bufs = enc.into_buffers();
        assert(buffers_view(bufs@) =~= encode_tail(self@, 0));
        concat_buffers(bufs)
    }

    /// The wire bytes of the stack, with `rng` for the fields that are random:
    /// the stack is resolved, and what comes out is encoded.
    pub fn encode_with<R: RandomSource>(&self, rng: &mut R) -> (r: Vec<u8>)
        ensures
            drew(old(rng).drawn(), final(rng).drawn(), stack_draws(self@)),
            exists|s: Seq<LayerView>| #[trigger]
                stack_resolves_to(self@, s) && stack_drawn_from(
                    self@,
                    fresh(old(rng).drawn(), final(rng).drawn()),
                    s,
                ) && r@ == stack_bytes(s),
            stack_settled(self@) ==> r@ == stack_bytes(self@),
    {
        let resolved = self.resolve_with(rng);
        let r = resolved.encode_settled();
        assert(stack_resolves_to(self@, resolved@));
        proof {
            if stack_settled(self@) {
                lemma_settled_stack_resolves(self@, resolved@);
            }
        }
        r
    }

    /// The wire bytes of the stack, with the random source of the calling
    /// thread for the fields that are random.
    pub fn encode(self) -> (r: Vec<u8>)
        ensures
            exists|s: Seq<LayerView>| #[trigger]
                stack_resolves_to(self@, s) && r@ == stack_bytes(s),
            stack_settled(self@) ==> r@ == stack_bytes(self@),
    {
        let mut rng = ThreadRandom::new();
        self.encode_with(&mut rng)
    }
}

impl vstd::std_specs::ops::DivSpecImpl<LayerStack> for LayerStack {
    open spec fn obeys_div_spec() -> bool {
        false
    }

    open spec fn div_req(self, rhs: LayerStack) -> bool {
        true
    }

    open spec fn div_spec(self, rhs: LayerStack) -> LayerStack {
        self
    }
}

impl std::ops::Div<LayerStack> for LayerStack {
    type Output = LayerStack;

    /// `a / b`: the layers of `b` behind those of `a`.
    fn div(self, rhs: LayerStack) -> (r: LayerStack)
        ensures
            r.layers@ == self.layers@ + rhs.layers@,
            r@ == self@ + rhs@,
            r.filled == (self.filled && rhs.filled),
    {
        self.join(rhs)
    }
}

impl<T: Layer> vstd::std_specs::ops::DivSpecImpl<T> for LayerStack {
    open spec fn obeys_div_spec() -> bool {
        false
    }

    open spec fn div_req(self, rhs: T) -> bool {
        true
    }

    open spec fn div_spec(self, rhs: T) -> LayerStack {
        self
    }
}

impl<T: Layer> std::ops::Div<T> for LayerStack {
    type Output = LayerStack;

    /// `a / l`: the layer `l` behind the layers of `a`.
    fn div(self, rhs: T) -> (r: LayerStack)
        ensures
            r.layers@ == self.layers@.push(rhs.boxed()),
            r@ == self@.push(rhs.boxed()@),
            !r.filled,
    {
        self.push_layer(rhs)
    }
}

} // verus!
