//! What holds of the three passes together: a fill leaves nothing random,
//! the numbers drawn from the random source decide what a fill makes, and
//! bytes that were decoded come back when the stack is filled and encoded.

use crate::addr::MacAddr;
use crate::codec::Endian;
use crate::codec::u16_of;
use crate::layer::echoes;
use crate::layer::is_greedy;
use crate::layer::LayerView;
use crate::layer::lemma_header_echoes;
use crate::layer::lemma_header_kind;
use crate::layer::lemma_layer_filled;
use crate::layer::lemma_layer_settled;
use crate::layer::lemma_raw_echoes;
use crate::layer::parse_header;
use crate::protocols::dot1q::dot1Q;
use crate::protocols::ether::ether;
use crate::registry::builtin_entries;
use crate::registry::key_of_u16;
use crate::registry::kind_for;
use crate::registry::LayerKind;
use crate::registry::RegistryEntry;
use crate::registry::RegistryName;
use crate::stack::attempt_spec;
use crate::stack::chain_spec;
use crate::stack::decode_spec;
use crate::stack::encode_tail;
use crate::stack::layer_share;
use crate::stack::next_kind;
use crate::stack::outer_at;
use crate::stack::raw_layers;
use crate::stack::stack_bytes;
use crate::stack::stack_drawn_from;
use crate::stack::stack_draws;
use crate::stack::stack_fills_to;
use crate::stack::stack_resolves_to;
use crate::stack::stack_settled;
use crate::stack::stack_without_funcs;
use crate::value::share;
use crate::value::Value;
use crate::wire::front;
use vstd::prelude::*;
use vstd::seq_lib::lemma_flatten_concat;

verus! {

/// No layer of `stack` holds an option of DHCP. A layer of options that is
/// empty does no harm.
pub open spec fn without_dhcp(stack: Seq<LayerView>) -> bool {
    forall|i: int| 0 <= i < stack.len() ==> (#[trigger] stack[i]).no_dhcp_option()
}

/// `parts` gives, layer by layer, the bytes that the layers of `stack` are
/// written as once they are filled.
pub open spec fn echo_parts(stack: Seq<LayerView>, parts: Seq<Seq<u8>>) -> bool {
    &&& parts.len() == stack.len()
    &&& forall|i: int| 0 <= i < stack.len() ==> echoes(#[trigger] stack[i], parts[i])
}

/// A fill leaves nothing random: in a filled stack no field waits for a
/// random number or for a function of the caller.
pub proof fn lemma_fill_settles(reg: Seq<RegistryEntry>, old: Seq<LayerView>, new: Seq<LayerView>)
    requires
        stack_fills_to(reg, old, new),
    ensures
        stack_settled(new),
{
    assert forall|i: int| 0 <= i < new.len() implies (#[trigger] new[i]).settled() by {
        assert(old[i].fills_to(reg, crate::stack::next_kind(old, i), new[i]));
        lemma_layer_filled(old[i], reg, crate::stack::next_kind(old, i), new[i]);
    }
}

/// Resolving a stack in which nothing is random or computed changes nothing.
pub proof fn lemma_settled_stack_resolves(old: Seq<LayerView>, new: Seq<LayerView>)
    requires
        stack_settled(old),
        stack_resolves_to(old, new),
    ensures
        new == old,
{
    assert forall|i: int| 0 <= i < old.len() implies new[i] == old[i] by {
        assert(old[i].settled());
        assert(old[i].resolves_to(new[i]));
        lemma_layer_settled(old[i], new[i]);
    }
    assert(new =~= old);
}

/// The bytes of raw layers are the bytes they were made of.
proof fn lemma_raw_parts(buf: Seq<u8>) -> (parts: Seq<Seq<u8>>)
    ensures
        echo_parts(raw_layers(buf), parts),
        parts.flatten() == buf,
{
    if buf.len() > 0 {
        let parts = seq![buf];
        lemma_raw_echoes(buf);
        parts.lemma_flatten_one_element();
        assert(parts.first() == buf);
        parts
    } else {
        let parts = Seq::<Seq<u8>>::empty();
        assert(parts.flatten() =~= buf);
        parts
    }
}

/// Two runs of layers with their bytes, one behind the other.
proof fn lemma_join_parts(
    a: Seq<LayerView>,
    pa: Seq<Seq<u8>>,
    b: Seq<LayerView>,
    pb: Seq<Seq<u8>>,
)
    requires
        echo_parts(a, pa),
        echo_parts(b, pb),
    ensures
        echo_parts(a + b, pa + pb),
        (pa + pb).flatten() == pa.flatten() + pb.flatten(),
{
    lemma_flatten_concat(pa, pb);
    assert forall|i: int| 0 <= i < (a + b).len() implies echoes(
        #[trigger] (a + b)[i],
        (pa + pb)[i],
    ) by {
        if i < a.len() {
            assert((a + b)[i] == a[i]);
            assert(echoes(a[i], pa[i]));
        } else {
            assert((a + b)[i] == b[i - a.len()]);
            assert(echoes(b[i - a.len()], pb[i - a.len()]));
        }
    }
}

/// The first bytes of a buffer and the first bytes of what is behind them.
proof fn lemma_front_join(buf: Seq<u8>, n: nat, m: nat)
    requires
        n + m <= buf.len(),
    ensures
        front(buf, n) + front(buf.skip(n as int), m) == front(buf, n + m),
        front(buf, n) + buf.skip(n as int) == buf,
        front(buf, buf.len()) == buf,
        front(buf.skip(n as int), 0) == Seq::<u8>::empty(),
{
    assert(front(buf, n) + front(buf.skip(n as int), m) =~= front(buf, n + m));
    assert(front(buf, n) + buf.skip(n as int) =~= buf);
    assert(front(buf, buf.len()) =~= buf);
    assert(front(buf.skip(n as int), 0) =~= Seq::<u8>::empty());
}

/// A header that was read, as a run of one layer with its bytes.
proof fn lemma_head_parts(kind: LayerKind, buf: Seq<u8>) -> (parts: Seq<Seq<u8>>)
    requires
        parse_header(kind, buf) matches Some((l, n)) && l.no_dhcp_option(),
    ensures
        parse_header(kind, buf) matches Some((l, n)) && n <= buf.len() && echo_parts(
            seq![l],
            parts,
        ) && parts.flatten() == front(buf, n),
{
    lemma_header_echoes(kind, buf);
    match parse_header(kind, buf) {
        Some((l, n)) => {
            let head = seq![front(buf, n)];
            head.lemma_flatten_one_element();
            assert(head.first() == front(buf, n));
            head
        },
        None => Seq::empty(),
    }
}

/// No layers, with no bytes.
proof fn lemma_no_parts() -> (parts: Seq<Seq<u8>>)
    ensures
        echo_parts(Seq::<LayerView>::empty(), parts),
        parts.flatten() == Seq::<u8>::empty(),
{
    let parts = Seq::<Seq<u8>>::empty();
    assert(parts.flatten() =~= Seq::<u8>::empty());
    parts
}

/// A part of a stack that holds no option of DHCP holds none either.
proof fn lemma_without_dhcp_parts(a: Seq<LayerView>, b: Seq<LayerView>)
    requires
        without_dhcp(a + b),
    ensures
        without_dhcp(a),
        without_dhcp(b),
{
    assert forall|i: int| 0 <= i < a.len() implies (#[trigger] a[i]).no_dhcp_option() by {
        assert((a + b)[i] == a[i]);
    }
    assert forall|i: int| 0 <= i < b.len() implies (#[trigger] b[i]).no_dhcp_option() by {
        assert((a + b)[i + a.len()] == b[i]);
    }
}

/// The layers that a decoder reads come with the bytes they were read from:
/// layer by layer, the bytes that the layer is written as once it is filled,
/// which joined are the bytes that the decoder took.
pub proof fn lemma_decode_parts(reg: Seq<RegistryEntry>, kind: LayerKind, buf: Seq<u8>) -> (parts:
    Seq<Seq<u8>>)
    requires
        decode_spec(reg, kind, buf) matches Some((ls, n)) && without_dhcp(ls),
    ensures
        decode_spec(reg, kind, buf) matches Some((ls, n)) && n <= buf.len() && echo_parts(ls, parts)
            && parts.flatten() == front(buf, n),
    decreases buf.len(), 0nat, 0nat,
{
    if kind == LayerKind::Raw || kind == LayerKind::Text {
        lemma_front_join(buf, 0, 0);
        lemma_raw_parts(buf)
    } else {
        match parse_header(kind, buf) {
            Some((l, n)) => {
                let chained = if 0 < n <= buf.len() {
                    chain_spec(reg, l.nexts(), buf.skip(n as int))
                } else {
                    (Seq::empty(), 0nat)
                };
                let inner = chained.0;
                let m = chained.1;
                let used = n + m;
                let greedy = is_greedy(kind) && used < buf.len();
                let tail = if greedy {
                    raw_layers(buf.skip(used as int))
                } else {
                    Seq::empty()
                };
                let ls = seq![l] + inner + tail;
                assert(seq![l] + inner + Seq::<LayerView>::empty() =~= seq![l] + inner);
                assert(decode_spec(reg, kind, buf) matches Some((x, _)) && x == ls);
                lemma_without_dhcp_parts(seq![l] + inner, tail);
                lemma_without_dhcp_parts(seq![l], inner);
                assert(seq![l][0] == l);
                lemma_header_kind(kind, buf);
                let head = lemma_head_parts(kind, buf);
                let inner_parts = if 0 < n <= buf.len() {
                    lemma_chain_parts(reg, l.nexts(), buf.skip(n as int))
                } else {
                    lemma_no_parts()
                };
                lemma_front_join(buf, n, m);
                lemma_join_parts(seq![l], head, inner, inner_parts);
                let tail_parts = if greedy {
                    lemma_raw_parts(buf.skip(used as int))
                } else {
                    lemma_no_parts()
                };
                lemma_join_parts(seq![l] + inner, head + inner_parts, tail, tail_parts);
                lemma_front_join(buf, used, 0);
                assert(front(buf, used) + Seq::<u8>::empty() =~= front(buf, used));
                head + inner_parts + tail_parts
            },
            None => Seq::empty(),
        }
    }
}

/// The layers that follow a header come with the bytes they were read from.
pub proof fn lemma_chain_parts(
    reg: Seq<RegistryEntry>,
    nexts: Seq<(RegistryName, u32)>,
    rest: Seq<u8>,
) -> (parts: Seq<Seq<u8>>)
    requires
        without_dhcp(chain_spec(reg, nexts, rest).0),
    ensures
        chain_spec(reg, nexts, rest).1 <= rest.len(),
        echo_parts(chain_spec(reg, nexts, rest).0, parts),
        parts.flatten() == front(rest, chain_spec(reg, nexts, rest).1),
    decreases rest.len(), 1nat, nexts.len(),
{
    if nexts.len() == 0 {
        let parts = Seq::<Seq<u8>>::empty();
        assert(parts.flatten() =~= front(rest, 0));
        parts
    } else {
        let first = attempt_spec(reg, nexts[0], rest);
        let d = if first.1 <= rest.len() {
            first.1
        } else {
            0nat
        };
        let others = chain_spec(reg, nexts.skip(1), rest.skip(d as int));
        lemma_without_dhcp_parts(first.0, others.0);
        let first_parts = lemma_attempt_parts(reg, nexts[0], rest);
        let other_parts = lemma_chain_parts(reg, nexts.skip(1), rest.skip(d as int));
        lemma_join_parts(first.0, first_parts, others.0, other_parts);
        assert(front(rest, d) + front(rest.skip(d as int), others.1) =~= front(
            rest,
            d + others.1,
        ));
        first_parts + other_parts
    }
}

/// The layers that one number of a header selects come with the bytes they
/// were read from.
pub proof fn lemma_attempt_parts(
    reg: Seq<RegistryEntry>,
    next: (RegistryName, u32),
    rest: Seq<u8>,
) -> (parts: Seq<Seq<u8>>)
    requires
        without_dhcp(attempt_spec(reg, next, rest).0),
    ensures
        attempt_spec(reg, next, rest).1 <= rest.len(),
        echo_parts(attempt_spec(reg, next, rest).0, parts),
        parts.flatten() == front(rest, attempt_spec(reg, next, rest).1),
    decreases rest.len(), 0nat, 1nat,
{
    let none = Seq::<Seq<u8>>::empty();
    assert(none.flatten() =~= front(rest, 0));
    match kind_for(reg, next.0, next.1) {
        None => none,
        Some(kind) => match decode_spec(reg, kind, rest) {
            Some((ls, d)) => {
                if d <= rest.len() {
                    lemma_decode_parts(reg, kind, rest)
                } else {
                    none
                }
            },
            None => none,
        },
    }
}

/// The buffers of a filled stack, from position `i` on, are the bytes that
/// its layers were read from.
proof fn lemma_encode_parts(
    reg: Seq<RegistryEntry>,
    stack: Seq<LayerView>,
    parts: Seq<Seq<u8>>,
    filled: Seq<LayerView>,
    i: int,
)
    requires
        echo_parts(stack, parts),
        stack_fills_to(reg, stack, filled),
        0 <= i <= stack.len(),
    ensures
        encode_tail(filled, i) == parts.skip(i),
    decreases stack.len() - i,
{
    if i >= stack.len() {
        assert(parts.skip(i) =~= Seq::<Seq<u8>>::empty());
    } else {
        lemma_encode_parts(reg, stack, parts, filled, i + 1);
        let tail = encode_tail(filled, i + 1);
        reveal(echoes);
        assert(echoes(stack[i], parts[i]));
        assert(stack[i].fills_to(reg, crate::stack::next_kind(stack, i), filled[i]));
        assert(filled[i].wire(outer_at(filled, i), tail) == parts[i]);
        assert(seq![parts[i]] + parts.skip(i + 1) =~= parts.skip(i));
    }
}

/// A decoder of a kind that takes all that is left takes all of its buffer.
pub proof fn lemma_decode_takes_all(reg: Seq<RegistryEntry>, kind: LayerKind, buf: Seq<u8>)
    requires
        is_greedy(kind),
        decode_spec(reg, kind, buf) matches Some((ls, n)) && n <= buf.len(),
    ensures
        decode_spec(reg, kind, buf) matches Some((ls, n)) && n == buf.len(),
{
}

/// Decoding, filling and encoding give the bytes back. Where a decoder reads
/// layers from `buf` and none of them holds an option of DHCP, the stack
/// filled with the same tables is encoded as the bytes that the decoder took,
/// and so is the filled stack after it is resolved, as `encode` resolves it.
/// The decoder of every kind but the packet record of a capture file takes
/// all of `buf`, so that what is encoded is `buf` again.
pub proof fn lemma_round_trip(
    reg: Seq<RegistryEntry>,
    kind: LayerKind,
    buf: Seq<u8>,
    filled: Seq<LayerView>,
    resolved: Seq<LayerView>,
)
    requires
        decode_spec(reg, kind, buf) matches Some((ls, n)) && without_dhcp(ls) && stack_fills_to(
            reg,
            ls,
            filled,
        ),
        stack_resolves_to(filled, resolved),
    ensures
        decode_spec(reg, kind, buf) matches Some((ls, n)) && n <= buf.len() && stack_bytes(filled)
            == front(buf, n) && stack_bytes(resolved) == front(buf, n),
        is_greedy(kind) ==> stack_bytes(filled) == buf && stack_bytes(resolved) == buf,
{
    match decode_spec(reg, kind, buf) {
        Some((ls, n)) => {
            let parts = lemma_decode_parts(reg, kind, buf);
            if is_greedy(kind) {
                lemma_decode_takes_all(reg, kind, buf);
                assert(front(buf, buf.len()) =~= buf);
            }
            lemma_encode_parts(reg, ls, parts, filled, 0);
            assert(parts.skip(0) =~= parts);
            lemma_fill_settles(reg, ls, filled);
            lemma_settled_stack_resolves(filled, resolved);
        },
        None => {},
    }
}

/// In a stack whose random fields were drawn from `d`, every layer drew from
/// the numbers that were at hand when its turn came.
pub proof fn lemma_layer_shares(old: Seq<LayerView>, d: Seq<u32>, new: Seq<LayerView>, i: int)
    requires
        stack_drawn_from(old, d, new),
        0 <= i < old.len(),
    ensures
        new.len() == old.len(),
        old[i].drawn_from(layer_share(old, d, i), new[i]),
    decreases old.len(),
{
    if i < old.len() - 1 {
        let n = stack_draws(old.drop_last());
        lemma_layer_shares(old.drop_last(), share(d, n), new.drop_last(), i);
    }
}

/// The numbers drawn decide a resolution: where no field of a stack is
/// computed by a function of the caller, two resolutions of the stack that
/// drew the same numbers are the same.
pub proof fn lemma_resolve_decided(
    old: Seq<LayerView>,
    d: Seq<u32>,
    a: Seq<LayerView>,
    b: Seq<LayerView>,
)
    requires
        stack_without_funcs(old),
        stack_resolves_to(old, a),
        stack_drawn_from(old, d, a),
        stack_resolves_to(old, b),
        stack_drawn_from(old, d, b),
    ensures
        a == b,
{
    assert forall|i: int| 0 <= i < a.len() implies a[i] == b[i] by {
        lemma_layer_shares(old, d, a, i);
        lemma_layer_shares(old, d, b, i);
        old[i].lemma_resolve_decided(layer_share(old, d, i), a[i], b[i]);
    }
    assert(a =~= b);
}

/// The numbers drawn decide a fill: where no field of a stack is computed by
/// a function of the caller, two fills of the stack with the same tables that
/// drew the same numbers are the same, and so are the bytes they are encoded
/// as.
pub proof fn lemma_fill_decided(
    reg: Seq<RegistryEntry>,
    old: Seq<LayerView>,
    d: Seq<u32>,
    a: Seq<LayerView>,
    b: Seq<LayerView>,
)
    requires
        stack_without_funcs(old),
        stack_fills_to(reg, old, a),
        stack_drawn_from(old, d, a),
        stack_fills_to(reg, old, b),
        stack_drawn_from(old, d, b),
    ensures
        a == b,
        stack_bytes(a) == stack_bytes(b),
{
    assert forall|i: int| 0 <= i < a.len() implies a[i] == b[i] by {
        lemma_layer_shares(old, d, a, i);
        lemma_layer_shares(old, d, b, i);
        old[i].lemma_fill_decided(reg, next_kind(old, i), layer_share(old, d, i), a[i], b[i]);
    }
    assert(a =~= b);
}

/// A decoder's first layer is the header it was started with.
pub proof fn lemma_decode_first(reg: Seq<RegistryEntry>, kind: LayerKind, buf: Seq<u8>)
    requires
        kind != LayerKind::Raw,
        kind != LayerKind::Text,
        decode_spec(reg, kind, buf) is Some,
    ensures
        decode_spec(reg, kind, buf) matches Some((ls, n)) && parse_header(kind, buf) matches Some(
            (l, m),
        ) && ls.len() >= 1 && ls[0] == l && l.kind() == kind,
{
    lemma_header_kind(kind, buf);
}

/// The Ethertypes that the library knows: 0x0800 selects IP, 0x8100 the VLAN
/// tag, 0x0806 ARP, 0x88be ERSPAN and 0x6558 Ethernet itself, and no other
/// number selects anything.
pub proof fn lemma_builtin_ethertypes(e: u16)
    ensures
        kind_for(builtin_entries(), RegistryName::Ethertype, key_of_u16(e)) == (if e == 0x0800 {
            Some(LayerKind::Ip)
        } else if e == 0x8100 {
            Some(LayerKind::Dot1Q)
        } else if e == 0x0806 {
            Some(LayerKind::Arp)
        } else if e == 0x88be {
            Some(LayerKind::Erspan)
        } else if e == 0x6558 {
            Some(LayerKind::Ether)
        } else {
            None
        }),
{
    reveal_with_fuel(kind_for, 20);
}

/// Dispatch on the Ethertype. A buffer of at least fourteen bytes decodes as
/// an Ethernet frame whose first layer holds the destination, the source and
/// the Ethertype as they stand in the buffer, and all of the buffer is taken.
/// Where the tables know the Ethertype and the decoder of the kind it
/// selects can read the rest, the layers of that decoder follow; what they
/// leave, and all of the rest where the Ethertype selects nothing that can
/// read it, becomes a raw layer.
pub proof fn lemma_ethertype_dispatch(reg: Seq<RegistryEntry>, buf: Seq<u8>)
    requires
        buf.len() >= 14,
    ensures
        ({
            let e = u16_of(Endian::Big, buf.skip(12));
            let rest = buf.skip(14);
            let eth = LayerView::Ether(
                ether {
                    dst: Value::Fixed(MacAddr::of(buf)),
                    src: Value::Fixed(MacAddr::of(buf.skip(6))),
                    etype: Value::Fixed(e),
                },
            );
            &&& decode_spec(reg, LayerKind::Ether, buf) matches Some((ls, n)) && n == buf.len()
                && ls.len() >= 1 && ls[0] == eth && (match kind_for(
                reg,
                RegistryName::Ethertype,
                key_of_u16(e),
            ) {
                Some(kind) => match decode_spec(reg, kind, rest) {
                    Some((inner, m)) => m <= rest.len() ==> ls == seq![eth] + inner + (if m
                        < rest.len() {
                        raw_layers(rest.skip(m as int))
                    } else {
                        Seq::empty()
                    }),
                    None => ls == seq![eth] + raw_layers(rest),
                },
                None => ls == seq![eth] + raw_layers(rest),
            })
        }),
{
    reveal(parse_header);
    let e = u16_of(Endian::Big, buf.skip(12));
    let rest = buf.skip(14);
    assert(buf.skip(0) =~= buf);
    let l = ether {
        dst: Value::Fixed(MacAddr::of(buf)),
        src: Value::Fixed(MacAddr::of(buf.skip(6))),
        etype: Value::Fixed(e),
    };
    let eth = LayerView::Ether(l);
    assert(parse_header(LayerKind::Ether, buf) == Some((eth, 14nat)));
    let nexts = eth.nexts();
    assert(nexts =~= seq![(RegistryName::Ethertype, key_of_u16(e))]);
    assert(nexts.skip(1) =~= Seq::<(RegistryName, u32)>::empty());
    let first = attempt_spec(reg, nexts[0], rest);
    let d = if first.1 <= rest.len() {
        first.1
    } else {
        0nat
    };
    assert(chain_spec(reg, nexts.skip(1), rest.skip(d as int)) == (
        Seq::<LayerView>::empty(),
        0nat,
    ));
    assert(chain_spec(reg, nexts, rest) == (first.0 + Seq::<LayerView>::empty(), d + 0nat)) by {
        reveal_with_fuel(chain_spec, 2);
    }
    assert(first.0 + Seq::<LayerView>::empty() =~= first.0);
    assert(rest.skip(d as int) =~= buf.skip((14 + d) as int));
    assert(seq![eth] + Seq::<LayerView>::empty() =~= seq![eth]);
    assert(seq![eth] + first.0 + Seq::<LayerView>::empty() =~= seq![eth] + first.0);
    match decode_spec(reg, LayerKind::Ether, buf) {
        Some((ls, n)) => {
            assert(ls[0] == eth);
        },
        None => {},
    }
}

/// Dispatch behind a VLAN tag. A buffer of at least four bytes decodes as a
/// tag whose fields are the parts of the first four bytes, and the layers
/// behind the tag are chosen by the Ethertype inside the tag in the same way
/// as behind an Ethernet header.
pub proof fn lemma_vlan_dispatch(reg: Seq<RegistryEntry>, buf: Seq<u8>)
    requires
        buf.len() >= 4,
    ensures
        ({
            let tci = u16_of(Endian::Big, buf);
            let e = u16_of(Endian::Big, buf.skip(2));
            let rest = buf.skip(4);
            let tag = LayerView::Dot1Q(
                dot1Q {
                    prio: Value::Fixed((tci / 0x2000) as u8),
                    id: Value::Fixed((tci / 0x1000 % 2) as u8),
                    vlan: Value::Fixed((tci % 0x1000) as u16),
                    etype: Value::Fixed(e),
                },
            );
            &&& decode_spec(reg, LayerKind::Dot1Q, buf) matches Some((ls, n)) && n == buf.len()
                && ls.len() >= 1 && ls[0] == tag && (match kind_for(
                reg,
                RegistryName::Ethertype,
                key_of_u16(e),
            ) {
                Some(kind) => match decode_spec(reg, kind, rest) {
                    Some((inner, m)) => m <= rest.len() ==> ls == seq![tag] + inner + (if m
                        < rest.len() {
                        raw_layers(rest.skip(m as int))
                    } else {
                        Seq::empty()
                    }),
                    None => ls == seq![tag] + raw_layers(rest),
                },
                None => ls == seq![tag] + raw_layers(rest),
            })
        }),
{
    reveal(parse_header);
    let tci = u16_of(Endian::Big, buf);
    let e = u16_of(Endian::Big, buf.skip(2));
    let rest = buf.skip(4);
    assert(buf.skip(0) =~= buf);
    let l = dot1Q {
        prio: Value::Fixed((tci / 0x2000) as u8),
        id: Value::Fixed((tci / 0x1000 % 2) as u8),
        vlan: Value::Fixed((tci % 0x1000) as u16),
        etype: Value::Fixed(e),
    };
    let tag = LayerView::Dot1Q(l);
    assert(parse_header(LayerKind::Dot1Q, buf) == Some((tag, 4nat)));
    let nexts = tag.nexts();
    assert(nexts =~= seq![(RegistryName::Ethertype, key_of_u16(e))]);
    assert(nexts.skip(1) =~= Seq::<(RegistryName, u32)>::empty());
    let first = attempt_spec(reg, nexts[0], rest);
    let d = if first.1 <= rest.len() {
        first.1
    } else {
        0nat
    };
    assert(chain_spec(reg, nexts.skip(1), rest.skip(d as int)) == (
        Seq::<LayerView>::empty(),
        0nat,
    ));
    assert(chain_spec(reg, nexts, rest) == (first.0 + Seq::<LayerView>::empty(), d + 0nat)) by {
        reveal_with_fuel(chain_spec, 2);
    }
    assert(first.0 + Seq::<LayerView>::empty() =~= first.0);
    assert(rest.skip(d as int) =~= buf.skip((4 + d) as int));
    assert(seq![tag] + Seq::<LayerView>::empty() =~= seq![tag]);
    assert(seq![tag] + first.0 + Seq::<LayerView>::empty() =~= seq![tag] + first.0);
    match decode_spec(reg, LayerKind::Dot1Q, buf) {
        Some((ls, n)) => {
            assert(ls[0] == tag);
        },
        None => {},
    }
}

} // verus!
