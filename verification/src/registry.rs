//! The tables that say which protocol follows which. A table is named by the
//! kind of number it is keyed by; an entry maps one such number to the kind of
//! layer that follows a header holding it. Read the other way, a table says
//! which number a header needs so that a given kind of layer may follow.

use vstd::prelude::*;

verus! {

/// The kinds of layer that a stack can hold.
#[derive(Clone, Copy, Debug, PartialEq, Eq, Structural)]
pub enum LayerKind {
    Ether,
    Dot1Q,
    Arp,
    Ip,
    Udp,
    Tcp,
    Icmp,
    IcmpEcho,
    IcmpEchoReply,
    Gre,
    Erspan,
    Geneve,
    Bootp,
    Dhcp,
    Raw,
    Text,
    PcapFile,
    PcapFileData,
    PcapPacket,
}

/// The tables, by the number that selects the next protocol.
#[derive(Clone, Copy, Debug, PartialEq, Eq, Structural)]
pub enum RegistryName {
    /// The Ethertype of a frame.
    Ethertype,
    /// The IANA protocol number of an IP header.
    IanaProto,
    /// The type of an ICMP message.
    IcmpType,
    /// The destination port of a UDP header.
    UdpDstPort,
    /// The source port of a UDP header.
    UdpSrcPort,
    /// The vendor cookie of a BOOTP message.
    BootpVendor,
}

/// One entry: in table `table`, the number `key` selects a layer of kind
/// `kind`.
#[derive(Clone, Copy, Debug, PartialEq, Eq, Structural)]
pub struct RegistryEntry {
    pub table: RegistryName,
    pub key: u32,
    pub kind: LayerKind,
}

/// The kind that `key` selects in table `table`: that of the entry registered
/// last for it, or `None` where there is no such entry.
pub open spec fn kind_for(entries: Seq<RegistryEntry>, table: RegistryName, key: u32) -> Option<
    LayerKind,
>
    decreases entries.len(),
{
    if entries.len() == 0 {
        None
    } else if entries.last().table == table && entries.last().key == key {
        Some(entries.last().kind)
    } else {
        kind_for(entries.drop_last(), table, key)
    }
}

/// The number that selects `kind` in table `table`: that of the entry
/// registered last for the kind, or `None` where there is no such entry.
pub open spec fn key_for(
    entries: Seq<RegistryEntry>,
    table: RegistryName,
    kind: LayerKind,
) -> Option<
    u32,
>
    decreases entries.len(),
{
    if entries.len() == 0 {
        None
    } else if entries.last().table == table && entries.last().kind == kind {
        Some(entries.last().key)
    } else {
        key_for(entries.drop_last(), table, kind)
    }
}

/// The number that a header needs in its field for table `table` so that a
/// layer of kind `next` may follow: the registered number where there is one
/// and it is at most `limit`, the largest number the field can hold, and
/// `fallback` otherwise, as also where no layer follows.
pub open spec fn next_key(
    entries: Seq<RegistryEntry>,
    table: RegistryName,
    next: Option<LayerKind>,
    limit: u32,
    fallback: u32,
) -> u32 {
    match next {
        Some(kind) => match key_for(entries, table, kind) {
            Some(key) => if key <= limit {
                key
            } else {
                fallback
            },
            None => fallback,
        },
        None => fallback,
    }
}

/// An 8-bit header field as a key of a table.
pub open spec fn key_of_u8(v: u8) -> u32 {
    v as u32
}

/// A 16-bit header field as a key of a table.
pub open spec fn key_of_u16(v: u16) -> u32 {
    v as u32
}

/// A 32-bit header field as a key of a table.
pub open spec fn key_of_u32(v: u32) -> u32 {
    v
}

/// A key of at most 8 bits as the header field that holds it.
pub open spec fn field_u8(key: u32) -> u8 {
    (key % 0x100) as u8
}

/// A key of at most 16 bits as the header field that holds it.
pub open spec fn field_u16(key: u32) -> u16 {
    (key % 0x1_0000) as u16
}

/// A key as the 32-bit header field that holds it.
pub open spec fn field_u32(key: u32) -> u32 {
    key
}

/// An 8-bit header field as a key of a table.
#[verifier::when_used_as_spec(key_of_u8)]
pub fn key_u8(v: u8) -> (r: u32)
    ensures
        r == key_of_u8(v),
{
    v as u32
}

/// A 16-bit header field as a key of a table.
#[verifier::when_used_as_spec(key_of_u16)]
pub fn key_u16(v: u16) -> (r: u32)
    ensures
        r == key_of_u16(v),
{
    v as u32
}

/// A 32-bit header field as a key of a table.
#[verifier::when_used_as_spec(key_of_u32)]
pub fn key_u32(v: u32) -> (r: u32)
    ensures
        r == key_of_u32(v),
{
    v
}

/// A key of at most 8 bits as the header field that holds it.
#[verifier::when_used_as_spec(field_u8)]
pub fn to_field_u8(key: u32) -> (r: u8)
    ensures
        r == field_u8(key),
{
    (key % 0x100) as u8
}

/// A key of at most 16 bits as the header field that holds it.
#[verifier::when_used_as_spec(field_u16)]
pub fn to_field_u16(key: u32) -> (r: u16)
    ensures
        r == field_u16(key),
{
    (key % 0x1_0000) as u16
}

/// A key as the 32-bit header field that holds it.
#[verifier::when_used_as_spec(field_u32)]
pub fn to_field_u32(key: u32) -> (r: u32)
    ensures
        r == field_u32(key),
{
    key
}

/// The entry for `kind` under `key` in `table`.
pub open spec fn entry(table: RegistryName, key: u32, kind: LayerKind) -> RegistryEntry {
    RegistryEntry { table, key, kind }
}

/// The entries of the protocols that the library knows, in the order in which
/// they are registered.
pub open spec fn builtin_entries() -> Seq<RegistryEntry> {
    seq![
        entry(RegistryName::Ethertype, 0x6558, LayerKind::Ether),
        entry(RegistryName::Ethertype, 0x8100, LayerKind::Dot1Q),
        entry(RegistryName::Ethertype, 0x0806, LayerKind::Arp),
        entry(RegistryName::Ethertype, 0x0800, LayerKind::Ip),
        entry(RegistryName::IanaProto, 4, LayerKind::Ip),
        entry(RegistryName::Ethertype, 0x88be, LayerKind::Erspan),
        entry(RegistryName::IanaProto, 1, LayerKind::Icmp),
        entry(RegistryName::IcmpType, 8, LayerKind::IcmpEcho),
        entry(RegistryName::IcmpType, 0, LayerKind::IcmpEchoReply),
        entry(RegistryName::IanaProto, 17, LayerKind::Udp),
        entry(RegistryName::IanaProto, 6, LayerKind::Tcp),
        entry(RegistryName::IanaProto, 47, LayerKind::Gre),
        entry(RegistryName::UdpDstPort, 6081, LayerKind::Geneve),
        entry(RegistryName::UdpSrcPort, 6081, LayerKind::Geneve),
        entry(RegistryName::UdpDstPort, 67, LayerKind::Bootp),
        entry(RegistryName::UdpSrcPort, 67, LayerKind::Bootp),
        entry(RegistryName::UdpDstPort, 68, LayerKind::Bootp),
        entry(RegistryName::UdpSrcPort, 68, LayerKind::Bootp),
        entry(RegistryName::BootpVendor, 0x63825363, LayerKind::Dhcp),
    ]
}

/// The tables of a decoder and a filler, as one list of entries.
#[derive(Clone, Debug)]
pub struct Registry {
    entries: Vec<RegistryEntry>,
}

impl View for Registry {
    type V = Seq<RegistryEntry>;

    closed spec fn view(&self) -> Seq<RegistryEntry> {
        self.entries@
    }
}

impl Registry {
    /// A registry without entries.
    pub fn new() -> (r: Registry)
        ensures
            r@ == Seq::<RegistryEntry>::empty(),
    {
        Registry { entries: Vec::new() }
    }

    /// Registers `kind` under `key` in `table`. A later entry for the same
    /// number, or for the same kind, takes the place of an earlier one.
    pub fn register(&mut self, table: RegistryName, key: u32, kind: LayerKind)
        ensures
            final(self)@ == old(self)@.push(entry(table, key, kind)),
    {
        self.entries.push(RegistryEntry { table, key, kind });
    }

    /// The kind of layer that `key` selects in `table`.
    pub fn lookup_by_discriminant(&self, table: RegistryName, key: u32) -> (r: Option<LayerKind>)
        ensures
            r == kind_for(self@, table, key),
    {
        let mut i: usize = self.entries.len();
        assert(self@.subrange(0, i as int) =~= self@);
        while i > 0
            invariant
                i <= self.entries@.len(),
                kind_for(self@, table, key) == kind_for(self@.subrange(0, i as int), table, key),
            decreases i,
        {
            i -= 1;
            let e = &self.entries[i];
            proof {
                let prefix = self@.subrange(0, i + 1);
                assert(prefix.last() == self@[i as int]);
                assert(prefix.drop_last() =~= self@.subrange(0, i as int));
            }
            if e.table == table && e.key == key {
                return Some(e.kind);
            }
        }
        None
    }

    /// The number that selects a layer of kind `kind` in `table`.
    pub fn lookup_by_type(&self, table: RegistryName, kind: LayerKind) -> (r: Option<u32>)
        ensures
            r == key_for(self@, table, kind),
    {
        let mut i: usize = self.entries.len();
        assert(self@.subrange(0, i as int) =~= self@);
        while i > 0
            invariant
                i <= self.entries@.len(),
                key_for(self@, table, kind) == key_for(self@.subrange(0, i as int), table, kind),
            decreases i,
        {
            i -= 1;
            let e = &self.entries[i];
            proof {
                let prefix = self@.subrange(0, i + 1);
                assert(prefix.last() == self@[i as int]);
                assert(prefix.drop_last() =~= self@.subrange(0, i as int));
            }
            if e.table == table && e.kind == kind {
                return Some(e.key);
            }
        }
        None
    }

    /// The number for a header's field of table `table` when a layer of kind
    /// `next` follows.
    pub fn next_key(
        &self,
        table: RegistryName,
        next: Option<LayerKind>,
        limit: u32,
        fallback: u32,
    ) -> (r: u32)
        ensures
            r == next_key(self@, table, next, limit, fallback),
            fallback <= limit ==> r <= limit,
    {
        match next {
            Some(kind) => match self.lookup_by_type(table, kind) {
                Some(key) => if key <= limit {
                    key
                } else {
                    fallback
                },
                None => fallback,
            },
            None => fallback,
        }
    }

    /// The registry of the protocols that the library knows.
    pub fn builtin() -> (r: Registry)
        ensures
            r@ == builtin_entries(),
    {
        let mut r = Registry::new();
        r.register(RegistryName::Ethertype, 0x6558, LayerKind::Ether);
        r.register(RegistryName::Ethertype, 0x8100, LayerKind::Dot1Q);
        r.register(RegistryName::Ethertype, 0x0806, LayerKind::Arp);
        r.register(RegistryName::Ethertype, 0x0800, LayerKind::Ip);
        r.register(RegistryName::IanaProto, 4, LayerKind::Ip);
        r.register(RegistryName::Ethertype, 0x88be, LayerKind::Erspan);
        r.register(RegistryName::IanaProto, 1, LayerKind::Icmp);
        r.register(RegistryName::IcmpType, 8, LayerKind::IcmpEcho);
        r.register(RegistryName::IcmpType, 0, LayerKind::IcmpEchoReply);
        r.register(RegistryName::IanaProto, 17, LayerKind::Udp);
        r.register(RegistryName::IanaProto, 6, LayerKind::Tcp);
        r.register(RegistryName::IanaProto, 47, LayerKind::Gre);
        r.register(RegistryName::UdpDstPort, 6081, LayerKind::Geneve);
        r.register(RegistryName::UdpSrcPort, 6081, LayerKind::Geneve);
        r.register(RegistryName::UdpDstPort, 67, LayerKind::Bootp);
        r.register(RegistryName::UdpSrcPort, 67, LayerKind::Bootp);
        r.register(RegistryName::UdpDstPort, 68, LayerKind::Bootp);
        r.register(RegistryName::UdpSrcPort, 68, LayerKind::Bootp);
        r.register(RegistryName::BootpVendor, 0x63825363, LayerKind::Dhcp);
        assert(r@ =~= builtin_entries());
        r
    }
}

} // verus!
