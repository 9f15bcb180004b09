//! The layers as one type. A stack holds layers of any kind side by side;
//! `AnyLayer` is the sum of all of them, and `Layer` is what every protocol
//! record can do.

use crate::codec::BinaryBigEndian;
use crate::codec::Endian;
use crate::codec::slice_bytes;
use crate::encoding::EncodingVecVec;
use crate::encoding::Outer;
use crate::protocols::arp::Arp;
use crate::protocols::arp::ArpView;
use crate::protocols::bootp::Bootp;
use crate::protocols::bootp::BootpView;
use crate::protocols::bootp::Dhcp;
use crate::protocols::bootp::DhcpView;
use crate::protocols::dot1q::dot1Q;
use crate::protocols::erspan::erspan;
use crate::protocols::ether::ether;
use crate::protocols::geneve::Geneve;
use crate::protocols::gre::Gre;
use crate::protocols::gre::GreView;
use crate::protocols::icmp::Icmp;
use crate::protocols::icmp_echo::IcmpEcho;
use crate::protocols::icmp_echo_reply::IcmpEchoReply;
use crate::protocols::ip::Ip;
use crate::protocols::ip::IpView;
use crate::protocols::pcap_file::pcapFile;
use crate::protocols::pcap_file::pcapFileData;
use crate::protocols::pcap_file::pcapFileDataView;
use crate::protocols::pcap_file::pcapFileView;
use crate::protocols::pcap_file::pcapPacket;
use crate::protocols::pcap_file::pcapPacketView;
use crate::protocols::raw::raw;
use crate::protocols::raw::rawView;
use crate::protocols::tcp::Tcp;
use crate::protocols::udp::Udp;
use crate::registry::LayerKind;
use crate::registry::Registry;
use crate::registry::RegistryEntry;
use crate::registry::RegistryName;
use crate::registry::builtin_entries;
use crate::stack::LayerStack;
use crate::stack::decode_as_raw;
use crate::stack::decode_spec;
use crate::stack::next_kind;
use crate::stack::outer_at;
use crate::stack::raw_layers;
use crate::value::RandomSource;
use crate::value::ThreadRandom;
use crate::value::drew;
use crate::value::fresh;
use crate::value::lemma_drew_none;
use crate::wire::front;
use vstd::prelude::*;

verus! {

/// A layer of any kind.
#[derive(Clone, Debug, PartialEq, Eq)]
pub enum AnyLayer {
    Ether(ether),
    Dot1Q(dot1Q),
    Arp(Arp),
    Ip(Ip),
    Udp(Udp),
    Tcp(Tcp),
    Icmp(Icmp),
    IcmpEcho(IcmpEcho),
    IcmpEchoReply(IcmpEchoReply),
    Gre(Gre),
    Erspan(erspan),
    Geneve(Geneve),
    Bootp(Bootp),
    Dhcp(Dhcp),
    Raw(raw),
    PcapFile(pcapFile),
    PcapFileData(pcapFileData),
    PcapPacket(pcapPacket),
    /// A payload given as text, which goes on the wire as its bytes.
    Text(String),
}

/// What a layer of any kind says: the view of `AnyLayer`.
pub enum LayerView {
    Ether(ether),
    Dot1Q(dot1Q),
    Arp(ArpView),
    Ip(IpView),
    Udp(Udp),
    Tcp(Tcp),
    Icmp(Icmp),
    IcmpEcho(IcmpEcho),
    IcmpEchoReply(IcmpEchoReply),
    Gre(GreView),
    Erspan(erspan),
    Geneve(Geneve),
    Bootp(BootpView),
    Dhcp(DhcpView),
    Raw(rawView),
    PcapFile(pcapFileView),
    PcapFileData(pcapFileDataView),
    PcapPacket(pcapPacketView),
    Text(Seq<char>),
}

impl View for AnyLayer {
    type V = LayerView;

    open spec fn view(&self) -> LayerView {
        match self {
            AnyLayer::Ether(l) => LayerView::Ether(l@),
            AnyLayer::Dot1Q(l) => LayerView::Dot1Q(l@),
            AnyLayer::Arp(l) => LayerView::Arp(l@),
            AnyLayer::Ip(l) => LayerView::Ip(l@),
            AnyLayer::Udp(l) => LayerView::Udp(l@),
            AnyLayer::Tcp(l) => LayerView::Tcp(l@),
            AnyLayer::Icmp(l) => LayerView::Icmp(l@),
            AnyLayer::IcmpEcho(l) => LayerView::IcmpEcho(l@),
            AnyLayer::IcmpEchoReply(l) => LayerView::IcmpEchoReply(l@),
            AnyLayer::Gre(l) => LayerView::Gre(l@),
            AnyLayer::Erspan(l) => LayerView::Erspan(l@),
            AnyLayer::Geneve(l) => LayerView::Geneve(l@),
            AnyLayer::Bootp(l) => LayerView::Bootp(l@),
            AnyLayer::Dhcp(l) => LayerView::Dhcp(l@),
            AnyLayer::Raw(l) => LayerView::Raw(l@),
            AnyLayer::PcapFile(l) => LayerView::PcapFile(l@),
            AnyLayer::PcapFileData(l) => LayerView::PcapFileData(l@),
            AnyLayer::PcapPacket(l) => LayerView::PcapPacket(l@),
            AnyLayer::Text(s) => LayerView::Text(s@),
        }
    }
}

/// The views of the layers of `layers`, one by one.
pub open spec fn layers_view(layers: Seq<AnyLayer>) -> Seq<LayerView> {
    Seq::new(layers.len(), |i: int| layers[i]@)
}

/// The bytes of a text on the wire: its UTF-8 encoding.
pub open spec fn text_bytes(s: Seq<char>) -> Seq<u8> {
    vstd::utf8::encode_utf8(s)
}

/// A decoder of this kind takes all that is left of its buffer: what it
/// cannot read itself becomes a layer of raw bytes. A packet record of a
/// capture file is the one kind that stops at its own end.
pub open spec fn is_greedy(kind: LayerKind) -> bool {
    kind != LayerKind::PcapPacket
}

impl LayerView {
    /// The kind of the layer.
    pub open spec fn kind(self) -> LayerKind {
        match self {
            LayerView::Ether(_) => LayerKind::Ether,
            LayerView::Dot1Q(_) => LayerKind::Dot1Q,
            LayerView::Arp(_) => LayerKind::Arp,
            LayerView::Ip(_) => LayerKind::Ip,
            LayerView::Udp(_) => LayerKind::Udp,
            LayerView::Tcp(_) => LayerKind::Tcp,
            LayerView::Icmp(_) => LayerKind::Icmp,
            LayerView::IcmpEcho(_) => LayerKind::IcmpEcho,
            LayerView::IcmpEchoReply(_) => LayerKind::IcmpEchoReply,
            LayerView::Gre(_) => LayerKind::Gre,
            LayerView::Erspan(_) => LayerKind::Erspan,
            LayerView::Geneve(_) => LayerKind::Geneve,
            LayerView::Bootp(_) => LayerKind::Bootp,
            LayerView::Dhcp(_) => LayerKind::Dhcp,
            LayerView::Raw(_) => LayerKind::Raw,
            LayerView::PcapFile(_) => LayerKind::PcapFile,
            LayerView::PcapFileData(_) => LayerKind::PcapFileData,
            LayerView::PcapPacket(_) => LayerKind::PcapPacket,
            LayerView::Text(_) => LayerKind::Text,
        }
    }

    /// The layer of kind `kind` with every field at its default.
    pub open spec fn default_of(kind: LayerKind) -> LayerView {
        match kind {
            LayerKind::Ether => LayerView::Ether(ether::default_spec()),
            LayerKind::Dot1Q => LayerView::Dot1Q(dot1Q::default_spec()),
            LayerKind::Arp => LayerView::Arp(ArpView::default_spec()),
            LayerKind::Ip => LayerView::Ip(IpView::default_spec()),
            LayerKind::Udp => LayerView::Udp(Udp::default_spec()),
            LayerKind::Tcp => LayerView::Tcp(Tcp::default_spec()),
            LayerKind::Icmp => LayerView::Icmp(Icmp::default_spec()),
            LayerKind::IcmpEcho => LayerView::IcmpEcho(IcmpEcho::default_spec()),
            LayerKind::IcmpEchoReply => LayerView::IcmpEchoReply(IcmpEchoReply::default_spec()),
            LayerKind::Gre => LayerView::Gre(GreView::default_spec()),
            LayerKind::Erspan => LayerView::Erspan(erspan::default_spec()),
            LayerKind::Geneve => LayerView::Geneve(Geneve::default_spec()),
            LayerKind::Bootp => LayerView::Bootp(BootpView::default_spec()),
            LayerKind::Dhcp => LayerView::Dhcp(DhcpView::default_spec()),
            LayerKind::Raw => LayerView::Raw(rawView::default_spec()),
            LayerKind::PcapFile => LayerView::PcapFile(pcapFileView::default_spec()),
            LayerKind::PcapFileData => LayerView::PcapFileData(pcapFileDataView::default_spec()),
            LayerKind::PcapPacket => LayerView::PcapPacket(pcapPacketView::default_spec()),
            LayerKind::Text => LayerView::Text(Seq::empty()),
        }
    }

    /// No field of the layer waits for a random number or for a function of
    /// the caller.
    pub open spec fn settled(self) -> bool {
        match self {
            LayerView::Ether(l) => l.settled(),
            LayerView::Dot1Q(l) => l.settled(),
            LayerView::Arp(l) => l.settled(),
            LayerView::Ip(l) => l.settled(),
            LayerView::Udp(l) => l.settled(),
            LayerView::Tcp(l) => l.settled(),
            LayerView::Icmp(l) => l.settled(),
            LayerView::IcmpEcho(l) => l.settled(),
            LayerView::IcmpEchoReply(l) => l.settled(),
            LayerView::Gre(l) => l.settled(),
            LayerView::Erspan(l) => l.settled(),
            LayerView::Geneve(l) => l.settled(),
            LayerView::Bootp(l) => l.settled(),
            LayerView::Dhcp(l) => l.settled(),
            LayerView::Raw(l) => l.settled(),
            LayerView::PcapFile(l) => l.settled(),
            LayerView::PcapFileData(l) => l.settled(),
            LayerView::PcapPacket(l) => l.settled(),
            LayerView::Text(_) => true,
        }
    }

    /// `r` is the layer with every random or computed field given some value
    /// and every other field as it was. Which value a random field is given
    /// is said by `drawn_from`.
    pub open spec fn resolves_to(self, r: LayerView) -> bool {
        match self {
            LayerView::Ether(l) => r matches LayerView::Ether(x) && l.resolves_to(x),
            LayerView::Dot1Q(l) => r matches LayerView::Dot1Q(x) && l.resolves_to(x),
            LayerView::Arp(l) => r matches LayerView::Arp(x) && l.resolves_to(x),
            LayerView::Ip(l) => r matches LayerView::Ip(x) && l.resolves_to(x),
            LayerView::Udp(l) => r matches LayerView::Udp(x) && l.resolves_to(x),
            LayerView::Tcp(l) => r matches LayerView::Tcp(x) && l.resolves_to(x),
            LayerView::Icmp(l) => r matches LayerView::Icmp(x) && l.resolves_to(x),
            LayerView::IcmpEcho(l) => r matches LayerView::IcmpEcho(x) && l.resolves_to(x),
            LayerView::IcmpEchoReply(l) => r matches LayerView::IcmpEchoReply(x)
                && l.resolves_to(x),
            LayerView::Gre(l) => r matches LayerView::Gre(x) && l.resolves_to(x),
            LayerView::Erspan(l) => r matches LayerView::Erspan(x) && l.resolves_to(x),
            LayerView::Geneve(l) => r matches LayerView::Geneve(x) && l.resolves_to(x),
            LayerView::Bootp(l) => r matches LayerView::Bootp(x) && l.resolves_to(x),
            LayerView::Dhcp(l) => r matches LayerView::Dhcp(x) && l.resolves_to(x),
            LayerView::Raw(l) => r matches LayerView::Raw(x) && l.resolves_to(x),
            LayerView::PcapFile(l) => r matches LayerView::PcapFile(x) && l.resolves_to(x),
            LayerView::PcapFileData(l) => r matches LayerView::PcapFileData(x) && l.resolves_to(x),
            LayerView::PcapPacket(l) => r matches LayerView::PcapPacket(x) && l.resolves_to(x),
            LayerView::Text(s) => r == self,
        }
    }

    /// No field of the layer is computed by a function of the caller.
    pub open spec fn without_funcs(self) -> bool {
        match self {
            LayerView::Ether(l) => l.without_funcs(),
            LayerView::Dot1Q(l) => l.without_funcs(),
            LayerView::Arp(l) => l.without_funcs(),
            LayerView::Ip(l) => l.without_funcs(),
            LayerView::Udp(l) => l.without_funcs(),
            LayerView::Tcp(l) => l.without_funcs(),
            LayerView::Icmp(l) => l.without_funcs(),
            LayerView::IcmpEcho(l) => l.without_funcs(),
            LayerView::IcmpEchoReply(l) => l.without_funcs(),
            LayerView::Gre(l) => l.without_funcs(),
            LayerView::Erspan(l) => l.without_funcs(),
            LayerView::Geneve(l) => l.without_funcs(),
            LayerView::Bootp(l) => l.without_funcs(),
            LayerView::Dhcp(l) => l.without_funcs(),
            LayerView::Raw(l) => l.without_funcs(),
            LayerView::PcapFile(l) => l.without_funcs(),
            LayerView::PcapFileData(l) => l.without_funcs(),
            LayerView::PcapPacket(l) => l.without_funcs(),
            LayerView::Text(_) => true,
        }
    }

    /// Where no field is computed, the numbers drawn decide what the layer
    /// resolves to.
    pub proof fn lemma_resolve_decided(self, d: Seq<u32>, a: LayerView, b: LayerView)
        requires
            self.without_funcs(),
            self.resolves_to(a),
            self.drawn_from(d, a),
            self.resolves_to(b),
            self.drawn_from(d, b),
        ensures
            a == b,
    {
        match (self, a, b) {
            (LayerView::Ether(l), LayerView::Ether(x), LayerView::Ether(y)) => {
                l.lemma_resolve_decided(d, x, y);
            },
            (LayerView::Dot1Q(l), LayerView::Dot1Q(x), LayerView::Dot1Q(y)) => {
                l.lemma_resolve_decided(d, x, y);
            },
            (LayerView::Arp(l), LayerView::Arp(x), LayerView::Arp(y)) => {
                l.lemma_resolve_decided(d, x, y);
            },
            (LayerView::Ip(l), LayerView::Ip(x), LayerView::Ip(y)) => {
                l.lemma_resolve_decided(d, x, y);
            },
            (LayerView::Udp(l), LayerView::Udp(x), LayerView::Udp(y)) => {
                l.lemma_resolve_decided(d, x, y);
            },
            (LayerView::Tcp(l), LayerView::Tcp(x), LayerView::Tcp(y)) => {
                l.lemma_resolve_decided(d, x, y);
            },
            (LayerView::Icmp(l), LayerView::Icmp(x), LayerView::Icmp(y)) => {
                l.lemma_resolve_decided(d, x, y);
            },
            (LayerView::IcmpEcho(l), LayerView::IcmpEcho(x), LayerView::IcmpEcho(y)) => {
                l.lemma_resolve_decided(d, x, y);
            },
            (
                LayerView::IcmpEchoReply(l),
                LayerView::IcmpEchoReply(x),
                LayerView::IcmpEchoReply(y),
            ) => {
                l.lemma_resolve_decided(d, x, y);
            },
            (LayerView::Gre(l), LayerView::Gre(x), LayerView::Gre(y)) => {
                l.lemma_resolve_decided(d, x, y);
            },
            (LayerView::Erspan(l), LayerView::Erspan(x), LayerView::Erspan(y)) => {
                l.lemma_resolve_decided(d, x, y);
            },
            (LayerView::Geneve(l), LayerView::Geneve(x), LayerView::Geneve(y)) => {
                l.lemma_resolve_decided(d, x, y);
            },
            (LayerView::Bootp(l), LayerView::Bootp(x), LayerView::Bootp(y)) => {
                l.lemma_resolve_decided(d, x, y);
            },
            (LayerView::Dhcp(l), LayerView::Dhcp(x), LayerView::Dhcp(y)) => {
                l.lemma_resolve_decided(d, x, y);
            },
            (LayerView::Raw(l), LayerView::Raw(x), LayerView::Raw(y)) => {
                l.lemma_resolve_decided(d, x, y);
            },
            (LayerView::PcapFile(l), LayerView::PcapFile(x), LayerView::PcapFile(y)) => {
                l.lemma_resolve_decided(d, x, y);
            },
            (
                LayerView::PcapFileData(l),
                LayerView::PcapFileData(x),
                LayerView::PcapFileData(y),
            ) => {
                l.lemma_resolve_decided(d, x, y);
            },
            (LayerView::PcapPacket(l), LayerView::PcapPacket(x), LayerView::PcapPacket(y)) => {
                l.lemma_resolve_decided(d, x, y);
            },
            _ => {},
        }
    }

    /// Where no field is computed, the numbers drawn decide what the layer
    /// is filled to.
    pub proof fn lemma_fill_decided(
        self,
        reg: Seq<RegistryEntry>,
        next: Option<LayerKind>,
        d: Seq<u32>,
        a: LayerView,
        b: LayerView,
    )
        requires
            self.without_funcs(),
            self.fills_to(reg, next, a),
            self.drawn_from(d, a),
            self.fills_to(reg, next, b),
            self.drawn_from(d, b),
        ensures
            a == b,
    {
        match (self, a, b) {
            (LayerView::Ether(l), LayerView::Ether(x), LayerView::Ether(y)) => {
                l.lemma_fill_decided(reg, next, d, x, y);
            },
            (LayerView::Dot1Q(l), LayerView::Dot1Q(x), LayerView::Dot1Q(y)) => {
                l.lemma_fill_decided(reg, next, d, x, y);
            },
            (LayerView::Arp(l), LayerView::Arp(x), LayerView::Arp(y)) => {
                l.lemma_fill_decided(reg, next, d, x, y);
            },
            (LayerView::Ip(l), LayerView::Ip(x), LayerView::Ip(y)) => {
                l.lemma_fill_decided(reg, next, d, x, y);
            },
            (LayerView::Udp(l), LayerView::Udp(x), LayerView::Udp(y)) => {
                l.lemma_fill_decided(reg, next, d, x, y);
            },
            (LayerView::Tcp(l), LayerView::Tcp(x), LayerView::Tcp(y)) => {
                l.lemma_fill_decided(reg, next, d, x, y);
            },
            (LayerView::Icmp(l), LayerView::Icmp(x), LayerView::Icmp(y)) => {
                l.lemma_fill_decided(reg, next, d, x, y);
            },
            (LayerView::IcmpEcho(l), LayerView::IcmpEcho(x), LayerView::IcmpEcho(y)) => {
                l.lemma_fill_decided(reg, next, d, x, y);
            },
            (
                LayerView::IcmpEchoReply(l),
                LayerView::IcmpEchoReply(x),
                LayerView::IcmpEchoReply(y),
            ) => {
                l.lemma_fill_decided(reg, next, d, x, y);
            },
            (LayerView::Gre(l), LayerView::Gre(x), LayerView::Gre(y)) => {
                l.lemma_fill_decided(reg, next, d, x, y);
            },
            (LayerView::Erspan(l), LayerView::Erspan(x), LayerView::Erspan(y)) => {
                l.lemma_fill_decided(reg, next, d, x, y);
            },
            (LayerView::Geneve(l), LayerView::Geneve(x), LayerView::Geneve(y)) => {
                l.lemma_fill_decided(reg, next, d, x, y);
            },
            (LayerView::Bootp(l), LayerView::Bootp(x), LayerView::Bootp(y)) => {
                l.lemma_fill_decided(reg, next, d, x, y);
            },
            (LayerView::Dhcp(l), LayerView::Dhcp(x), LayerView::Dhcp(y)) => {
                l.lemma_fill_decided(reg, next, d, x, y);
            },
            (LayerView::Raw(l), LayerView::Raw(x), LayerView::Raw(y)) => {
                l.lemma_fill_decided(reg, next, d, x, y);
            },
            (LayerView::PcapFile(l), LayerView::PcapFile(x), LayerView::PcapFile(y)) => {
                l.lemma_fill_decided(reg, next, d, x, y);
            },
            (
                LayerView::PcapFileData(l),
                LayerView::PcapFileData(x),
                LayerView::PcapFileData(y),
            ) => {
                l.lemma_fill_decided(reg, next, d, x, y);
            },
            (LayerView::PcapPacket(l), LayerView::PcapPacket(x), LayerView::PcapPacket(y)) => {
                l.lemma_fill_decided(reg, next, d, x, y);
            },
            _ => {},
        }
    }

    /// The layer holds no option of DHCP: it is of another kind, or its list
    /// of options is empty.
    pub open spec fn no_dhcp_option(self) -> bool {
        self matches LayerView::Dhcp(l) ==> l.options.len() == 0
    }

    /// How many numbers the layer takes from a random source when it is
    /// resolved or filled: those of its random fields together.
    pub open spec fn draws(self) -> nat {
        match self {
            LayerView::Ether(l) => l.draws(),
            LayerView::Dot1Q(l) => l.draws(),
            LayerView::Arp(l) => l.draws(),
            LayerView::Ip(l) => l.draws(),
            LayerView::Udp(l) => l.draws(),
            LayerView::Tcp(l) => l.draws(),
            LayerView::Icmp(l) => l.draws(),
            LayerView::IcmpEcho(l) => l.draws(),
            LayerView::IcmpEchoReply(l) => l.draws(),
            LayerView::Gre(l) => l.draws(),
            LayerView::Erspan(l) => l.draws(),
            LayerView::Geneve(l) => l.draws(),
            LayerView::Bootp(l) => l.draws(),
            LayerView::Dhcp(l) => l.draws(),
            LayerView::Raw(l) => l.draws(),
            LayerView::PcapFile(l) => l.draws(),
            LayerView::PcapFileData(l) => l.draws(),
            LayerView::PcapPacket(l) => l.draws(),
            LayerView::Text(_) => 0,
        }
    }

    /// `r` holds in every field that is random in `self` the value made of
    /// that field's share of the numbers `d`, the fields taking their shares
    /// in the order in which the layer declares them.
    pub open spec fn drawn_from(self, d: Seq<u32>, r: LayerView) -> bool {
        match self {
            LayerView::Ether(l) => r matches LayerView::Ether(x) && l.drawn_from(d, x),
            LayerView::Dot1Q(l) => r matches LayerView::Dot1Q(x) && l.drawn_from(d, x),
            LayerView::Arp(l) => r matches LayerView::Arp(x) && l.drawn_from(d, x),
            LayerView::Ip(l) => r matches LayerView::Ip(x) && l.drawn_from(d, x),
            LayerView::Udp(l) => r matches LayerView::Udp(x) && l.drawn_from(d, x),
            LayerView::Tcp(l) => r matches LayerView::Tcp(x) && l.drawn_from(d, x),
            LayerView::Icmp(l) => r matches LayerView::Icmp(x) && l.drawn_from(d, x),
            LayerView::IcmpEcho(l) => r matches LayerView::IcmpEcho(x) && l.drawn_from(d, x),
            LayerView::IcmpEchoReply(l) => r matches LayerView::IcmpEchoReply(x) && l.drawn_from(
                d,
                x,
            ),
            LayerView::Gre(l) => r matches LayerView::Gre(x) && l.drawn_from(d, x),
            LayerView::Erspan(l) => r matches LayerView::Erspan(x) && l.drawn_from(d, x),
            LayerView::Geneve(l) => r matches LayerView::Geneve(x) && l.drawn_from(d, x),
            LayerView::Bootp(l) => r matches LayerView::Bootp(x) && l.drawn_from(d, x),
            LayerView::Dhcp(l) => r matches LayerView::Dhcp(x) && l.drawn_from(d, x),
            LayerView::Raw(l) => r matches LayerView::Raw(x) && l.drawn_from(d, x),
            LayerView::PcapFile(l) => r matches LayerView::PcapFile(x) && l.drawn_from(d, x),
            LayerView::PcapFileData(l) => r matches LayerView::PcapFileData(x) && l.drawn_from(
                d,
                x,
            ),
            LayerView::PcapPacket(l) => r matches LayerView::PcapPacket(x) && l.drawn_from(d, x),
            LayerView::Text(s) => true,
        }
    }

    /// `r` is the layer after a fill in a stack whose next layer is of kind
    /// `next`, with the tables `reg`.
    pub open spec fn fills_to(
        self,
        reg: Seq<RegistryEntry>,
        next: Option<LayerKind>,
        r: LayerView,
    ) -> bool {
        match self {
            LayerView::Ether(l) => r matches LayerView::Ether(x) && l.fills_to(reg, next, x),
            LayerView::Dot1Q(l) => r matches LayerView::Dot1Q(x) && l.fills_to(reg, next, x),
            LayerView::Arp(l) => r matches LayerView::Arp(x) && l.fills_to(reg, next, x),
            LayerView::Ip(l) => r matches LayerView::Ip(x) && l.fills_to(reg, next, x),
            LayerView::Udp(l) => r matches LayerView::Udp(x) && l.fills_to(reg, next, x),
            LayerView::Tcp(l) => r matches LayerView::Tcp(x) && l.fills_to(reg, next, x),
            LayerView::Icmp(l) => r matches LayerView::Icmp(x) && l.fills_to(reg, next, x),
            LayerView::IcmpEcho(l) => r matches LayerView::IcmpEcho(x) && l.fills_to(reg, next, x),
            LayerView::IcmpEchoReply(l) => r matches LayerView::IcmpEchoReply(x) && l.fills_to(
                reg,
                next,
                x,
            ),
            LayerView::Gre(l) => r matches LayerView::Gre(x) && l.fills_to(reg, next, x),
            LayerView::Erspan(l) => r matches LayerView::Erspan(x) && l.fills_to(reg, next, x),
            LayerView::Geneve(l) => r matches LayerView::Geneve(x) && l.fills_to(reg, next, x),
            LayerView::Bootp(l) => r matches LayerView::Bootp(x) && l.fills_to(reg, next, x),
            LayerView::Dhcp(l) => r matches LayerView::Dhcp(x) && l.fills_to(reg, next, x),
            LayerView::Raw(l) => r matches LayerView::Raw(x) && l.fills_to(reg, next, x),
            LayerView::PcapFile(l) => r matches LayerView::PcapFile(x) && l.fills_to(reg, next, x),
            LayerView::PcapFileData(l) => r matches LayerView::PcapFileData(x) && l.fills_to(
                reg,
                next,
                x,
            ),
            LayerView::PcapPacket(l) => r matches LayerView::PcapPacket(x) && l.fills_to(
                reg,
                next,
                x,
            ),
            LayerView::Text(s) => r == self,
        }
    }

    /// The bytes of the layer on the wire, where `outer` is what stands before
    /// it and `tail` holds the bytes of the layers behind it.
    pub open spec fn wire(self, outer: Outer, tail: Seq<Seq<u8>>) -> Seq<u8> {
        match self {
            LayerView::Ether(l) => l.wire(outer, tail),
            LayerView::Dot1Q(l) => l.wire(outer, tail),
            LayerView::Arp(l) => l.wire(outer, tail),
            LayerView::Ip(l) => l.wire(outer, tail),
            LayerView::Udp(l) => l.wire(outer, tail),
            LayerView::Tcp(l) => l.wire(outer, tail),
            LayerView::Icmp(l) => l.wire(outer, tail),
            LayerView::IcmpEcho(l) => l.wire(outer, tail),
            LayerView::IcmpEchoReply(l) => l.wire(outer, tail),
            LayerView::Gre(l) => l.wire(outer, tail),
            LayerView::Erspan(l) => l.wire(outer, tail),
            LayerView::Geneve(l) => l.wire(outer, tail),
            LayerView::Bootp(l) => l.wire(outer, tail),
            LayerView::Dhcp(l) => l.wire(outer, tail),
            LayerView::Raw(l) => l.wire(outer, tail),
            LayerView::PcapFile(l) => l.wire(outer, tail),
            LayerView::PcapFileData(l) => l.wire(Endian::Big, outer, tail),
            LayerView::PcapPacket(l) => l.wire(Endian::Big, outer, tail),
            LayerView::Text(s) => text_bytes(s),
        }
    }

    /// The numbers by which the layer names the protocol that follows, each
    /// with its table, in the order in which a decoder tries them.
    pub open spec fn nexts(self) -> Seq<(RegistryName, u32)> {
        match self {
            LayerView::Ether(l) => l.nexts(),
            LayerView::Dot1Q(l) => l.nexts(),
            LayerView::Arp(l) => l.nexts(),
            LayerView::Ip(l) => l.nexts(),
            LayerView::Udp(l) => l.nexts(),
            LayerView::Tcp(l) => l.nexts(),
            LayerView::Icmp(l) => l.nexts(),
            LayerView::IcmpEcho(l) => l.nexts(),
            LayerView::IcmpEchoReply(l) => l.nexts(),
            LayerView::Gre(l) => l.nexts(),
            LayerView::Erspan(l) => l.nexts(),
            LayerView::Geneve(l) => l.nexts(),
            LayerView::Bootp(l) => l.nexts(),
            LayerView::Dhcp(l) => l.nexts(),
            LayerView::Raw(l) => l.nexts(),
            LayerView::PcapFile(l) => l.nexts(),
            LayerView::PcapFileData(l) => l.nexts(),
            LayerView::PcapPacket(l) => l.nexts(),
            LayerView::Text(_) => Seq::empty(),
        }
    }

    /// What the layer is to the layer behind it.
    pub open spec fn as_outer(self) -> Outer {
        match self {
            LayerView::Ip(l) => l.as_outer(),
            _ => Outer::Other,
        }
    }
}

/// The header of kind `kind` at the front of `buf` and its length in bytes,
/// or `None` where `buf` is too short for it. Raw bytes and text have no
/// header to read.
#[verifier::opaque]
pub open spec fn parse_header(kind: LayerKind, buf: Seq<u8>) -> Option<(LayerView, nat)> {
    match kind {
        LayerKind::Ether => match ether::parse(buf) {
            Some(l) => Some((LayerView::Ether(l), ether::header_len())),
            None => None,
        },
        LayerKind::Dot1Q => match dot1Q::parse(buf) {
            Some(l) => Some((LayerView::Dot1Q(l), dot1Q::header_len())),
            None => None,
        },
        LayerKind::Arp => match ArpView::parse(buf) {
            Some((l, n)) => Some((LayerView::Arp(l), n)),
            None => None,
        },
        LayerKind::Ip => match IpView::parse(buf) {
            Some(l) => Some((LayerView::Ip(l), IpView::header_len())),
            None => None,
        },
        LayerKind::Udp => match Udp::parse(buf) {
            Some(l) => Some((LayerView::Udp(l), Udp::header_len())),
            None => None,
        },
        LayerKind::Tcp => match Tcp::parse(buf) {
            Some(l) => Some((LayerView::Tcp(l), Tcp::header_len())),
            None => None,
        },
        LayerKind::Icmp => match Icmp::parse(buf) {
            Some(l) => Some((LayerView::Icmp(l), Icmp::header_len())),
            None => None,
        },
        LayerKind::IcmpEcho => match IcmpEcho::parse(buf) {
            Some(l) => Some((LayerView::IcmpEcho(l), IcmpEcho::header_len())),
            None => None,
        },
        LayerKind::IcmpEchoReply => match IcmpEchoReply::parse(buf) {
            Some(l) => Some((LayerView::IcmpEchoReply(l), IcmpEchoReply::header_len())),
            None => None,
        },
        LayerKind::Gre => match GreView::parse(buf) {
            Some((l, n)) => Some((LayerView::Gre(l), n)),
            None => None,
        },
        LayerKind::Erspan => match erspan::parse(buf) {
            Some(l) => Some((LayerView::Erspan(l), erspan::header_len())),
            None => None,
        },
        LayerKind::Geneve => match Geneve::parse(buf) {
            Some(l) => Some((LayerView::Geneve(l), Geneve::header_len())),
            None => None,
        },
        LayerKind::Bootp => match BootpView::parse(buf) {
            Some((l, n)) => Some((LayerView::Bootp(l), n)),
            None => None,
        },
        LayerKind::Dhcp => match DhcpView::parse(buf) {
            Some((l, n)) => Some((LayerView::Dhcp(l), n)),
            None => None,
        },
        LayerKind::PcapFile => match pcapFileView::parse(buf) {
            Some((l, n)) => Some((LayerView::PcapFile(l), n)),
            None => None,
        },
        LayerKind::PcapFileData => match pcapFileDataView::parse(Endian::Big, buf) {
            Some((l, n)) => Some((LayerView::PcapFileData(l), n)),
            None => None,
        },
        LayerKind::PcapPacket => match pcapPacketView::parse(Endian::Big, buf) {
            Some((l, n)) => Some((LayerView::PcapPacket(l), n)),
            None => None,
        },
        _ => None,
    }
}

impl AnyLayer {
    /// The kind of the layer.
    pub fn kind(&self) -> (r: LayerKind)
        ensures
            r == self@.kind(),
    {
        match self {
            AnyLayer::Ether(_) => LayerKind::Ether,
            AnyLayer::Dot1Q(_) => LayerKind::Dot1Q,
            AnyLayer::Arp(_) => LayerKind::Arp,
            AnyLayer::Ip(_) => LayerKind::Ip,
            AnyLayer::Udp(_) => LayerKind::Udp,
            AnyLayer::Tcp(_) => LayerKind::Tcp,
            AnyLayer::Icmp(_) => LayerKind::Icmp,
            AnyLayer::IcmpEcho(_) => LayerKind::IcmpEcho,
            AnyLayer::IcmpEchoReply(_) => LayerKind::IcmpEchoReply,
            AnyLayer::Gre(_) => LayerKind::Gre,
            AnyLayer::Erspan(_) => LayerKind::Erspan,
            AnyLayer::Geneve(_) => LayerKind::Geneve,
            AnyLayer::Bootp(_) => LayerKind::Bootp,
            AnyLayer::Dhcp(_) => LayerKind::Dhcp,
            AnyLayer::Raw(_) => LayerKind::Raw,
            AnyLayer::PcapFile(_) => LayerKind::PcapFile,
            AnyLayer::PcapFileData(_) => LayerKind::PcapFileData,
            AnyLayer::PcapPacket(_) => LayerKind::PcapPacket,
            AnyLayer::Text(_) => LayerKind::Text,
        }
    }

    /// A layer of kind `kind` with every field at its default: what a table
    /// entry for the kind constructs.
    pub fn make(kind: LayerKind) -> (r: AnyLayer)
        ensures
            r@ == LayerView::default_of(kind),
            r@.kind() == kind,
    {
        match kind {
            LayerKind::Ether => AnyLayer::Ether(ether::new()),
            LayerKind::Dot1Q => AnyLayer::Dot1Q(dot1Q::new()),
            LayerKind::Arp => AnyLayer::Arp(Arp::new()),
            LayerKind::Ip => AnyLayer::Ip(Ip::new()),
            LayerKind::Udp => AnyLayer::Udp(Udp::new()),
            LayerKind::Tcp => AnyLayer::Tcp(Tcp::new()),
            LayerKind::Icmp => AnyLayer::Icmp(Icmp::new()),
            LayerKind::IcmpEcho => AnyLayer::IcmpEcho(IcmpEcho::new()),
            LayerKind::IcmpEchoReply => AnyLayer::IcmpEchoReply(IcmpEchoReply::new()),
            LayerKind::Gre => AnyLayer::Gre(Gre::new()),
            LayerKind::Erspan => AnyLayer::Erspan(erspan::new()),
            LayerKind::Geneve => AnyLayer::Geneve(Geneve::new()),
            LayerKind::Bootp => AnyLayer::Bootp(Bootp::new()),
            LayerKind::Dhcp => AnyLayer::Dhcp(Dhcp::new()),
            LayerKind::Raw => AnyLayer::Raw(raw::new()),
            LayerKind::PcapFile => AnyLayer::PcapFile(pcapFile::new()),
            LayerKind::PcapFileData => AnyLayer::PcapFileData(pcapFileData::new()),
            LayerKind::PcapPacket => AnyLayer::PcapPacket(pcapPacket::new()),
            LayerKind::Text => AnyLayer::Text(String::new()),
        }
    }

    /// A copy of the layer in which every random field is drawn from `rng` and
    /// every computed field is computed.
    #[verifier::rlimit(40)]
    pub fn resolve<R: RandomSource>(&self, rng: &mut R) -> (r: AnyLayer)
        ensures
            self@.resolves_to(r@),
            r@.settled(),
            drew(old(rng).drawn(), final(rng).drawn(), self@.draws()),
            self@.drawn_from(fresh(old(rng).drawn(), final(rng).drawn()), r@),
    {
        proof {
            lemma_drew_none(rng.drawn());
        }
        match self {
            AnyLayer::Ether(l) => AnyLayer::Ether(l.resolve(rng)),
            AnyLayer::Dot1Q(l) => AnyLayer::Dot1Q(l.resolve(rng)),
            AnyLayer::Arp(l) => AnyLayer::Arp(l.resolve(rng)),
            AnyLayer::Ip(l) => AnyLayer::Ip(l.resolve(rng)),
            AnyLayer::Udp(l) => AnyLayer::Udp(l.resolve(rng)),
            AnyLayer::Tcp(l) => AnyLayer::Tcp(l.resolve(rng)),
            AnyLayer::Icmp(l) => AnyLayer::Icmp(l.resolve(rng)),
            AnyLayer::IcmpEcho(l) => AnyLayer::IcmpEcho(l.resolve(rng)),
            AnyLayer::IcmpEchoReply(l) => AnyLayer::IcmpEchoReply(l.resolve(rng)),
            AnyLayer::Gre(l) => AnyLayer::Gre(l.resolve(rng)),
            AnyLayer::Erspan(l) => AnyLayer::Erspan(l.resolve(rng)),
            AnyLayer::Geneve(l) => AnyLayer::Geneve(l.resolve(rng)),
            AnyLayer::Bootp(l) => AnyLayer::Bootp(l.resolve(rng)),
            AnyLayer::Dhcp(l) => AnyLayer::Dhcp(l.resolve(rng)),
            AnyLayer::Raw(l) => AnyLayer::Raw(l.resolve(rng)),
            AnyLayer::PcapFile(l) => AnyLayer::PcapFile(l.resolve(rng)),
            AnyLayer::PcapFileData(l) => AnyLayer::PcapFileData(l.resolve(rng)),
            AnyLayer::PcapPacket(l) => AnyLayer::PcapPacket(l.resolve(rng)),
            AnyLayer::Text(s) => AnyLayer::Text(s.clone()),
        }
    }

    /// The layer filled, in a stack whose next layer is of kind `next`.
    pub fn filled<R: RandomSource>(
        &self,
        reg: &Registry,
        next: Option<LayerKind>,
        rng: &mut R,
    ) -> (r: AnyLayer)
        ensures
            self@.fills_to(reg@, next, r@),
            drew(old(rng).drawn(), final(rng).drawn(), self@.draws()),
            self@.drawn_from(fresh(old(rng).drawn(), final(rng).drawn()), r@),
    {
        proof {
            lemma_drew_none(rng.drawn());
        }
        match self {
            AnyLayer::Ether(l) => AnyLayer::Ether(l.filled(reg, next, rng)),
            AnyLayer::Dot1Q(l) => AnyLayer::Dot1Q(l.filled(reg, next, rng)),
            AnyLayer::Arp(l) => AnyLayer::Arp(l.filled(reg, next, rng)),
            AnyLayer::Ip(l) => AnyLayer::Ip(l.filled(reg, next, rng)),
            AnyLayer::Udp(l) => AnyLayer::Udp(l.filled(reg, next, rng)),
            AnyLayer::Tcp(l) => AnyLayer::Tcp(l.filled(reg, next, rng)),
            AnyLayer::Icmp(l) => AnyLayer::Icmp(l.filled(reg, next, rng)),
            AnyLayer::IcmpEcho(l) => AnyLayer::IcmpEcho(l.filled(reg, next, rng)),
            AnyLayer::IcmpEchoReply(l) => AnyLayer::IcmpEchoReply(l.filled(reg, next, rng)),
            AnyLayer::Gre(l) => AnyLayer::Gre(l.filled(reg, next, rng)),
            AnyLayer::Erspan(l) => AnyLayer::Erspan(l.filled(reg, next, rng)),
            AnyLayer::Geneve(l) => AnyLayer::Geneve(l.filled(reg, next, rng)),
            AnyLayer::Bootp(l) => AnyLayer::Bootp(l.filled(reg, next, rng)),
            AnyLayer::Dhcp(l) => AnyLayer::Dhcp(l.filled(reg, next, rng)),
            AnyLayer::Raw(l) => AnyLayer::Raw(l.filled(reg, next, rng)),
            AnyLayer::PcapFile(l) => AnyLayer::PcapFile(l.filled(reg, next, rng)),
            AnyLayer::PcapFileData(l) => AnyLayer::PcapFileData(l.filled(reg, next, rng)),
            AnyLayer::PcapPacket(l) => AnyLayer::PcapPacket(l.filled(reg, next, rng)),
            AnyLayer::Text(s) => AnyLayer::Text(s.clone()),
        }
    }

    /// The bytes of the layer on the wire.
    pub fn wire_bytes(&self, outer: &Outer, tail: &EncodingVecVec) -> (r: Vec<u8>)
        ensures
            r@ == self@.wire(*outer, tail@),
    {
        match self {
            AnyLayer::Ether(l) => l.wire_bytes(outer, tail),
            AnyLayer::Dot1Q(l) => l.wire_bytes(outer, tail),
            AnyLayer::Arp(l) => l.wire_bytes(outer, tail),
            AnyLayer::Ip(l) => l.wire_bytes(outer, tail),
            AnyLayer::Udp(l) => l.wire_bytes(outer, tail),
            AnyLayer::Tcp(l) => l.wire_bytes(outer, tail),
            AnyLayer::Icmp(l) => l.wire_bytes(outer, tail),
            AnyLayer::IcmpEcho(l) => l.wire_bytes(outer, tail),
            AnyLayer::IcmpEchoReply(l) => l.wire_bytes(outer, tail),
            AnyLayer::Gre(l) => l.wire_bytes(outer, tail),
            AnyLayer::Erspan(l) => l.wire_bytes(outer, tail),
            AnyLayer::Geneve(l) => l.wire_bytes(outer, tail),
            AnyLayer::Bootp(l) => l.wire_bytes(outer, tail),
            AnyLayer::Dhcp(l) => l.wire_bytes(outer, tail),
            AnyLayer::Raw(l) => l.wire_bytes(outer, tail),
            AnyLayer::PcapFile(l) => l.wire_bytes(outer, tail),
            AnyLayer::PcapFileData(l) => l.wire_bytes::<BinaryBigEndian>(outer, tail),
            AnyLayer::PcapPacket(l) => l.wire_bytes::<BinaryBigEndian>(outer, tail),
            AnyLayer::Text(s) => slice_bytes(s.as_str().as_bytes()),
        }
    }

    /// The numbers by which the layer names the protocol that follows, each
    /// with its table.
    pub fn next_keys(&self) -> (r: Vec<(RegistryName, u32)>)
        ensures
            r@ == self@.nexts(),
    {
        match self {
            AnyLayer::Ether(l) => l.next_keys(),
            AnyLayer::Dot1Q(l) => l.next_keys(),
            AnyLayer::Arp(l) => l.next_keys(),
            AnyLayer::Ip(l) => l.next_keys(),
            AnyLayer::Udp(l) => l.next_keys(),
            AnyLayer::Tcp(l) => l.next_keys(),
            AnyLayer::Icmp(l) => l.next_keys(),
            AnyLayer::IcmpEcho(l) => l.next_keys(),
            AnyLayer::IcmpEchoReply(l) => l.next_keys(),
            AnyLayer::Gre(l) => l.next_keys(),
            AnyLayer::Erspan(l) => l.next_keys(),
            AnyLayer::Geneve(l) => l.next_keys(),
            AnyLayer::Bootp(l) => l.next_keys(),
            AnyLayer::Dhcp(l) => l.next_keys(),
            AnyLayer::Raw(l) => l.next_keys(),
            AnyLayer::PcapFile(l) => l.next_keys(),
            AnyLayer::PcapFileData(l) => l.next_keys(),
            AnyLayer::PcapPacket(l) => l.next_keys(),
            AnyLayer::Text(_) => Vec::new(),
        }
    }

    /// `other` is of the kind of `self` and holds in every computed field the
    /// function that `self` holds there.
    pub open spec fn same_funcs(self, other: AnyLayer) -> bool {
        match self {
            AnyLayer::Ether(l) => other matches AnyLayer::Ether(x) && l.same_funcs(x),
            AnyLayer::Dot1Q(l) => other matches AnyLayer::Dot1Q(x) && l.same_funcs(x),
            AnyLayer::Arp(l) => other matches AnyLayer::Arp(x) && l.same_funcs(x),
            AnyLayer::Ip(l) => other matches AnyLayer::Ip(x) && l.same_funcs(x),
            AnyLayer::Udp(l) => other matches AnyLayer::Udp(x) && l.same_funcs(x),
            AnyLayer::Tcp(l) => other matches AnyLayer::Tcp(x) && l.same_funcs(x),
            AnyLayer::Icmp(l) => other matches AnyLayer::Icmp(x) && l.same_funcs(x),
            AnyLayer::IcmpEcho(l) => other matches AnyLayer::IcmpEcho(x) && l.same_funcs(x),
            AnyLayer::IcmpEchoReply(l) => other matches AnyLayer::IcmpEchoReply(x)
                && l.same_funcs(x),
            AnyLayer::Gre(l) => other matches AnyLayer::Gre(x) && l.same_funcs(x),
            AnyLayer::Erspan(l) => other matches AnyLayer::Erspan(x) && l.same_funcs(x),
            AnyLayer::Geneve(l) => other matches AnyLayer::Geneve(x) && l.same_funcs(x),
            AnyLayer::Bootp(l) => other matches AnyLayer::Bootp(x) && l.same_funcs(x),
            AnyLayer::Dhcp(l) => other matches AnyLayer::Dhcp(x) && l.same_funcs(x),
            AnyLayer::Raw(l) => other matches AnyLayer::Raw(x) && l.same_funcs(x),
            AnyLayer::PcapFile(l) => other matches AnyLayer::PcapFile(x) && l.same_funcs(x),
            AnyLayer::PcapFileData(l) => other matches AnyLayer::PcapFileData(x) && l.same_funcs(x),
            AnyLayer::PcapPacket(l) => other matches AnyLayer::PcapPacket(x) && l.same_funcs(x),
            AnyLayer::Text(_) => other is Text,
        }
    }

    /// A copy of the layer: the same values, and in the computed fields the
    /// same functions.
    pub fn dup(&self) -> (r: AnyLayer)
        ensures
            r@ == self@,
            self.same_funcs(r),
    {
        match self {
            AnyLayer::Ether(l) => AnyLayer::Ether(l.dup()),
            AnyLayer::Dot1Q(l) => AnyLayer::Dot1Q(l.dup()),
            AnyLayer::Arp(l) => AnyLayer::Arp(l.dup()),
            AnyLayer::Ip(l) => AnyLayer::Ip(l.dup()),
            AnyLayer::Udp(l) => AnyLayer::Udp(l.dup()),
            AnyLayer::Tcp(l) => AnyLayer::Tcp(l.dup()),
            AnyLayer::Icmp(l) => AnyLayer::Icmp(l.dup()),
            AnyLayer::IcmpEcho(l) => AnyLayer::IcmpEcho(l.dup()),
            AnyLayer::IcmpEchoReply(l) => AnyLayer::IcmpEchoReply(l.dup()),
            AnyLayer::Gre(l) => AnyLayer::Gre(l.dup()),
            AnyLayer::Erspan(l) => AnyLayer::Erspan(l.dup()),
            AnyLayer::Geneve(l) => AnyLayer::Geneve(l.dup()),
            AnyLayer::Bootp(l) => AnyLayer::Bootp(l.dup()),
            AnyLayer::Dhcp(l) => AnyLayer::Dhcp(l.dup()),
            AnyLayer::Raw(l) => AnyLayer::Raw(l.dup()),
            AnyLayer::PcapFile(l) => AnyLayer::PcapFile(l.dup()),
            AnyLayer::PcapFileData(l) => AnyLayer::PcapFileData(l.dup()),
            AnyLayer::PcapPacket(l) => AnyLayer::PcapPacket(l.dup()),
            AnyLayer::Text(s) => AnyLayer::Text(s.clone()),
        }
    }

    /// What the layer is to the layer behind it.
    pub fn outer(&self) -> (r: Outer)
        ensures
            r == self@.as_outer(),
    {
        match self {
            AnyLayer::Ip(l) => l.outer(),
            _ => Outer::Other,
        }
    }

    /// Reads the header of kind `kind` from the front of `buf`: the layer and
    /// the length of the header, or `None` where `buf` is too short.
    pub fn decode_header(kind: LayerKind, buf: &[u8]) -> (r: Option<(AnyLayer, usize)>)
        ensures
            match r {
                Some((l, n)) => parse_header(kind, buf@) matches Some((v, m)) && v == l@ && m == n
                    && n <= buf@.len(),
                None => parse_header(kind, buf@) is None,
            },
    {
        proof {
            reveal(parse_header);
        }
        match kind {
            LayerKind::Ether => match ether::decode_header(buf) {
                Some((l, n)) => Some((AnyLayer::Ether(l), n)),
                None => None,
            },
            LayerKind::Dot1Q => match dot1Q::decode_header(buf) {
                Some((l, n)) => Some((AnyLayer::Dot1Q(l), n)),
                None => None,
            },
            LayerKind::Arp => match Arp::decode_header(buf) {
                Some((l, n)) => Some((AnyLayer::Arp(l), n)),
                None => None,
            },
            LayerKind::Ip => match Ip::decode_header(buf) {
                Some((l, n)) => Some((AnyLayer::Ip(l), n)),
                None => None,
            },
            LayerKind::Udp => match Udp::decode_header(buf) {
                Some((l, n)) => Some((AnyLayer::Udp(l), n)),
                None => None,
            },
            LayerKind::Tcp => match Tcp::decode_header(buf) {
                Some((l, n)) => Some((AnyLayer::Tcp(l), n)),
                None => None,
            },
            LayerKind::Icmp => match Icmp::decode_header(buf) {
                Some((l, n)) => Some((AnyLayer::Icmp(l), n)),
                None => None,
            },
            LayerKind::IcmpEcho => match IcmpEcho::decode_header(buf) {
                Some((l, n)) => Some((AnyLayer::IcmpEcho(l), n)),
                None => None,
            },
            LayerKind::IcmpEchoReply => match IcmpEchoReply::decode_header(buf) {
                Some((l, n)) => Some((AnyLayer::IcmpEchoReply(l), n)),
                None => None,
            },
            LayerKind::Gre => match Gre::decode_header(buf) {
                Some((l, n)) => Some((AnyLayer::Gre(l), n)),
                None => None,
            },
            LayerKind::Erspan => match erspan::decode_header(buf) {
                Some((l, n)) => Some((AnyLayer::Erspan(l), n)),
                None => None,
            },
            LayerKind::Geneve => match Geneve::decode_header(buf) {
                Some((l, n)) => Some((AnyLayer::Geneve(l), n)),
                None => None,
            },
            LayerKind::Bootp => match Bootp::decode_header(buf) {
                Some((l, n)) => Some((AnyLayer::Bootp(l), n)),
                None => None,
            },
            LayerKind::Dhcp => match Dhcp::decode_header(buf) {
                Some((l, n)) => Some((AnyLayer::Dhcp(l), n)),
                None => None,
            },
            LayerKind::PcapFile => match pcapFile::decode_header(buf) {
                Some((l, n)) => Some((AnyLayer::PcapFile(l), n)),
                None => None,
            },
            LayerKind::PcapFileData => match pcapFileData::decode_header::<BinaryBigEndian>(buf) {
                Some((l, n)) => Some((AnyLayer::PcapFileData(l), n)),
                None => None,
            },
            LayerKind::PcapPacket => match pcapPacket::decode_header::<BinaryBigEndian>(buf) {
                Some((l, n)) => Some((AnyLayer::PcapPacket(l), n)),
                None => None,
            },
            _ => None,
        }
    }
}

/// Whatever a layer `l` is filled to is written as `bytes`, whatever stands
/// around it in its stack.
#[verifier::opaque]
pub open spec fn echoes(l: LayerView, bytes: Seq<u8>) -> bool {
    forall|
        reg: Seq<RegistryEntry>,
        next: Option<LayerKind>,
        r: LayerView,
        outer: Outer,
        tail: Seq<Seq<u8>>,
    |
        #![trigger l.fills_to(reg, next, r), r.wire(outer, tail)]
        l.fills_to(reg, next, r) ==> r.wire(outer, tail) == bytes
}

/// A header that was read is written, once filled, as the bytes it was read
/// from. The options of DHCP are the exception: they are not written, so
/// this holds of a layer of options only where it holds none.
pub proof fn lemma_header_echoes(kind: LayerKind, buf: Seq<u8>)
    requires
        parse_header(kind, buf) matches Some((l, n)) && l.no_dhcp_option(),
    ensures
        parse_header(kind, buf) matches Some((l, n)) && n <= buf.len() && echoes(l, front(buf, n)),
{
    reveal(parse_header);
    reveal(echoes);
    match parse_header(kind, buf) {
        Some((l, n)) => {
            assert forall|
                reg: Seq<RegistryEntry>,
                next: Option<LayerKind>,
                r: LayerView,
                outer: Outer,
                tail: Seq<Seq<u8>>,
            |
                #![trigger l.fills_to(reg, next, r), r.wire(outer, tail)]
                l.fills_to(reg, next, r) implies r.wire(outer, tail) == front(buf, n) by {
                match r {
                    LayerView::Ether(x) => {
                        if kind == LayerKind::Ether {
                            ether::lemma_echo(buf, reg, next, x, outer, tail);
                        }
                    },
                    LayerView::Dot1Q(x) => {
                        if kind == LayerKind::Dot1Q {
                            dot1Q::lemma_echo(buf, reg, next, x, outer, tail);
                        }
                    },
                    LayerView::Arp(x) => {
                        if kind == LayerKind::Arp {
                            ArpView::lemma_echo(buf, reg, next, x, outer, tail);
                        }
                    },
                    LayerView::Ip(x) => {
                        if kind == LayerKind::Ip {
                            IpView::lemma_echo(buf, reg, next, x, outer, tail);
                        }
                    },
                    LayerView::Udp(x) => {
                        if kind == LayerKind::Udp {
                            Udp::lemma_echo(buf, reg, next, x, outer, tail);
                        }
                    },
                    LayerView::Tcp(x) => {
                        if kind == LayerKind::Tcp {
                            Tcp::lemma_echo(buf, reg, next, x, outer, tail);
                        }
                    },
                    LayerView::Icmp(x) => {
                        if kind == LayerKind::Icmp {
                            Icmp::lemma_echo(buf, reg, next, x, outer, tail);
                        }
                    },
                    LayerView::IcmpEcho(x) => {
                        if kind == LayerKind::IcmpEcho {
                            IcmpEcho::lemma_echo(buf, reg, next, x, outer, tail);
                        }
                    },
                    LayerView::IcmpEchoReply(x) => {
                        if kind == LayerKind::IcmpEchoReply {
                            IcmpEchoReply::lemma_echo(buf, reg, next, x, outer, tail);
                        }
                    },
                    LayerView::Gre(x) => {
                        if kind == LayerKind::Gre {
                            GreView::lemma_echo(buf, reg, next, x, outer, tail);
                        }
                    },
                    LayerView::Erspan(x) => {
                        if kind == LayerKind::Erspan {
                            erspan::lemma_echo(buf, reg, next, x, outer, tail);
                        }
                    },
                    LayerView::Geneve(x) => {
                        if kind == LayerKind::Geneve {
                            Geneve::lemma_echo(buf, reg, next, x, outer, tail);
                        }
                    },
                    LayerView::Bootp(x) => {
                        if kind == LayerKind::Bootp {
                            BootpView::lemma_echo(buf, reg, next, x, outer, tail);
                        }
                    },
                    LayerView::PcapFile(x) => {
                        if kind == LayerKind::PcapFile {
                            pcapFileView::lemma_echo(buf, reg, next, x, outer, tail);
                        }
                    },
                    LayerView::PcapFileData(x) => {
                        if kind == LayerKind::PcapFileData {
                            pcapFileDataView::lemma_echo(
                                Endian::Big,
                                buf,
                                reg,
                                next,
                                x,
                                outer,
                                tail,
                            );
                        }
                    },
                    LayerView::PcapPacket(x) => {
                        if kind == LayerKind::PcapPacket {
                            pcapPacketView::lemma_echo(Endian::Big, buf, reg, next, x, outer, tail);
                        }
                    },
                    LayerView::Dhcp(x) => {
                        if kind == LayerKind::Dhcp {
                            DhcpView::lemma_no_option_no_byte(buf);
                            assert(front(buf, 0) =~= Seq::<u8>::empty());
                        }
                    },
                    _ => {},
                }
            }
            match l {
                LayerView::Ether(x) => {
                    if kind == LayerKind::Ether {
                        ether::lemma_parse_fits(buf);
                    }
                },
                LayerView::Dot1Q(x) => {
                    if kind == LayerKind::Dot1Q {
                        dot1Q::lemma_parse_fits(buf);
                    }
                },
                LayerView::Arp(x) => {
                    if kind == LayerKind::Arp {
                        ArpView::lemma_parse_fits(buf);
                    }
                },
                LayerView::Ip(x) => {
                    if kind == LayerKind::Ip {
                        IpView::lemma_parse_fits(buf);
                    }
                },
                LayerView::Udp(x) => {
                    if kind == LayerKind::Udp {
                        Udp::lemma_parse_fits(buf);
                    }
                },
                LayerView::Tcp(x) => {
                    if kind == LayerKind::Tcp {
                        Tcp::lemma_parse_fits(buf);
                    }
                },
                LayerView::Icmp(x) => {
                    if kind == LayerKind::Icmp {
                        Icmp::lemma_parse_fits(buf);
                    }
                },
                LayerView::IcmpEcho(x) => {
                    if kind == LayerKind::IcmpEcho {
                        IcmpEcho::lemma_parse_fits(buf);
                    }
                },
                LayerView::IcmpEchoReply(x) => {
                    if kind == LayerKind::IcmpEchoReply {
                        IcmpEchoReply::lemma_parse_fits(buf);
                    }
                },
                LayerView::Gre(x) => {
                    if kind == LayerKind::Gre {
                        GreView::lemma_parse_fits(buf);
                    }
                },
                LayerView::Erspan(x) => {
                    if kind == LayerKind::Erspan {
                        erspan::lemma_parse_fits(buf);
                    }
                },
                LayerView::Geneve(x) => {
                    if kind == LayerKind::Geneve {
                        Geneve::lemma_parse_fits(buf);
                    }
                },
                LayerView::Bootp(x) => {
                    if kind == LayerKind::Bootp {
                        BootpView::lemma_parse_fits(buf);
                    }
                },
                LayerView::PcapFile(x) => {
                    if kind == LayerKind::PcapFile {
                        pcapFileView::lemma_parse_fits(buf);
                    }
                },
                LayerView::PcapFileData(x) => {
                    if kind == LayerKind::PcapFileData {
                        pcapFileDataView::lemma_parse_fits(Endian::Big, buf);
                    }
                },
                LayerView::PcapPacket(x) => {
                    if kind == LayerKind::PcapPacket {
                        pcapPacketView::lemma_parse_fits(Endian::Big, buf);
                    }
                },
                _ => {},
            }
        },
        None => {},
    }
}

/// A header that was read as one of kind `kind` is a layer of that kind.
pub proof fn lemma_header_kind(kind: LayerKind, buf: Seq<u8>)
    requires
        parse_header(kind, buf) is Some,
    ensures
        parse_header(kind, buf) matches Some((l, n)) && l.kind() == kind,
{
    reveal(parse_header);
}

/// Raw bytes are written as they are, filled or not.
pub proof fn lemma_raw_echoes(data: Seq<u8>)
    ensures
        echoes(LayerView::Raw(rawView { data }), data),
{
    reveal(echoes);
}

/// After a fill no field of the layer waits for a random number or a
/// function.
pub proof fn lemma_layer_filled(
    l: LayerView,
    reg: Seq<RegistryEntry>,
    next: Option<LayerKind>,
    r: LayerView,
)
    requires
        l.fills_to(reg, next, r),
    ensures
        r.settled(),
{
    match l {
        LayerView::Ether(x) => {
            match r {
                LayerView::Ether(y) => {
                    x.lemma_filled(reg, next, y);
                },
                _ => {},
            }
        },
        LayerView::Dot1Q(x) => {
            match r {
                LayerView::Dot1Q(y) => {
                    x.lemma_filled(reg, next, y);
                },
                _ => {},
            }
        },
        LayerView::Arp(x) => {
            match r {
                LayerView::Arp(y) => {
                    x.lemma_filled(reg, next, y);
                },
                _ => {},
            }
        },
        LayerView::Ip(x) => {
            match r {
                LayerView::Ip(y) => {
                    x.lemma_filled(reg, next, y);
                },
                _ => {},
            }
        },
        LayerView::Udp(x) => {
            match r {
                LayerView::Udp(y) => {
                    x.lemma_filled(reg, next, y);
                },
                _ => {},
            }
        },
        LayerView::Tcp(x) => {
            match r {
                LayerView::Tcp(y) => {
                    x.lemma_filled(reg, next, y);
                },
                _ => {},
            }
        },
        LayerView::Icmp(x) => {
            match r {
                LayerView::Icmp(y) => {
                    x.lemma_filled(reg, next, y);
                },
                _ => {},
            }
        },
        LayerView::IcmpEcho(x) => {
            match r {
                LayerView::IcmpEcho(y) => {
                    x.lemma_filled(reg, next, y);
                },
                _ => {},
            }
        },
        LayerView::IcmpEchoReply(x) => {
            match r {
                LayerView::IcmpEchoReply(y) => {
                    x.lemma_filled(reg, next, y);
                },
                _ => {},
            }
        },
        LayerView::Gre(x) => {
            match r {
                LayerView::Gre(y) => {
                    x.lemma_filled(reg, next, y);
                },
                _ => {},
            }
        },
        LayerView::Erspan(x) => {
            match r {
                LayerView::Erspan(y) => {
                    x.lemma_filled(reg, next, y);
                },
                _ => {},
            }
        },
        LayerView::Geneve(x) => {
            match r {
                LayerView::Geneve(y) => {
                    x.lemma_filled(reg, next, y);
                },
                _ => {},
            }
        },
        LayerView::Bootp(x) => {
            match r {
                LayerView::Bootp(y) => {
                    x.lemma_filled(reg, next, y);
                },
                _ => {},
            }
        },
        LayerView::Dhcp(x) => {
            match r {
                LayerView::Dhcp(y) => {
                    x.lemma_filled(reg, next, y);
                },
                _ => {},
            }
        },
        LayerView::Raw(x) => {
            match r {
                LayerView::Raw(y) => {
                    x.lemma_filled(reg, next, y);
                },
                _ => {},
            }
        },
        LayerView::PcapFile(x) => {
            match r {
                LayerView::PcapFile(y) => {
                    x.lemma_filled(reg, next, y);
                },
                _ => {},
            }
        },
        LayerView::PcapFileData(x) => {
            match r {
                LayerView::PcapFileData(y) => {
                    x.lemma_filled(reg, next, y);
                },
                _ => {},
            }
        },
        LayerView::PcapPacket(x) => {
            match r {
                LayerView::PcapPacket(y) => {
                    x.lemma_filled(reg, next, y);
                },
                _ => {},
            }
        },
        LayerView::Text(_) => {},
    }
}

/// Resolving a layer in which nothing is random or computed changes
/// nothing.
pub proof fn lemma_layer_settled(l: LayerView, r: LayerView)
    requires
        l.settled(),
        l.resolves_to(r),
    ensures
        r == l,
{
    match l {
        LayerView::Ether(x) => {
            match r {
                LayerView::Ether(y) => {
                    x.lemma_settled(y);
                },
                _ => {},
            }
        },
        LayerView::Dot1Q(x) => {
            match r {
                LayerView::Dot1Q(y) => {
                    x.lemma_settled(y);
                },
                _ => {},
            }
        },
        LayerView::Arp(x) => {
            match r {
                LayerView::Arp(y) => {
                    x.lemma_settled(y);
                },
                _ => {},
            }
        },
        LayerView::Ip(x) => {
            match r {
                LayerView::Ip(y) => {
                    x.lemma_settled(y);
                },
                _ => {},
            }
        },
        LayerView::Udp(x) => {
            match r {
                LayerView::Udp(y) => {
                    x.lemma_settled(y);
                },
                _ => {},
            }
        },
        LayerView::Tcp(x) => {
            match r {
                LayerView::Tcp(y) => {
                    x.lemma_settled(y);
                },
                _ => {},
            }
        },
        LayerView::Icmp(x) => {
            match r {
                LayerView::Icmp(y) => {
                    x.lemma_settled(y);
                },
                _ => {},
            }
        },
        LayerView::IcmpEcho(x) => {
            match r {
                LayerView::IcmpEcho(y) => {
                    x.lemma_settled(y);
                },
                _ => {},
            }
        },
        LayerView::IcmpEchoReply(x) => {
            match r {
                LayerView::IcmpEchoReply(y) => {
                    x.lemma_settled(y);
                },
                _ => {},
            }
        },
        LayerView::Gre(x) => {
            match r {
                LayerView::Gre(y) => {
                    x.lemma_settled(y);
                },
                _ => {},
            }
        },
        LayerView::Erspan(x) => {
            match r {
                LayerView::Erspan(y) => {
                    x.lemma_settled(y);
                },
                _ => {},
            }
        },
        LayerView::Geneve(x) => {
            match r {
                LayerView::Geneve(y) => {
                    x.lemma_settled(y);
                },
                _ => {},
            }
        },
        LayerView::Bootp(x) => {
            match r {
                LayerView::Bootp(y) => {
                    x.lemma_settled(y);
                },
                _ => {},
            }
        },
        LayerView::Dhcp(x) => {
            match r {
                LayerView::Dhcp(y) => {
                    x.lemma_settled(y);
                },
                _ => {},
            }
        },
        LayerView::Raw(x) => {
            match r {
                LayerView::Raw(y) => {
                    x.lemma_settled(y);
                },
                _ => {},
            }
        },
        LayerView::PcapFile(x) => {
            match r {
                LayerView::PcapFile(y) => {
                    x.lemma_settled(y);
                },
                _ => {},
            }
        },
        LayerView::PcapFileData(x) => {
            match r {
                LayerView::PcapFileData(y) => {
                    x.lemma_settled(y);
                },
                _ => {},
            }
        },
        LayerView::PcapPacket(x) => {
            match r {
                LayerView::PcapPacket(y) => {
                    x.lemma_settled(y);
                },
                _ => {},
            }
        },
        LayerView::Text(_) => {},
    }
}

/// What every protocol record can do: stand in a stack as a layer of its
/// kind, be told from the other kinds, and be filled, encoded and decoded.
pub trait Layer: Sized {
    /// The kind of layer that the type is.
    spec fn layer_kind() -> LayerKind;

    /// The record as a layer of any kind.
    spec fn boxed(self) -> AnyLayer;

    /// The kind of layer that the type is.
    fn kind_of() -> (r: LayerKind)
        ensures
            r == Self::layer_kind(),
    ;

    /// The record as a layer of any kind.
    fn embox(self) -> (r: AnyLayer)
        ensures
            r == self.boxed(),
            r@.kind() == Self::layer_kind(),
    ;

    /// A copy of the record as a layer of any kind: the same values, and in
    /// the computed fields the same functions.
    fn box_clone(&self) -> (r: AnyLayer)
        ensures
            r@ == self.boxed()@,
            self.boxed().same_funcs(r),
            r@.kind() == Self::layer_kind(),
    ;

    /// The record in `layer`, where `layer` is of this kind.
    fn unbox(layer: &AnyLayer) -> (r: Option<&Self>)
        ensures
            r is Some <==> layer@.kind() == Self::layer_kind(),
            r matches Some(x) ==> x.boxed() == *layer,
    ;

    /// The record in `layer`, to be changed in place, where `layer` is of this
    /// kind.
    fn unbox_mut(layer: &mut AnyLayer) -> (r: Option<&mut Self>)
        ensures
            r is Some <==> old(layer)@.kind() == Self::layer_kind(),
            r matches Some(x) ==> x.boxed() == *old(layer) && final(x).boxed() == *final(layer),
            r is None ==> *final(layer) == *old(layer),
    ;

    /// The record taken out of `layer`, where `layer` is of this kind.
    fn unbox_owned(layer: AnyLayer) -> (r: Option<Self>)
        ensures
            r is Some <==> layer@.kind() == Self::layer_kind(),
            r matches Some(x) ==> x.boxed() == layer,
    ;

    /// Whether `x` is the kind of this layer.
    fn type_id_is(&self, x: LayerKind) -> (r: bool)
        ensures
            r == (x == Self::layer_kind()),
    {
        Self::kind_of() == x
    }

    /// The kind of this layer.
    fn get_layer_type_id(&self) -> (r: LayerKind)
        ensures
            r == Self::layer_kind(),
    {
        Self::kind_of()
    }

    /// A stack of this one layer.
    fn to_stack(self) -> (r: LayerStack)
        ensures
            r.layers@ == seq![self.boxed()],
            r@ == seq![self.boxed()@],
            !r.filled,
    {
        let ghost me = self.boxed();
        let mut layers: Vec<AnyLayer> = Vec::new();
        layers.push(self.embox());
        let r = LayerStack { layers, filled: false };
        assert(r.layers@ =~= seq![me]);
        assert(r@ =~= seq![me@]);
        r
    }

    /// Fills the layer as the one at position `my_index` of `stack` and puts
    /// the result behind the layers of `out_stack`. The open fields go by the
    /// tables of the protocols that the library knows, the random ones by
    /// the random source of the calling thread.
    fn fill(&self, stack: &LayerStack, my_index: usize, out_stack: &mut LayerStack)
        ensures
            final(out_stack).layers@.len() == old(out_stack).layers@.len() + 1,
            final(out_stack).layers@.drop_last() == old(out_stack).layers@,
            self.boxed()@.fills_to(
                builtin_entries(),
                next_kind(stack@, my_index as int),
                final(out_stack).layers@.last()@,
            ),
    {
        let reg = Registry::builtin();
        let mut rng = ThreadRandom::new();
        let next = stack.kind_after(my_index);
        let filled = self.box_clone().filled(&reg, next, &mut rng);
        out_stack.layers.push(filled);
        assert(out_stack.layers@.drop_last() =~= old(out_stack).layers@);
    }

    /// The bytes of the layer as the one at position `my_index` of `stack`,
    /// where `encoded_layers` holds the bytes of the layers behind it. The
    /// random fields are resolved with the random source of the calling
    /// thread, and what comes out is written.
    fn encode(
        &self,
        stack: &LayerStack,
        my_index: usize,
        encoded_layers: &EncodingVecVec,
    ) -> (r: Vec<u8>)
        ensures
            exists|l: LayerView| #[trigger]
                self.boxed()@.resolves_to(l) && r@ == l.wire(
                    outer_at(stack@, my_index as int),
                    encoded_layers@,
                ),
    {
        let mut rng = ThreadRandom::new();
        let me = self.box_clone().resolve(&mut rng);
        let outer = stack.outer_for(my_index);
        let r = me.wire_bytes(&outer, encoded_layers);
        assert(self.boxed()@.resolves_to(me@));
        r
    }

    /// The stack that bytes without a decoder make: one layer of raw bytes,
    /// or none where there are no bytes.
    fn decode_as_raw(&self, buf: &[u8]) -> (r: LayerStack)
        ensures
            r@ == raw_layers(buf@),
    {
        LayerStack { layers: decode_as_raw(buf), filled: true }
    }

    /// Reads a stack from `buf`, starting with a header of the kind of this
    /// layer and going on as the tables of the known protocols say: the stack
    /// and the number of bytes taken, or `None` where `buf` is too short for
    /// the first header.
    fn decode(&self, buf: &[u8]) -> (r: Option<(LayerStack, usize)>)
        ensures
            match r {
                Some((stack, n)) => decode_spec(builtin_entries(), Self::layer_kind(), buf@)
                    matches Some((ls, m)) && ls == stack@ && m == n && n <= buf@.len()
                    && stack.filled,
                None => decode_spec(builtin_entries(), Self::layer_kind(), buf@) is None,
            },
    {
        LayerStack::decode_as(Self::kind_of(), buf)
    }
}

impl Layer for ether {
    open spec fn layer_kind() -> LayerKind {
        LayerKind::Ether
    }

    open spec fn boxed(self) -> AnyLayer {
        AnyLayer::Ether(self)
    }

    fn kind_of() -> (r: LayerKind) {
        LayerKind::Ether
    }

    fn embox(self) -> (r: AnyLayer) {
        AnyLayer::Ether(self)
    }

    fn box_clone(&self) -> (r: AnyLayer) {
        AnyLayer::Ether(self.dup())
    }

    fn unbox(layer: &AnyLayer) -> (r: Option<&ether>) {
        match layer {
            AnyLayer::Ether(l) => Some(l),
            _ => None,
        }
    }

    fn unbox_mut(layer: &mut AnyLayer) -> (r: Option<&mut ether>) {
        match layer {
            AnyLayer::Ether(l) => Some(l),
            _ => None,
        }
    }

    fn unbox_owned(layer: AnyLayer) -> (r: Option<ether>) {
        match layer {
            AnyLayer::Ether(l) => Some(l),
            _ => None,
        }
    }
}

impl Layer for dot1Q {
    open spec fn layer_kind() -> LayerKind {
        LayerKind::Dot1Q
    }

    open spec fn boxed(self) -> AnyLayer {
        AnyLayer::Dot1Q(self)
    }

    fn kind_of() -> (r: LayerKind) {
        LayerKind::Dot1Q
    }

    fn embox(self) -> (r: AnyLayer) {
        AnyLayer::Dot1Q(self)
    }

    fn box_clone(&self) -> (r: AnyLayer) {
        AnyLayer::Dot1Q(self.dup())
    }

    fn unbox(layer: &AnyLayer) -> (r: Option<&dot1Q>) {
        match layer {
            AnyLayer::Dot1Q(l) => Some(l),
            _ => None,
        }
    }

    fn unbox_mut(layer: &mut AnyLayer) -> (r: Option<&mut dot1Q>) {
        match layer {
            AnyLayer::Dot1Q(l) => Some(l),
            _ => None,
        }
    }

    fn unbox_owned(layer: AnyLayer) -> (r: Option<dot1Q>) {
        match layer {
            AnyLayer::Dot1Q(l) => Some(l),
            _ => None,
        }
    }
}

impl Layer for Arp {
    open spec fn layer_kind() -> LayerKind {
        LayerKind::Arp
    }

    open spec fn boxed(self) -> AnyLayer {
        AnyLayer::Arp(self)
    }

    fn kind_of() -> (r: LayerKind) {
        LayerKind::Arp
    }

    fn embox(self) -> (r: AnyLayer) {
        AnyLayer::Arp(self)
    }

    fn box_clone(&self) -> (r: AnyLayer) {
        AnyLayer::Arp(self.dup())
    }

    fn unbox(layer: &AnyLayer) -> (r: Option<&Arp>) {
        match layer {
            AnyLayer::Arp(l) => Some(l),
            _ => None,
        }
    }

    fn unbox_mut(layer: &mut AnyLayer) -> (r: Option<&mut Arp>) {
        match layer {
            AnyLayer::Arp(l) => Some(l),
            _ => None,
        }
    }

    fn unbox_owned(layer: AnyLayer) -> (r: Option<Arp>) {
        match layer {
            AnyLayer::Arp(l) => Some(l),
            _ => None,
        }
    }
}

impl Layer for Ip {
    open spec fn layer_kind() -> LayerKind {
        LayerKind::Ip
    }

    open spec fn boxed(self) -> AnyLayer {
        AnyLayer::Ip(self)
    }

    fn kind_of() -> (r: LayerKind) {
        LayerKind::Ip
    }

    fn embox(self) -> (r: AnyLayer) {
        AnyLayer::Ip(self)
    }

    fn box_clone(&self) -> (r: AnyLayer) {
        AnyLayer::Ip(self.dup())
    }

    fn unbox(layer: &AnyLayer) -> (r: Option<&Ip>) {
        match layer {
            AnyLayer::Ip(l) => Some(l),
            _ => None,
        }
    }

    fn unbox_mut(layer: &mut AnyLayer) -> (r: Option<&mut Ip>) {
        match layer {
            AnyLayer::Ip(l) => Some(l),
            _ => None,
        }
    }

    fn unbox_owned(layer: AnyLayer) -> (r: Option<Ip>) {
        match layer {
            AnyLayer::Ip(l) => Some(l),
            _ => None,
        }
    }
}

impl Layer for Udp {
    open spec fn layer_kind() -> LayerKind {
        LayerKind::Udp
    }

    open spec fn boxed(self) -> AnyLayer {
        AnyLayer::Udp(self)
    }

    fn kind_of() -> (r: LayerKind) {
        LayerKind::Udp
    }

    fn embox(self) -> (r: AnyLayer) {
        AnyLayer::Udp(self)
    }

    fn box_clone(&self) -> (r: AnyLayer) {
        AnyLayer::Udp(self.dup())
    }

    fn unbox(layer: &AnyLayer) -> (r: Option<&Udp>) {
        match layer {
            AnyLayer::Udp(l) => Some(l),
            _ => None,
        }
    }

    fn unbox_mut(layer: &mut AnyLayer) -> (r: Option<&mut Udp>) {
        match layer {
            AnyLayer::Udp(l) => Some(l),
            _ => None,
        }
    }

    fn unbox_owned(layer: AnyLayer) -> (r: Option<Udp>) {
        match layer {
            AnyLayer::Udp(l) => Some(l),
            _ => None,
        }
    }
}

impl Layer for Tcp {
    open spec fn layer_kind() -> LayerKind {
        LayerKind::Tcp
    }

    open spec fn boxed(self) -> AnyLayer {
        AnyLayer::Tcp(self)
    }

    fn kind_of() -> (r: LayerKind) {
        LayerKind::Tcp
    }

    fn embox(self) -> (r: AnyLayer) {
        AnyLayer::Tcp(self)
    }

    fn box_clone(&self) -> (r: AnyLayer) {
        AnyLayer::Tcp(self.dup())
    }

    fn unbox(layer: &AnyLayer) -> (r: Option<&Tcp>) {
        match layer {
            AnyLayer::Tcp(l) => Some(l),
            _ => None,
        }
    }

    fn unbox_mut(layer: &mut AnyLayer) -> (r: Option<&mut Tcp>) {
        match layer {
            AnyLayer::Tcp(l) => Some(l),
            _ => None,
        }
    }

    fn unbox_owned(layer: AnyLayer) -> (r: Option<Tcp>) {
        match layer {
            AnyLayer::Tcp(l) => Some(l),
            _ => None,
        }
    }
}

impl Layer for Icmp {
    open spec fn layer_kind() -> LayerKind {
        LayerKind::Icmp
    }

    open spec fn boxed(self) -> AnyLayer {
        AnyLayer::Icmp(self)
    }

    fn kind_of() -> (r: LayerKind) {
        LayerKind::Icmp
    }

    fn embox(self) -> (r: AnyLayer) {
        AnyLayer::Icmp(self)
    }

    fn box_clone(&self) -> (r: AnyLayer) {
        AnyLayer::Icmp(self.dup())
    }

    fn unbox(layer: &AnyLayer) -> (r: Option<&Icmp>) {
        match layer {
            AnyLayer::Icmp(l) => Some(l),
            _ => None,
        }
    }

    fn unbox_mut(layer: &mut AnyLayer) -> (r: Option<&mut Icmp>) {
        match layer {
            AnyLayer::Icmp(l) => Some(l),
            _ => None,
        }
    }

    fn unbox_owned(layer: AnyLayer) -> (r: Option<Icmp>) {
        match layer {
            AnyLayer::Icmp(l) => Some(l),
            _ => None,
        }
    }
}

impl Layer for IcmpEcho {
    open spec fn layer_kind() -> LayerKind {
        LayerKind::IcmpEcho
    }

    open spec fn boxed(self) -> AnyLayer {
        AnyLayer::IcmpEcho(self)
    }

    fn kind_of() -> (r: LayerKind) {
        LayerKind::IcmpEcho
    }

    fn embox(self) -> (r: AnyLayer) {
        AnyLayer::IcmpEcho(self)
    }

    fn box_clone(&self) -> (r: AnyLayer) {
        AnyLayer::IcmpEcho(self.dup())
    }

    fn unbox(layer: &AnyLayer) -> (r: Option<&IcmpEcho>) {
        match layer {
            AnyLayer::IcmpEcho(l) => Some(l),
            _ => None,
        }
    }

    fn unbox_mut(layer: &mut AnyLayer) -> (r: Option<&mut IcmpEcho>) {
        match layer {
            AnyLayer::IcmpEcho(l) => Some(l),
            _ => None,
        }
    }

    fn unbox_owned(layer: AnyLayer) -> (r: Option<IcmpEcho>) {
        match layer {
            AnyLayer::IcmpEcho(l) => Some(l),
            _ => None,
        }
    }
}

impl Layer for IcmpEchoReply {
    open spec fn layer_kind() -> LayerKind {
        LayerKind::IcmpEchoReply
    }

    open spec fn boxed(self) -> AnyLayer {
        AnyLayer::IcmpEchoReply(self)
    }

    fn kind_of() -> (r: LayerKind) {
        LayerKind::IcmpEchoReply
    }

    fn embox(self) -> (r: AnyLayer) {
        AnyLayer::IcmpEchoReply(self)
    }

    fn box_clone(&self) -> (r: AnyLayer) {
        AnyLayer::IcmpEchoReply(self.dup())
    }

    fn unbox(layer: &AnyLayer) -> (r: Option<&IcmpEchoReply>) {
        match layer {
            AnyLayer::IcmpEchoReply(l) => Some(l),
            _ => None,
        }
    }

    fn unbox_mut(layer: &mut AnyLayer) -> (r: Option<&mut IcmpEchoReply>) {
        match layer {
            AnyLayer::IcmpEchoReply(l) => Some(l),
            _ => None,
        }
    }

    fn unbox_owned(layer: AnyLayer) -> (r: Option<IcmpEchoReply>) {
        match layer {
            AnyLayer::IcmpEchoReply(l) => Some(l),
            _ => None,
        }
    }
}

impl Layer for Gre {
    open spec fn layer_kind() -> LayerKind {
        LayerKind::Gre
    }

    open spec fn boxed(self) -> AnyLayer {
        AnyLayer::Gre(self)
    }

    fn kind_of() -> (r: LayerKind) {
        LayerKind::Gre
    }

    fn embox(self) -> (r: AnyLayer) {
        AnyLayer::Gre(self)
    }

    fn box_clone(&self) -> (r: AnyLayer) {
        AnyLayer::Gre(self.dup())
    }

    fn unbox(layer: &AnyLayer) -> (r: Option<&Gre>) {
        match layer {
            AnyLayer::Gre(l) => Some(l),
            _ => None,
        }
    }

    fn unbox_mut(layer: &mut AnyLayer) -> (r: Option<&mut Gre>) {
        match layer {
            AnyLayer::Gre(l) => Some(l),
            _ => None,
        }
    }

    fn unbox_owned(layer: AnyLayer) -> (r: Option<Gre>) {
        match layer {
            AnyLayer::Gre(l) => Some(l),
            _ => None,
        }
    }
}

impl Layer for erspan {
    open spec fn layer_kind() -> LayerKind {
        LayerKind::Erspan
    }

    open spec fn boxed(self) -> AnyLayer {
        AnyLayer::Erspan(self)
    }

    fn kind_of() -> (r: LayerKind) {
        LayerKind::Erspan
    }

    fn embox(self) -> (r: AnyLayer) {
        AnyLayer::Erspan(self)
    }

    fn box_clone(&self) -> (r: AnyLayer) {
        AnyLayer::Erspan(self.dup())
    }

    fn unbox(layer: &AnyLayer) -> (r: Option<&erspan>) {
        match layer {
            AnyLayer::Erspan(l) => Some(l),
            _ => None,
        }
    }

    fn unbox_mut(layer: &mut AnyLayer) -> (r: Option<&mut erspan>) {
        match layer {
            AnyLayer::Erspan(l) => Some(l),
            _ => None,
        }
    }

    fn unbox_owned(layer: AnyLayer) -> (r: Option<erspan>) {
        match layer {
            AnyLayer::Erspan(l) => Some(l),
            _ => None,
        }
    }
}

impl Layer for Geneve {
    open spec fn layer_kind() -> LayerKind {
        LayerKind::Geneve
    }

    open spec fn boxed(self) -> AnyLayer {
        AnyLayer::Geneve(self)
    }

    fn kind_of() -> (r: LayerKind) {
        LayerKind::Geneve
    }

    fn embox(self) -> (r: AnyLayer) {
        AnyLayer::Geneve(self)
    }

    fn box_clone(&self) -> (r: AnyLayer) {
        AnyLayer::Geneve(self.dup())
    }

    fn unbox(layer: &AnyLayer) -> (r: Option<&Geneve>) {
        match layer {
            AnyLayer::Geneve(l) => Some(l),
            _ => None,
        }
    }

    fn unbox_mut(layer: &mut AnyLayer) -> (r: Option<&mut Geneve>) {
        match layer {
            AnyLayer::Geneve(l) => Some(l),
            _ => None,
        }
    }

    fn unbox_owned(layer: AnyLayer) -> (r: Option<Geneve>) {
        match layer {
            AnyLayer::Geneve(l) => Some(l),
            _ => None,
        }
    }
}

impl Layer for Bootp {
    open spec fn layer_kind() -> LayerKind {
        LayerKind::Bootp
    }

    open spec fn boxed(self) -> AnyLayer {
        AnyLayer::Bootp(self)
    }

    fn kind_of() -> (r: LayerKind) {
        LayerKind::Bootp
    }

    fn embox(self) -> (r: AnyLayer) {
        AnyLayer::Bootp(self)
    }

    fn box_clone(&self) -> (r: AnyLayer) {
        AnyLayer::Bootp(self.dup())
    }

    fn unbox(layer: &AnyLayer) -> (r: Option<&Bootp>) {
        match layer {
            AnyLayer::Bootp(l) => Some(l),
            _ => None,
        }
    }

    fn unbox_mut(layer: &mut AnyLayer) -> (r: Option<&mut Bootp>) {
        match layer {
            AnyLayer::Bootp(l) => Some(l),
            _ => None,
        }
    }

    fn unbox_owned(layer: AnyLayer) -> (r: Option<Bootp>) {
        match layer {
            AnyLayer::Bootp(l) => Some(l),
            _ => None,
        }
    }
}

impl Layer for Dhcp {
    open spec fn layer_kind() -> LayerKind {
        LayerKind::Dhcp
    }

    open spec fn boxed(self) -> AnyLayer {
        AnyLayer::Dhcp(self)
    }

    fn kind_of() -> (r: LayerKind) {
        LayerKind::Dhcp
    }

    fn embox(self) -> (r: AnyLayer) {
        AnyLayer::Dhcp(self)
    }

    fn box_clone(&self) -> (r: AnyLayer) {
        AnyLayer::Dhcp(self.dup())
    }

    fn unbox(layer: &AnyLayer) -> (r: Option<&Dhcp>) {
        match layer {
            AnyLayer::Dhcp(l) => Some(l),
            _ => None,
        }
    }

    fn unbox_mut(layer: &mut AnyLayer) -> (r: Option<&mut Dhcp>) {
        match layer {
            AnyLayer::Dhcp(l) => Some(l),
            _ => None,
        }
    }

    fn unbox_owned(layer: AnyLayer) -> (r: Option<Dhcp>) {
        match layer {
            AnyLayer::Dhcp(l) => Some(l),
            _ => None,
        }
    }
}

impl Layer for raw {
    open spec fn layer_kind() -> LayerKind {
        LayerKind::Raw
    }

    open spec fn boxed(self) -> AnyLayer {
        AnyLayer::Raw(self)
    }

    fn kind_of() -> (r: LayerKind) {
        LayerKind::Raw
    }

    fn embox(self) -> (r: AnyLayer) {
        AnyLayer::Raw(self)
    }

    fn box_clone(&self) -> (r: AnyLayer) {
        AnyLayer::Raw(self.dup())
    }

    fn unbox(layer: &AnyLayer) -> (r: Option<&raw>) {
        match layer {
            AnyLayer::Raw(l) => Some(l),
            _ => None,
        }
    }

    fn unbox_mut(layer: &mut AnyLayer) -> (r: Option<&mut raw>) {
        match layer {
            AnyLayer::Raw(l) => Some(l),
            _ => None,
        }
    }

    fn unbox_owned(layer: AnyLayer) -> (r: Option<raw>) {
        match layer {
            AnyLayer::Raw(l) => Some(l),
            _ => None,
        }
    }
}

impl Layer for pcapFile {
    open spec fn layer_kind() -> LayerKind {
        LayerKind::PcapFile
    }

    open spec fn boxed(self) -> AnyLayer {
        AnyLayer::PcapFile(self)
    }

    fn kind_of() -> (r: LayerKind) {
        LayerKind::PcapFile
    }

    fn embox(self) -> (r: AnyLayer) {
        AnyLayer::PcapFile(self)
    }

    fn box_clone(&self) -> (r: AnyLayer) {
        AnyLayer::PcapFile(self.dup())
    }

    fn unbox(layer: &AnyLayer) -> (r: Option<&pcapFile>) {
        match layer {
            AnyLayer::PcapFile(l) => Some(l),
            _ => None,
        }
    }

    fn unbox_mut(layer: &mut AnyLayer) -> (r: Option<&mut pcapFile>) {
        match layer {
            AnyLayer::PcapFile(l) => Some(l),
            _ => None,
        }
    }

    fn unbox_owned(layer: AnyLayer) -> (r: Option<pcapFile>) {
        match layer {
            AnyLayer::PcapFile(l) => Some(l),
            _ => None,
        }
    }
}

impl Layer for pcapFileData {
    open spec fn layer_kind() -> LayerKind {
        LayerKind::PcapFileData
    }

    open spec fn boxed(self) -> AnyLayer {
        AnyLayer::PcapFileData(self)
    }

    fn kind_of() -> (r: LayerKind) {
        LayerKind::PcapFileData
    }

    fn embox(self) -> (r: AnyLayer) {
        AnyLayer::PcapFileData(self)
    }

    fn box_clone(&self) -> (r: AnyLayer) {
        AnyLayer::PcapFileData(self.dup())
    }

    fn unbox(layer: &AnyLayer) -> (r: Option<&pcapFileData>) {
        match layer {
            AnyLayer::PcapFileData(l) => Some(l),
            _ => None,
        }
    }

    fn unbox_mut(layer: &mut AnyLayer) -> (r: Option<&mut pcapFileData>) {
        match layer {
            AnyLayer::PcapFileData(l) => Some(l),
            _ => None,
        }
    }

    fn unbox_owned(layer: AnyLayer) -> (r: Option<pcapFileData>) {
        match layer {
            AnyLayer::PcapFileData(l) => Some(l),
            _ => None,
        }
    }
}

impl Layer for pcapPacket {
    open spec fn layer_kind() -> LayerKind {
        LayerKind::PcapPacket
    }

    open spec fn boxed(self) -> AnyLayer {
        AnyLayer::PcapPacket(self)
    }

    fn kind_of() -> (r: LayerKind) {
        LayerKind::PcapPacket
    }

    fn embox(self) -> (r: AnyLayer) {
        AnyLayer::PcapPacket(self)
    }

    fn box_clone(&self) -> (r: AnyLayer) {
        AnyLayer::PcapPacket(self.dup())
    }

    fn unbox(layer: &AnyLayer) -> (r: Option<&pcapPacket>) {
        match layer {
            AnyLayer::PcapPacket(l) => Some(l),
            _ => None,
        }
    }

    fn unbox_mut(layer: &mut AnyLayer) -> (r: Option<&mut pcapPacket>) {
        match layer {
            AnyLayer::PcapPacket(l) => Some(l),
            _ => None,
        }
    }

    fn unbox_owned(layer: AnyLayer) -> (r: Option<pcapPacket>) {
        match layer {
            AnyLayer::PcapPacket(l) => Some(l),
            _ => None,
        }
    }
}

impl Layer for String {
    open spec fn layer_kind() -> LayerKind {
        LayerKind::Text
    }

    open spec fn boxed(self) -> AnyLayer {
        AnyLayer::Text(self)
    }

    fn kind_of() -> (r: LayerKind) {
        LayerKind::Text
    }

    fn embox(self) -> (r: AnyLayer) {
        AnyLayer::Text(self)
    }

    fn box_clone(&self) -> (r: AnyLayer) {
        AnyLayer::Text(self.clone())
    }

    fn unbox(layer: &AnyLayer) -> (r: Option<&String>) {
        match layer {
            AnyLayer::Text(l) => Some(l),
            _ => None,
        }
    }

    fn unbox_mut(layer: &mut AnyLayer) -> (r: Option<&mut String>) {
        match layer {
            AnyLayer::Text(l) => Some(l),
            _ => None,
        }
    }

    fn unbox_owned(layer: AnyLayer) -> (r: Option<String>) {
        match layer {
            AnyLayer::Text(l) => Some(l),
            _ => None,
        }
    }
}

impl<T: Layer> vstd::std_specs::ops::DivSpecImpl<T> for ether {
    open spec fn obeys_div_spec() -> bool {
        false
    }

    open spec fn div_req(self, rhs: T) -> bool {
        true
    }

    open spec fn div_spec(self, rhs: T) -> LayerStack {
        arbitrary()
    }
}

impl<T: Layer> std::ops::Div<T> for ether {
    type Output = LayerStack;

    /// `a / b`: the stack of the layer `a` and the layer `b` behind it.
    fn div(self, rhs: T) -> (r: LayerStack)
        ensures
            r.layers@ == seq![self.boxed(), rhs.boxed()],
            r@ == seq![self.boxed()@, rhs.boxed()@],
            !r.filled,
    {
        let ghost a = self.boxed();
        let ghost b = rhs.boxed();
        let mut layers: Vec<AnyLayer> = Vec::new();
        layers.push(self.embox());
        layers.push(rhs.embox());
        let r = LayerStack { layers, filled: false };
        assert(r.layers@ =~= seq![a, b]);
        assert(r@ =~= seq![a@, b@]);
        r
    }
}

impl<T: Layer> vstd::std_specs::ops::DivSpecImpl<T> for dot1Q {
    open spec fn obeys_div_spec() -> bool {
        false
    }

    open spec fn div_req(self, rhs: T) -> bool {
        true
    }

    open spec fn div_spec(self, rhs: T) -> LayerStack {
        arbitrary()
    }
}

impl<T: Layer> std::ops::Div<T> for dot1Q {
    type Output = LayerStack;

    /// `a / b`: the stack of the layer `a` and the layer `b` behind it.
    fn div(self, rhs: T) -> (r: LayerStack)
        ensures
            r.layers@ == seq![self.boxed(), rhs.boxed()],
            r@ == seq![self.boxed()@, rhs.boxed()@],
            !r.filled,
    {
        let ghost a = self.boxed();
        let ghost b = rhs.boxed();
        let mut layers: Vec<AnyLayer> = Vec::new();
        layers.push(self.embox());
        layers.push(rhs.embox());
        let r = LayerStack { layers, filled: false };
        assert(r.layers@ =~= seq![a, b]);
        assert(r@ =~= seq![a@, b@]);
        r
    }
}

impl<T: Layer> vstd::std_specs::ops::DivSpecImpl<T> for Arp {
    open spec fn obeys_div_spec() -> bool {
        false
    }

    open spec fn div_req(self, rhs: T) -> bool {
        true
    }

    open spec fn div_spec(self, rhs: T) -> LayerStack {
        arbitrary()
    }
}

impl<T: Layer> std::ops::Div<T> for Arp {
    type Output = LayerStack;

    /// `a / b`: the stack of the layer `a` and the layer `b` behind it.
    fn div(self, rhs: T) -> (r: LayerStack)
        ensures
            r.layers@ == seq![self.boxed(), rhs.boxed()],
            r@ == seq![self.boxed()@, rhs.boxed()@],
            !r.filled,
    {
        let ghost a = self.boxed();
        let ghost b = rhs.boxed();
        let mut layers: Vec<AnyLayer> = Vec::new();
        layers.push(self.embox());
        layers.push(rhs.embox());
        let r = LayerStack { layers, filled: false };
        assert(r.layers@ =~= seq![a, b]);
        assert(r@ =~= seq![a@, b@]);
        r
    }
}

impl<T: Layer> vstd::std_specs::ops::DivSpecImpl<T> for Ip {
    open spec fn obeys_div_spec() -> bool {
        false
    }

    open spec fn div_req(self, rhs: T) -> bool {
        true
    }

    open spec fn div_spec(self, rhs: T) -> LayerStack {
        arbitrary()
    }
}

impl<T: Layer> std::ops::Div<T> for Ip {
    type Output = LayerStack;

    /// `a / b`: the stack of the layer `a` and the layer `b` behind it.
    fn div(self, rhs: T) -> (r: LayerStack)
        ensures
            r.layers@ == seq![self.boxed(), rhs.boxed()],
            r@ == seq![self.boxed()@, rhs.boxed()@],
            !r.filled,
    {
        let ghost a = self.boxed();
        let ghost b = rhs.boxed();
        let mut layers: Vec<AnyLayer> = Vec::new();
        layers.push(self.embox());
        layers.push(rhs.embox());
        let r = LayerStack { layers, filled: false };
        assert(r.layers@ =~= seq![a, b]);
        assert(r@ =~= seq![a@, b@]);
        r
    }
}

impl<T: Layer> vstd::std_specs::ops::DivSpecImpl<T> for Udp {
    open spec fn obeys_div_spec() -> bool {
        false
    }

    open spec fn div_req(self, rhs: T) -> bool {
        true
    }

    open spec fn div_spec(self, rhs: T) -> LayerStack {
        arbitrary()
    }
}

impl<T: Layer> std::ops::Div<T> for Udp {
    type Output = LayerStack;

    /// `a / b`: the stack of the layer `a` and the layer `b` behind it.
    fn div(self, rhs: T) -> (r: LayerStack)
        ensures
            r.layers@ == seq![self.boxed(), rhs.boxed()],
            r@ == seq![self.boxed()@, rhs.boxed()@],
            !r.filled,
    {
        let ghost a = self.boxed();
        let ghost b = rhs.boxed();
        let mut layers: Vec<AnyLayer> = Vec::new();
        layers.push(self.embox());
        layers.push(rhs.embox());
        let r = LayerStack { layers, filled: false };
        assert(r.layers@ =~= seq![a, b]);
        assert(r@ =~= seq![a@, b@]);
        r
    }
}

impl<T: Layer> vstd::std_specs::ops::DivSpecImpl<T> for Tcp {
    open spec fn obeys_div_spec() -> bool {
        false
    }

    open spec fn div_req(self, rhs: T) -> bool {
        true
    }

    open spec fn div_spec(self, rhs: T) -> LayerStack {
        arbitrary()
    }
}

impl<T: Layer> std::ops::Div<T> for Tcp {
    type Output = LayerStack;

    /// `a / b`: the stack of the layer `a` and the layer `b` behind it.
    fn div(self, rhs: T) -> (r: LayerStack)
        ensures
            r.layers@ == seq![self.boxed(), rhs.boxed()],
            r@ == seq![self.boxed()@, rhs.boxed()@],
            !r.filled,
    {
        let ghost a = self.boxed();
        let ghost b = rhs.boxed();
        let mut layers: Vec<AnyLayer> = Vec::new();
        layers.push(self.embox());
        layers.push(rhs.embox());
        let r = LayerStack { layers, filled: false };
        assert(r.layers@ =~= seq![a, b]);
        assert(r@ =~= seq![a@, b@]);
        r
    }
}

impl<T: Layer> vstd::std_specs::ops::DivSpecImpl<T> for Icmp {
    open spec fn obeys_div_spec() -> bool {
        false
    }

    open spec fn div_req(self, rhs: T) -> bool {
        true
    }

    open spec fn div_spec(self, rhs: T) -> LayerStack {
        arbitrary()
    }
}

impl<T: Layer> std::ops::Div<T> for Icmp {
    type Output = LayerStack;

    /// `a / b`: the stack of the layer `a` and the layer `b` behind it.
    fn div(self, rhs: T) -> (r: LayerStack)
        ensures
            r.layers@ == seq![self.boxed(), rhs.boxed()],
            r@ == seq![self.boxed()@, rhs.boxed()@],
            !r.filled,
    {
        let ghost a = self.boxed();
        let ghost b = rhs.boxed();
        let mut layers: Vec<AnyLayer> = Vec::new();
        layers.push(self.embox());
        layers.push(rhs.embox());
        let r = LayerStack { layers, filled: false };
        assert(r.layers@ =~= seq![a, b]);
        assert(r@ =~= seq![a@, b@]);
        r
    }
}

impl<T: Layer> vstd::std_specs::ops::DivSpecImpl<T> for IcmpEcho {
    open spec fn obeys_div_spec() -> bool {
        false
    }

    open spec fn div_req(self, rhs: T) -> bool {
        true
    }

    open spec fn div_spec(self, rhs: T) -> LayerStack {
        arbitrary()
    }
}

impl<T: Layer> std::ops::Div<T> for IcmpEcho {
    type Output = LayerStack;

    /// `a / b`: the stack of the layer `a` and the layer `b` behind it.
    fn div(self, rhs: T) -> (r: LayerStack)
        ensures
            r.layers@ == seq![self.boxed(), rhs.boxed()],
            r@ == seq![self.boxed()@, rhs.boxed()@],
            !r.filled,
    {
        let ghost a = self.boxed();
        let ghost b = rhs.boxed();
        let mut layers: Vec<AnyLayer> = Vec::new();
        layers.push(self.embox());
        layers.push(rhs.embox());
        let r = LayerStack { layers, filled: false };
        assert(r.layers@ =~= seq![a, b]);
        assert(r@ =~= seq![a@, b@]);
        r
    }
}

impl<T: Layer> vstd::std_specs::ops::DivSpecImpl<T> for IcmpEchoReply {
    open spec fn obeys_div_spec() -> bool {
        false
    }

    open spec fn div_req(self, rhs: T) -> bool {
        true
    }

    open spec fn div_spec(self, rhs: T) -> LayerStack {
        arbitrary()
    }
}

impl<T: Layer> std::ops::Div<T> for IcmpEchoReply {
    type Output = LayerStack;

    /// `a / b`: the stack of the layer `a` and the layer `b` behind it.
    fn div(self, rhs: T) -> (r: LayerStack)
        ensures
            r.layers@ == seq![self.boxed(), rhs.boxed()],
            r@ == seq![self.boxed()@, rhs.boxed()@],
            !r.filled,
    {
        let ghost a = self.boxed();
        let ghost b = rhs.boxed();
        let mut layers: Vec<AnyLayer> = Vec::new();
        layers.push(self.embox());
        layers.push(rhs.embox());
        let r = LayerStack { layers, filled: false };
        assert(r.layers@ =~= seq![a, b]);
        assert(r@ =~= seq![a@, b@]);
        r
    }
}

impl<T: Layer> vstd::std_specs::ops::DivSpecImpl<T> for Gre {
    open spec fn obeys_div_spec() -> bool {
        false
    }

    open spec fn div_req(self, rhs: T) -> bool {
        true
    }

    open spec fn div_spec(self, rhs: T) -> LayerStack {
        arbitrary()
    }
}

impl<T: Layer> std::ops::Div<T> for Gre {
    type Output = LayerStack;

    /// `a / b`: the stack of the layer `a` and the layer `b` behind it.
    fn div(self, rhs: T) -> (r: LayerStack)
        ensures
            r.layers@ == seq![self.boxed(), rhs.boxed()],
            r@ == seq![self.boxed()@, rhs.boxed()@],
            !r.filled,
    {
        let ghost a = self.boxed();
        let ghost b = rhs.boxed();
        let mut layers: Vec<AnyLayer> = Vec::new();
        layers.push(self.embox());
        layers.push(rhs.embox());
        let r = LayerStack { layers, filled: false };
        assert(r.layers@ =~= seq![a, b]);
        assert(r@ =~= seq![a@, b@]);
        r
    }
}

impl<T: Layer> vstd::std_specs::ops::DivSpecImpl<T> for erspan {
    open spec fn obeys_div_spec() -> bool {
        false
    }

    open spec fn div_req(self, rhs: T) -> bool {
        true
    }

    open spec fn div_spec(self, rhs: T) -> LayerStack {
        arbitrary()
    }
}

impl<T: Layer> std::ops::Div<T> for erspan {
    type Output = LayerStack;

    /// `a / b`: the stack of the layer `a` and the layer `b` behind it.
    fn div(self, rhs: T) -> (r: LayerStack)
        ensures
            r.layers@ == seq![self.boxed(), rhs.boxed()],
            r@ == seq![self.boxed()@, rhs.boxed()@],
            !r.filled,
    {
        let ghost a = self.boxed();
        let ghost b = rhs.boxed();
        let mut layers: Vec<AnyLayer> = Vec::new();
        layers.push(self.embox());
        layers.push(rhs.embox());
        let r = LayerStack { layers, filled: false };
        assert(r.layers@ =~= seq![a, b]);
        assert(r@ =~= seq![a@, b@]);
        r
    }
}

impl<T: Layer> vstd::std_specs::ops::DivSpecImpl<T> for Geneve {
    open spec fn obeys_div_spec() -> bool {
        false
    }

    open spec fn div_req(self, rhs: T) -> bool {
        true
    }

    open spec fn div_spec(self, rhs: T) -> LayerStack {
        arbitrary()
    }
}

impl<T: Layer> std::ops::Div<T> for Geneve {
    type Output = LayerStack;

    /// `a / b`: the stack of the layer `a` and the layer `b` behind it.
    fn div(self, rhs: T) -> (r: LayerStack)
        ensures
            r.layers@ == seq![self.boxed(), rhs.boxed()],
            r@ == seq![self.boxed()@, rhs.boxed()@],
            !r.filled,
    {
        let ghost a = self.boxed();
        let ghost b = rhs.boxed();
        let mut layers: Vec<AnyLayer> = Vec::new();
        layers.push(self.embox());
        layers.push(rhs.embox());
        let r = LayerStack { layers, filled: false };
        assert(r.layers@ =~= seq![a, b]);
        assert(r@ =~= seq![a@, b@]);
        r
    }
}

impl<T: Layer> vstd::std_specs::ops::DivSpecImpl<T> for Bootp {
    open spec fn obeys_div_spec() -> bool {
        false
    }

    open spec fn div_req(self, rhs: T) -> bool {
        true
    }

    open spec fn div_spec(self, rhs: T) -> LayerStack {
        arbitrary()
    }
}

impl<T: Layer> std::ops::Div<T> for Bootp {
    type Output = LayerStack;

    /// `a / b`: the stack of the layer `a` and the layer `b` behind it.
    fn div(self, rhs: T) -> (r: LayerStack)
        ensures
            r.layers@ == seq![self.boxed(), rhs.boxed()],
            r@ == seq![self.boxed()@, rhs.boxed()@],
            !r.filled,
    {
        let ghost a = self.boxed();
        let ghost b = rhs.boxed();
        let mut layers: Vec<AnyLayer> = Vec::new();
        layers.push(self.embox());
        layers.push(rhs.embox());
        let r = LayerStack { layers, filled: false };
        assert(r.layers@ =~= seq![a, b]);
        assert(r@ =~= seq![a@, b@]);
        r
    }
}

impl<T: Layer> vstd::std_specs::ops::DivSpecImpl<T> for Dhcp {
    open spec fn obeys_div_spec() -> bool {
        false
    }

    open spec fn div_req(self, rhs: T) -> bool {
        true
    }

    open spec fn div_spec(self, rhs: T) -> LayerStack {
        arbitrary()
    }
}

impl<T: Layer> std::ops::Div<T> for Dhcp {
    type Output = LayerStack;

    /// `a / b`: the stack of the layer `a` and the layer `b` behind it.
    fn div(self, rhs: T) -> (r: LayerStack)
        ensures
            r.layers@ == seq![self.boxed(), rhs.boxed()],
            r@ == seq![self.boxed()@, rhs.boxed()@],
            !r.filled,
    {
        let ghost a = self.boxed();
        let ghost b = rhs.boxed();
        let mut layers: Vec<AnyLayer> = Vec::new();
        layers.push(self.embox());
        layers.push(rhs.embox());
        let r = LayerStack { layers, filled: false };
        assert(r.layers@ =~= seq![a, b]);
        assert(r@ =~= seq![a@, b@]);
        r
    }
}

impl<T: Layer> vstd::std_specs::ops::DivSpecImpl<T> for raw {
    open spec fn obeys_div_spec() -> bool {
        false
    }

    open spec fn div_req(self, rhs: T) -> bool {
        true
    }

    open spec fn div_spec(self, rhs: T) -> LayerStack {
        arbitrary()
    }
}

impl<T: Layer> std::ops::Div<T> for raw {
    type Output = LayerStack;

    /// `a / b`: the stack of the layer `a` and the layer `b` behind it.
    fn div(self, rhs: T) -> (r: LayerStack)
        ensures
            r.layers@ == seq![self.boxed(), rhs.boxed()],
            r@ == seq![self.boxed()@, rhs.boxed()@],
            !r.filled,
    {
        let ghost a = self.boxed();
        let ghost b = rhs.boxed();
        let mut layers: Vec<AnyLayer> = Vec::new();
        layers.push(self.embox());
        layers.push(rhs.embox());
        let r = LayerStack { layers, filled: false };
        assert(r.layers@ =~= seq![a, b]);
        assert(r@ =~= seq![a@, b@]);
        r
    }
}

impl<T: Layer> vstd::std_specs::ops::DivSpecImpl<T> for pcapFile {
    open spec fn obeys_div_spec() -> bool {
        false
    }

    open spec fn div_req(self, rhs: T) -> bool {
        true
    }

    open spec fn div_spec(self, rhs: T) -> LayerStack {
        arbitrary()
    }
}

impl<T: Layer> std::ops::Div<T> for pcapFile {
    type Output = LayerStack;

    /// `a / b`: the stack of the layer `a` and the layer `b` behind it.
    fn div(self, rhs: T) -> (r: LayerStack)
        ensures
            r.layers@ == seq![self.boxed(), rhs.boxed()],
            r@ == seq![self.boxed()@, rhs.boxed()@],
            !r.filled,
    {
        let ghost a = self.boxed();
        let ghost b = rhs.boxed();
        let mut layers: Vec<AnyLayer> = Vec::new();
        layers.push(self.embox());
        layers.push(rhs.embox());
        let r = LayerStack { layers, filled: false };
        assert(r.layers@ =~= seq![a, b]);
        assert(r@ =~= seq![a@, b@]);
        r
    }
}

impl<T: Layer> vstd::std_specs::ops::DivSpecImpl<T> for pcapFileData {
    open spec fn obeys_div_spec() -> bool {
        false
    }

    open spec fn div_req(self, rhs: T) -> bool {
        true
    }

    open spec fn div_spec(self, rhs: T) -> LayerStack {
        arbitrary()
    }
}

impl<T: Layer> std::ops::Div<T> for pcapFileData {
    type Output = LayerStack;

    /// `a / b`: the stack of the layer `a` and the layer `b` behind it.
    fn div(self, rhs: T) -> (r: LayerStack)
        ensures
            r.layers@ == seq![self.boxed(), rhs.boxed()],
            r@ == seq![self.boxed()@, rhs.boxed()@],
            !r.filled,
    {
        let ghost a = self.boxed();
        let ghost b = rhs.boxed();
        let mut layers: Vec<AnyLayer> = Vec::new();
        layers.push(self.embox());
        layers.push(rhs.embox());
        let r = LayerStack { layers, filled: false };
        assert(r.layers@ =~= seq![a, b]);
        assert(r@ =~= seq![a@, b@]);
        r
    }
}

impl<T: Layer> vstd::std_specs::ops::DivSpecImpl<T> for pcapPacket {
    open spec fn obeys_div_spec() -> bool {
        false
    }

    open spec fn div_req(self, rhs: T) -> bool {
        true
    }

    open spec fn div_spec(self, rhs: T) -> LayerStack {
        arbitrary()
    }
}

impl<T: Layer> std::ops::Div<T> for pcapPacket {
    type Output = LayerStack;

    /// `a / b`: the stack of the layer `a` and the layer `b` behind it.
    fn div(self, rhs: T) -> (r: LayerStack)
        ensures
            r.layers@ == seq![self.boxed(), rhs.boxed()],
            r@ == seq![self.boxed()@, rhs.boxed()@],
            !r.filled,
    {
        let ghost a = self.boxed();
        let ghost b = rhs.boxed();
        let mut layers: Vec<AnyLayer> = Vec::new();
        layers.push(self.embox());
        layers.push(rhs.embox());
        let r = LayerStack { layers, filled: false };
        assert(r.layers@ =~= seq![a, b]);
        assert(r@ =~= seq![a@, b@]);
        r
    }
}

} // verus!
