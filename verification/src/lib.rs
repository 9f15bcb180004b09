//! A packet-crafting and packet-parsing engine: a packet is an ordered stack of
//! protocol layers whose fields may be left open, resolved by `fill`, written
//! to wire bytes by `encode` and read back by `decode`.

pub mod addr;
pub mod checksum;
pub mod codec;
pub mod encoding;
pub mod laws;
pub mod layer;
pub mod protocols;
pub mod registry;
pub mod stack;
pub mod text;
pub mod value;
pub mod wire;

pub use addr::Ipv4Address;
pub use addr::MacAddr;
pub use addr::ParseIpv4AddressError;
pub use addr::ParseMacAddrError;
pub use checksum::fold_u32;
pub use checksum::get_inet_sum;
pub use checksum::update_inet_sum;
pub use codec::BinaryBigEndian;
pub use codec::BinaryLittleEndian;
pub use codec::Decode;
pub use codec::Decoder;
pub use codec::Encode;
pub use codec::Encoder;
pub use encoding::EncodingVecVec;
pub use layer::AnyLayer;
pub use layer::Layer;
pub use registry::LayerKind;
pub use registry::Registry;
pub use registry::RegistryName;
pub use stack::LayerStack;
pub use value::CountingRandom;
pub use value::RandomSource;
pub use value::SeededRandom;
pub use value::ThreadRandom;
pub use value::Thunk;
pub use value::Value;
pub use value::ValueParseError;
