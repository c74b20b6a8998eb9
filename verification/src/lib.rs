//! Configuration, packet framing and interface-setup logic for TUN/TAP
//! devices, with the decisions that surround the system calls proved
//! against their contracts.

pub mod address;
pub mod buffer;
pub mod codec;
pub mod configuration;
pub mod dotted;
pub mod error;
pub mod interface;
pub mod platform;
mod sys;

pub use codec::{infer_proto, CodecError, PacketProtocol, TunPacket, TunPacketCodec};
pub use address::{IntoIpv4Addr, IpAddr, Ipv4Addr, Ipv4AddrExt, Ipv6Addr, SockAddr, SocketAddr, SocketAddrV4, SocketAddrV6};
pub use configuration::{Configuration, ConfigurationView, Layer, TunConf};
pub use error::{Error, Result};
