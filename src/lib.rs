//! Decoding and encoding of layered network packet headers (Ethernet II,
//! IPv4, IPv6, TCP, UDP, ICMPv6), a layered packet decoder, a packet builder
//! and a reader for the classic packet-capture container.
//!
//! The byte-level header codecs are provided by `etherparse`; each call into
//! it goes through a small wrapper whose contract states the wire layout.

pub mod wire;
pub mod error;
pub mod ethernet;
pub mod ipv4;
pub mod ipv6;
pub mod tcp;
pub mod udp;
pub mod icmpv6;
pub mod packet;
pub mod builder;
pub mod capture;
