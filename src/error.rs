//! Errors of the decoders, the builder and the capture reader.

use vstd::prelude::*;

verus! {

/// The protocol layer that an error refers to.
#[derive(Clone, Copy, Debug, PartialEq, Eq, Structural)]
pub enum Layer {
    Link,
    Network,
    Transport,
}

/// Why a buffer could not be decoded.
#[derive(Clone, Copy, Debug, PartialEq, Eq, Structural)]
pub enum DecodeError {
    /// The buffer holds fewer bytes than the header needs.
    Truncated { layer: Layer, needed: usize, available: usize },
    /// The IP version nibble is not the one of the header being read.
    UnexpectedVersion { layer: Layer, version: u8 },
    /// The header length field is below the protocol minimum of five words.
    HeaderLengthTooSmall { layer: Layer, words: u8 },
    /// The IPv4 total length is smaller than the header itself.
    TotalLengthTooSmall { total_length: u16 },
}

/// Why a header stack could not be serialized.
#[derive(Clone, Copy, Debug, PartialEq, Eq, Structural)]
pub enum BuildError {
    /// The layering is not one of Ethernet? -> IPv4/IPv6 -> TCP/UDP.
    IncompatibleStack,
    /// The headers and the payload do not fit the length fields.
    PayloadTooLarge,
}

/// Why a capture container could not be read.
#[derive(Clone, Copy, Debug, PartialEq, Eq, Structural)]
pub enum CaptureError {
    /// The container is missing, unreadable or its global header is malformed.
    ContainerOpenFailed,
}

} // verus!
