//! Multicast Listener Discovery (MLD) messages carried in ICMPv6:
//! zero-copy slices for decoding and owned field structs for encoding.
pub mod bytes;
pub mod err;
pub mod mld;
pub mod icmpv6;
pub mod text;
