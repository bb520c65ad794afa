//! Owned fields of an MLDv1 Multicast Listener Query (RFC 2710, Section 3).
use crate::err::{spec_len_error, LenError};
use crate::icmpv6::Icmpv6Type;
use vstd::prelude::*;

verus! {

/// Outcome of checking that `s` holds the 24 bytes of an MLDv1 message.
pub open spec fn spec_v1_len_check(s: Seq<u8>) -> Result<(), LenError> {
    if s.len() < 24 {
        Err(spec_len_error(24, s.len() as int))
    } else {
        Ok(())
    }
}

/// Owned fixed fields of an MLDv1 Multicast Listener Query message
/// ([RFC 2710, Section 3](https://datatracker.ietf.org/doc/html/rfc2710)).
///
/// Layout: type, code, checksum (4 bytes), maximum response delay (2 bytes),
/// reserved (2 bytes), multicast address (16 bytes). Type, code and checksum are
/// represented by [`crate::icmpv6::Icmpv6Header`]; this struct holds the
/// query-specific fields.
#[derive(Clone, Copy, Debug, Eq, PartialEq, Ord, PartialOrd, Hash)]
pub struct Mldv1Query {
    /// Maximum response delay in milliseconds.
    pub maximum_response_delay: u16,
    /// Multicast address being queried, or `::` for a general query.
    pub multicast_address: [u8; 16],
}

impl Mldv1Query {
    /// Complete MLDv1 query length including the first 8 ICMPv6 bytes.
    pub const LEN: usize = 24;

    /// Payload length after the first 8 ICMPv6 bytes.
    pub const PAYLOAD_LEN: usize = 16;

    /// Returns the ICMPv6 header values of this query: type 130, code 0, the maximum
    /// response delay and a zero reserved field.
    pub fn icmpv6_type(&self) -> (r: Icmpv6Type)
        ensures
            r == Icmpv6Type::spec_multicast_listener_query(self.maximum_response_delay),
    {
        Icmpv6Type::multicast_listener_query(self.maximum_response_delay)
    }

    /// Returns the payload bytes represented by this struct (the multicast address).
    pub fn to_bytes(&self) -> (r: [u8; 16])
        ensures
            r == self.multicast_address,
    {
        self.multicast_address
    }
}

} // verus!
