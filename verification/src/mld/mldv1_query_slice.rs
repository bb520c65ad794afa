//! Zero-copy view of an MLDv1 Multicast Listener Query (RFC 2710, Section 3).
use crate::bytes::{be_u16, ipv6_addr_at, u16_at};
use super::mldv1_query::Mldv1Query;
use vstd::prelude::*;

verus! {

/// Borrowed MLDv1 Multicast Listener Query message
/// ([RFC 2710, Section 3](https://datatracker.ietf.org/doc/html/rfc2710)).
///
/// Layout: type, code, checksum (4 bytes), maximum response delay (2 bytes),
/// reserved (2 bytes), multicast address (16 bytes).
#[derive(Debug, Eq, PartialEq)]
pub struct Mldv1QuerySlice<'a> {
    slice: &'a [u8],
}

impl<'a> View for Mldv1QuerySlice<'a> {
    type V = Seq<u8>;

    /// The complete ICMPv6 message bytes.
    closed spec fn view(&self) -> Seq<u8> {
        self.slice@
    }
}

impl<'a> Clone for Mldv1QuerySlice<'a> {
    fn clone(&self) -> (r: Self)
        ensures
            r@ == self@,
    {
        proof {
            use_type_invariant(self);
        }
        Mldv1QuerySlice { slice: self.slice }
    }
}

impl<'a> Mldv1QuerySlice<'a> {
    #[verifier::type_invariant]
    spec fn complete(self) -> bool {
        self.slice@.len() >= 24
    }

    /// View of a message of at least 24 bytes.
    pub(crate) fn new(slice: &'a [u8]) -> (r: Self)
        requires
            slice@.len() >= 24,
        ensures
            r@ == slice@,
    {
        Mldv1QuerySlice { slice }
    }

    /// Returns the complete ICMPv6/MLD query message bytes.
    pub fn slice(&self) -> (r: &'a [u8])
        ensures
            r@ == self@,
    {
        self.slice
    }

    /// Maximum response delay in milliseconds.
    pub fn maximum_response_delay(&self) -> (r: u16)
        ensures
            r == be_u16(self@, 4),
    {
        proof {
            use_type_invariant(self);
        }
        u16_at(self.slice, 4)
    }

    /// Reserved field after the maximum response delay.
    pub fn reserved(&self) -> (r: u16)
        ensures
            r == be_u16(self@, 6),
    {
        proof {
            use_type_invariant(self);
        }
        u16_at(self.slice, 6)
    }

    /// Multicast address being queried, or `::` for a general query.
    pub fn multicast_address(&self) -> (r: [u8; 16])
        ensures
            r@ == self@.subrange(8, 24),
    {
        proof {
            use_type_invariant(self);
        }
        ipv6_addr_at(self.slice, 8)
    }

    /// Convert to owned fixed fields.
    pub fn to_query(&self) -> (r: Mldv1Query)
        ensures
            r.maximum_response_delay == be_u16(self@, 4),
            r.multicast_address@ == self@.subrange(8, 24),
    {
        Mldv1Query {
            maximum_response_delay: self.maximum_response_delay(),
            multicast_address: self.multicast_address(),
        }
    }
}

} // verus!
