//! Version 1 Multicast Listener Done message (RFC 2710, Section 3).
use crate::bytes::{be_u32, ipv6_addr_at, u32_at};
use crate::err::{slice_len_error, LenError};
use super::mldv1_query::{spec_v1_len_check, Mldv1Query};
use vstd::prelude::*;

verus! {

/// Owned fixed fields of an MLDv1 Multicast Listener Done message.
#[derive(Clone, Copy, Debug, Eq, PartialEq, Ord, PartialOrd, Hash)]
pub struct Mldv1Done {
    /// Multicast address no longer being listened to.
    pub multicast_address: [u8; 16],
}

/// Borrowed MLDv1 Multicast Listener Done message
/// ([RFC 2710, Section 3](https://datatracker.ietf.org/doc/html/rfc2710)).
///
/// Layout: type, code, checksum (4 bytes), maximum response delay (2 bytes, unused),
/// reserved (2 bytes), multicast address (16 bytes), then any additional data.
#[derive(Debug, Eq, PartialEq)]
pub struct Mldv1DoneSlice<'a> {
    slice: &'a [u8],
}

impl<'a> View for Mldv1DoneSlice<'a> {
    type V = Seq<u8>;

    /// The complete ICMPv6 message bytes.
    closed spec fn view(&self) -> Seq<u8> {
        self.slice@
    }
}

impl<'a> Clone for Mldv1DoneSlice<'a> {
    fn clone(&self) -> (r: Self)
        ensures
            r@ == self@,
    {
        proof {
            use_type_invariant(self);
        }
        Mldv1DoneSlice { slice: self.slice }
    }
}

impl<'a> Mldv1DoneSlice<'a> {
    #[verifier::type_invariant]
    spec fn complete(self) -> bool {
        self.slice@.len() >= 24
    }

    /// Decode an MLDv1 done message from bytes containing a full ICMPv6 message.
    pub fn from_slice(slice: &'a [u8]) -> (r: Result<Self, LenError>)
        ensures
            match spec_v1_len_check(slice@) {
                Ok(_) => r matches Ok(message) && message@ == slice@,
                Err(e) => r == Err::<Self, LenError>(e),
            },
    {
        if slice.len() < Mldv1Query::LEN {
            Err(slice_len_error(Mldv1Query::LEN, slice.len()))
        } else {
            Ok(Self { slice })
        }
    }

    /// Returns the complete ICMPv6/MLD done message bytes.
    pub fn slice(&self) -> (r: &'a [u8])
        ensures
            r@ == self@,
    {
        self.slice
    }

    /// Reserved field: bytes 5 to 8 (maximum response delay and reserved) as one
    /// big-endian value.
    pub fn reserved(&self) -> (r: u32)
        ensures
            r == be_u32(self@, 4),
    {
        proof {
            use_type_invariant(self);
        }
        u32_at(self.slice, 4)
    }

    /// Multicast address no longer being listened to.
    pub fn multicast_address(&self) -> (r: [u8; 16])
        ensures
            r@ == self@.subrange(8, 24),
    {
        proof {
            use_type_invariant(self);
        }
        ipv6_addr_at(self.slice, 8)
    }

    /// Additional data after the MLDv1 fields.
    pub fn additional_data(&self) -> (r: &'a [u8])
        ensures
            r@ == self@.subrange(24, self@.len() as int),
    {
        proof {
            use_type_invariant(self);
        }
        &self.slice[Mldv1Query::LEN..self.slice.len()]
    }

    /// Convert to owned fixed fields.
    pub fn to_done(&self) -> (r: Mldv1Done)
        ensures
            r.multicast_address@ == self@.subrange(8, 24),
    {
        Mldv1Done { multicast_address: self.multicast_address() }
    }
}

} // verus!
