//! Zero-copy view of an MLDv2 Multicast Listener Query (RFC 3810, Section 5.1).
use crate::bytes::{be_u16, ipv6_addr_at, u16_at};
use crate::err::{slice_len_error, spec_len_error, LenError};
use super::mld_source_addresses_iterator::MldSourceAddressesIterator;
use vstd::prelude::*;

verus! {

/// Length of the fixed part of an MLDv2 query after the first 8 ICMPv6 bytes.
pub const MLDV2_QUERY_FIXED_PAYLOAD_LEN: usize = 20;

/// Minimum length of a complete MLDv2 query message.
pub const MLDV2_QUERY_MIN_LEN: usize = 28;

/// Outcome of checking that `s` holds a complete MLDv2 query: the 28 fixed bytes and
/// all source addresses announced by the source count at bytes 26 and 27.
pub open spec fn spec_query_v2_parse(s: Seq<u8>) -> Result<(), LenError> {
    if s.len() < 28 {
        Err(spec_len_error(28, s.len() as int))
    } else if s.len() < 28 + 16 * be_u16(s, 26) {
        Err(spec_len_error(28 + 16 * be_u16(s, 26), s.len() as int))
    } else {
        Ok(())
    }
}

/// Borrowed MLDv2 Multicast Listener Query message
/// ([RFC 3810, Section 5.1](https://datatracker.ietf.org/doc/html/rfc3810)).
///
/// Layout: type, code, checksum (4 bytes), maximum response code (2 bytes),
/// reserved (2 bytes), multicast address (16 bytes), one byte holding 4 reserved
/// bits, the S flag and the 3-bit QRV, the QQIC byte, number of sources N (2 bytes),
/// N source addresses (16 bytes each), then any additional data.
#[derive(Debug, Eq, PartialEq)]
pub struct Mldv2QuerySlice<'a> {
    slice: &'a [u8],
}

impl<'a> View for Mldv2QuerySlice<'a> {
    type V = Seq<u8>;

    /// The complete ICMPv6 message bytes.
    closed spec fn view(&self) -> Seq<u8> {
        self.slice@
    }
}

impl<'a> Clone for Mldv2QuerySlice<'a> {
    fn clone(&self) -> (r: Self)
        ensures
            r@ == self@,
    {
        proof {
            use_type_invariant(self);
        }
        Mldv2QuerySlice { slice: self.slice }
    }
}

impl<'a> Mldv2QuerySlice<'a> {
    /// Mask for the Suppress Router-Side Processing flag.
    pub const SUPPRESS_ROUTER_SIDE_PROCESSING_MASK: u8 = 8;

    /// Mask for the QRV field.
    pub const QRV_MASK: u8 = 7;

    #[verifier::type_invariant]
    spec fn complete(self) -> bool {
        spec_query_v2_parse(self.slice@) is Ok
    }

    /// Decode an MLDv2 query from bytes containing a full ICMPv6 message.
    pub fn from_slice(slice: &'a [u8]) -> (r: Result<Self, LenError>)
        ensures
            match spec_query_v2_parse(slice@) {
                Ok(_) => r matches Ok(query) && query@ == slice@,
                Err(e) => r == Err::<Self, LenError>(e),
            },
    {
        if slice.len() < MLDV2_QUERY_MIN_LEN {
            return Err(slice_len_error(MLDV2_QUERY_MIN_LEN, slice.len()));
        }
        let required_len = MLDV2_QUERY_MIN_LEN + (u16_at(slice, 26) as usize) * 16;
        if slice.len() < required_len {
            return Err(slice_len_error(required_len, slice.len()));
        }
        Ok(Self { slice })
    }

    /// Returns the complete ICMPv6/MLD query message bytes.
    pub fn slice(&self) -> (r: &'a [u8])
        ensures
            r@ == self@,
    {
        self.slice
    }

    /// Maximum response code.
    pub fn maximum_response_code(&self) -> (r: u16)
        ensures
            r == be_u16(self@, 4),
    {
        proof {
            use_type_invariant(self);
        }
        u16_at(self.slice, 4)
    }

    /// Reserved field after the maximum response code.
    pub fn reserved(&self) -> (r: u16)
        ensures
            r == be_u16(self@, 6),
    {
        proof {
            use_type_invariant(self);
        }
        u16_at(self.slice, 6)
    }

    /// Multicast address being queried, or `::` for a general query.
    pub fn multicast_address(&self) -> (r: [u8; 16])
        ensures
            r@ == self@.subrange(8, 24),
    {
        proof {
            use_type_invariant(self);
        }
        ipv6_addr_at(self.slice, 8)
    }

    /// Raw byte containing the reserved bits, S flag, and QRV field.
    pub fn resv_s_qrv(&self) -> (r: u8)
        ensures
            r == self@[24],
    {
        proof {
            use_type_invariant(self);
        }
        self.slice[24]
    }

    /// Suppress Router-Side Processing flag.
    pub fn suppress_router_side_processing(&self) -> (r: bool)
        ensures
            r == (self@[24] & 8 != 0),
    {
        0 != self.resv_s_qrv() & Self::SUPPRESS_ROUTER_SIDE_PROCESSING_MASK
    }

    /// Querier's Robustness Variable.
    pub fn querier_robustness_variable(&self) -> (r: u8)
        ensures
            r == self@[24] & 7,
    {
        self.resv_s_qrv() & Self::QRV_MASK
    }

    /// Querier's Query Interval Code.
    pub fn querier_query_interval_code(&self) -> (r: u8)
        ensures
            r == self@[25],
    {
        proof {
            use_type_invariant(self);
        }
        self.slice[25]
    }

    /// Number of source addresses in this query.
    pub fn number_of_sources(&self) -> (r: u16)
        ensures
            r == be_u16(self@, 26),
    {
        proof {
            use_type_invariant(self);
        }
        u16_at(self.slice, 26)
    }

    /// Source address bytes.
    pub fn source_addresses(&self) -> (r: &'a [u8])
        ensures
            r@ == self@.subrange(28, 28 + 16 * be_u16(self@, 26)),
    {
        proof {
            use_type_invariant(self);
        }
        let len = (self.number_of_sources() as usize) * 16;
        &self.slice[28..28 + len]
    }

    /// Iterator over source addresses.
    pub fn source_addresses_iterator(&self) -> (r: MldSourceAddressesIterator<'a>)
        ensures
            r@ == self@.subrange(28, 28 + 16 * be_u16(self@, 26)),
    {
        let sources = self.source_addresses();
        proof {
            use_type_invariant(self);
            let n = be_u16(self@, 26);
            assert(sources@.len() == 16 * n);
            assert((16 * n) % 16 == 0) by (nonlinear_arith);
        }
        MldSourceAddressesIterator::from_aligned_slice(sources)
    }

    /// Additional data after the source address vector.
    pub fn additional_data(&self) -> (r: &'a [u8])
        ensures
            r@ == self@.subrange(28 + 16 * be_u16(self@, 26), self@.len() as int),
    {
        proof {
            use_type_invariant(self);
        }
        let start = 28 + (self.number_of_sources() as usize) * 16;
        &self.slice[start..self.slice.len()]
    }
}

} // verus!
