//! Owned fields of an MLDv2 Multicast Listener Query and its encoder.
use crate::bytes::{addrs_bytes, be_bytes, lemma_addrs_bytes, push_addrs, push_bytes, u16_to_be_bytes, write_bytes_at};
use crate::icmpv6::Icmpv6Type;
use super::mld_build_error::{spec_slice_write_space, MldBuildError};
use super::mldv2_query_slice::Mldv2QuerySlice;
use super::{mld_source_address_count, spec_source_address_count};
use vstd::prelude::*;

verus! {

/// Byte 17 of the query payload: the S flag (bit 3) and the low three bits of the
/// robustness variable; the four reserved bits are zero.
pub open spec fn spec_flags_byte(suppress: bool, robustness: u8) -> u8 {
    (if suppress {
        8u8
    } else {
        0u8
    }) | (robustness & 7u8)
}

/// Borrowed fields of an MLDv2 Multicast Listener Query message
/// ([RFC 3810, Section 5.1](https://datatracker.ietf.org/doc/html/rfc3810)).
///
/// The payload after the first 8 ICMPv6 bytes is: multicast address (16 bytes), one
/// byte with 4 reserved bits, the S flag and the 3-bit QRV, the QQIC byte, the number
/// of sources N (2 bytes) and N source addresses. Type, code, checksum, the maximum
/// response code and the reserved field live in the ICMPv6 header
/// ([`Mldv2Query::icmpv6_type`]). The `Number of Sources` field is derived from
/// [`Mldv2Query::source_addresses`] when writing.
#[derive(Clone, Copy, Debug, Eq, PartialEq, Ord, PartialOrd, Hash)]
pub struct Mldv2Query<'a> {
    /// Maximum response code.
    pub maximum_response_code: u16,
    /// Multicast address being queried, or `::` for a general query.
    pub multicast_address: [u8; 16],
    /// Suppress Router-Side Processing flag.
    pub suppress_router_side_processing: bool,
    /// Querier's Robustness Variable. Only the low three bits are encoded.
    pub querier_robustness_variable: u8,
    /// Querier's Query Interval Code.
    pub querier_query_interval_code: u8,
    /// Source addresses following the fixed query bytes.
    pub source_addresses: &'a [[u8; 16]],
}

impl<'a> Mldv2Query<'a> {
    /// Minimum complete MLDv2 query length including the first 8 ICMPv6 bytes.
    pub const MIN_LEN: usize = 28;

    /// Fixed payload length after the first 8 ICMPv6 bytes.
    pub const FIXED_PAYLOAD_LEN: usize = 20;

    /// The payload length, or why the payload can not be encoded.
    pub open spec fn spec_payload_len(self) -> Result<usize, MldBuildError> {
        match spec_source_address_count(self.source_addresses.len()) {
            Err(e) => Err(e),
            Ok(_) => Ok((20 + 16 * self.source_addresses@.len()) as usize),
        }
    }

    /// The first 20 payload bytes.
    pub open spec fn spec_fixed_payload(self) -> Seq<u8> {
        self.multicast_address@ + seq![
            spec_flags_byte(self.suppress_router_side_processing, self.querier_robustness_variable),
            self.querier_query_interval_code,
        ] + be_bytes(self.source_addresses@.len() as u16)
    }

    /// The encoded payload.
    pub open spec fn spec_payload(self) -> Seq<u8> {
        self.spec_fixed_payload() + addrs_bytes(self.source_addresses@)
    }

    /// The encoded payload has the length that [`Self::spec_payload_len`] announces.
    pub proof fn lemma_payload_len(self)
        requires
            self.spec_payload_len() is Ok,
        ensures
            self.spec_payload_len() == Ok::<usize, MldBuildError>(self.spec_payload().len() as usize),
            self.spec_payload().len() == 20 + 16 * self.source_addresses@.len(),
            self.spec_fixed_payload().len() == 20,
    {
        lemma_addrs_bytes(self.source_addresses@);
    }

    /// Returns the ICMPv6 header values of this query: type 130, code 0, the maximum
    /// response code and a zero reserved field.
    pub fn icmpv6_type(&self) -> (r: Icmpv6Type)
        ensures
            r == Icmpv6Type::spec_multicast_listener_query(self.maximum_response_code),
    {
        Icmpv6Type::multicast_listener_query(self.maximum_response_code)
    }

    /// Returns the payload length after the first 8 ICMPv6 bytes.
    pub fn payload_len(&self) -> (r: Result<usize, MldBuildError>)
        ensures
            r == self.spec_payload_len(),
    {
        if let Err(e) = mld_source_address_count(self.source_addresses.len()) {
            return Err(e);
        }
        let source_addresses_len = match self.source_addresses.len().checked_mul(16) {
            Some(len) => len,
            None => return Err(MldBuildError::PayloadLenTooBig),
        };
        match Self::FIXED_PAYLOAD_LEN.checked_add(source_addresses_len) {
            Some(len) => Ok(len),
            None => Err(MldBuildError::PayloadLenTooBig),
        }
    }

    /// Write the MLDv2 query payload to a byte slice.
    ///
    /// Returns the number of bytes written; the bytes after them are left unchanged.
    pub fn write_to_slice(&self, slice: &mut [u8]) -> (r: Result<usize, MldBuildError>)
        ensures
            match self.spec_payload_len() {
                Err(e) => r == Err::<usize, MldBuildError>(e) && final(slice)@ == old(slice)@,
                Ok(len) => if len > old(slice)@.len() {
                    r == Err::<usize, MldBuildError>(
                        spec_slice_write_space(len, old(slice)@.len() as usize),
                    ) && final(slice)@ == old(slice)@
                } else {
                    r == Ok::<usize, MldBuildError>(len) && final(slice)@ == self.spec_payload()
                        + old(slice)@.subrange(len as int, old(slice)@.len() as int)
                },
            },
    {
        let required_len = match self.payload_len() {
            Ok(len) => len,
            Err(e) => return Err(e),
        };
        let slice_len = slice.len();
        if slice_len < required_len {
            return Err(MldBuildError::slice_write_space(required_len, slice_len));
        }
        proof {
            self.lemma_payload_len();
            lemma_addrs_bytes(self.source_addresses@);
        }
        let ghost orig = slice@;
        let fixed = self.fixed_payload_bytes_unchecked();
        write_bytes_at(slice, 0, &fixed);
        let mut at: usize = 20;
        let mut i: usize = 0;
        while i < self.source_addresses.len()
            invariant
                self.spec_payload().len() == 20 + 16 * self.source_addresses@.len(),
                self.spec_payload().len() <= orig.len(),
                orig.len() == slice_len,
                slice@.len() == orig.len(),
                i <= self.source_addresses@.len(),
                at == 20 + 16 * i,
                slice@ == self.spec_fixed_payload() + addrs_bytes(
                    self.source_addresses@.subrange(0, i as int),
                ) + orig.subrange(at as int, orig.len() as int),
            decreases self.source_addresses@.len() - i,
        {
            proof {
                lemma_addrs_bytes(self.source_addresses@.subrange(0, i as int));
            }
            let addr = &self.source_addresses[i];
            write_bytes_at(slice, at, addr);
            proof {
                let next = self.source_addresses@.subrange(0, i + 1);
                assert(next.drop_last() =~= self.source_addresses@.subrange(0, i as int));
                assert(slice@ =~= self.spec_fixed_payload() + addrs_bytes(next) + orig.subrange(
                    at + 16,
                    orig.len() as int,
                ));
            }
            at = at + 16;
            i = i + 1;
        }
        assert(self.source_addresses@.subrange(0, i as int) =~= self.source_addresses@);
        Ok(required_len)
    }

    /// Write the MLDv2 query payload to a [`Vec<u8>`].
    pub fn write_to_vec(&self, buffer: &mut Vec<u8>) -> (r: Result<(), MldBuildError>)
        ensures
            match self.spec_payload_len() {
                Err(e) => r == Err::<(), MldBuildError>(e) && final(buffer)@ == old(buffer)@,
                Ok(_) => r is Ok && final(buffer)@ == old(buffer)@ + self.spec_payload(),
            },
    {
        if let Err(e) = self.payload_len() {
            return Err(e);
        }
        self.write_payload_unchecked(buffer);
        Ok(())
    }

    /// Appends the encoded payload; the source count must fit its field.
    fn write_payload_unchecked(&self, buffer: &mut Vec<u8>)
        requires
            self.spec_payload_len() is Ok,
        ensures
            final(buffer)@ == old(buffer)@ + self.spec_payload(),
    {
        let fixed = self.fixed_payload_bytes_unchecked();
        push_bytes(buffer, &fixed);
        push_addrs(buffer, self.source_addresses);
        assert(buffer@ =~= old(buffer)@ + self.spec_payload());
    }

    /// The first 20 payload bytes; the source count must fit its field.
    fn fixed_payload_bytes_unchecked(&self) -> (r: [u8; 20])
        requires
            self.spec_payload_len() is Ok,
        ensures
            r@ == self.spec_fixed_payload(),
    {
        let count = u16_to_be_bytes(self.source_addresses.len() as u16);
        let flags = (if self.suppress_router_side_processing {
            Mldv2QuerySlice::SUPPRESS_ROUTER_SIDE_PROCESSING_MASK
        } else {
            0
        }) | (self.querier_robustness_variable & Mldv2QuerySlice::QRV_MASK);
        let a = &self.multicast_address;
        let result = [
            a[0],
            a[1],
            a[2],
            a[3],
            a[4],
            a[5],
            a[6],
            a[7],
            a[8],
            a[9],
            a[10],
            a[11],
            a[12],
            a[13],
            a[14],
            a[15],
            flags,
            self.querier_query_interval_code,
            count[0],
            count[1],
        ];
        assert(result@ =~= self.spec_fixed_payload());
        result
    }
}

} // verus!
