//! Owned fields of an MLDv2 multicast address record and its encoder.
use crate::bytes::{addrs_bytes, be_bytes, lemma_addrs_bytes, push_addrs, push_bytes, u16_to_be_bytes, write_bytes_at};
use super::mld_build_error::{spec_slice_write_space, MldBuildError};
use super::mldv2_multicast_address_record_type::Mldv2MulticastAddressRecordType;
use super::{
    mld_auxiliary_data_len, mld_source_address_count, spec_auxiliary_data_len,
    spec_source_address_count,
};
use vstd::prelude::*;

verus! {

/// Borrowed MLDv2 Multicast Address Record fields plus variable data
/// ([RFC 3810, Section 5.2.4](https://datatracker.ietf.org/doc/html/rfc3810)).
///
/// The record layout is: record type (1 byte), auxiliary data length in 32-bit
/// words (1 byte), number of sources N (2 bytes), multicast address (16 bytes),
/// N source addresses (16 bytes each), then the auxiliary data.
///
/// `Aux Data Len` and `Number of Sources` are derived from
/// [`Mldv2MulticastAddressRecord::auxiliary_data`] and
/// [`Mldv2MulticastAddressRecord::source_addresses`] when writing.
#[derive(Clone, Copy, Debug, Eq, PartialEq, Ord, PartialOrd, Hash)]
pub struct Mldv2MulticastAddressRecord<'a> {
    /// Record type.
    pub record_type: Mldv2MulticastAddressRecordType,
    /// Multicast address this record pertains to.
    pub multicast_address: [u8; 16],
    /// Source addresses following the fixed record bytes.
    pub source_addresses: &'a [[u8; 16]],
    /// Auxiliary data following the source addresses.
    pub auxiliary_data: &'a [u8],
}

impl<'a> Mldv2MulticastAddressRecord<'a> {
    /// Fixed record length before source addresses and auxiliary data.
    pub const FIXED_LEN: usize = 20;

    /// The encoded length of this record, or why it can not be encoded.
    pub open spec fn spec_record_len(self) -> Result<usize, MldBuildError> {
        match spec_source_address_count(self.source_addresses.len()) {
            Err(e) => Err(e),
            Ok(_) => match spec_auxiliary_data_len(self.auxiliary_data.len()) {
                Err(e) => Err(e),
                Ok(_) => Ok(
                    (20 + 16 * self.source_addresses@.len() + self.auxiliary_data@.len()) as usize,
                ),
            },
        }
    }

    /// The first 20 bytes of the encoded record.
    pub open spec fn spec_fixed_bytes(self) -> Seq<u8> {
        seq![self.record_type.0, (self.auxiliary_data@.len() / 4) as u8] + be_bytes(
            self.source_addresses@.len() as u16,
        ) + self.multicast_address@
    }

    /// The encoded record.
    pub open spec fn spec_bytes(self) -> Seq<u8> {
        self.spec_fixed_bytes() + addrs_bytes(self.source_addresses@) + self.auxiliary_data@
    }

    /// The encoded record has the length that [`Self::spec_record_len`] announces.
    pub proof fn lemma_bytes_len(self)
        requires
            self.spec_record_len() is Ok,
        ensures
            self.spec_record_len() == Ok::<usize, MldBuildError>(self.spec_bytes().len() as usize),
            self.spec_bytes().len() == 20 + 16 * self.source_addresses@.len()
                + self.auxiliary_data@.len(),
            self.spec_bytes().len() <= 20 + 16 * 65535 + 1020,
            self.spec_fixed_bytes().len() == 20,
    {
        lemma_addrs_bytes(self.source_addresses@);
    }

    /// Returns the record length in bytes.
    pub fn record_len(&self) -> (r: Result<usize, MldBuildError>)
        ensures
            r == self.spec_record_len(),
    {
        if let Err(e) = mld_source_address_count(self.source_addresses.len()) {
            return Err(e);
        }
        if let Err(e) = mld_auxiliary_data_len(self.auxiliary_data.len()) {
            return Err(e);
        }
        let source_addresses_len = match self.source_addresses.len().checked_mul(16) {
            Some(len) => len,
            None => return Err(MldBuildError::PayloadLenTooBig),
        };
        match Self::FIXED_LEN.checked_add(source_addresses_len) {
            Some(len) => match len.checked_add(self.auxiliary_data.len()) {
                Some(total) => Ok(total),
                None => Err(MldBuildError::PayloadLenTooBig),
            },
            None => Err(MldBuildError::PayloadLenTooBig),
        }
    }

    /// The record length when both counts fit their fields.
    pub(crate) fn record_len_unchecked(&self) -> (r: usize)
        requires
            self.spec_record_len() is Ok,
        ensures
            r == self.spec_bytes().len(),
    {
        proof {
            self.lemma_bytes_len();
        }
        Self::FIXED_LEN + self.source_addresses.len() * 16 + self.auxiliary_data.len()
    }

    /// Write this multicast address record to a byte slice.
    ///
    /// Returns the number of bytes written; the bytes after them are left unchanged.
    pub fn write_to_slice(&self, slice: &mut [u8]) -> (r: Result<usize, MldBuildError>)
        ensures
            match self.spec_record_len() {
                Err(e) => r == Err::<usize, MldBuildError>(e) && final(slice)@ == old(slice)@,
                Ok(len) => if len > old(slice)@.len() {
                    r == Err::<usize, MldBuildError>(
                        spec_slice_write_space(len, old(slice)@.len() as usize),
                    ) && final(slice)@ == old(slice)@
                } else {
                    r == Ok::<usize, MldBuildError>(len) && final(slice)@ == self.spec_bytes()
                        + old(slice)@.subrange(len as int, old(slice)@.len() as int)
                },
            },
    {
        let required_len = match self.record_len() {
            Ok(len) => len,
            Err(e) => return Err(e),
        };
        let slice_len = slice.len();
        if slice_len < required_len {
            return Err(MldBuildError::slice_write_space(required_len, slice_len));
        }
        proof {
            self.lemma_bytes_len();
        }
        self.write_record_to_slice_unchecked(slice, 0);
        assert(old(slice)@.subrange(0, 0) + self.spec_bytes() =~= self.spec_bytes());
        Ok(required_len)
    }

    /// Write this multicast address record to a [`Vec<u8>`].
    pub fn write_to_vec(&self, buffer: &mut Vec<u8>) -> (r: Result<(), MldBuildError>)
        ensures
            match self.spec_record_len() {
                Err(e) => r == Err::<(), MldBuildError>(e) && final(buffer)@ == old(buffer)@,
                Ok(_) => r is Ok && final(buffer)@ == old(buffer)@ + self.spec_bytes(),
            },
    {
        if let Err(e) = self.record_len() {
            return Err(e);
        }
        self.write_record_unchecked(buffer);
        Ok(())
    }

    /// Appends the encoded record; the counts must fit their fields.
    pub(crate) fn write_record_unchecked(&self, buffer: &mut Vec<u8>)
        requires
            self.spec_record_len() is Ok,
        ensures
            final(buffer)@ == old(buffer)@ + self.spec_bytes(),
    {
        let fixed = self.fixed_record_bytes_unchecked();
        push_bytes(buffer, &fixed);
        push_addrs(buffer, self.source_addresses);
        push_bytes(buffer, self.auxiliary_data);
        assert(buffer@ =~= old(buffer)@ + self.spec_bytes());
    }

    /// Writes the encoded record at `pos`; the counts must fit their fields and the
    /// record must fit in the slice.
    pub(crate) fn write_record_to_slice_unchecked(&self, slice: &mut [u8], pos: usize)
        requires
            self.spec_record_len() matches Ok(len) && pos + len <= old(slice)@.len(),
        ensures
            final(slice)@ == old(slice)@.subrange(0, pos as int) + self.spec_bytes()
                + old(slice)@.subrange(pos + self.spec_bytes().len(), old(slice)@.len() as int),
    {
        proof {
            self.lemma_bytes_len();
            lemma_addrs_bytes(self.source_addresses@);
        }
        let ghost orig = slice@;
        let total = slice.len();
        let fixed = self.fixed_record_bytes_unchecked();
        write_bytes_at(slice, pos, &fixed);
        let mut at = pos + 20;
        let mut i: usize = 0;
        while i < self.source_addresses.len()
            invariant
                self.spec_record_len() is Ok,
                self.spec_bytes().len() == 20 + 16 * self.source_addresses@.len()
                    + self.auxiliary_data@.len(),
                pos + self.spec_bytes().len() <= orig.len(),
                orig.len() == total,
                slice@.len() == orig.len(),
                i <= self.source_addresses@.len(),
                at == pos + 20 + 16 * i,
                slice@ == orig.subrange(0, pos as int) + self.spec_fixed_bytes() + addrs_bytes(
                    self.source_addresses@.subrange(0, i as int),
                ) + orig.subrange(at as int, orig.len() as int),
            decreases self.source_addresses@.len() - i,
        {
            proof {
                lemma_addrs_bytes(self.source_addresses@.subrange(0, i as int));
            }
            let addr = &self.source_addresses[i];
            write_bytes_at(slice, at, addr);
            proof {
                let next = self.source_addresses@.subrange(0, i + 1);
                assert(next.drop_last() =~= self.source_addresses@.subrange(0, i as int));
                assert(orig.subrange(at as int, orig.len() as int).subrange(16, orig.len() - at)
                    =~= orig.subrange(at + 16, orig.len() as int));
                assert(slice@ =~= orig.subrange(0, pos as int) + self.spec_fixed_bytes()
                    + addrs_bytes(next) + orig.subrange(at + 16, orig.len() as int));
            }
            at = at + 16;
            i = i + 1;
        }
        assert(self.source_addresses@.subrange(0, i as int) =~= self.source_addresses@);
        write_bytes_at(slice, at, self.auxiliary_data);
        assert(slice@ =~= orig.subrange(0, pos as int) + self.spec_bytes() + orig.subrange(
            pos + self.spec_bytes().len(),
            orig.len() as int,
        ));
    }

    /// The first 20 bytes of the record; the counts must fit their fields.
    fn fixed_record_bytes_unchecked(&self) -> (r: [u8; 20])
        requires
            self.spec_record_len() is Ok,
        ensures
            r@ == self.spec_fixed_bytes(),
    {
        let count = u16_to_be_bytes(self.source_addresses.len() as u16);
        let a = &self.multicast_address;
        let result = [
            self.record_type.0,
            (self.auxiliary_data.len() / 4) as u8,
            count[0],
            count[1],
            a[0],
            a[1],
            a[2],
            a[3],
            a[4],
            a[5],
            a[6],
            a[7],
            a[8],
            a[9],
            a[10],
            a[11],
            a[12],
            a[13],
            a[14],
            a[15],
        ];
        assert(result@ =~= self.spec_fixed_bytes());
        result
    }
}

} // verus!
