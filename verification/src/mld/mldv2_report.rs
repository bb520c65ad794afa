//! Owned fields of an MLDv2 Multicast Listener Report and its encoder.
use crate::icmpv6::Icmpv6Type;
use super::mld_build_error::{spec_slice_write_space, MldBuildError};
use super::mldv2_multicast_address_record::Mldv2MulticastAddressRecord;
use super::{mld_multicast_address_record_count, spec_multicast_address_record_count};
use vstd::prelude::*;

verus! {

/// Total encoded length of `records`, or the first reason why they can not be encoded.
pub open spec fn spec_records_payload_len(records: Seq<Mldv2MulticastAddressRecord>) -> Result<
    int,
    MldBuildError,
>
    decreases records.len(),
{
    if records.len() == 0 {
        Ok(0)
    } else {
        match spec_records_payload_len(records.drop_last()) {
            Err(e) => Err(e),
            Ok(len) => match records.last().spec_record_len() {
                Err(e) => Err(e),
                Ok(record_len) => if len + record_len > usize::MAX {
                    Err(MldBuildError::PayloadLenTooBig)
                } else {
                    Ok(len + record_len)
                },
            },
        }
    }
}

/// The encoded records, one after the other.
pub open spec fn spec_records_bytes(records: Seq<Mldv2MulticastAddressRecord>) -> Seq<u8>
    decreases records.len(),
{
    if records.len() == 0 {
        Seq::empty()
    } else {
        spec_records_bytes(records.drop_last()) + records.last().spec_bytes()
    }
}

/// Records whose total length is known encode to that many bytes, and each of them
/// can be encoded.
pub proof fn lemma_records_payload_len(records: Seq<Mldv2MulticastAddressRecord>)
    requires
        spec_records_payload_len(records) is Ok,
    ensures
        spec_records_payload_len(records) == Ok::<int, MldBuildError>(
            spec_records_bytes(records).len() as int,
        ),
        spec_records_bytes(records).len() <= usize::MAX,
        forall|i: int| 0 <= i < records.len() ==> (#[trigger] records[i]).spec_record_len() is Ok,
    decreases records.len(),
{
    if records.len() > 0 {
        let init = records.drop_last();
        lemma_records_payload_len(init);
        records.last().lemma_bytes_len();
        assert forall|i: int| 0 <= i < records.len() implies (#[trigger] records[i]).spec_record_len() is Ok by {
            if i < records.len() - 1 {
                assert(init[i] == records[i]);
            }
        }
    }
}

/// Once a prefix of the records can not be encoded, neither can the whole sequence,
/// for the same reason.
pub proof fn lemma_records_payload_len_err_stable(
    records: Seq<Mldv2MulticastAddressRecord>,
    k: int,
)
    requires
        0 <= k <= records.len(),
        spec_records_payload_len(records.subrange(0, k)) is Err,
    ensures
        spec_records_payload_len(records) == spec_records_payload_len(records.subrange(0, k)),
    decreases records.len() - k,
{
    if k == records.len() {
        assert(records.subrange(0, k) =~= records);
    } else {
        let init = records.drop_last();
        assert(init.subrange(0, k) =~= records.subrange(0, k));
        lemma_records_payload_len_err_stable(init, k);
    }
}

/// The encoded bytes of a prefix of the records are no longer than those of all records.
pub proof fn lemma_records_bytes_prefix_len(records: Seq<Mldv2MulticastAddressRecord>, k: int)
    requires
        0 <= k <= records.len(),
    ensures
        spec_records_bytes(records.subrange(0, k)).len() <= spec_records_bytes(records).len(),
    decreases records.len() - k,
{
    if k == records.len() {
        assert(records.subrange(0, k) =~= records);
    } else {
        let init = records.drop_last();
        assert(init.subrange(0, k) =~= records.subrange(0, k));
        lemma_records_bytes_prefix_len(init, k);
    }
}

/// Borrowed MLDv2 Multicast Listener Report fields plus records
/// ([RFC 3810, Section 5.2](https://datatracker.ietf.org/doc/html/rfc3810)).
///
/// The payload after the first 8 ICMPv6 bytes is the sequence of multicast address
/// records. Type, code, checksum, the reserved field and `Nr of Mcast Address Records`
/// live in the ICMPv6 header ([`Mldv2Report::icmpv6_type`]); the record count is
/// derived from [`Mldv2Report::multicast_address_records`] when writing.
#[derive(Clone, Copy, Debug, Eq, PartialEq, Ord, PartialOrd, Hash)]
pub struct Mldv2Report<'a> {
    /// Multicast address records following the first 8 ICMPv6 bytes.
    pub multicast_address_records: &'a [Mldv2MulticastAddressRecord<'a>],
}

impl<'a> Mldv2Report<'a> {
    /// Minimum complete MLDv2 report length including the first 8 ICMPv6 bytes.
    pub const MIN_LEN: usize = 8;

    /// The payload length, or why the payload can not be encoded.
    pub open spec fn spec_payload_len(self) -> Result<usize, MldBuildError> {
        match spec_multicast_address_record_count(self.multicast_address_records.len()) {
            Err(e) => Err(e),
            Ok(_) => match spec_records_payload_len(self.multicast_address_records@) {
                Err(e) => Err(e),
                Ok(len) => Ok(len as usize),
            },
        }
    }

    /// The encoded payload.
    pub open spec fn spec_payload(self) -> Seq<u8> {
        spec_records_bytes(self.multicast_address_records@)
    }

    /// Returns the ICMPv6 header values of this report: type 143, code 0, a zero
    /// reserved field and the number of records.
    pub fn icmpv6_type(&self) -> (r: Result<Icmpv6Type, MldBuildError>)
        ensures
            match spec_multicast_address_record_count(self.multicast_address_records.len()) {
                Ok(count) => r == Ok::<Icmpv6Type, MldBuildError>(
                    Icmpv6Type::spec_multicast_listener_report_v2(count),
                ),
                Err(e) => r == Err::<Icmpv6Type, MldBuildError>(e),
            },
    {
        match mld_multicast_address_record_count(self.multicast_address_records.len()) {
            Ok(count) => Ok(Icmpv6Type::multicast_listener_report_v2(count)),
            Err(e) => Err(e),
        }
    }

    /// Returns the payload length after the first 8 ICMPv6 bytes.
    pub fn payload_len(&self) -> (r: Result<usize, MldBuildError>)
        ensures
            r == self.spec_payload_len(),
    {
        if let Err(e) = mld_multicast_address_record_count(self.multicast_address_records.len()) {
            return Err(e);
        }
        let records = self.multicast_address_records;
        let mut len: usize = 0;
        let mut i: usize = 0;
        while i < records.len()
            invariant
                i <= records@.len(),
                records == self.multicast_address_records,
                spec_multicast_address_record_count(self.multicast_address_records.len()) is Ok,
                spec_records_payload_len(records@.subrange(0, i as int)) == Ok::<
                    int,
                    MldBuildError,
                >(len as int),
            decreases records@.len() - i,
        {
            let record = &records[i];
            proof {
                assert(records@.subrange(0, i + 1).last() == records@[i as int]);
                assert(records@.subrange(0, i + 1).drop_last() =~= records@.subrange(0, i as int));
            }
            let record_len = match record.record_len() {
                Ok(l) => l,
                Err(e) => {
                    proof {
                        assert(records@.subrange(0, i + 1).drop_last() =~= records@.subrange(
                            0,
                            i as int,
                        ));
                        lemma_records_payload_len_err_stable(records@, i + 1);
                    }
                    return Err(e);
                },
            };
            proof {
                assert(records@.subrange(0, i + 1).drop_last() =~= records@.subrange(0, i as int));
            }
            len = match len.checked_add(record_len) {
                Some(sum) => sum,
                None => {
                    proof {
                        lemma_records_payload_len_err_stable(records@, i + 1);
                    }
                    return Err(MldBuildError::PayloadLenTooBig);
                },
            };
            i = i + 1;
        }
        proof {
            assert(records@.subrange(0, i as int) =~= records@);
        }
        Ok(len)
    }

    /// Write the MLDv2 report payload to a byte slice.
    ///
    /// Returns the number of bytes written; the bytes after them are left unchanged.
    pub fn write_to_slice(&self, slice: &mut [u8]) -> (r: Result<usize, MldBuildError>)
        ensures
            match self.spec_payload_len() {
                Err(e) => r == Err::<usize, MldBuildError>(e) && final(slice)@ == old(slice)@,
                Ok(len) => if len > old(slice)@.len() {
                    r == Err::<usize, MldBuildError>(
                        spec_slice_write_space(len, old(slice)@.len() as usize),
                    ) && final(slice)@ == old(slice)@
                } else {
                    r == Ok::<usize, MldBuildError>(len) && final(slice)@ == self.spec_payload()
                        + old(slice)@.subrange(len as int, old(slice)@.len() as int)
                },
            },
    {
        let required_len = match self.payload_len() {
            Ok(len) => len,
            Err(e) => return Err(e),
        };
        let slice_len = slice.len();
        if slice_len < required_len {
            return Err(MldBuildError::slice_write_space(required_len, slice_len));
        }
        let records = self.multicast_address_records;
        proof {
            lemma_records_payload_len(records@);
        }
        let ghost orig = slice@;
        let mut pos: usize = 0;
        let mut i: usize = 0;
        while i < records.len()
            invariant
                i <= records@.len(),
                spec_records_payload_len(records@) is Ok,
                forall|j: int| 0 <= j < records@.len() ==> (#[trigger] records@[j]).spec_record_len() is Ok,
                spec_records_bytes(records@).len() <= orig.len(),
                orig.len() == slice_len,
                slice@.len() == orig.len(),
                pos == spec_records_bytes(records@.subrange(0, i as int)).len(),
                slice@ == spec_records_bytes(records@.subrange(0, i as int)) + orig.subrange(
                    pos as int,
                    orig.len() as int,
                ),
            decreases records@.len() - i,
        {
            let record = &records[i];
            let ghost next = records@.subrange(0, i + 1);
            proof {
                assert(next.drop_last() =~= records@.subrange(0, i as int));
                assert(next.last() == records@[i as int]);
                lemma_records_bytes_prefix_len(records@, i + 1);
                record.lemma_bytes_len();
            }
            record.write_record_to_slice_unchecked(slice, pos);
            proof {
                assert(slice@ =~= spec_records_bytes(next) + orig.subrange(
                    pos + record.spec_bytes().len(),
                    orig.len() as int,
                ));
            }
            pos = pos + record.record_len_unchecked();
            i = i + 1;
        }
        proof {
            assert(records@.subrange(0, i as int) =~= records@);
        }
        Ok(required_len)
    }

    /// Write the MLDv2 report payload to a [`Vec<u8>`].
    pub fn write_to_vec(&self, buffer: &mut Vec<u8>) -> (r: Result<(), MldBuildError>)
        ensures
            match self.spec_payload_len() {
                Err(e) => r == Err::<(), MldBuildError>(e) && final(buffer)@ == old(buffer)@,
                Ok(_) => r is Ok && final(buffer)@ == old(buffer)@ + self.spec_payload(),
            },
    {
        if let Err(e) = self.payload_len() {
            return Err(e);
        }
        self.write_payload_unchecked(buffer);
        Ok(())
    }

    /// Appends the encoded records; every record must be encodable.
    fn write_payload_unchecked(&self, buffer: &mut Vec<u8>)
        requires
            self.spec_payload_len() is Ok,
        ensures
            final(buffer)@ == old(buffer)@ + self.spec_payload(),
    {
        let records = self.multicast_address_records;
        proof {
            lemma_records_payload_len(records@);
        }
        let mut i: usize = 0;
        while i < records.len()
            invariant
                i <= records@.len(),
                forall|j: int| 0 <= j < records@.len() ==> (#[trigger] records@[j]).spec_record_len() is Ok,
                buffer@ == old(buffer)@ + spec_records_bytes(records@.subrange(0, i as int)),
            decreases records@.len() - i,
        {
            let record = &records[i];
            proof {
                let next = records@.subrange(0, i + 1);
                assert(next.drop_last() =~= records@.subrange(0, i as int));
                assert(next.last() == records@[i as int]);
            }
            record.write_record_unchecked(buffer);
            proof {
                assert(buffer@ =~= old(buffer)@ + spec_records_bytes(records@.subrange(0, i + 1)));
            }
            i = i + 1;
        }
        proof {
            assert(records@.subrange(0, i as int) =~= records@);
        }
    }
}

} // verus!
