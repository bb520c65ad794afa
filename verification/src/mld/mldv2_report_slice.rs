//! Zero-copy view of an MLDv2 Multicast Listener Report (RFC 3810, Section 5.2).
use crate::bytes::{be_u16, u16_at};
use crate::err::{slice_len_error, spec_len_error, LenError};
use super::mldv2_multicast_address_record_slice::{
    lemma_record_parse_bounds, Mldv2MulticastAddressRecordSlice,
};
use super::mldv2_multicast_address_records_iterator::{
    lemma_records_parse_bounds, lemma_records_parse_err_stable, spec_records_parse,
    Mldv2MulticastAddressRecordsIterator,
};
use vstd::prelude::*;

verus! {

/// Minimum length of a report: the 8 ICMPv6 header bytes.
pub const MLDV2_REPORT_MIN_LEN: usize = 8;

/// Outcome of decoding a report from the complete ICMPv6 message `s`: the number of
/// bytes taken by the announced records, or the length error that the decoder reports.
pub open spec fn spec_report_parse(s: Seq<u8>) -> Result<int, LenError> {
    if s.len() < 8 {
        Err(spec_len_error(8, s.len() as int))
    } else {
        match spec_records_parse(s.subrange(8, s.len() as int), be_u16(s, 6) as nat) {
            Ok(l) => Ok(l),
            Err((off, e)) => Err(e.spec_add_offset((8 + off) as usize)),
        }
    }
}

/// Number of record bytes of the decodable report `s`.
pub open spec fn spec_report_records_len(s: Seq<u8>) -> int {
    match spec_report_parse(s) {
        Ok(l) => l,
        Err(_) => 0,
    }
}

/// Borrowed MLDv2 Multicast Listener Report message
/// ([RFC 3810, Section 5.2](https://datatracker.ietf.org/doc/html/rfc3810)).
///
/// Layout: type, code, checksum (4 bytes), reserved (2 bytes), number of multicast
/// address records M (2 bytes), M multicast address records, then any additional data.
#[derive(Debug, Eq, PartialEq)]
pub struct Mldv2ReportSlice<'a> {
    slice: &'a [u8],
    records_len: usize,
}

impl<'a> View for Mldv2ReportSlice<'a> {
    type V = Seq<u8>;

    /// The complete ICMPv6 message bytes.
    closed spec fn view(&self) -> Seq<u8> {
        self.slice@
    }
}

impl<'a> Clone for Mldv2ReportSlice<'a> {
    fn clone(&self) -> (r: Self)
        ensures
            r@ == self@,
    {
        proof {
            use_type_invariant(self);
        }
        Mldv2ReportSlice { slice: self.slice, records_len: self.records_len }
    }
}

impl<'a> Mldv2ReportSlice<'a> {
    #[verifier::type_invariant]
    spec fn decoded(self) -> bool {
        spec_report_parse(self.slice@) == Ok::<int, LenError>(self.records_len as int)
    }

    /// Decode an MLDv2 report from bytes containing a full ICMPv6 message.
    ///
    /// All records announced by the record count field must be complete; bytes after
    /// them are additional data.
    pub fn from_slice(slice: &'a [u8]) -> (r: Result<Self, LenError>)
        ensures
            match spec_report_parse(slice@) {
                Ok(_) => r matches Ok(report) && report@ == slice@,
                Err(e) => r == Err::<Self, LenError>(e),
            },
    {
        if slice.len() < MLDV2_REPORT_MIN_LEN {
            return Err(slice_len_error(MLDV2_REPORT_MIN_LEN, slice.len()));
        }
        let ghost records = slice@.subrange(8, slice@.len() as int);
        let count = u16_at(slice, 6);
        let mut offset: usize = 8;
        let mut rest = &slice[8..slice.len()];
        let mut i: u16 = 0;
        while i < count
            invariant
                slice@.len() >= 8,
                records == slice@.subrange(8, slice@.len() as int),
                count as int == be_u16(slice@, 6),
                i <= count,
                8 <= offset <= slice.len(),
                rest@ == slice@.subrange(offset as int, slice@.len() as int),
                spec_records_parse(records, i as nat) == Ok::<int, (int, LenError)>(offset - 8),
            decreases count - i,
        {
            proof {
                assert(records.subrange(offset - 8, records.len() as int) =~= rest@);
            }
            match Mldv2MulticastAddressRecordSlice::from_slice(rest) {
                Ok(record) => {
                    proof {
                        lemma_record_parse_bounds(rest@);
                    }
                    offset = offset + record.slice().len();
                    rest = &slice[offset..slice.len()];
                },
                Err(err) => {
                    proof {
                        lemma_records_parse_err_stable(records, (i + 1) as nat, count as nat);
                    }
                    return Err(err.add_offset(offset));
                },
            }
            i = i + 1;
        }
        Ok(Self { slice, records_len: offset - 8 })
    }

    /// Returns the complete ICMPv6/MLD report message bytes.
    pub fn slice(&self) -> (r: &'a [u8])
        ensures
            r@ == self@,
    {
        self.slice
    }

    /// Reserved field.
    pub fn reserved(&self) -> (r: u16)
        ensures
            r == be_u16(self@, 4),
    {
        proof {
            use_type_invariant(self);
        }
        u16_at(self.slice, 4)
    }

    /// Number of multicast address records.
    pub fn number_of_multicast_address_records(&self) -> (r: u16)
        ensures
            r == be_u16(self@, 6),
    {
        proof {
            use_type_invariant(self);
        }
        u16_at(self.slice, 6)
    }

    /// Serialized multicast address record bytes.
    pub fn multicast_address_records(&self) -> (r: &'a [u8])
        ensures
            r@ == self@.subrange(8, 8 + spec_report_records_len(self@)),
            spec_records_parse(r@, be_u16(self@, 6) as nat) == Ok::<int, (int, LenError)>(
                r@.len() as int,
            ),
    {
        proof {
            use_type_invariant(self);
            let records = self.slice@.subrange(8, self.slice@.len() as int);
            let n = be_u16(self.slice@, 6) as nat;
            lemma_records_parse_bounds(records, n);
            lemma_records_prefix(records, n, self.records_len as int);
            assert(records.subrange(0, self.records_len as int) =~= self.slice@.subrange(
                8,
                8 + self.records_len,
            ));
            assert(self.slice.len() == self.slice@.len());
        }
        &self.slice[8..8 + self.records_len]
    }

    /// Iterator over multicast address records.
    pub fn multicast_address_records_iterator(&self) -> (r: Mldv2MulticastAddressRecordsIterator<'a>)
        ensures
            r@ == self@.subrange(8, 8 + spec_report_records_len(self@)),
    {
        let records = self.multicast_address_records();
        Mldv2MulticastAddressRecordsIterator::from_slice(
            records,
            Ghost(be_u16(self@, 6) as nat),
        )
    }

    /// Additional data after the advertised records.
    pub fn additional_data(&self) -> (r: &'a [u8])
        ensures
            r@ == self@.subrange(8 + spec_report_records_len(self@), self@.len() as int),
    {
        proof {
            use_type_invariant(self);
            lemma_records_parse_bounds(
                self.slice@.subrange(8, self.slice@.len() as int),
                be_u16(self.slice@, 6) as nat,
            );
            assert(self.slice.len() == self.slice@.len());
        }
        &self.slice[8 + self.records_len..self.slice.len()]
    }
}

/// Records that decode from `s` decode the same way from the prefix of `s` they take.
pub proof fn lemma_records_prefix(s: Seq<u8>, n: nat, t: int)
    requires
        spec_records_parse(s, n) == Ok::<int, (int, LenError)>(t),
    ensures
        0 <= t <= s.len(),
        spec_records_parse(s.subrange(0, t), n) == Ok::<int, (int, LenError)>(t),
    decreases n,
{
    lemma_records_parse_bounds(s, n);
    if n > 0 {
        let m = (n - 1) as nat;
        let off = spec_records_parse(s, m)->Ok_0;
        lemma_records_parse_bounds(s, m);
        lemma_records_prefix_any(s, m, off, t);
        let p = s.subrange(0, t);
        let a = s.subrange(off, s.len() as int);
        let b = p.subrange(off, p.len() as int);
        lemma_record_parse_bounds(a);
        let l = t - off;
        assert(a.subrange(0, l) =~= b);
        lemma_record_parse_bounds(b);
        assert(b.subrange(0, l) =~= b);
    }
}

/// Records that decode from `s` within its first `t` bytes decode the same way from
/// `s.subrange(0, t)`.
proof fn lemma_records_prefix_any(s: Seq<u8>, n: nat, off: int, t: int)
    requires
        spec_records_parse(s, n) == Ok::<int, (int, LenError)>(off),
        off <= t <= s.len(),
    ensures
        spec_records_parse(s.subrange(0, t), n) == Ok::<int, (int, LenError)>(off),
    decreases n,
{
    if n > 0 {
        let m = (n - 1) as nat;
        let prev = spec_records_parse(s, m)->Ok_0;
        lemma_records_parse_bounds(s, m);
        lemma_record_parse_bounds(s.subrange(prev, s.len() as int));
        lemma_records_prefix_any(s, m, prev, t);
        let p = s.subrange(0, t);
        let a = s.subrange(prev, s.len() as int);
        let b = p.subrange(prev, p.len() as int);
        let l = off - prev;
        assert(a.subrange(0, l) =~= b.subrange(0, l));
        lemma_record_parse_bounds(b);
        if b.len() >= 20 {
            assert(b[1] == a[1] && b[2] == a[2] && b[3] == a[3]);
        }
    }
}

} // verus!
