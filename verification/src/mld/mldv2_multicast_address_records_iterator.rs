//! The record list of an MLDv2 report and an iterator over it.
use crate::err::LenError;
use super::mldv2_multicast_address_record_slice::{
    lemma_record_parse_bounds, spec_record_parse, Mldv2MulticastAddressRecordSlice,
};
use vstd::prelude::*;

verus! {

/// Outcome of decoding `n` consecutive records from the start of `s`: the number of
/// bytes they take, or the offset of the first record that fails with its error.
pub open spec fn spec_records_parse(s: Seq<u8>, n: nat) -> Result<int, (int, LenError)>
    decreases n,
{
    if n == 0 {
        Ok(0)
    } else {
        match spec_records_parse(s, (n - 1) as nat) {
            Ok(off) => match spec_record_parse(s.subrange(off, s.len() as int)) {
                Ok(l) => Ok(off + l),
                Err(e) => Err((off, e)),
            },
            Err(x) => Err(x),
        }
    }
}

/// One call of `next` on the remaining record bytes `rest`: the bytes of the returned
/// record (none once no bytes are left) and the bytes that remain afterwards.
pub open spec fn spec_record_step(rest: Seq<u8>) -> (Option<Seq<u8>>, Seq<u8>) {
    if rest.len() == 0 {
        (None, rest)
    } else {
        match spec_record_parse(rest) {
            Ok(l) => (Some(rest.subrange(0, l)), rest.subrange(l, rest.len() as int)),
            Err(_) => (None, rest),
        }
    }
}

/// The remaining record bytes after `calls` calls of `next`, starting from `records`.
pub open spec fn spec_record_state(records: Seq<u8>, calls: nat) -> Seq<u8>
    decreases calls,
{
    if calls == 0 {
        records
    } else {
        spec_record_step(spec_record_state(records, (calls - 1) as nat)).1
    }
}

/// Start offset of record `i` within the record bytes `s` (0 if the records
/// before it do not decode).
pub open spec fn spec_record_offset(s: Seq<u8>, i: nat) -> int {
    match spec_records_parse(s, i) {
        Ok(off) => off,
        Err(_) => 0,
    }
}

/// `n` records take between `20 * n` and `s.len()` bytes.
pub proof fn lemma_records_parse_bounds(s: Seq<u8>, n: nat)
    ensures
        spec_records_parse(s, n) matches Ok(off) ==> 20 * n <= off <= s.len(),
    decreases n,
{
    if n > 0 {
        lemma_records_parse_bounds(s, (n - 1) as nat);
        if let Ok(off) = spec_records_parse(s, (n - 1) as nat) {
            lemma_record_parse_bounds(s.subrange(off, s.len() as int));
        }
    }
}

/// Once a record fails to decode, decoding more records fails with the same error.
pub proof fn lemma_records_parse_err_stable(s: Seq<u8>, k: nat, n: nat)
    requires
        k <= n,
        spec_records_parse(s, k) is Err,
    ensures
        spec_records_parse(s, n) == spec_records_parse(s, k),
    decreases n - k,
{
    if k < n {
        lemma_records_parse_err_stable(s, k, (n - 1) as nat);
    }
}

/// Decoding `n` records is decoding the first one and then `n - 1` records after it.
pub proof fn lemma_records_parse_front(s: Seq<u8>, n: nat)
    requires
        n >= 1,
        spec_records_parse(s, n) is Ok,
    ensures
        spec_record_parse(s) is Ok,
        spec_records_parse(s, n) matches Ok(t) && spec_record_parse(s) matches Ok(l)
            && spec_records_parse(s.subrange(l, s.len() as int), (n - 1) as nat) == Ok::<
            int,
            (int, LenError),
        >(t - l),
    decreases n,
{
    lemma_record_parse_bounds(s);
    if n == 1 {
        assert(s.subrange(0, s.len() as int) =~= s);
    } else {
        let m = (n - 1) as nat;
        lemma_records_parse_front(s, m);
        let l = spec_record_parse(s)->Ok_0;
        let rest = s.subrange(l, s.len() as int);
        let off = spec_records_parse(s, m)->Ok_0;
        lemma_records_parse_bounds(rest, (m - 1) as nat);
        lemma_records_parse_bounds(s, m);
        assert(rest.subrange(off - l, rest.len() as int) =~= s.subrange(off, s.len() as int));
    }
}

/// The number of records that exactly fill `s` is unique.
pub proof fn lemma_records_count_unique(s: Seq<u8>, n: nat, m: nat)
    requires
        spec_records_parse(s, n) == Ok::<int, (int, LenError)>(s.len() as int),
        spec_records_parse(s, m) == Ok::<int, (int, LenError)>(s.len() as int),
    ensures
        n == m,
{
    if n < m {
        lemma_records_count_unique_helper(s, n, m);
    } else if m < n {
        lemma_records_count_unique_helper(s, m, n);
    }
}

proof fn lemma_records_count_unique_helper(s: Seq<u8>, n: nat, m: nat)
    requires
        n < m,
        spec_records_parse(s, n) == Ok::<int, (int, LenError)>(s.len() as int),
    ensures
        spec_records_parse(s, m) is Err,
{
    let n1 = (n + 1) as nat;
    assert(s.subrange(s.len() as int, s.len() as int).len() == 0);
    assert(spec_records_parse(s, n1) is Err);
    lemma_records_parse_err_stable(s, n1, m);
}

/// Iterator over MLDv2 multicast address records.
#[derive(Debug, Eq, PartialEq)]
pub struct Mldv2MulticastAddressRecordsIterator<'a> {
    records: &'a [u8],
}

impl<'a> View for Mldv2MulticastAddressRecordsIterator<'a> {
    type V = Seq<u8>;

    /// The bytes of the records not yet returned.
    closed spec fn view(&self) -> Seq<u8> {
        self.records@
    }
}

impl<'a> Clone for Mldv2MulticastAddressRecordsIterator<'a> {
    fn clone(&self) -> (r: Self)
        ensures
            r@ == self@,
    {
        proof {
            use_type_invariant(self);
        }
        Mldv2MulticastAddressRecordsIterator { records: self.records }
    }
}

impl<'a> Mldv2MulticastAddressRecordsIterator<'a> {
    #[verifier::type_invariant]
    spec fn whole_records(self) -> bool {
        exists|n: nat|
            #[trigger] spec_records_parse(self.records@, n) == Ok::<int, (int, LenError)>(
                self.records@.len() as int,
            )
    }

    /// Iterator over `records`, which consist of `n` complete records for some `n`.
    pub(crate) fn from_slice(records: &'a [u8], Ghost(n): Ghost<nat>) -> (r: Self)
        requires
            spec_records_parse(records@, n) == Ok::<int, (int, LenError)>(records@.len() as int),
        ensures
            r@ == records@,
    {
        Self { records }
    }

    /// Returns the next record, or `None` once all records have been returned.
    pub fn next(&mut self) -> (r: Option<Mldv2MulticastAddressRecordSlice<'a>>)
        ensures
            old(self)@.len() == 0 ==> r.is_none() && final(self)@ == old(self)@,
            old(self)@.len() > 0 ==> (r matches Some(rec) && spec_record_parse(old(self)@)
                == Ok::<int, LenError>(rec@.len() as int) && rec@ == old(self)@.subrange(
                0,
                rec@.len() as int,
            ) && final(self)@ == old(self)@.subrange(rec@.len() as int, old(self)@.len() as int)),
            r matches Some(rec) ==> spec_record_step(old(self)@).0 == Some(rec@),
            r is None ==> spec_record_step(old(self)@).0 is None,
            final(self)@ == spec_record_step(old(self)@).1,
    {
        proof {
            use_type_invariant(&*self);
        }
        if self.records.is_empty() {
            return None;
        }
        let ghost n: nat = choose|n: nat|
            #[trigger] spec_records_parse(self.records@, n) == Ok::<int, (int, LenError)>(
                self.records@.len() as int,
            );
        proof {
            if n == 0 {
                assert(false);
            }
            lemma_records_parse_front(self.records@, n);
            lemma_record_parse_bounds(self.records@);
        }
        match Mldv2MulticastAddressRecordSlice::from_slice(self.records) {
            Ok(record) => {
                let len = record.slice().len();
                let rest = &self.records[len..self.records.len()];
                proof {
                    assert(spec_records_parse(rest@, (n - 1) as nat) == Ok::<int, (int, LenError)>(
                        rest@.len() as int,
                    ));
                }
                self.records = rest;
                Some(record)
            },
            Err(_) => {
                proof {
                    assert(false);
                }
                None
            },
        }
    }

    /// Collects all remaining records; record `i` covers the bytes from
    /// `spec_record_offset(self@, i)` to `spec_record_offset(self@, i + 1)`.
    pub fn to_vec(self) -> (r: Vec<Mldv2MulticastAddressRecordSlice<'a>>)
        ensures
            spec_records_parse(self@, r@.len()) == Ok::<int, (int, LenError)>(self@.len() as int),
            forall|i: int|
                0 <= i < r@.len() ==> (#[trigger] r@[i])@ == self@.subrange(
                    spec_record_offset(self@, i as nat),
                    spec_record_offset(self@, (i + 1) as nat),
                ),
    {
        let ghost all = self@;
        let mut it = self;
        let mut r: Vec<Mldv2MulticastAddressRecordSlice<'a>> = Vec::new();
        let ghost mut pos: int = 0;
        loop
            invariant
                0 <= pos <= all.len(),
                it@ == all.subrange(pos, all.len() as int),
                spec_records_parse(all, r@.len()) == Ok::<int, (int, LenError)>(pos),
                forall|i: int|
                    0 <= i < r@.len() ==> (#[trigger] r@[i])@ == all.subrange(
                        spec_record_offset(all, i as nat),
                        spec_record_offset(all, (i + 1) as nat),
                    ),
            ensures
                pos == all.len(),
                spec_records_parse(all, r@.len()) == Ok::<int, (int, LenError)>(pos),
                forall|i: int|
                    0 <= i < r@.len() ==> (#[trigger] r@[i])@ == all.subrange(
                        spec_record_offset(all, i as nat),
                        spec_record_offset(all, (i + 1) as nat),
                    ),
            decreases all.len() - pos,
        {
            let ghost k = r@.len();
            match it.next() {
                Some(record) => {
                    proof {
                        lemma_record_parse_bounds(all.subrange(pos, all.len() as int));
                        assert(spec_records_parse(all, k + 1) == Ok::<int, (int, LenError)>(
                            pos + record@.len(),
                        ));
                        assert(record@ =~= all.subrange(pos, pos + record@.len()));
                        pos = pos + record@.len();
                        assert(it@ =~= all.subrange(pos, all.len() as int));
                    }
                    r.push(record);
                },
                None => {
                    assert(all.subrange(pos, all.len() as int).len() == 0);
                    break ;
                },
            }
        }
        r
    }
}

} // verus!
