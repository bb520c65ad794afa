//! Iterator over the 16-byte source addresses of an MLDv2 message.
use crate::bytes::ipv6_addr_at;
use crate::err::{slice_len_error, spec_len_error, LenError};
use vstd::prelude::*;

verus! {

/// Iterator over MLD source addresses.
#[derive(Clone, Debug, Eq, PartialEq)]
pub struct MldSourceAddressesIterator<'a> {
    bytes: &'a [u8],
}

impl<'a> View for MldSourceAddressesIterator<'a> {
    type V = Seq<u8>;

    /// The source address bytes not yet returned.
    closed spec fn view(&self) -> Seq<u8> {
        self.bytes@
    }
}

/// One call of `next` on the remaining bytes `rest`: the returned address bytes (none
/// once fewer than 16 bytes are left) and the bytes that remain afterwards.
pub open spec fn spec_source_step(rest: Seq<u8>) -> (Option<Seq<u8>>, Seq<u8>) {
    if rest.len() < 16 {
        (None, rest)
    } else {
        (Some(rest.subrange(0, 16)), rest.subrange(16, rest.len() as int))
    }
}

/// The remaining bytes after `calls` calls of `next`, starting from `bytes`.
pub open spec fn spec_source_state(bytes: Seq<u8>, calls: nat) -> Seq<u8>
    decreases calls,
{
    if calls == 0 {
        bytes
    } else {
        spec_source_step(spec_source_state(bytes, (calls - 1) as nat)).1
    }
}

/// `value` rounded up to the next multiple of 16 (a multiple itself goes up by 16),
/// saturating at `usize::MAX`.
pub open spec fn spec_next_multiple_of_16(value: usize) -> usize {
    if value + (16 - value % 16) > usize::MAX {
        usize::MAX
    } else {
        (value + (16 - value % 16)) as usize
    }
}

fn next_multiple_of_16(value: usize) -> (r: usize)
    ensures
        r == spec_next_multiple_of_16(value),
{
    value.saturating_add(16 - value % 16)
}

impl<'a> MldSourceAddressesIterator<'a> {
    /// Creates an iterator over MLD source address bytes.
    ///
    /// Fails if the length of `bytes` is not a multiple of 16.
    pub fn from_slice(bytes: &'a [u8]) -> (r: Result<Self, LenError>)
        ensures
            bytes@.len() % 16 == 0 ==> (r matches Ok(it) && it@ == bytes@),
            bytes@.len() % 16 != 0 ==> r == Err::<Self, LenError>(
                spec_len_error(spec_next_multiple_of_16(bytes@.len() as usize) as int, bytes@.len() as int),
            ),
    {
        if 0 != bytes.len() % 16 {
            Err(slice_len_error(next_multiple_of_16(bytes.len()), bytes.len()))
        } else {
            Ok(Self::from_aligned_slice(bytes))
        }
    }

    /// Creates an iterator over bytes whose length is a multiple of 16.
    pub(crate) fn from_aligned_slice(bytes: &'a [u8]) -> (r: Self)
        requires
            bytes@.len() % 16 == 0,
        ensures
            r@ == bytes@,
    {
        Self { bytes }
    }

    /// Returns the next source address, or `None` once fewer than 16 bytes are left.
    pub fn next(&mut self) -> (r: Option<[u8; 16]>)
        ensures
            old(self)@.len() < 16 ==> r.is_none() && final(self)@ == old(self)@,
            old(self)@.len() >= 16 ==> (r matches Some(addr) && addr@ == old(self)@.subrange(0, 16)
                && final(self)@ == old(self)@.subrange(16, old(self)@.len() as int)),
            r matches Some(addr) ==> spec_source_step(old(self)@).0 == Some(addr@),
            r is None ==> spec_source_step(old(self)@).0 is None,
            final(self)@ == spec_source_step(old(self)@).1,
    {
        if self.bytes.is_empty() {
            return None;
        }
        if self.bytes.len() < 16 {
            return None;
        }
        let (addr, rest) = self.bytes.split_at(16);
        self.bytes = rest;
        Some(ipv6_addr_at(addr, 0))
    }

    /// Collects all remaining source addresses.
    pub fn to_vec(self) -> (r: Vec<[u8; 16]>)
        ensures
            r@.len() == self@.len() / 16,
            forall|i: int|
                0 <= i < r@.len() ==> (#[trigger] r@[i])@ == self@.subrange(16 * i, 16 * i + 16),
    {
        let ghost all = self@;
        let mut it = self;
        let mut r: Vec<[u8; 16]> = Vec::new();
        while it.bytes.len() >= 16
            invariant
                all.len() == 16 * r@.len() + it@.len(),
                it@ == all.subrange(16 * r@.len() as int, all.len() as int),
                forall|i: int|
                    0 <= i < r@.len() ==> (#[trigger] r@[i])@ == all.subrange(16 * i, 16 * i + 16),
            decreases it@.len(),
        {
            let ghost k: int = r@.len() as int;
            let addr = it.next();
            match addr {
                Some(a) => {
                    r.push(a);
                    assert(it@ =~= all.subrange(16 * r@.len() as int, all.len() as int));
                    assert(a@ =~= all.subrange(16 * k, 16 * k + 16));
                },
                None => {},
            }
        }
        assert(all.len() / 16 == r@.len()) by (nonlinear_arith)
            requires
                all.len() == 16 * r@.len() + it@.len(),
                it@.len() < 16,
        ;
        r
    }
}

} // verus!
