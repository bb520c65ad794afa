//! Big-endian field access on byte sequences.
use vstd::prelude::*;

verus! {

/// Big-endian 16-bit value of the two bytes at `i` and `i + 1`.
pub open spec fn be_u16(s: Seq<u8>, i: int) -> int {
    s[i] as int * 256 + s[i + 1] as int
}

/// Big-endian 32-bit value of the four bytes starting at `i`.
pub open spec fn be_u32(s: Seq<u8>, i: int) -> int {
    ((s[i] as int * 256 + s[i + 1] as int) * 256 + s[i + 2] as int) * 256 + s[i + 3] as int
}

/// Reads the big-endian `u32` at `offset`.
pub(crate) fn u32_at(slice: &[u8], offset: usize) -> (r: u32)
    requires
        offset + 4 <= slice@.len(),
    ensures
        r as int == be_u32(slice@, offset as int),
{
    (((slice[offset] as u32) * 256 + (slice[offset + 1] as u32)) * 256 + (slice[offset + 2] as u32))
        * 256 + (slice[offset + 3] as u32)
}

/// Reads the big-endian `u16` at `offset`.
pub(crate) fn u16_at(slice: &[u8], offset: usize) -> (r: u16)
    requires
        offset + 2 <= slice@.len(),
    ensures
        r as int == be_u16(slice@, offset as int),
{
    (slice[offset] as u16) * 256 + (slice[offset + 1] as u16)
}

/// Copies the 16 bytes of an IPv6 address starting at `offset`.
pub(crate) fn ipv6_addr_at(slice: &[u8], offset: usize) -> (r: [u8; 16])
    requires
        offset + 16 <= slice@.len(),
    ensures
        r@ == slice@.subrange(offset as int, offset + 16),
{
    let mut addr = [0u8; 16];
    let mut i: usize = 0;
    while i < 16
        invariant
            i <= 16,
            offset + 16 <= slice.len(),
            addr@.len() == 16,
            forall|j: int| 0 <= j < i ==> addr@[j] == slice@[offset + j],
        decreases 16 - i,
    {
        addr[i] = slice[offset + i];
        i += 1;
    }
    assert(addr@ =~= slice@.subrange(offset as int, offset + 16));
    addr
}

/// The more significant byte of `v`.
pub open spec fn hi_byte(v: u16) -> u8 {
    (v / 256) as u8
}

/// The less significant byte of `v`.
pub open spec fn lo_byte(v: u16) -> u8 {
    (v % 256) as u8
}

/// The two big-endian bytes of `v`.
pub open spec fn be_bytes(v: u16) -> Seq<u8> {
    seq![hi_byte(v), lo_byte(v)]
}

/// The two big-endian bytes of `v`.
pub(crate) fn u16_to_be_bytes(v: u16) -> (r: [u8; 2])
    ensures
        r@ == be_bytes(v),
{
    let r = [(v / 256) as u8, (v % 256) as u8];
    assert(r@ =~= be_bytes(v));
    r
}

/// Reading back the bytes of [`be_bytes`] gives the value.
pub proof fn lemma_be_bytes_roundtrip(v: u16, prefix: Seq<u8>, rest: Seq<u8>)
    ensures
        be_u16(prefix + be_bytes(v) + rest, prefix.len() as int) == v,
{
    let s = prefix + be_bytes(v) + rest;
    assert(s[prefix.len() as int] == (v / 256) as u8);
    assert(s[prefix.len() as int + 1] == (v % 256) as u8);
}

/// The concatenated bytes of a sequence of 16-byte addresses.
pub open spec fn addrs_bytes(addrs: Seq<[u8; 16]>) -> Seq<u8>
    decreases addrs.len(),
{
    if addrs.len() == 0 {
        Seq::empty()
    } else {
        addrs_bytes(addrs.drop_last()) + addrs.last()@
    }
}

/// Each address occupies its own 16 bytes of [`addrs_bytes`].
pub proof fn lemma_addrs_bytes(addrs: Seq<[u8; 16]>)
    ensures
        addrs_bytes(addrs).len() == 16 * addrs.len(),
        forall|i: int|
            0 <= i < addrs.len() ==> addrs_bytes(addrs).subrange(16 * i, 16 * i + 16)
                == (#[trigger] addrs[i])@,
    decreases addrs.len(),
{
    if addrs.len() > 0 {
        let init = addrs.drop_last();
        lemma_addrs_bytes(init);
        let b = addrs_bytes(addrs);
        assert(addrs.last()@.len() == 16);
        assert forall|i: int| 0 <= i < addrs.len() implies b.subrange(16 * i, 16 * i + 16)
            == (#[trigger] addrs[i])@ by {
            if i < addrs.len() - 1 {
                assert(init[i] == addrs[i]);
                assert(b.subrange(16 * i, 16 * i + 16) =~= addrs_bytes(init).subrange(
                    16 * i,
                    16 * i + 16,
                ));
            } else {
                assert(b.subrange(16 * i, 16 * i + 16) =~= addrs.last()@);
            }
        }
    }
}

/// Appends the bytes of `addrs` to `buffer`.
pub(crate) fn push_addrs(buffer: &mut Vec<u8>, addrs: &[[u8; 16]])
    ensures
        final(buffer)@ == old(buffer)@ + addrs_bytes(addrs@),
{
    let mut i: usize = 0;
    while i < addrs.len()
        invariant
            i <= addrs@.len(),
            buffer@ == old(buffer)@ + addrs_bytes(addrs@.subrange(0, i as int)),
        decreases addrs@.len() - i,
    {
        let addr = &addrs[i];
        push_bytes(buffer, addr);
        proof {
            assert(addrs@.subrange(0, i + 1).drop_last() =~= addrs@.subrange(0, i as int));
        }
        i += 1;
    }
    assert(addrs@.subrange(0, addrs@.len() as int) =~= addrs@);
}

/// Appends `bytes` to `buffer`.
pub(crate) fn push_bytes(buffer: &mut Vec<u8>, bytes: &[u8])
    ensures
        final(buffer)@ == old(buffer)@ + bytes@,
{
    let mut i: usize = 0;
    while i < bytes.len()
        invariant
            i <= bytes@.len(),
            buffer@ == old(buffer)@ + bytes@.subrange(0, i as int),
        decreases bytes@.len() - i,
    {
        buffer.push(bytes[i]);
        proof {
            assert(bytes@.subrange(0, i + 1) =~= bytes@.subrange(0, i as int).push(bytes@[i as int]));
        }
        i += 1;
    }
    assert(bytes@.subrange(0, bytes@.len() as int) =~= bytes@);
}

/// Copies `bytes` into `slice` starting at `pos`, leaving the other bytes unchanged.
pub(crate) fn write_bytes_at(slice: &mut [u8], pos: usize, bytes: &[u8])
    requires
        pos + bytes@.len() <= old(slice)@.len(),
    ensures
        final(slice)@ == old(slice)@.subrange(0, pos as int) + bytes@ + old(slice)@.subrange(
            pos + bytes@.len(),
            old(slice)@.len() as int,
        ),
{
    let mut i: usize = 0;
    while i < bytes.len()
        invariant
            i <= bytes@.len(),
            pos + bytes@.len() <= old(slice)@.len(),
            pos + bytes@.len() <= slice.len(),
            slice@.len() == old(slice)@.len(),
            slice@ == old(slice)@.subrange(0, pos as int) + bytes@.subrange(0, i as int)
                + old(slice)@.subrange(pos + i, old(slice)@.len() as int),
        decreases bytes@.len() - i,
    {
        slice[pos + i] = bytes[i];
        proof {
            assert(slice@ =~= old(slice)@.subrange(0, pos as int) + bytes@.subrange(0, i + 1)
                + old(slice)@.subrange(pos + i + 1, old(slice)@.len() as int));
        }
        i += 1;
    }
    assert(bytes@.subrange(0, bytes@.len() as int) =~= bytes@);
}

} // verus!
