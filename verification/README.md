# MLD messages (RFC 2710, RFC 3810) with verified encoders and decoders

`src/` holds the library, verified with Verus:

- `bytes.rs`: big-endian field access and the byte-writing helpers.
- `err.rs`: length and write-space errors.
- `text.rs`: decimal text of integers, used by the error messages (`message()`).
- `icmpv6.rs`: ICMPv6 type values, the 8-byte ICMPv6 header and a length-checked
  ICMPv6 message slice.
- `mld/`: zero-copy slices that decode MLD queries, reports and done messages,
  owned field structs that encode MLDv2 queries, reports and records, their errors,
  and `laws.rs`, which proves that what the encoders write the decoders read back.

IPv6 addresses are plain `[u8; 16]` octet arrays. Iterators offer `next` and
`to_vec` methods.

`app/` adds what needs `std::fmt` or `std::io`: `Display` (through the library's verified `message()`) and `Error` on copies of the
error types, the named `Debug` output of the record type, and writers to
`std::io::Write`.
