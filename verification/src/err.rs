//! Error values shared by the decoders and encoders.
use crate::text::{decimal_usize, spec_decimal_usize};
use vstd::prelude::*;
use vstd::string::StringExecFns;

verus! {

/// Protocol layer in which an error was detected.
#[derive(Clone, Copy, Debug, PartialEq, Eq, Hash)]
pub enum Layer {
    /// Error in the ICMPv6 layer (this includes MLD messages).
    Icmpv6,
}

/// What the checked length was taken from.
#[derive(Clone, Copy, Debug, PartialEq, Eq, Hash)]
pub enum LenSource {
    /// The length of the given byte slice.
    Slice,
}

/// Not enough bytes were available to decode a value.
#[derive(Clone, Copy, Debug, PartialEq, Eq, Hash)]
pub struct LenError {
    /// Number of bytes that would have been needed.
    pub required_len: usize,
    /// Number of bytes that were available.
    pub len: usize,
    /// Where `len` was taken from.
    pub len_source: LenSource,
    /// Layer in which the error occurred.
    pub layer: Layer,
    /// Offset of the decoded layer from the start of the outermost slice.
    pub layer_start_offset: usize,
}

/// Not enough space was available in an output slice.
#[derive(Clone, Copy, Debug, PartialEq, Eq, Hash)]
pub struct SliceWriteSpaceError {
    /// Number of bytes that would have been needed.
    pub required_len: usize,
    /// Number of bytes that were available.
    pub len: usize,
    /// Layer that was being written.
    pub layer: Layer,
    /// Offset of the written layer from the start of the output slice.
    pub layer_start_offset: usize,
}

impl LenError {
    /// The text of this error.
    pub open spec fn spec_message(self) -> Seq<char> {
        "ICMPv6 length error: "@ + spec_decimal_usize(self.required_len)
            + " byte(s) would be required, but only "@ + spec_decimal_usize(self.len)
            + " byte(s) are available in the slice (layer starting at offset "@
            + spec_decimal_usize(self.layer_start_offset) + ")."@
    }

    /// Returns the text of this error.
    pub fn message(&self) -> (r: String)
        ensures
            r@ == self.spec_message(),
    {
        let mut s = String::from_str("ICMPv6 length error: ");
        s.append(decimal_usize(self.required_len).as_str());
        s.append(" byte(s) would be required, but only ");
        s.append(decimal_usize(self.len).as_str());
        s.append(" byte(s) are available in the slice (layer starting at offset ");
        s.append(decimal_usize(self.layer_start_offset).as_str());
        s.append(").");
        s
    }

    /// The same error with `offset` added to `layer_start_offset`.
    pub open spec fn spec_add_offset(self, offset: usize) -> LenError {
        LenError { layer_start_offset: (self.layer_start_offset + offset) as usize, ..self }
    }

    /// Returns the error with `offset` added to its layer start offset.
    pub fn add_offset(self, offset: usize) -> (r: LenError)
        requires
            self.layer_start_offset + offset <= usize::MAX,
        ensures
            r == self.spec_add_offset(offset),
    {
        LenError { layer_start_offset: self.layer_start_offset + offset, ..self }
    }
}

impl SliceWriteSpaceError {
    /// The text of this error.
    pub open spec fn spec_message(self) -> Seq<char> {
        "Slice write space error: not enough space to write ICMPv6 to slice. Needed "@
            + spec_decimal_usize(self.required_len) + " byte(s), but only "@
            + spec_decimal_usize(self.len) + " byte(s) were available."@
    }

    /// Returns the text of this error.
    pub fn message(&self) -> (r: String)
        ensures
            r@ == self.spec_message(),
    {
        let mut s = String::from_str(
            "Slice write space error: not enough space to write ICMPv6 to slice. Needed ",
        );
        s.append(decimal_usize(self.required_len).as_str());
        s.append(" byte(s), but only ");
        s.append(decimal_usize(self.len).as_str());
        s.append(" byte(s) were available.");
        s
    }
}

/// The length error of a slice with `len` bytes where `required_len` are needed.
pub open spec fn spec_slice_len_error(required_len: usize, len: usize) -> LenError {
    LenError {
        required_len,
        len,
        len_source: LenSource::Slice,
        layer: Layer::Icmpv6,
        layer_start_offset: 0,
    }
}

/// [`spec_slice_len_error`] for lengths given as mathematical integers.
pub open spec fn spec_len_error(required_len: int, len: int) -> LenError {
    spec_slice_len_error(required_len as usize, len as usize)
}

/// Length error of a slice with `len` bytes where `required_len` are needed.
pub(crate) fn slice_len_error(required_len: usize, len: usize) -> (r: LenError)
    ensures
        r == spec_slice_len_error(required_len, len),
{
    LenError {
        required_len,
        len,
        len_source: LenSource::Slice,
        layer: Layer::Icmpv6,
        layer_start_offset: 0,
    }
}

/// Length error of an ICMPv6 slice with `len` bytes where `required_len` are needed.
pub fn icmpv6_len_error(required_len: usize, len: usize) -> (r: LenError)
    ensures
        r == spec_slice_len_error(required_len, len),
{
    slice_len_error(required_len, len)
}

} // verus!
