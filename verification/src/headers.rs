//! The two typed ICY header values and their decode/encode operations.
//!
//! Each type wraps one plain value and carries a decode operation (from the
//! ordered list of raw wire occurrences of the header) and an encode
//! operation (to the canonical wire string). Decoding is total and quiet: a
//! missing, repeated, malformed or overflowing value yields `None`, never a
//! panic. Encoding never fails.

use vstd::prelude::*;

use crate::coercion::spec_ascii_bytes;
use crate::coercion::spec_coerce_one;
use crate::coercion::spec_entries;
use crate::coercion::spec_uint_chars;
use crate::coercion::coerce_one_u64;
use crate::coercion::format_uint;
use crate::coercion::lemma_uint_chars_roundtrip;

verus! {

/// The `Icy-MetaData` header: whether icy in-stream metadata is wanted.
///
/// Decoded from an unsigned decimal occurrence: `0` means disabled, any
/// positive value means enabled. Emitted as `0` or `1`, never any other
/// textual form.
#[derive(Clone, Debug, PartialEq, Eq, Structural)]
pub struct IcyMetaData(pub bool);

/// The `icy-metaint` header: the byte interval between metadata insertions.
///
/// Wraps a non-negative byte count, decoded verbatim from an unsigned
/// decimal occurrence and emitted in canonical decimal form.
#[derive(Clone, Debug, PartialEq, Eq, Structural)]
pub struct IcyMetaInt(pub usize);

/// What decoding the `Icy-MetaData` header yields from the raw occurrence
/// entries: a flag when there is exactly one occurrence holding an unsigned
/// decimal value within the 32-bit range (zero disabled, positive enabled),
/// and no value otherwise.
pub open spec fn spec_flag_decode(entries: Seq<Seq<u8>>) -> Option<IcyMetaData> {
    match spec_coerce_one(entries, u32::MAX as nat) {
        Some(n) => Some(IcyMetaData(n > 0)),
        None => None,
    }
}

/// The canonical wire characters of an `Icy-MetaData` value: `1` when
/// enabled, `0` when disabled.
pub open spec fn spec_flag_encode(h: IcyMetaData) -> Seq<char> {
    if h.0 {
        seq!['1']
    } else {
        seq!['0']
    }
}

/// What decoding the `icy-metaint` header yields from the raw occurrence
/// entries: the interval when there is exactly one occurrence holding an
/// unsigned decimal value within the pointer-width range, and no value
/// otherwise.
pub open spec fn spec_interval_decode(entries: Seq<Seq<u8>>) -> Option<IcyMetaInt> {
    match spec_coerce_one(entries, usize::MAX as nat) {
        Some(n) => Some(IcyMetaInt(n as usize)),
        None => None,
    }
}

/// The canonical wire characters of an `icy-metaint` value: its interval in
/// decimal, no sign, no leading zeros.
pub open spec fn spec_interval_encode(h: IcyMetaInt) -> Seq<char> {
    spec_uint_chars(h.0 as nat)
}

impl IcyMetaData {
    /// The canonical wire name of this header (matched case-insensitively
    /// on receipt by the host HTTP layer).
    pub fn header_name() -> (r: &'static str)
        ensures
            r@ == "Icy-MetaData"@,
    {
        "Icy-MetaData"
    }

    /// Decode the flag from the raw occurrence entries of the header.
    pub fn decode(raw: &[Vec<u8>]) -> (r: Option<IcyMetaData>)
        ensures
            r == spec_flag_decode(spec_entries(raw@)),
    {
        match coerce_one_u64(raw) {
            Some(v) => if v <= u32::MAX as u64 {
                Some(IcyMetaData(v > 0))
            } else {
                None
            },
            None => None,
        }
    }

    /// Encode the flag in its canonical wire form, `"0"` or `"1"`.
    pub fn encode(&self) -> (r: String)
        ensures
            r@ == spec_flag_encode(*self),
    {
        let r = if self.0 {
            "1"
        } else {
            "0"
        };
        proof {
            reveal_strlit("0");
            reveal_strlit("1");
            assert(r@ =~= spec_flag_encode(*self));
        }
        r.to_owned()
    }
}

impl IcyMetaInt {
    /// The canonical wire name of this header (matched case-insensitively
    /// on receipt by the host HTTP layer).
    pub fn header_name() -> (r: &'static str)
        ensures
            r@ == "icy-metaint"@,
    {
        "icy-metaint"
    }

    /// Decode the interval from the raw occurrence entries of the header.
    pub fn decode(raw: &[Vec<u8>]) -> (r: Option<IcyMetaInt>)
        ensures
            r == spec_interval_decode(spec_entries(raw@)),
    {
        match coerce_one_u64(raw) {
            Some(v) => if v <= usize::MAX as u64 {
                Some(IcyMetaInt(v as usize))
            } else {
                None
            },
            None => None,
        }
    }

    /// Encode the interval in its canonical decimal wire form.
    pub fn encode(&self) -> (r: String)
        ensures
            r@ == spec_interval_encode(*self),
    {
        format_uint(self.0)
    }
}

/// Round trip for the flag header: encoding any `Icy-MetaData` value and
/// presenting the resulting string as the single raw occurrence decodes to
/// the same value again.
pub proof fn lemma_flag_round_trip(h: IcyMetaData)
    ensures
        spec_flag_decode(seq![spec_ascii_bytes(spec_flag_encode(h))]) == Some(h),
{
    let bytes = spec_ascii_bytes(spec_flag_encode(h));
    assert(crate::coercion::spec_uint_val(Seq::<u8>::empty()) == 0);
    if h.0 {
        assert(bytes =~= seq![49u8]);
        assert(bytes.drop_last() =~= Seq::<u8>::empty());
        assert(crate::coercion::spec_uint_val(bytes) == 1);
    } else {
        assert(bytes =~= seq![48u8]);
        assert(bytes.drop_last() =~= Seq::<u8>::empty());
        assert(crate::coercion::spec_uint_val(bytes) == 0);
    }
}

/// Round trip for the interval header: encoding any `IcyMetaInt` value and
/// presenting the resulting string as the single raw occurrence decodes to
/// the same value again.
pub proof fn lemma_interval_round_trip(h: IcyMetaInt)
    ensures
        spec_interval_decode(seq![spec_ascii_bytes(spec_interval_encode(h))]) == Some(h),
{
    lemma_uint_chars_roundtrip(h.0 as nat);
}

/// A raw occurrence whose first byte is `-` (any negative literal) decodes
/// to no value, for both header types.
pub proof fn lemma_negative_rejected(entry: Seq<u8>)
    requires
        entry.len() > 0,
        entry[0] == 45u8,
    ensures
        spec_flag_decode(seq![entry]) is None,
        spec_interval_decode(seq![entry]) is None,
{
    assert(!crate::coercion::spec_is_uint(entry));
}

/// A raw header value whose occurrence count is not exactly one — absent,
/// or repeated on the wire — decodes to no value, for both header types.
pub proof fn lemma_wrong_multiplicity(entries: Seq<Seq<u8>>)
    requires
        entries.len() != 1,
    ensures
        spec_flag_decode(entries) is None,
        spec_interval_decode(entries) is None,
{
}

} // verus!
