//! Reduction of a raw multi-occurrence header value to one unsigned integer.
//!
//! A header may occur any number of times on the wire; these ICY headers are
//! meaningful only when the occurrence count is exactly one, and the single
//! occurrence must be an unsigned base-10 integer. The grammar here is
//! strict: one or more ASCII digits and nothing else. No sign (a leading `-`
//! or `+` fails), no surrounding whitespace, and a value that overflows the
//! requested width fails. Failure is always the quiet "no value" answer,
//! never a panic.

use vstd::prelude::*;

verus! {

/// An ASCII decimal digit, `'0'` through `'9'`.
pub open spec fn spec_is_digit(b: u8) -> bool {
    48 <= b && b <= 57
}

/// Numeric value of one digit byte; zero on a non-digit so the function is total.
pub open spec fn spec_digit_val(b: u8) -> nat {
    if spec_is_digit(b) {
        (b - 48) as nat
    } else {
        0
    }
}

/// A syntactically valid unsigned integer token: one or more digits, nothing else.
pub open spec fn spec_is_uint(s: Seq<u8>) -> bool {
    s.len() > 0 && forall|i: int| 0 <= i < s.len() ==> spec_is_digit(#[trigger] s[i])
}

/// The base-10 value of a digit string, most significant digit first.
pub open spec fn spec_uint_val(s: Seq<u8>) -> nat
    decreases s.len(),
{
    if s.len() == 0 {
        0
    } else {
        spec_uint_val(s.drop_last()) * 10 + spec_digit_val(s.last())
    }
}

/// The digit character with value `d` (meaningful for `d < 10`).
pub open spec fn spec_digit_char(d: nat) -> char {
    ((48 + d) as u8) as char
}

/// Canonical decimal rendering of `n`: no sign, no leading zeros.
pub open spec fn spec_uint_chars(n: nat) -> Seq<char>
    decreases n,
{
    if n < 10 {
        seq![spec_digit_char(n)]
    } else {
        spec_uint_chars(n / 10) + seq![spec_digit_char(n % 10)]
    }
}

/// The bytes of an ASCII character sequence, character by character.
pub open spec fn spec_ascii_bytes(s: Seq<char>) -> Seq<u8> {
    s.map(|i: int, c: char| c as u8)
}

/// The byte-sequence contents of each raw occurrence entry.
pub open spec fn spec_entries(raw: Seq<Vec<u8>>) -> Seq<Seq<u8>> {
    raw.map(|i: int, v: Vec<u8>| v@)
}

/// What coercion of a raw header value to one unsigned integer yields:
/// the value of the single occurrence when there is exactly one, it is a
/// valid unsigned decimal token, and its value is at most `max`; no value
/// otherwise.
pub open spec fn spec_coerce_one(entries: Seq<Seq<u8>>, max: nat) -> Option<nat> {
    if entries.len() == 1 && spec_is_uint(entries[0]) && spec_uint_val(entries[0]) <= max {
        Some(spec_uint_val(entries[0]))
    } else {
        None
    }
}

/// The value of a digit string is at least the value of any of its prefixes.
proof fn lemma_uint_val_prefix_le(s: Seq<u8>, i: int)
    requires
        0 <= i <= s.len(),
    ensures
        spec_uint_val(s.take(i)) <= spec_uint_val(s),
    decreases s.len() - i,
{
    if i == s.len() {
        assert(s.take(i) =~= s);
    } else {
        lemma_uint_val_prefix_le(s, i + 1);
        assert(s.take(i + 1).drop_last() =~= s.take(i));
    }
}

/// Extract the single unsigned decimal value of a raw header value, up to
/// the full `u64` range. Returns `None` when the occurrence count is not
/// exactly one, when the entry is not a pure digit string, or when its
/// value does not fit in a `u64`.
pub fn coerce_one_u64(raw: &[Vec<u8>]) -> (r: Option<u64>)
    ensures
        match r {
            Some(v) => spec_coerce_one(spec_entries(raw@), u64::MAX as nat) == Some(v as nat),
            None => spec_coerce_one(spec_entries(raw@), u64::MAX as nat) is None,
        },
{
    if raw.len() != 1 {
        return None;
    }
    let entry: &Vec<u8> = &raw[0];
    let ghost s: Seq<u8> = entry@;
    proof {
        assert(spec_entries(raw@)[0] == s);
    }
    if entry.len() == 0 {
        return None;
    }
    let mut val: u64 = 0;
    let mut i: usize = 0;
    while i < entry.len()
        invariant
            i <= entry.len(),
            s == entry@,
            spec_entries(raw@).len() == 1,
            spec_entries(raw@)[0] == s,
            forall|j: int| 0 <= j < i ==> spec_is_digit(#[trigger] s[j]),
            val == spec_uint_val(s.take(i as int)),
        decreases entry.len() - i,
    {
        let b = entry[i];
        if b < 48 || b > 57 {
            proof {
                assert(!spec_is_uint(s));
            }
            return None;
        }
        proof {
            assert(s.take(i as int + 1).drop_last() =~= s.take(i as int));
            assert(s.take(i as int + 1).last() == s[i as int]);
        }
        let d: u64 = (b - 48) as u64;
        let next: u64 = match val.checked_mul(10) {
            Some(v10) => match v10.checked_add(d) {
                Some(v) => v,
                None => {
                    proof {
                        assert(spec_uint_val(s.take(i as int + 1)) == val * 10 + d);
                        lemma_uint_val_prefix_le(s, i as int + 1);
                    }
                    return None;
                },
            },
            None => {
                proof {
                    assert(spec_uint_val(s.take(i as int + 1)) == val * 10 + d);
                    lemma_uint_val_prefix_le(s, i as int + 1);
                }
                return None;
            },
        };
        val = next;
        i = i + 1;
    }
    proof {
        assert(s.take(s.len() as int) =~= s);
    }
    Some(val)
}

/// The one-character string slice for a single decimal digit.
fn digit_str(d: usize) -> (r: &'static str)
    requires
        d < 10,
    ensures
        r@ == seq![spec_digit_char(d as nat)],
{
    let r: &'static str = if d == 0 {
        "0"
    } else if d == 1 {
        "1"
    } else if d == 2 {
        "2"
    } else if d == 3 {
        "3"
    } else if d == 4 {
        "4"
    } else if d == 5 {
        "5"
    } else if d == 6 {
        "6"
    } else if d == 7 {
        "7"
    } else if d == 8 {
        "8"
    } else {
        "9"
    };
    proof {
        reveal_strlit("0");
        reveal_strlit("1");
        reveal_strlit("2");
        reveal_strlit("3");
        reveal_strlit("4");
        reveal_strlit("5");
        reveal_strlit("6");
        reveal_strlit("7");
        reveal_strlit("8");
        reveal_strlit("9");
        assert(r@ =~= seq![spec_digit_char(d as nat)]);
    }
    r
}

/// Render `n` in canonical decimal form: digits only, no leading zeros.
pub fn format_uint(n: usize) -> (r: String)
    ensures
        r@ == spec_uint_chars(n as nat),
    decreases n,
{
    if n < 10 {
        digit_str(n).to_owned()
    } else {
        let mut s = format_uint(n / 10);
        s.append(digit_str(n % 10));
        s
    }
}

/// Mapping characters to their bytes distributes over concatenation.
proof fn lemma_ascii_bytes_add(a: Seq<char>, b: Seq<char>)
    ensures
        spec_ascii_bytes(a + b) =~= spec_ascii_bytes(a) + spec_ascii_bytes(b),
{
}

/// The canonical decimal rendering of `n` is a valid unsigned decimal
/// token whose value is `n` again.
pub proof fn lemma_uint_chars_roundtrip(n: nat)
    ensures
        spec_is_uint(spec_ascii_bytes(spec_uint_chars(n))),
        spec_uint_val(spec_ascii_bytes(spec_uint_chars(n))) == n,
    decreases n,
{
    if n < 10 {
        let bytes = spec_ascii_bytes(spec_uint_chars(n));
        assert(bytes =~= seq![(48 + n) as u8]);
        assert(bytes.drop_last() =~= Seq::<u8>::empty());
        assert(spec_uint_val(Seq::<u8>::empty()) == 0);
        assert(spec_uint_val(bytes) == spec_digit_val((48 + n) as u8));
    } else {
        lemma_uint_chars_roundtrip(n / 10);
        let prefix = spec_ascii_bytes(spec_uint_chars(n / 10));
        let last = seq![(48 + n % 10) as u8];
        lemma_ascii_bytes_add(spec_uint_chars(n / 10), seq![spec_digit_char(n % 10)]);
        assert(spec_ascii_bytes(seq![spec_digit_char(n % 10)]) =~= last);
        let bytes = spec_ascii_bytes(spec_uint_chars(n));
        assert(bytes =~= prefix + last);
        assert(bytes.drop_last() =~= prefix);
        assert(bytes.last() == (48 + n % 10) as u8);
        assert(spec_uint_val(bytes) == spec_uint_val(prefix) * 10 + (n % 10));
        vstd::arithmetic::div_mod::lemma_fundamental_div_mod(n as int, 10);
    }
}

} // verus!
