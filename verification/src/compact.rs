//! The type mapper: primitive source-language type spellings to Compact
//! type descriptors, rendered as text.

use vstd::prelude::*;
use crate::strutil::{is_prefix_of, str_starts_with, str_eq};

verus! {

/// An ASCII decimal digit.
pub open spec fn is_digit_char(c: char) -> bool {
    let u = c as u32;
    0x30 <= u && u <= 0x39
}

/// Every character of `s` is an ASCII decimal digit.
pub open spec fn all_digits(s: Seq<char>) -> bool {
    forall|i: int| 0 <= i < s.len() ==> is_digit_char(s[i])
}

/// The bit-width numeral: the spelled digits, or `256` where none are given.
pub open spec fn width_digits(d: Seq<char>) -> Seq<char> {
    if d.len() == 0 {
        "256"@
    } else {
        d
    }
}

/// What the type mapper returns for a source type spelling: `uintN` maps to
/// `Uint<N>`, `bytesN` to `Bytes<N>` (`N` a digit string, `256` when empty),
/// `bool` to `Boolean`, and everything else — including prefix-matching
/// spellings with a non-digit suffix — to no mapping.
pub open spec fn map_type_spec(s: Seq<char>) -> Option<Seq<char>> {
    if is_prefix_of("uint"@, s) && all_digits(s.subrange(4, s.len() as int)) {
        Some("Uint<"@ + width_digits(s.subrange(4, s.len() as int)) + ">"@)
    } else if is_prefix_of("bytes"@, s) && all_digits(s.subrange(5, s.len() as int)) {
        Some("Bytes<"@ + width_digits(s.subrange(5, s.len() as int)) + ">"@)
    } else if s == "bool"@ {
        Some("Boolean"@)
    } else {
        None
    }
}

/// Decides `all_digits`.
pub fn all_digits_str(s: &str) -> (r: bool)
    ensures
        r == all_digits(s@),
{
    let n = s.unicode_len();
    let mut i: usize = 0;
    while i < n
        invariant
            n == s@.len(),
            i <= n,
            forall|j: int| 0 <= j < i ==> is_digit_char(s@[j]),
        decreases n - i,
    {
        let u = s.get_char(i) as u32;
        if !(0x30 <= u && u <= 0x39) {
            return false;
        }
        i += 1;
    }
    true
}

/// Maps a source type spelling to the text of its Compact type descriptor,
/// exactly as `map_type_spec` states.
pub fn sol_to_compact_type(sol_type: &str) -> (r: Option<String>)
    ensures
        match r {
            Some(t) => map_type_spec(sol_type@) == Some(t@),
            None => map_type_spec(sol_type@) is None,
        },
{
    let n = sol_type.unicode_len();
    if str_starts_with(sol_type, "uint") {
        proof {
            reveal_strlit("uint");
        }
        let rest = sol_type.substring_char(4, n);
        if all_digits_str(rest) {
            let mut out = String::from_str("Uint<");
            if rest.unicode_len() == 0 {
                out.append("256");
            } else {
                out.append(rest);
            }
            out.append(">");
            return Some(out);
        }
    }
    if str_starts_with(sol_type, "bytes") {
        proof {
            reveal_strlit("bytes");
        }
        let rest = sol_type.substring_char(5, n);
        if all_digits_str(rest) {
            let mut out = String::from_str("Bytes<");
            if rest.unicode_len() == 0 {
                out.append("256");
            } else {
                out.append(rest);
            }
            out.append(">");
            return Some(out);
        }
    }
    if str_eq(sol_type, "bool") {
        return Some(String::from_str("Boolean"));
    }
    None
}

} // verus!
