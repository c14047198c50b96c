//! Validation of user input: the part-number format and the generic
//! "required" and "unsigned number" checks. Data in, `Result` out.

use vstd::prelude::*;
use crate::domain::text::{
    chars_of, decimal, is_blank, is_blank_str, is_digit, owned, parse_u64, parse_u64_spec, trim, trimmed,
    u64_to_text,
};

verus! {

pub open spec fn is_upper(c: char) -> bool {
    'A' <= c && c <= 'Z'
}

/// The first index in `lo..hi` whose character is not a decimal digit, or
/// `hi` when all of them are digits.
pub open spec fn first_non_digit(s: Seq<char>, lo: int, hi: int) -> int
    decreases hi - lo,
{
    if lo >= hi {
        hi
    } else if !is_digit(s[lo]) {
        lo
    } else {
        first_non_digit(s, lo + 1, hi)
    }
}

/// `s` has the part-number shape `###-PCA######-X`: three digits, a dash,
/// `PCA`, six digits, a dash and an upper-case ASCII letter.
pub open spec fn is_part_number(s: Seq<char>) -> bool {
    &&& s.len() == 15
    &&& forall|i: int| 0 <= i < 3 ==> is_digit(#[trigger] s[i])
    &&& s[3] == '-'
    &&& s[4] == 'P' && s[5] == 'C' && s[6] == 'A'
    &&& forall|i: int| 7 <= i < 13 ==> is_digit(#[trigger] s[i])
    &&& s[13] == '-'
    &&& is_upper(s[14])
}

/// The message for a rejected part number: the first check, in reading
/// order, that `s` fails.
pub open spec fn part_number_error(s: Seq<char>) -> Seq<char> {
    if s.len() == 0 {
        "Part number cannot be empty"@
    } else if s.len() != 15 {
        "Part number must be 15 characters (got "@ + decimal(s.len()) + "). Format: ###-PCA######-X"@
    } else if first_non_digit(s, 0, 3) < 3 {
        "Position "@ + decimal((first_non_digit(s, 0, 3) + 1) as nat) + " must be a digit"@
    } else if s[3] != '-' {
        "Expected '-' at position 4"@
    } else if !(s[4] == 'P' && s[5] == 'C' && s[6] == 'A') {
        "Expected 'PCA' at positions 5-7"@
    } else if first_non_digit(s, 7, 13) < 13 {
        "Position "@ + decimal((first_non_digit(s, 7, 13) + 1) as nat) + " must be a digit"@
    } else if s[13] != '-' {
        "Expected '-' at position 14"@
    } else {
        "Last character must be an uppercase letter (A-Z)"@
    }
}

proof fn lemma_first_non_digit(s: Seq<char>, lo: int, hi: int)
    requires
        0 <= lo <= hi <= s.len(),
    ensures
        lo <= first_non_digit(s, lo, hi) <= hi,
        forall|i: int| lo <= i < first_non_digit(s, lo, hi) ==> is_digit(#[trigger] s[i]),
        first_non_digit(s, lo, hi) < hi ==> !is_digit(s[first_non_digit(s, lo, hi)]),
    decreases hi - lo,
{
    if lo < hi && is_digit(s[lo]) {
        lemma_first_non_digit(s, lo + 1, hi);
    }
}

/// The first position in `lo..hi` of `cs` that is not a digit, or `hi`.
fn scan_digits(cs: &Vec<char>, lo: usize, hi: usize) -> (r: usize)
    requires
        lo <= hi <= cs.len(),
    ensures
        r == first_non_digit(cs@, lo as int, hi as int),
{
    proof {
        lemma_first_non_digit(cs@, lo as int, hi as int);
    }
    let mut i = lo;
    while i < hi
        invariant
            lo <= i <= hi <= cs.len(),
            first_non_digit(cs@, lo as int, hi as int) == first_non_digit(cs@, i as int, hi as int),
        decreases hi - i,
    {
        if !('0' <= cs[i] && cs[i] <= '9') {
            return i;
        }
        i = i + 1;
    }
    hi
}

/// "Position N must be a digit" for the 0-based index `i`.
fn position_message(i: usize) -> (r: String)
    requires
        i < 15,
    ensures
        r@ == "Position "@ + decimal((i + 1) as nat) + " must be a digit"@,
{
    let num = u64_to_text((i + 1) as u64);
    let mut r = owned("Position ");
    r.append(num.as_str());
    r.append(" must be a digit");
    r
}

/// Validate part number format: `###-PCA######-X`, e.g. `127-PCA000097-E`.
/// On rejection the message names the first check that fails.
pub fn validate_part_number(input: &str) -> (r: Result<(), String>)
    ensures
        r is Ok <==> is_part_number(input@),
        r matches Err(m) ==> m@ == part_number_error(input@),
{
    let chars = chars_of(input);
    let n = chars.len();
    if n == 0 {
        return Err(owned("Part number cannot be empty"));
    }
    if n != 15 {
        let num = u64_to_text(n as u64);
        let mut m = owned("Part number must be 15 characters (got ");
        m.append(num.as_str());
        m.append("). Format: ###-PCA######-X");
        return Err(m);
    }
    proof {
        lemma_first_non_digit(input@, 0, 3);
        lemma_first_non_digit(input@, 7, 13);
    }
    let p = scan_digits(&chars, 0, 3);
    if p < 3 {
        return Err(position_message(p));
    }
    if chars[3] != '-' {
        return Err(owned("Expected '-' at position 4"));
    }
    if chars[4] != 'P' || chars[5] != 'C' || chars[6] != 'A' {
        return Err(owned("Expected 'PCA' at positions 5-7"));
    }
    let q = scan_digits(&chars, 7, 13);
    if q < 13 {
        return Err(position_message(q));
    }
    if chars[13] != '-' {
        return Err(owned("Expected '-' at position 14"));
    }
    if !('A' <= chars[14] && chars[14] <= 'Z') {
        return Err(owned("Last character must be an uppercase letter (A-Z)"));
    }
    Ok(())
}

/// The message for a blank required field.
pub open spec fn required_error(label: Seq<char>) -> Seq<char> {
    "'"@ + label + "' is required"@
}

/// Validate a field is non-empty: it fails exactly when `input` holds only
/// whitespace.
pub fn validate_required(label: &str, input: &str) -> (r: Result<(), String>)
    ensures
        r is Err <==> is_blank(input@),
        r matches Err(m) ==> m@ == required_error(label@),
{
    if is_blank_str(input) {
        let mut m = owned("'");
        m.append(label);
        m.append("' is required");
        return Err(m);
    }
    Ok(())
}

/// The message for a field that does not hold an unsigned number.
pub open spec fn number_error(label: Seq<char>) -> Seq<char> {
    "'"@ + label + "' must be a number"@
}

/// A field is acceptable as an optional `u64` when it is blank, or when its
/// trimmed text parses as a `u64`.
pub open spec fn is_optional_u64(input: Seq<char>) -> bool {
    trimmed(input).len() == 0 || parse_u64_spec(trimmed(input)) is Some
}

/// Validate that a numeric string parses as u64 (blank is accepted).
pub fn validate_u64(label: &str, input: &str) -> (r: Result<(), String>)
    ensures
        r is Ok <==> is_optional_u64(input@),
        r matches Err(m) ==> m@ == number_error(label@),
{
    let t = trim(input);
    if t.as_str().unicode_len() == 0 {
        return Ok(());
    }
    match parse_u64(t.as_str()) {
        Some(_) => Ok(()),
        None => {
            let mut m = owned("'");
            m.append(label);
            m.append("' must be a number");
            Err(m)
        },
    }
}

} // verus!
