//! Identifiers of users and rooms in their textual form.
use vstd::prelude::*;

verus! {

/// The value of a hexadecimal digit, either case.
pub open spec fn hex_value(c: char) -> Option<int> {
    let v = c as u32;
    if 0x30 <= v <= 0x39 {
        Some(v - 0x30)
    } else if 0x61 <= v <= 0x66 {
        Some(v - 0x61 + 10)
    } else if 0x41 <= v <= 0x46 {
        Some(v - 0x41 + 10)
    } else {
        None
    }
}

/// The number that a run of hexadecimal digits spells, most significant first.
pub open spec fn hex_number(s: Seq<char>) -> Option<int>
    decreases s.len(),
{
    if s.len() == 0 {
        Some(0)
    } else {
        match (hex_number(s.drop_last()), hex_value(s.last())) {
            (Some(high), Some(low)) => Some(high * 16 + low),
            _ => None,
        }
    }
}

/// The value of the hyphenated form: 8-4-4-4-12 hexadecimal digits.
pub open spec fn hyphenated_value(s: Seq<char>) -> Option<int> {
    if s.len() == 36 && s[8] == '-' && s[13] == '-' && s[18] == '-' && s[23] == '-' {
        hex_number(
            s.subrange(0, 8) + s.subrange(9, 13) + s.subrange(14, 18) + s.subrange(19, 23)
                + s.subrange(24, 36),
        )
    } else {
        None
    }
}

/// Whether the first nine characters spell `urn:uuid:`, in either case.
pub open spec fn has_urn_prefix(s: Seq<char>) -> bool {
    let prefix = seq!['u', 'r', 'n', ':', 'u', 'u', 'i', 'd', ':'];
    s.len() >= 9 && forall|i: int|
        0 <= i < 9 ==> (s[i] == prefix[i] || (0x61 <= prefix[i] as u32 <= 0x7a && s[i] as u32
            == prefix[i] as u32 - 0x20))
}

/// The 128-bit value of a UUID in one of the forms the `uuid` crate reads:
/// 32 hexadecimal digits, the hyphenated form, the hyphenated form in braces,
/// or `urn:uuid:` before the hyphenated form; `None` for any other text.
pub open spec fn uuid_value(s: Seq<char>) -> Option<u128> {
    let n = if s.len() == 32 {
        hex_number(s)
    } else if s.len() == 36 {
        hyphenated_value(s)
    } else if s.len() == 38 && s[0] == '{' && s[37] == '}' {
        hyphenated_value(s.subrange(1, 37))
    } else if s.len() == 45 && has_urn_prefix(s) {
        hyphenated_value(s.subrange(9, 45))
    } else {
        None
    };
    match n {
        Some(v) => Some(v as u128),
        None => None,
    }
}

/// Relies on `uuid::Uuid::parse_str`, which accepts exactly those forms, and
/// on `Uuid::as_u128`, which reads the sixteen bytes most significant first.
#[verifier::external_body]
pub(crate) fn parse_uuid(s: &str) -> (r: Option<u128>)
    ensures
        r == uuid_value(s@),
{
    uuid::Uuid::parse_str(s).ok().map(|id| id.as_u128())
}

} // verus!
