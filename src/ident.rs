use vstd::arithmetic::power::pow;
use vstd::prelude::*;

verus! {

pub open spec fn is_hex_digit(c: char) -> bool {
    ('0' <= c && c <= '9') || ('a' <= c && c <= 'f') || ('A' <= c && c <= 'F')
}

pub open spec fn hex_digit_value(c: char) -> int {
    if '0' <= c && c <= '9' {
        c as int - '0' as int
    } else if 'a' <= c && c <= 'f' {
        c as int - 'a' as int + 10
    } else {
        c as int - 'A' as int + 10
    }
}

/// The number that a string of hexadecimal digits denotes, most significant first.
pub open spec fn hex_number(s: Seq<char>) -> int
    decreases s.len(),
{
    if s.len() == 0 {
        0
    } else {
        hex_number(s.drop_last()) * 16 + hex_digit_value(s.last())
    }
}

pub open spec fn all_hex(s: Seq<char>) -> bool {
    forall|i: int| 0 <= i < s.len() ==> is_hex_digit(#[trigger] s[i])
}

pub open spec fn is_hyphen_position(i: int) -> bool {
    i == 8 || i == 13 || i == 18 || i == 23
}

/// The 32 digits of the hyphenated form `xxxxxxxx-xxxx-xxxx-xxxx-xxxxxxxxxxxx`.
pub open spec fn hyphenated_digits(s: Seq<char>) -> Seq<char> {
    s.subrange(0, 8) + s.subrange(9, 13) + s.subrange(14, 18) + s.subrange(19, 23)
        + s.subrange(24, 36)
}

pub open spec fn is_hyphenated(s: Seq<char>) -> bool {
    &&& s.len() == 36
    &&& forall|i: int| 0 <= i < 36 && is_hyphen_position(i) ==> #[trigger] s[i] == '-'
    &&& all_hex(hyphenated_digits(s))
}

/// The first nine characters read `urn:uuid:`, in either case.
pub open spec fn has_urn_prefix(s: Seq<char>) -> bool {
    let lower = seq!['u', 'r', 'n', ':', 'u', 'u', 'i', 'd', ':'];
    let upper = seq!['U', 'R', 'N', ':', 'U', 'U', 'I', 'D', ':'];
    &&& s.len() >= 9
    &&& forall|i: int| 0 <= i < 9 ==> #[trigger] s[i] == lower[i] || s[i] == upper[i]
}

/// The 128-bit value of a textual identifier, if the text is one: 32 hex
/// digits; or the hyphenated form, bare, in braces, or after `urn:uuid:`.
/// Hex digits may be of either case.
pub open spec fn spec_parse_id(s: Seq<char>) -> Option<u128> {
    if s.len() == 32 {
        if all_hex(s) {
            Some(hex_number(s) as u128)
        } else {
            None
        }
    } else if s.len() == 36 {
        if is_hyphenated(s) {
            Some(hex_number(hyphenated_digits(s)) as u128)
        } else {
            None
        }
    } else if s.len() == 38 && s[0] == '{' && s[37] == '}' {
        let inner = s.subrange(1, 37);
        if is_hyphenated(inner) {
            Some(hex_number(hyphenated_digits(inner)) as u128)
        } else {
            None
        }
    } else if s.len() == 45 && has_urn_prefix(s) {
        let inner = s.subrange(9, 45);
        if is_hyphenated(inner) {
            Some(hex_number(hyphenated_digits(inner)) as u128)
        } else {
            None
        }
    } else {
        None
    }
}

/// The `k`-th hex digit of `v`, counting from the most significant.
pub open spec fn id_nibble(v: u128, k: int) -> int {
    (v as int / pow(16, (31 - k) as nat)) % 16
}

pub open spec fn lower_hex_char(n: int) -> char {
    seq!['0', '1', '2', '3', '4', '5', '6', '7', '8', '9', 'a', 'b', 'c', 'd', 'e', 'f'][n]
}

/// Index among the 32 digits of the character at position `i` of the
/// hyphenated form.
pub open spec fn digit_index(i: int) -> int {
    if i < 8 {
        i
    } else if i < 13 {
        i - 1
    } else if i < 18 {
        i - 2
    } else if i < 23 {
        i - 3
    } else {
        i - 4
    }
}

/// The canonical text of an identifier: lower-case hyphenated form.
pub open spec fn spec_id_text(v: u128) -> Seq<char> {
    Seq::new(
        36,
        |i: int|
            if is_hyphen_position(i) {
                '-'
            } else {
                lower_hex_char(id_nibble(v, digit_index(i)))
            },
    )
}

/// Relies on `uuid::Uuid::parse_str`, which accepts exactly the forms of
/// `spec_parse_id`, and on `Uuid::as_u128`, which reads the 16 bytes big-endian.
#[verifier::external_body]
fn uuid_parse_str(s: &str) -> (r: Option<u128>)
    ensures
        r == spec_parse_id(s@),
{
    match uuid::Uuid::parse_str(s) {
        Ok(u) => Some(u.as_u128()),
        Err(_) => None,
    }
}

/// Relies on `uuid::Uuid::from_u128` and the `Display` of `Uuid`, which writes
/// the lower-case hyphenated form.
#[verifier::external_body]
fn uuid_to_string(v: u128) -> (r: String)
    ensures
        r@ == spec_id_text(v),
{
    uuid::Uuid::from_u128(v).to_string()
}

/// Reads a reservation identifier; `None` when the text is malformed.
pub fn parse_id(s: &str) -> (r: Option<u128>)
    ensures
        r == spec_parse_id(s@),
{
    uuid_parse_str(s)
}

/// The canonical text of an identifier.
pub fn id_text(v: u128) -> (r: String)
    ensures
        r@ == spec_id_text(v),
        r@.len() == 36,
{
    uuid_to_string(v)
}

} // verus!
