//! Identifiers: a UUID is held as the `u128` of its sixteen bytes read
//! big-endian, the value that `uuid::Uuid::as_u128` gives.
use vstd::prelude::*;
use crate::text::{ascii_lower, digit_char};

verus! {

/// Powers of sixteen.
pub open spec fn pow16(e: nat) -> int
    decreases e,
{
    if e == 0 {
        1
    } else {
        16 * pow16((e - 1) as nat)
    }
}

/// Lowercase hexadecimal digit for `d` in `0..16`.
pub open spec fn hex_char(d: int) -> char {
    if d < 10 {
        digit_char(d)
    } else {
        (('a' as int) + d - 10) as char
    }
}

/// Hex digit number `k` of `v`, counting from the most significant (`k` in `0..32`).
pub open spec fn nibble(v: u128, k: int) -> int {
    ((v as int) / pow16((31 - k) as nat)) % 16
}

/// Number of hyphens before position `i` of the hyphenated form.
pub open spec fn hyphens_before(i: int) -> int {
    if i < 8 {
        0
    } else if i < 13 {
        1
    } else if i < 18 {
        2
    } else if i < 23 {
        3
    } else {
        4
    }
}

/// The hyphenated lowercase text of a UUID: 32 hex digits, most significant
/// first, grouped 8-4-4-4-12.
pub open spec fn uuid_hyphenated(v: u128) -> Seq<char> {
    Seq::new(
        36,
        |i: int|
            if i == 8 || i == 13 || i == 18 || i == 23 {
                '-'
            } else {
                hex_char(nibble(v, i - hyphens_before(i)))
            },
    )
}

/// The value of a hexadecimal digit, either case.
pub open spec fn hex_value(c: char) -> Option<int> {
    if '0' <= c <= '9' {
        Some(c as int - '0' as int)
    } else if 'a' <= c <= 'f' {
        Some(c as int - 'a' as int + 10)
    } else if 'A' <= c <= 'F' {
        Some(c as int - 'A' as int + 10)
    } else {
        None
    }
}

/// The number that a text of hexadecimal digits writes, most significant
/// digit first; `None` if a character is not such a digit.
pub open spec fn hex_number(s: Seq<char>) -> Option<int>
    decreases s.len(),
{
    if s.len() == 0 {
        Some(0)
    } else {
        match (hex_number(s.drop_last()), hex_value(s.last())) {
            (Some(h), Some(d)) => Some(16 * h + d),
            _ => None,
        }
    }
}

/// The number of the hyphenated form: 36 characters, hyphens at positions
/// 8, 13, 18 and 23, hexadecimal digits elsewhere.
pub open spec fn hyphenated_number(s: Seq<char>) -> Option<int> {
    if s.len() == 36 && s[8] == '-' && s[13] == '-' && s[18] == '-' && s[23] == '-' {
        hex_number(
            s.subrange(0, 8) + s.subrange(9, 13) + s.subrange(14, 18) + s.subrange(19, 23) + s.subrange(24, 36),
        )
    } else {
        None
    }
}

/// What `uuid::Uuid::parse_str` accepts, as the number of the UUID: 32
/// hexadecimal digits; the hyphenated form; the hyphenated form in braces;
/// or the hyphenated form behind a `urn:uuid:` prefix in any case.
pub open spec fn uuid_number(s: Seq<char>) -> Option<int> {
    if s.len() == 32 {
        hex_number(s)
    } else if s.len() == 36 {
        hyphenated_number(s)
    } else if s.len() == 38 && s[0] == '{' && s[37] == '}' {
        hyphenated_number(s.subrange(1, 37))
    } else if s.len() == 45 && s.take(9).map_values(|c: char| ascii_lower(c)) == "urn:uuid:"@ {
        hyphenated_number(s.skip(9))
    } else {
        None
    }
}

/// What `uuid::Uuid::parse_str` yields, as the `u128` value (its sixteen
/// bytes read big-endian).
pub open spec fn uuid_parse(s: Seq<char>) -> Option<u128> {
    match uuid_number(s) {
        Some(n) => Some(n as u128),
        None => None,
    }
}

/// Powers of sixteen are positive.
proof fn lemma_pow16_positive(e: nat)
    ensures
        pow16(e) > 0,
    decreases e,
{
    if e > 0 {
        lemma_pow16_positive((e - 1) as nat);
    }
}

/// A hexadecimal digit that `hex_char` writes reads back as its value.
proof fn lemma_hex_char_value(d: int)
    requires
        0 <= d < 16,
    ensures
        hex_value(hex_char(d)) == Some(d),
{
}

/// The 32 digits of a value, most significant first.
pub open spec fn hex_digits(v: u128) -> Seq<char> {
    Seq::new(32, |k: int| hex_char(nibble(v, k)))
}

/// The first `k` digits of `v` write `v` divided by `16^(32 - k)`.
proof fn lemma_hex_prefix(v: u128, k: int)
    requires
        0 <= k <= 32,
    ensures
        hex_number(hex_digits(v).take(k)) == Some((v as int) / pow16((32 - k) as nat)),
    decreases k,
{
    lemma_pow16_positive((32 - k) as nat);
    if k == 0 {
        assert(hex_digits(v).take(0) =~= Seq::<char>::empty());
        reveal_with_fuel(pow16, 33);
        assert(pow16(32) == 0x1_0000_0000_0000_0000_0000_0000_0000_0000int);
        assert((v as int) / pow16(32) == 0) by (nonlinear_arith)
            requires
                0 <= v < pow16(32),
                pow16(32) > 0,
        ;
    } else {
        lemma_hex_prefix(v, k - 1);
        let t = hex_digits(v).take(k);
        assert(t.drop_last() =~= hex_digits(v).take(k - 1));
        let p = pow16((31 - k + 1 - 1) as nat);
        lemma_pow16_positive((32 - k) as nat);
        assert(pow16((33 - k) as nat) == 16 * pow16((32 - k) as nat));
        let q = (v as int) / pow16((32 - k) as nat);
        assert(nibble(v, k - 1) == q % 16);
        lemma_hex_char_value(q % 16);
        assert(t.last() == hex_char(nibble(v, k - 1)));
        assert((v as int) / pow16((33 - k) as nat) == q / 16) by {
            vstd::arithmetic::div_mod::lemma_div_denominator(v as int, pow16((32 - k) as nat), 16);
            assert(pow16((32 - k) as nat) * 16 == 16 * pow16((32 - k) as nat)) by (nonlinear_arith);
        }
        assert(q == 16 * (q / 16) + q % 16) by {
            vstd::arithmetic::div_mod::lemma_fundamental_div_mod(q, 16);
        }
    }
}

/// The hyphenated text of a value parses back to that value.
pub proof fn lemma_hyphenated_reads_back(v: u128)
    ensures
        uuid_parse(uuid_hyphenated(v)) == Some(v),
{
    let h = uuid_hyphenated(v);
    let joined = h.subrange(0, 8) + h.subrange(9, 13) + h.subrange(14, 18) + h.subrange(19, 23) + h.subrange(24, 36);
    assert(joined =~= hex_digits(v));
    lemma_hex_prefix(v, 32);
    assert(hex_digits(v).take(32) =~= hex_digits(v));
    assert(pow16(0) == 1);
}

/// `uuid::Uuid::to_string` (its `Display`, the hyphenated lowercase form)
/// of the UUID whose value is `v`.
#[verifier::external_body]
pub(crate) fn uuid_to_string(v: u128) -> (r: String)
    ensures
        r@ == uuid_hyphenated(v),
{
    uuid::Uuid::from_u128(v).to_string()
}

/// `uuid::Uuid::parse_str`, giving the parsed value or `None` on a parse
/// error: `uuid_parse` states which texts it accepts and what they yield.
#[verifier::external_body]
pub(crate) fn parse_uuid(s: &str) -> (r: Option<u128>)
    ensures
        r == uuid_parse(s@),
{
    match uuid::Uuid::parse_str(s) {
        Ok(u) => Some(u.as_u128()),
        Err(_) => None,
    }
}

} // verus!
