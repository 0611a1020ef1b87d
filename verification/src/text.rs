//! Character-level string helpers used by the use cases.
use vstd::prelude::*;
use vstd::string::*;
use vstd::utf8::is_ascii_chars;

verus! {

/// Normalised phone number: a leading `'0'` is replaced by the configured
/// international prefix; anything else is kept as it is.
pub open spec fn normalized_phone(phone: Seq<char>, format: Seq<char>) -> Seq<char> {
    if phone.len() > 0 && phone[0] == '0' {
        format + phone.drop_first()
    } else {
        phone
    }
}

/// Replaces a leading `'0'` of `phone` by `format` (e.g. `"+66"`).
pub fn normalize_phone(phone: &str, format: &str) -> (r: String)
    ensures
        r@ == normalized_phone(phone@, format@),
{
    let n = phone.unicode_len();
    if n > 0 && phone.get_char(0) == '0' {
        let rest = phone.substring_char(1, n);
        let mut out = String::from_str(format);
        out.append(rest);
        assert(rest@ =~= phone@.drop_first());
        out
    } else {
        String::from_str(phone)
    }
}

/// The lowercase form of a string as `str::to_lowercase` computes it
/// (Unicode lowercase mapping).
pub uninterp spec fn lowercase_of(s: Seq<char>) -> Seq<char>;

/// ASCII lowercase mapping of one character.
pub open spec fn ascii_lower(c: char) -> char {
    if 'A' <= c && c <= 'Z' {
        ((c as u32) + 32) as char
    } else {
        c
    }
}

/// `str::to_lowercase`. Its result is named `lowercase_of`; on a string made
/// of ASCII characters only, Unicode lowercasing is ASCII lowercasing, which
/// the second clause states. Nothing else is said of non-ASCII input.
#[verifier::external_body]
pub(crate) fn to_lowercase(s: &str) -> (r: String)
    ensures
        r@ == lowercase_of(s@),
        is_ascii_chars(s@) ==> r@ == s@.map_values(|c: char| ascii_lower(c)),
{
    s.to_lowercase()
}

/// A text made of lowercase ASCII letters and underscores.
pub open spec fn is_lower_word(s: Seq<char>) -> bool {
    forall|i: int| 0 <= i < s.len() ==> ('a' <= #[trigger] s[i] <= 'z' || s[i] == '_')
}

/// Such a text is ASCII, and lowercasing leaves it as it is.
pub proof fn lemma_lower_word_is_lowercase(s: Seq<char>)
    requires
        is_lower_word(s),
    ensures
        is_ascii_chars(s),
        s.map_values(|c: char| ascii_lower(c)) == s,
{
    assert forall|i: int| 0 <= i < s.len() implies '\0' <= #[trigger] s[i] <= '\u{7f}' by {
        assert('a' <= s[i] <= 'z' || s[i] == '_');
    }
    assert(s.map_values(|c: char| ascii_lower(c)) =~= s);
}

/// Replacing a leading `'0'` is idempotent when the prefix itself does not
/// start with `'0'`: a normalised number is left as it is.
pub proof fn normalizing_twice_is_normalizing_once(phone: Seq<char>, format: Seq<char>)
    requires
        format.len() > 0,
        format[0] != '0',
    ensures
        normalized_phone(normalized_phone(phone, format), format) == normalized_phone(phone, format),
{
    if phone.len() > 0 && phone[0] == '0' {
        assert((format + phone.drop_first())[0] == format[0]);
    }
}

/// `String::push`: appends one character.
#[verifier::external_body]
pub(crate) fn push_char(s: &mut String, c: char)
    ensures
        final(s)@ == old(s)@.push(c),
{
    s.push(c);
}

/// Left-to-right replacement of every non-overlapping occurrence of a
/// non-empty `pat` in `text` by `rep` (the meaning of `str::replace`).
pub open spec fn replaced(text: Seq<char>, pat: Seq<char>, rep: Seq<char>) -> Seq<char>
    decreases text.len(),
{
    if pat.len() == 0 || text.len() == 0 {
        text
    } else if pat.len() <= text.len() && text.take(pat.len() as int) == pat {
        rep + replaced(text.skip(pat.len() as int), pat, rep)
    } else {
        seq![text[0]] + replaced(text.drop_first(), pat, rep)
    }
}

/// Replaces every occurrence of `pat` in `text` by `rep`.
pub fn replace_all(text: &str, pat: &str, rep: &str) -> (r: String)
    requires
        pat@.len() > 0,
    ensures
        r@ == replaced(text@, pat@, rep@),
{
    let n = text.unicode_len();
    let m = pat.unicode_len();
    let pat_owned = String::from_str(pat);
    let mut out = String::new();
    let mut i: usize = 0;
    assert(text@.skip(0) =~= text@);
    assert(out@ + replaced(text@, pat@, rep@) =~= replaced(text@, pat@, rep@));
    while i < n
        invariant
            n == text@.len(),
            m == pat@.len(),
            m > 0,
            pat_owned@ == pat@,
            i <= n,
            out@ + replaced(text@.skip(i as int), pat@, rep@) == replaced(text@, pat@, rep@),
        decreases n - i,
    {
        let ghost rest = text@.skip(i as int);
        assert(rest.len() > 0);
        if m <= n - i {
            let window = String::from_str(text.substring_char(i, i + m));
            assert(window@ =~= rest.take(m as int));
            if window == pat_owned {
                out.append(rep);
                assert(rest.skip(m as int) =~= text@.skip(i + m));
                assert(out@ + replaced(text@.skip(i + m), pat@, rep@) =~= replaced(text@, pat@, rep@));
                i = i + m;
                continue;
            }
        }
        let c = text.get_char(i);
        push_char(&mut out, c);
        assert(rest.drop_first() =~= text@.skip(i + 1));
        assert(out@ + replaced(text@.skip(i + 1), pat@, rep@) =~= replaced(text@, pat@, rep@));
        i = i + 1;
    }
    assert(text@.skip(n as int).len() == 0);
    assert(out@ =~= replaced(text@, pat@, rep@));
    out
}

/// The decimal digit character for `d` in `0..10`.
pub open spec fn digit_char(d: int) -> char {
    (('0' as int) + d) as char
}

/// `n` written with exactly six decimal digits, zero-padded on the left
/// (what `format!("{:06}", n)` gives for `n <= 999_999`).
pub open spec fn six_digits(n: int) -> Seq<char> {
    Seq::new(6, |k: int| digit_char((n / pow10((5 - k) as nat)) % 10))
}

/// Powers of ten.
pub open spec fn pow10(e: nat) -> int
    decreases e,
{
    if e == 0 {
        1
    } else {
        10 * pow10((e - 1) as nat)
    }
}

/// Writes `n` (at most six digits) zero-padded to six characters.
pub fn format_six_digits(n: u32) -> (r: String)
    requires
        n <= 999_999,
    ensures
        r@ == six_digits(n as int),
{
    let mut out = String::new();
    let mut div: u32 = 100_000;
    let mut k: usize = 0;
    proof { lemma_small_powers(); }
    while k < 6
        invariant
            k <= 6,
            n <= 999_999,
            div as int == pow10((5 - k) as nat) || (k == 6),
            pow10(0) == 1 && pow10(1) == 10 && pow10(2) == 100 && pow10(3) == 1000
                && pow10(4) == 10000 && pow10(5) == 100000,
            out@.len() == k,
            forall|j: int| 0 <= j < k ==> out@[j] == six_digits(n as int)[j],
        decreases 6 - k,
    {
        let d = (n / div) % 10;
        let c = char_of_digit(d);
        push_char(&mut out, c);
        if k < 5 {
            div = div / 10;
        }
        k = k + 1;
    }
    assert(out@ =~= six_digits(n as int));
    out
}

/// The first six powers of ten.
pub proof fn lemma_small_powers()
    ensures
        pow10(0) == 1,
        pow10(1) == 10,
        pow10(2) == 100,
        pow10(3) == 1000,
        pow10(4) == 10000,
        pow10(5) == 100000,
{
    reveal_with_fuel(pow10, 6);
}

/// The character of one decimal digit.
pub fn char_of_digit(d: u32) -> (c: char)
    requires
        d < 10,
    ensures
        c == digit_char(d as int),
{
    match d {
        0 => '0',
        1 => '1',
        2 => '2',
        3 => '3',
        4 => '4',
        5 => '5',
        6 => '6',
        7 => '7',
        8 => '8',
        _ => '9',
    }
}

} // verus!
