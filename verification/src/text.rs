//! Text helpers: comparison, prefixes, decimal rendering, and the few
//! standard-library text conversions the validator relies on.
use vstd::prelude::*;

verus! {

/// True when `prefix` is an initial segment of `text`.
pub open spec fn is_prefix_of(prefix: Seq<char>, text: Seq<char>) -> bool {
    prefix.len() <= text.len() && text.subrange(0, prefix.len() as int) == prefix
}

/// True when every character of `text` is an ASCII decimal digit.
pub open spec fn all_digits(text: Seq<char>) -> bool {
    forall|i: int| 0 <= i < text.len() ==> '0' <= #[trigger] text[i] <= '9'
}

/// The number written by a sequence of ASCII decimal digits.
pub open spec fn digits_value(text: Seq<char>) -> nat
    decreases text.len(),
{
    if text.len() == 0 {
        0
    } else {
        digits_value(text.drop_last()) * 10 + (text.last() as nat - '0' as nat) as nat
    }
}

/// The integer that `text` writes as an optional `+` or `-` sign followed by
/// one or more ASCII decimal digits; `None` for any other text.
pub open spec fn signed_decimal_value(text: Seq<char>) -> Option<int> {
    let negative = text.len() > 0 && text[0] == '-';
    let signed = text.len() > 0 && (text[0] == '-' || text[0] == '+');
    let digits = if signed { text.drop_first() } else { text };
    if digits.len() > 0 && all_digits(digits) {
        Some(if negative { -(digits_value(digits) as int) } else { digits_value(digits) as int })
    } else {
        None
    }
}

/// What `i64::from_str` accepts: a signed decimal that fits in an `i64`.
pub open spec fn i64_text_value(text: Seq<char>) -> Option<i64> {
    match signed_decimal_value(text) {
        Some(v) => if i64::MIN <= v <= i64::MAX {
            Some(v as i64)
        } else {
            None
        },
        None => None,
    }
}

/// The character of a decimal digit `d < 10`.
pub open spec fn digit_char(d: nat) -> char {
    if d == 0 {
        '0'
    } else if d == 1 {
        '1'
    } else if d == 2 {
        '2'
    } else if d == 3 {
        '3'
    } else if d == 4 {
        '4'
    } else if d == 5 {
        '5'
    } else if d == 6 {
        '6'
    } else if d == 7 {
        '7'
    } else if d == 8 {
        '8'
    } else {
        '9'
    }
}

/// The decimal rendering of `n`, without leading zeros.
pub open spec fn decimal(n: nat) -> Seq<char>
    decreases n,
{
    if n < 10 {
        seq![digit_char(n)]
    } else {
        decimal(n / 10).push(digit_char(n % 10))
    }
}

/// Name for the lower-case form that `str::to_lowercase` gives of a text.
pub uninterp spec fn lowercase_text(text: Seq<char>) -> Seq<char>;

/// The decimal rendering of an integer, with a leading `-` when negative.
pub open spec fn int_text(n: int) -> Seq<char> {
    if n < 0 {
        seq!['-'] + decimal((-n) as nat)
    } else {
        decimal(n as nat)
    }
}

/// Name for the text that `{:?}` gives of a list of strings.
pub uninterp spec fn debug_list_text(items: Seq<Seq<char>>) -> Seq<char>;

/// The ASCII lower-case form of a character: `A`..`Z` become `a`..`z`,
/// every other character stays.
pub open spec fn ascii_lower(c: char) -> char {
    if 'A' <= c <= 'Z' {
        ((c as u32) + 32) as char
    } else {
        c
    }
}

/// Whether every character of `text` is ASCII.
pub open spec fn all_ascii(text: Seq<char>) -> bool {
    forall|i: int| 0 <= i < text.len() ==> (#[trigger] text[i] as u32) < 128
}

/// Calls `str::to_lowercase`. Claimed: the result is the Unicode lower-case
/// form of `text`, which depends on `text` alone; on ASCII text it maps `A` to
/// `Z` to `a` to `z` and keeps every other character, as the documentation of
/// `str::to_ascii_lowercase` states. What the form is on other characters is
/// left unsaid.
#[verifier::external_body]
pub(crate) fn lowercase(text: &str) -> (lower: String)
    ensures
        lower@ == lowercase_text(text@),
        all_ascii(text@) ==> lower@ == text@.map_values(|c: char| ascii_lower(c)),
{
    text.to_lowercase()
}

/// Calls `i64::from_str`. Claimed, as its documentation states: it succeeds
/// exactly on an optional `+` or `-` followed by one or more ASCII digits whose
/// value fits in an `i64`, and then yields that value.
#[verifier::external_body]
pub(crate) fn parse_i64(text: &str) -> (value: Option<i64>)
    ensures
        value == i64_text_value(text@),
{
    <i64 as core::str::FromStr>::from_str(text).ok()
}

/// Calls the `Debug` formatting of a `Vec<String>` (`format!("{:?}", ..)`).
/// Claimed: the text depends on the strings alone; its exact shape (brackets,
/// quotes, escapes) is left unsaid.
#[verifier::external_body]
pub(crate) fn debug_list(items: &Vec<String>) -> (text: String)
    ensures
        text@ == debug_list_text(items.deep_view()),
{
    format!("{:?}", items)
}

/// Character equality of two string slices.
pub fn same_text(a: &str, b: &str) -> (same: bool)
    ensures
        same == (a@ == b@),
{
    let a_len = a.unicode_len();
    let b_len = b.unicode_len();
    if a_len != b_len {
        return false;
    }
    let mut i: usize = 0;
    while i < a_len
        invariant
            a_len == a@.len(),
            b_len == b@.len(),
            a_len == b_len,
            i <= a_len,
            forall|j: int| 0 <= j < i ==> a@[j] == b@[j],
        decreases a_len - i,
    {
        if a.get_char(i) != b.get_char(i) {
            return false;
        }
        i = i + 1;
    }
    assert(a@ =~= b@);
    true
}

/// Whether `prefix` is an initial segment of `text`.
pub fn has_prefix(text: &str, prefix: &str) -> (found: bool)
    ensures
        found == is_prefix_of(prefix@, text@),
{
    let t_len = text.unicode_len();
    let p_len = prefix.unicode_len();
    if p_len > t_len {
        return false;
    }
    let mut i: usize = 0;
    while i < p_len
        invariant
            t_len == text@.len(),
            p_len == prefix@.len(),
            p_len <= t_len,
            i <= p_len,
            forall|j: int| 0 <= j < i ==> text@[j] == prefix@[j],
        decreases p_len - i,
    {
        if text.get_char(i) != prefix.get_char(i) {
            assert(text@.subrange(0, p_len as int)[i as int] != prefix@[i as int]);
            return false;
        }
        i = i + 1;
    }
    assert(text@.subrange(0, p_len as int) =~= prefix@);
    true
}

/// The one-character text of a decimal digit.
fn digit_text(d: u64) -> (text: &'static str)
    requires
        d < 10,
    ensures
        text@ == seq![digit_char(d as nat)],
{
    proof {
        reveal_strlit("0");
        reveal_strlit("1");
        reveal_strlit("2");
        reveal_strlit("3");
        reveal_strlit("4");
        reveal_strlit("5");
        reveal_strlit("6");
        reveal_strlit("7");
        reveal_strlit("8");
        reveal_strlit("9");
    }
    if d == 0 {
        "0"
    } else if d == 1 {
        "1"
    } else if d == 2 {
        "2"
    } else if d == 3 {
        "3"
    } else if d == 4 {
        "4"
    } else if d == 5 {
        "5"
    } else if d == 6 {
        "6"
    } else if d == 7 {
        "7"
    } else if d == 8 {
        "8"
    } else {
        "9"
    }
}

/// The decimal rendering of `n`.
pub fn decimal_text(n: u64) -> (text: String)
    ensures
        text@ == decimal(n as nat),
    decreases n,
{
    if n < 10 {
        String::from_str(digit_text(n))
    } else {
        let mut text = decimal_text(n / 10);
        text.append(digit_text(n % 10));
        text
    }
}

/// The decimal rendering of `n`, with a leading `-` when negative.
pub fn int_text_of(n: i64) -> (text: String)
    ensures
        text@ == int_text(n as int),
{
    if n < 0 {
        let magnitude: u64 = if n == i64::MIN {
            9223372036854775808u64
        } else {
            (-n) as u64
        };
        let mut text = String::from_str("-");
        proof {
            reveal_strlit("-");
        }
        let digits = decimal_text(magnitude);
        text.append(digits.as_str());
        text
    } else {
        decimal_text(n as u64)
    }
}

} // verus!
