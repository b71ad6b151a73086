//! Small facts and operations on strings that the rest of the library shares.

use vstd::prelude::*;

verus! {

/// The texts of a sequence of strings, in order.
pub open spec fn texts(v: Seq<String>) -> Seq<Seq<char>> {
    v.map_values(|s: String| s@)
}

/// Whether `pattern` occurs in `text` as a contiguous run of characters.
pub open spec fn has_substring(text: Seq<char>, pattern: Seq<char>) -> bool {
    exists|i: int|
        0 <= i && i + pattern.len() <= text.len()
            && #[trigger] text.subrange(i, i + pattern.len()) == pattern
}

/// Substring search by `str::contains` with a string pattern: true exactly
/// when the pattern matches some sub-slice of the text.
#[verifier::external_body]
pub(crate) fn contains_text(text: &str, pattern: &str) -> (found: bool)
    ensures
        found == has_substring(text@, pattern@),
{
    text.contains(pattern)
}

/// A text holds a character exactly when it holds the pattern made of that
/// character alone.
pub proof fn single_character_pattern(text: Seq<char>, c: char)
    ensures
        has_substring(text, seq![c]) == text.contains(c),
{
    let pattern = seq![c];
    if has_substring(text, pattern) {
        let i = choose|i: int|
            0 <= i && i + pattern.len() <= text.len() && #[trigger] text.subrange(
                i,
                i + pattern.len(),
            ) == pattern;
        assert(text.subrange(i, i + 1)[0] == c);
        assert(text[i] == c);
    }
    if text.contains(c) {
        let i = choose|i: int| 0 <= i < text.len() && text[i] == c;
        assert(text.subrange(i, i + 1) =~= pattern);
        assert(text.subrange(i, i + pattern.len()) == pattern);
    }
}

/// Whether `c` is whitespace as `str::trim` takes it: one of the code points
/// with the Unicode property `White_Space`.
pub open spec fn is_whitespace(c: char) -> bool {
    ||| '\u{0009}' <= c <= '\u{000D}'
    ||| c == '\u{0020}'
    ||| c == '\u{0085}'
    ||| c == '\u{00A0}'
    ||| c == '\u{1680}'
    ||| '\u{2000}' <= c <= '\u{200A}'
    ||| c == '\u{2028}'
    ||| c == '\u{2029}'
    ||| c == '\u{202F}'
    ||| c == '\u{205F}'
    ||| c == '\u{3000}'
}

/// The number of whitespace characters that a text begins with.
pub open spec fn leading_whitespace(text: Seq<char>) -> nat
    decreases text.len(),
{
    if text.len() > 0 && is_whitespace(text[0]) {
        1 + leading_whitespace(text.drop_first())
    } else {
        0
    }
}

/// The number of whitespace characters that a text ends with.
pub open spec fn trailing_whitespace(text: Seq<char>) -> nat
    decreases text.len(),
{
    if text.len() > 0 && is_whitespace(text.last()) {
        1 + trailing_whitespace(text.drop_last())
    } else {
        0
    }
}

/// What `str::trim` leaves of a text: the text without the whitespace that
/// it begins with and, of what is left, without the whitespace that it ends
/// with.
pub open spec fn trimmed(text: Seq<char>) -> Seq<char> {
    let rest = text.skip(leading_whitespace(text) as int);
    rest.take(rest.len() - trailing_whitespace(rest))
}

/// The whitespace that a text ends with is no longer than the text.
pub proof fn trailing_whitespace_fits(text: Seq<char>)
    ensures
        trailing_whitespace(text) <= text.len(),
    decreases text.len(),
{
    if text.len() > 0 && is_whitespace(text.last()) {
        trailing_whitespace_fits(text.drop_last());
    }
}

/// Trimming leaves alone a text that neither begins nor ends with
/// whitespace; the empty text is one.
pub proof fn trimmed_of_tight_text(text: Seq<char>)
    requires
        text.len() > 0 ==> !is_whitespace(text[0]) && !is_whitespace(text.last()),
    ensures
        trimmed(text) == text,
{
    assert(text.skip(0) =~= text);
    assert(text.take(text.len() as int) =~= text);
}

/// Trimming leaves nothing exactly of a text that is all whitespace.
pub proof fn trimmed_is_empty_of_blank_text(text: Seq<char>)
    ensures
        trimmed(text).len() == 0 <==> forall|i: int|
            0 <= i < text.len() ==> is_whitespace(#[trigger] text[i]),
{
    leading_whitespace_counts(text);
    let start = leading_whitespace(text) as int;
    let rest = text.skip(start);
    trailing_whitespace_fits(rest);
    if start < text.len() {
        // What is left begins with a character that is no whitespace, so the
        // whitespace at its end cannot reach the beginning.
        assert(rest[0] == text[start]);
        trailing_whitespace_stops(rest, 0);
    } else {
        assert forall|i: int| 0 <= i < text.len() implies is_whitespace(#[trigger] text[i]) by {}
    }
}

/// The characters before the end of the leading whitespace are whitespace,
/// and the one at its end, if there is one, is not.
pub proof fn leading_whitespace_counts(text: Seq<char>)
    ensures
        leading_whitespace(text) <= text.len(),
        forall|i: int| 0 <= i < leading_whitespace(text) ==> is_whitespace(#[trigger] text[i]),
        leading_whitespace(text) < text.len() ==> !is_whitespace(
            text[leading_whitespace(text) as int],
        ),
    decreases text.len(),
{
    if text.len() > 0 && is_whitespace(text[0]) {
        let rest = text.drop_first();
        leading_whitespace_counts(rest);
        assert forall|i: int| 0 <= i < leading_whitespace(text) implies is_whitespace(
            #[trigger] text[i],
        ) by {
            if i > 0 {
                assert(text[i] == rest[i - 1]);
            }
        }
        if leading_whitespace(text) < text.len() {
            assert(text[leading_whitespace(text) as int] == rest[leading_whitespace(rest) as int]);
        }
    }
}

/// The whitespace that a text ends with does not reach back over a
/// character that is no whitespace.
pub proof fn trailing_whitespace_stops(text: Seq<char>, at: int)
    requires
        0 <= at < text.len(),
        !is_whitespace(text[at]),
    ensures
        trailing_whitespace(text) < text.len() - at,
    decreases text.len(),
{
    if is_whitespace(text.last()) {
        let rest = text.drop_last();
        assert(rest[at] == text[at]);
        trailing_whitespace_stops(rest, at);
    }
}

/// What `str::to_lowercase` makes of a text: its lowercase equivalent under
/// the Unicode case mapping.
pub uninterp spec fn lowercased(text: Seq<char>) -> Seq<char>;

/// `str::trim`: the slice of the text between its leading and trailing
/// whitespace, where whitespace is what the Unicode property `White_Space`
/// holds.
#[verifier::external_body]
pub(crate) fn trim<'a>(text: &'a str) -> (inner: &'a str)
    ensures
        inner@ == trimmed(text@),
{
    text.trim()
}

/// `str::to_lowercase`: a new string with every character mapped to lower
/// case. The contract only names the result.
#[verifier::external_body]
pub(crate) fn to_lowercase(text: &str) -> (lower: String)
    ensures
        lower@ == lowercased(text@),
{
    text.to_lowercase()
}

/// The number of bytes that a text takes in UTF-8.
pub fn byte_len(text: &str) -> (n: usize)
    ensures
        n == vstd::utf8::encode_utf8(text@).len(),
{
    text.as_bytes().len()
}

/// The decimal digit that stands for `d`.
pub open spec fn digit_char(d: int) -> char {
    if d == 0 {
        '0'
    } else if d == 1 {
        '1'
    } else if d == 2 {
        '2'
    } else if d == 3 {
        '3'
    } else if d == 4 {
        '4'
    } else if d == 5 {
        '5'
    } else if d == 6 {
        '6'
    } else if d == 7 {
        '7'
    } else if d == 8 {
        '8'
    } else {
        '9'
    }
}

/// The decimal notation of `n`, without leading zeros.
pub open spec fn decimal(n: nat) -> Seq<char>
    decreases n,
{
    if n < 10 {
        seq![digit_char(n as int)]
    } else {
        decimal(n / 10).push(digit_char((n % 10) as int))
    }
}

fn digit(d: u8) -> (text: &'static str)
    requires
        d < 10,
    ensures
        text@ == seq![digit_char(d as int)],
{
    proof {
        reveal_strlit("0");
        reveal_strlit("1");
        reveal_strlit("2");
        reveal_strlit("3");
        reveal_strlit("4");
        reveal_strlit("5");
        reveal_strlit("6");
        reveal_strlit("7");
        reveal_strlit("8");
        reveal_strlit("9");
    }
    let text = match d {
        0 => "0",
        1 => "1",
        2 => "2",
        3 => "3",
        4 => "4",
        5 => "5",
        6 => "6",
        7 => "7",
        8 => "8",
        _ => "9",
    };
    assert(text@ =~= seq![digit_char(d as int)]);
    text
}

/// The decimal notation of a signed number: a minus sign before the digits
/// of a negative one.
pub open spec fn signed_decimal(n: int) -> Seq<char> {
    if n < 0 {
        seq!['-'] + decimal((-n) as nat)
    } else {
        decimal(n as nat)
    }
}

/// The decimal notation of `n`.
pub fn decimal_string(n: u64) -> (text: String)
    ensures
        text@ == decimal(n as nat),
    decreases n,
{
    if n < 10 {
        digit(n as u8).to_owned()
    } else {
        let mut text = decimal_string(n / 10);
        let ghost before = text@;
        text.append(digit((n % 10) as u8));
        assert(text@ =~= before.push(digit_char((n % 10) as int)));
        text
    }
}

} // verus!
