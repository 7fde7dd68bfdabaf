//! Text primitives that the handlers lean on: regular-expression matching,
//! decimal numbers, the clock and the random source.

use vstd::prelude::*;
use vstd::string::{StrSliceExecFns, StringExecFns};

verus! {

/// What the regex crate answers when `pattern` is compiled with
/// `regex::Regex::new` and the compiled pattern is asked, with
/// `Regex::is_match`, whether it matches anywhere in `text`: the two calls
/// taken as one. `None` where the pattern does not compile.
pub uninterp spec fn regex_is_match(pattern: Seq<char>, text: Seq<char>) -> Option<bool>;

/// What the regex crate makes of `text` when `pattern` is compiled with
/// `regex::Regex::new` and `Regex::replace_all` replaces every match of it
/// by the expansion of `rep`: the two calls taken as one. `None` where the
/// pattern does not compile.
pub uninterp spec fn regex_replace_all(pattern: Seq<char>, text: Seq<char>, rep: Seq<char>) -> Option<Seq<char>>;

/// The characters of an optional string.
pub open spec fn opt_text(o: Option<String>) -> Option<Seq<char>> {
    match o {
        Some(s) => Some(s@),
        None => None,
    }
}

/// Compiles `pattern` with `regex::Regex::new` and asks `Regex::is_match`
/// whether it matches anywhere in `text`. The contract only names the answer;
/// a pattern that the crate rejects gives `None`.
#[verifier::external_body]
pub(crate) fn is_match(pattern: &str, text: &str) -> (r: Option<bool>)
    ensures
        r == regex_is_match(pattern@, text@),
{
    match regex::Regex::new(pattern) {
        Ok(re) => Some(re.is_match(text)),
        Err(_) => None,
    }
}

/// Compiles `pattern` with `regex::Regex::new` and runs `Regex::replace_all`
/// on `text` with the replacement `rep`. The contract names the outcome and
/// adds what the crate documents of it: only a pattern that the crate
/// rejects gives `None`, here as in `is_match`.
#[verifier::external_body]
pub(crate) fn replace_all(pattern: &str, text: &str, rep: &str) -> (r: Option<String>)
    ensures
        opt_text(r) == regex_replace_all(pattern@, text@, rep@),
        r is None <==> regex_is_match(pattern@, text@) is None,
{
    match regex::Regex::new(pattern) {
        Ok(re) => Some(re.replace_all(text, rep).into_owned()),
        Err(_) => None,
    }
}

/// What a command pattern captures from `text`: where `pattern` matches,
/// `text` with every match replaced by the expansion of `rep`; `None` where
/// it does not match or does not compile.
pub open spec fn captured(pattern: Seq<char>, text: Seq<char>, rep: Seq<char>) -> Option<Seq<char>> {
    if regex_is_match(pattern, text) == Some(true) {
        regex_replace_all(pattern, text, rep)
    } else {
        None
    }
}

/// Picks from `text` what `rep` names in `pattern`: something exactly where
/// `pattern` matches.
pub fn capture(pattern: &str, text: &str, rep: &str) -> (r: Option<String>)
    ensures
        opt_text(r) == captured(pattern@, text@, rep@),
        r is Some <==> regex_is_match(pattern@, text@) == Some(true),
{
    match is_match(pattern, text) {
        Some(true) => replace_all(pattern, text, rep),
        _ => None,
    }
}

/// Whether two string slices hold the same characters.
pub fn text_eq(a: &str, b: &str) -> (r: bool)
    ensures
        r == (a@ == b@),
{
    let left = a.to_owned();
    let right = b.to_owned();
    left == right
}

/// The decimal digit for a value below ten.
pub open spec fn digit_char(d: nat) -> char
    recommends
        d < 10,
{
    if d == 0 {
        '0'
    } else if d == 1 {
        '1'
    } else if d == 2 {
        '2'
    } else if d == 3 {
        '3'
    } else if d == 4 {
        '4'
    } else if d == 5 {
        '5'
    } else if d == 6 {
        '6'
    } else if d == 7 {
        '7'
    } else if d == 8 {
        '8'
    } else {
        '9'
    }
}

/// The value of a decimal digit.
pub open spec fn digit_value(c: char) -> nat
    recommends
        is_digit(c),
{
    (c as nat - '0' as nat) as nat
}

/// Whether `c` is one of the ten ASCII digits.
pub open spec fn is_digit(c: char) -> bool {
    '0' <= c && c <= '9'
}

/// A number written in decimal, without leading zeros.
pub open spec fn decimal_text(n: nat) -> Seq<char>
    decreases n,
{
    if n < 10 {
        seq![digit_char(n)]
    } else {
        decimal_text(n / 10).push(digit_char(n % 10))
    }
}

/// Whether `s` is a non-empty run of ASCII digits.
pub open spec fn all_digits(s: Seq<char>) -> bool {
    s.len() > 0 && forall|i: int| 0 <= i < s.len() ==> is_digit(#[trigger] s[i])
}

/// The number that a run of ASCII digits denotes.
pub open spec fn decimal_value(s: Seq<char>) -> nat
    decreases s.len(),
{
    if s.len() == 0 {
        0
    } else {
        decimal_value(s.drop_last()) * 10 + digit_value(s.last())
    }
}

/// What parsing `s` as an unsigned 128-bit number gives: an optional `+`,
/// then digits only, and a value that fits.
pub open spec fn parsed_u128(s: Seq<char>) -> Option<u128> {
    let digits = if s.len() > 0 && s[0] == '+' {
        s.subrange(1, s.len() as int)
    } else {
        s
    };
    if all_digits(digits) && decimal_value(digits) <= u128::MAX {
        Some(decimal_value(digits) as u128)
    } else {
        None
    }
}

/// A number never gets smaller when digits are written behind it.
pub proof fn lemma_decimal_value_grows(s: Seq<char>, k: int)
    requires
        0 <= k <= s.len(),
    ensures
        decimal_value(s.take(k)) <= decimal_value(s),
    decreases s.len() - k,
{
    if k < s.len() {
        lemma_decimal_value_grows(s, k + 1);
        assert(s.take(k + 1).drop_last() == s.take(k));
    } else {
        assert(s.take(k) == s);
    }
}

/// Reads an unsigned 128-bit number: an optional `+`, then decimal digits
/// only, and a value that fits.
pub fn parse_u128(s: &str) -> (r: Option<u128>)
    ensures
        r == parsed_u128(s@),
{
    let n = s.unicode_len();
    let start: usize = if n > 0 && s.get_char(0) == '+' {
        1
    } else {
        0
    };
    if start >= n {
        return None;
    }
    let ghost digits = s@.subrange(start as int, n as int);
    proof {
        if start == 0 {
            assert(digits =~= s@);
        }
    }
    let mut value: u128 = 0;
    let mut i: usize = start;
    while i < n
        invariant
            start <= i <= n,
            n == s@.len(),
            digits == s@.subrange(start as int, n as int),
            parsed_u128(s@) == if all_digits(digits) && decimal_value(digits) <= u128::MAX {
                Some(decimal_value(digits) as u128)
            } else {
                None
            },
            forall|j: int| 0 <= j < i - start ==> is_digit(#[trigger] digits[j]),
            value == decimal_value(digits.take(i - start)),
        decreases n - i,
    {
        let c = s.get_char(i);
        let code = c as u32;
        assert(c == digits[i - start]);
        if code < 48 || code > 57 {
            assert(!is_digit(digits[i - start]));
            return None;
        }
        let d: u128 = (code - 48) as u128;
        proof {
            assert(digits.take(i - start + 1).drop_last() == digits.take(i - start));
            assert(digits.take(i - start + 1).last() == c);
            assert(digit_value(c) == d);
            lemma_decimal_value_grows(digits, i - start + 1);
        }
        match value.checked_mul(10) {
            None => {
                return None;
            },
            Some(tens) => match tens.checked_add(d) {
                None => {
                    return None;
                },
                Some(next) => {
                    value = next;
                },
            },
        }
        i = i + 1;
    }
    assert(digits.take(n - start) == digits);
    Some(value)
}

/// The decimal digit for a value below ten, as a string.
pub fn digit_text(d: u8) -> (r: &'static str)
    requires
        d < 10,
    ensures
        r@ == seq![digit_char(d as nat)],
{
    proof {
        reveal_strlit("0");
        reveal_strlit("1");
        reveal_strlit("2");
        reveal_strlit("3");
        reveal_strlit("4");
        reveal_strlit("5");
        reveal_strlit("6");
        reveal_strlit("7");
        reveal_strlit("8");
        reveal_strlit("9");
    }
    let r = if d == 0 {
        "0"
    } else if d == 1 {
        "1"
    } else if d == 2 {
        "2"
    } else if d == 3 {
        "3"
    } else if d == 4 {
        "4"
    } else if d == 5 {
        "5"
    } else if d == 6 {
        "6"
    } else if d == 7 {
        "7"
    } else if d == 8 {
        "8"
    } else {
        "9"
    };
    assert(r@ =~= seq![digit_char(d as nat)]);
    r
}

/// A number in decimal, without sign or padding.
pub fn u128_text(n: u128) -> (r: String)
    ensures
        r@ == decimal_text(n as nat),
    decreases n,
{
    if n < 10 {
        String::from_str(digit_text(n as u8))
    } else {
        let mut text = u128_text(n / 10);
        text.append(digit_text((n % 10) as u8));
        assert(text@ =~= decimal_text(n as nat / 10).push(digit_char(n as nat % 10)));
        text
    }
}

/// A signed number in decimal, zero-padded to a width of two.
pub open spec fn padded2_text(v: int) -> Seq<char> {
    if v < 0 {
        seq!['-'] + decimal_text((-v) as nat)
    } else if v < 10 {
        seq!['0'] + decimal_text(v as nat)
    } else {
        decimal_text(v as nat)
    }
}

/// A signed number in decimal, with the sign, where negative, before the
/// digits, and one leading zero where the whole would otherwise be a single
/// character.
pub fn i64_padded2(v: i64) -> (r: String)
    ensures
        r@ == padded2_text(v as int),
{
    proof {
        reveal_strlit("-");
        reveal_strlit("0");
    }
    if v < 0 {
        let magnitude: u128 = (-(v as i128)) as u128;
        let digits = u128_text(magnitude);
        let mut text = String::from_str("-");
        text.append(digits.as_str());
        assert(text@ =~= seq!['-'] + decimal_text((-v) as nat));
        text
    } else if v < 10 {
        let digits = u128_text(v as u128);
        let mut text = String::from_str("0");
        text.append(digits.as_str());
        assert(text@ =~= seq!['0'] + decimal_text(v as nat));
        text
    } else {
        u128_text(v as u128)
    }
}

/// `count` blanks.
pub open spec fn blanks(count: nat) -> Seq<char> {
    Seq::new(count, |i: int| ' ')
}

/// `text` behind as many blanks as bring it to `width` characters.
pub open spec fn right_aligned(text: Seq<char>, width: nat) -> Seq<char> {
    if text.len() < width {
        blanks((width - text.len()) as nat) + text
    } else {
        text
    }
}

/// `text` before as many blanks as bring it to `width` characters.
pub open spec fn left_aligned(text: Seq<char>, width: nat) -> Seq<char> {
    if text.len() < width {
        text + blanks((width - text.len()) as nat)
    } else {
        text
    }
}

/// `count` blanks.
pub fn blank_text(count: usize) -> (r: String)
    ensures
        r@ == blanks(count as nat),
{
    proof {
        reveal_strlit(" ");
    }
    let mut out = String::new();
    let mut i: usize = 0;
    while i < count
        invariant
            i <= count,
            out@ =~= blanks(i as nat),
            " "@ =~= seq![' '],
        decreases count - i,
    {
        out.append(" ");
        i = i + 1;
    }
    out
}

/// Pads `text` with blanks on the left to `width` characters.
pub fn align_right(text: &str, width: usize) -> (r: String)
    ensures
        r@ == right_aligned(text@, width as nat),
{
    let len = text.unicode_len();
    if len < width {
        let mut out = blank_text(width - len);
        out.append(text);
        out
    } else {
        String::from_str(text)
    }
}

/// Pads `text` with blanks on the right to `width` characters.
pub fn align_left(text: &str, width: usize) -> (r: String)
    ensures
        r@ == left_aligned(text@, width as nat),
{
    let len = text.unicode_len();
    let mut out = String::from_str(text);
    if len < width {
        let fill = blank_text(width - len);
        out.append(fill.as_str());
    }
    out
}

/// The first `count` of `parts`, with `sep` between them.
pub open spec fn joined(parts: Seq<String>, sep: Seq<char>, count: int) -> Seq<char>
    decreases count,
{
    if count <= 0 {
        Seq::empty()
    } else if count == 1 {
        parts[0]@
    } else {
        joined(parts, sep, count - 1) + sep + parts[count - 1]@
    }
}

/// `parts` with `sep` between them.
pub fn join(parts: &Vec<String>, sep: &str) -> (r: String)
    ensures
        r@ == joined(parts@, sep@, parts@.len() as int),
{
    let mut out = String::new();
    let mut i: usize = 0;
    while i < parts.len()
        invariant
            i <= parts@.len(),
            out@ == joined(parts@, sep@, i as int),
        decreases parts@.len() - i,
    {
        if i > 0 {
            out.append(sep);
        }
        out.append(parts[i].as_str());
        proof {
            if i == 0 {
                assert(out@ == parts@[0]@);
            }
        }
        i = i + 1;
    }
    out
}

/// `chrono::Utc::now().timestamp()`: the seconds since the Unix epoch on the
/// machine's clock. Nothing is promised of the value, which differs from
/// call to call. The crate panics where the machine's clock stands before
/// the epoch, which no argument decides.
#[verifier::external_body]
pub(crate) fn unix_now() -> i64 {
    chrono::Utc::now().timestamp()
}

/// `chrono::Local`'s `timestamp_opt`, then `naive_local` and the date's
/// `Display`: the wall-clock date and time, in the machine's time zone, of
/// the moment `seconds` after the Unix epoch. The crate has a date for every
/// such moment within 32 bits, centuries away from the ends of its range,
/// where the zone's offset could carry the local time out of it: so there is
/// always a text. Nothing is promised of the text itself, which depends on
/// the zone.
#[verifier::external_body]
pub(crate) fn local_time_text(seconds: i32) -> (r: Option<String>)
    ensures
        r is Some,
{
    match chrono::TimeZone::timestamp_opt(&chrono::Local, seconds.into(), 0).single() {
        Some(moment) => Some(moment.naive_local().to_string()),
        None => None,
    }
}

/// `rand::Rng::gen_range` on the thread's generator, over the inclusive
/// range `lo..=hi`: some value of the range. An empty range is left out, as
/// the crate panics on it.
#[verifier::external_body]
pub(crate) fn random_between(lo: u128, hi: u128) -> (r: u128)
    requires
        lo <= hi,
    ensures
        lo <= r <= hi,
{
    rand::Rng::gen_range(&mut rand::thread_rng(), lo..=hi)
}

} // verus!
