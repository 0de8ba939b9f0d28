//! Small text builders shared by the telemetry and translation code:
//! decimal rendering of integers, built up digit by digit.

use vstd::prelude::*;
use vstd::string::*;

verus! {

/// The text of one decimal digit.
pub open spec fn digit_text(d: nat) -> Seq<char> {
    if d == 0 { "0"@ }
    else if d == 1 { "1"@ }
    else if d == 2 { "2"@ }
    else if d == 3 { "3"@ }
    else if d == 4 { "4"@ }
    else if d == 5 { "5"@ }
    else if d == 6 { "6"@ }
    else if d == 7 { "7"@ }
    else if d == 8 { "8"@ }
    else { "9"@ }
}

/// Plain decimal rendering of a natural number, most significant digit first,
/// with no leading zeros (`0` renders as `"0"`).
pub open spec fn decimal(n: nat) -> Seq<char>
    decreases n,
{
    if n < 10 {
        digit_text(n)
    } else {
        decimal(n / 10) + digit_text(n % 10)
    }
}

/// Decimal rendering of a signed integer: a leading `-` for negatives.
pub open spec fn signed_decimal(i: int) -> Seq<char> {
    if i < 0 {
        "-"@ + decimal((-i) as nat)
    } else {
        decimal(i as nat)
    }
}

/// A non-negative number of tenths, rendered with exactly one decimal place
/// (`215` renders as `"21.5"`).
pub open spec fn tenths_text(t: nat) -> Seq<char> {
    decimal(t / 10) + "."@ + digit_text(t % 10)
}

fn digit_str(d: u64) -> (s: &'static str)
    requires
        d < 10,
    ensures
        s@ == digit_text(d as nat),
{
    if d == 0 { "0" }
    else if d == 1 { "1" }
    else if d == 2 { "2" }
    else if d == 3 { "3" }
    else if d == 4 { "4" }
    else if d == 5 { "5" }
    else if d == 6 { "6" }
    else if d == 7 { "7" }
    else if d == 8 { "8" }
    else { "9" }
}

/// Appends the decimal rendering of `n` to `out`.
pub fn push_decimal(out: &mut String, n: u64)
    ensures
        final(out)@ == old(out)@ + decimal(n as nat),
    decreases n,
{
    if n >= 10 {
        push_decimal(out, n / 10);
    }
    out.append(digit_str(n % 10));
}

/// Appends the decimal rendering of a signed `n` to `out`.
pub fn push_signed_decimal(out: &mut String, n: i64)
    ensures
        final(out)@ == old(out)@ + signed_decimal(n as int),
{
    if n < 0 {
        out.append("-");
        let magnitude: u64 = if n == i64::MIN {
            9223372036854775808u64
        } else {
            (-n) as u64
        };
        push_decimal(out, magnitude);
    } else {
        push_decimal(out, n as u64);
    }
}

/// Appends `t` tenths with one decimal place (`215` gives `"21.5"`).
pub fn push_tenths(out: &mut String, t: u64)
    ensures
        final(out)@ == old(out)@ + tenths_text(t as nat),
{
    push_decimal(out, t / 10);
    out.append(".");
    out.append(digit_str(t % 10));
}

} // verus!

verus! {

/// The Unicode `White_Space` characters: U+0009–U+000D, U+0020, U+0085,
/// U+00A0, U+1680, U+2000–U+200A, U+2028, U+2029, U+202F, U+205F, U+3000.
pub open spec fn is_white_space(c: char) -> bool {
    let u = c as u32;
    ||| 0x9 <= u <= 0xd
    ||| u == 0x20
    ||| u == 0x85
    ||| u == 0xa0
    ||| u == 0x1680
    ||| 0x2000 <= u <= 0x200a
    ||| u == 0x2028
    ||| u == 0x2029
    ||| u == 0x202f
    ||| u == 0x205f
    ||| u == 0x3000
}

/// `s` without its leading whitespace.
pub open spec fn without_leading_space(s: Seq<char>) -> Seq<char>
    decreases s.len(),
{
    if s.len() > 0 && is_white_space(s[0]) {
        without_leading_space(s.drop_first())
    } else {
        s
    }
}

/// `s` without its trailing whitespace.
pub open spec fn without_trailing_space(s: Seq<char>) -> Seq<char>
    decreases s.len(),
{
    if s.len() > 0 && is_white_space(s.last()) {
        without_trailing_space(s.drop_last())
    } else {
        s
    }
}

/// `s` without its leading and trailing whitespace.
pub open spec fn trimmed(s: Seq<char>) -> Seq<char> {
    without_trailing_space(without_leading_space(s))
}

/// Calls `str::trim`, which the standard library documents as removing the
/// leading and trailing characters with the Unicode `White_Space` property.
#[verifier::external_body]
pub fn trim(s: &str) -> (r: &str)
    ensures
        r@ == trimmed(s@),
{
    s.trim()
}

proof fn lemma_leading_space_gone(s: Seq<char>)
    ensures
        without_leading_space(s).len() > 0 ==> !is_white_space(without_leading_space(s)[0]),
    decreases s.len(),
{
    if s.len() > 0 && is_white_space(s[0]) {
        lemma_leading_space_gone(s.drop_first());
    }
}

proof fn lemma_trailing_space_gone(s: Seq<char>)
    ensures
        without_trailing_space(s).len() > 0 ==> !is_white_space(without_trailing_space(s).last()),
        without_trailing_space(s).len() <= s.len(),
        s.len() > 0 && !is_white_space(s[0]) ==> without_trailing_space(s).len() > 0
            && without_trailing_space(s)[0] == s[0],
    decreases s.len(),
{
    if s.len() > 0 && is_white_space(s.last()) {
        lemma_trailing_space_gone(s.drop_last());
    }
}

/// Trimming twice is trimming once: trimmed text has no whitespace left at
/// either end.
pub proof fn trimming_is_idempotent(s: Seq<char>)
    ensures
        trimmed(trimmed(s)) == trimmed(s),
        trimmed(s).len() > 0 ==> !is_white_space(trimmed(s)[0]) && !is_white_space(trimmed(s).last()),
{
    let t = trimmed(s);
    lemma_leading_space_gone(s);
    lemma_trailing_space_gone(without_leading_space(s));
    assert(without_leading_space(t) == t);
    assert(without_trailing_space(t) == t);
}

/// What `char::is_uppercase` returns for a character outside ASCII: whether
/// it has the Unicode `Uppercase` property.
pub uninterp spec fn non_ascii_uppercase(c: char) -> bool;

/// Whether `c` has the Unicode `Uppercase` property: within ASCII exactly the
/// letters `A` to `Z`.
pub open spec fn is_uppercase_char(c: char) -> bool {
    if (c as u32) < 128 {
        'A' <= c <= 'Z'
    } else {
        non_ascii_uppercase(c)
    }
}

/// Calls `char::is_uppercase` (the Unicode `Uppercase` property). Within
/// ASCII that is exactly `A` to `Z`; beyond ASCII the result is named, not
/// stated: the Unicode table is not restated here.
#[verifier::external_body]
pub fn is_uppercase(c: char) -> (r: bool)
    ensures
        r == is_uppercase_char(c),
        (c as u32) >= 128 ==> r == non_ascii_uppercase(c),
{
    c.is_uppercase()
}

/// Every character of `s` is ASCII.
pub open spec fn is_ascii_text(s: Seq<char>) -> bool {
    forall|i: int| 0 <= i < s.len() ==> (#[trigger] s[i] as u32) < 128
}

/// ASCII text in capitals: `a` to `z` become `A` to `Z`, the rest stays.
pub open spec fn ascii_uppercased(s: Seq<char>) -> Seq<char> {
    Seq::new(s.len(), |i: int| if 'a' <= s[i] <= 'z' { ((s[i] as u32) - 32) as char } else { s[i] })
}

/// What `str::to_uppercase` returns for text that is not all ASCII: the
/// Unicode uppercase mapping of each character.
pub uninterp spec fn non_ascii_uppercased(s: Seq<char>) -> Seq<char>;

/// The Unicode uppercase mapping of `s`; for ASCII text, `a` to `z` become
/// `A` to `Z` and nothing else changes.
pub open spec fn uppercased(s: Seq<char>) -> Seq<char> {
    if is_ascii_text(s) {
        ascii_uppercased(s)
    } else {
        non_ascii_uppercased(s)
    }
}

/// Calls `str::to_uppercase`. On ASCII text the Unicode mapping is the plain
/// `a`–`z` to `A`–`Z` one; beyond ASCII the result is named, not stated: the
/// Unicode case tables are not restated here.
#[verifier::external_body]
pub fn to_uppercase(s: &str) -> (r: String)
    ensures
        r@ == uppercased(s@),
        !is_ascii_text(s@) ==> r@ == non_ascii_uppercased(s@),
{
    s.to_uppercase()
}

/// How many characters of `s` are uppercase.
pub open spec fn uppercase_count(s: Seq<char>) -> nat
    decreases s.len(),
{
    if s.len() == 0 {
        0
    } else {
        uppercase_count(s.drop_last()) + if is_uppercase_char(s.last()) { 1nat } else { 0nat }
    }
}

/// `n` copies of `s`, one after another.
pub open spec fn repeated(s: Seq<char>, n: nat) -> Seq<char>
    decreases n,
{
    if n == 0 {
        Seq::empty()
    } else {
        repeated(s, (n - 1) as nat) + s
    }
}

/// Counts the uppercase characters of `s`.
pub fn count_uppercase(s: &str) -> (n: usize)
    ensures
        n == uppercase_count(s@),
{
    broadcast use vstd::string::group_string_axioms;
    let len = s.unicode_len();
    let mut n: usize = 0;
    for c in it: s.chars()
        invariant
            len == s@.len(),
            it.seq() == s@,
            n <= it.index(),
            n == uppercase_count(s@.take(it.index() as int)),
    {
        assert(s@.take(it.index() + 1).drop_last() =~= s@.take(it.index() as int));
        if is_uppercase(c) {
            n = n + 1;
        }
    }
    assert(s@.take(s@.len() as int) =~= s@);
    n
}

} // verus!
