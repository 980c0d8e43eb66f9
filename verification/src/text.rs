//! Character-level text helpers shared by the menus and the name
//! derivation: whitespace classification, trimming, ASCII lowercasing and
//! decimal parsing of menu selections.

use vstd::prelude::*;

verus! {

/// Whether `c` has the Unicode `White_Space` property, as
/// `char::is_whitespace` decides it.
pub uninterp spec fn is_unicode_whitespace(c: char) -> bool;

/// Relies on char::is_whitespace: true exactly for the characters with the
/// Unicode White_Space property; among ASCII characters those are the space
/// and U+0009 through U+000D.
#[verifier::external_body]
pub(crate) fn char_is_whitespace(c: char) -> (r: bool)
    ensures
        r == is_unicode_whitespace(c),
        (c as int) < 128 ==> (r <==> (c == ' ' || ('\t' <= c && c <= '\r'))),
{
    c.is_whitespace()
}

/// Index of the first character at or after `i` that is not whitespace, or
/// the length of `s` if there is none.
pub open spec fn first_visible_from(s: Seq<char>, i: int) -> int
    decreases s.len() - i,
{
    if i < 0 || i >= s.len() {
        s.len() as int
    } else if !is_unicode_whitespace(s[i]) {
        i
    } else {
        first_visible_from(s, i + 1)
    }
}

/// One past the index of the last non-whitespace character strictly before
/// `j`, or 0 if there is none.
pub open spec fn visible_end_upto(s: Seq<char>, j: int) -> int
    decreases j,
{
    if j <= 0 || j > s.len() {
        0
    } else if !is_unicode_whitespace(s[j - 1]) {
        j
    } else {
        visible_end_upto(s, j - 1)
    }
}

proof fn lemma_visible_end_upto_le(s: Seq<char>, j: int)
    requires
        0 <= j,
    ensures
        0 <= visible_end_upto(s, j) <= j,
    decreases j,
{
    if 0 < j <= s.len() && is_unicode_whitespace(s[j - 1]) {
        lemma_visible_end_upto_le(s, j - 1);
    }
}

/// `s` with leading and trailing whitespace removed, as `str::trim`
/// computes it.
pub open spec fn trim_spec(s: Seq<char>) -> Seq<char> {
    let a = first_visible_from(s, 0);
    let b = visible_end_upto(s, s.len() as int);
    if a >= b {
        Seq::empty()
    } else {
        s.subrange(a, b)
    }
}

/// Trim leading and trailing whitespace from `s`.
pub fn trim_str<'a>(s: &'a str) -> (r: &'a str)
    ensures
        r@ == trim_spec(s@),
{
    let n = s.unicode_len();
    let mut i: usize = 0;
    while i < n && char_is_whitespace(s.get_char(i))
        invariant
            0 <= i <= n,
            n == s@.len(),
            first_visible_from(s@, 0) == first_visible_from(s@, i as int),
        decreases n - i,
    {
        i = i + 1;
    }
    if i == n {
        let empty = s.substring_char(0, 0);
        proof {
            assert(s@.subrange(0, 0) =~= Seq::<char>::empty());
            assert(first_visible_from(s@, 0) == n);
            lemma_visible_end_upto_le(s@, n as int);
        }
        return empty;
    }
    let mut j: usize = n;
    while j > i && char_is_whitespace(s.get_char(j - 1))
        invariant
            i < j <= n,
            i < n,
            n == s@.len(),
            first_visible_from(s@, 0) == i as int,
            !is_unicode_whitespace(s@[i as int]),
            visible_end_upto(s@, n as int) == visible_end_upto(s@, j as int),
        decreases j,
    {
        j = j - 1;
    }
    proof {
        assert(!is_unicode_whitespace(s@[j - 1]));
        assert(visible_end_upto(s@, j as int) == j as int);
    }
    s.substring_char(i, j)
}

/// Whether `s` contains at least one non-whitespace character, which is
/// exactly when its trimmed form is non-empty.
pub fn has_visible_char(s: &str) -> (r: bool)
    ensures
        r == exists|k: int| 0 <= k < s@.len() && !is_unicode_whitespace(s@[k]),
{
    let n = s.unicode_len();
    let mut i: usize = 0;
    while i < n
        invariant
            0 <= i <= n,
            n == s@.len(),
            forall|k: int| 0 <= k < i ==> is_unicode_whitespace(s@[k]),
        decreases n - i,
    {
        if !char_is_whitespace(s.get_char(i)) {
            assert(!is_unicode_whitespace(s@[i as int]));
            return true;
        }
        i = i + 1;
    }
    false
}

/// The ASCII lowercase counterpart of `c`: uppercase ASCII letters are
/// mapped to their lowercase form, every other character is unchanged.
pub open spec fn lower_ascii_spec(c: char) -> char {
    match c {
        'A' => 'a',
        'B' => 'b',
        'C' => 'c',
        'D' => 'd',
        'E' => 'e',
        'F' => 'f',
        'G' => 'g',
        'H' => 'h',
        'I' => 'i',
        'J' => 'j',
        'K' => 'k',
        'L' => 'l',
        'M' => 'm',
        'N' => 'n',
        'O' => 'o',
        'P' => 'p',
        'Q' => 'q',
        'R' => 'r',
        'S' => 's',
        'T' => 't',
        'U' => 'u',
        'V' => 'v',
        'W' => 'w',
        'X' => 'x',
        'Y' => 'y',
        'Z' => 'z',
        _ => c,
    }
}

/// Whether `c` is an ASCII decimal digit.
pub open spec fn is_ascii_digit_spec(c: char) -> bool {
    '0' <= c && c <= '9'
}

/// Numeric value of an ASCII decimal digit.
pub open spec fn digit_val(c: char) -> int {
    c as int - 48
}

/// Whether `s` is a non-empty run of ASCII decimal digits.
pub open spec fn digits_wf(s: Seq<char>) -> bool {
    s.len() > 0 && forall|i: int| 0 <= i < s.len() ==> is_ascii_digit_spec(s[i])
}

/// Value of a run of ASCII decimal digits, most significant first.
pub open spec fn digits_val(s: Seq<char>) -> int
    decreases s.len(),
{
    if s.len() == 0 {
        0
    } else {
        digits_val(s.drop_last()) * 10 + digit_val(s.last())
    }
}

/// The digit run denoted by `s`: `s` itself, or everything after an
/// optional leading plus sign, which `usize::from_str` accepts.
pub open spec fn number_body(s: Seq<char>) -> Seq<char> {
    if s.len() > 0 && s[0] == '+' {
        s.drop_first()
    } else {
        s
    }
}

/// Whether `s` parses as a `usize`: an optional plus sign, then at least
/// one ASCII digit, denoting a value that fits.
pub open spec fn parses_as_usize(s: Seq<char>) -> bool {
    digits_wf(number_body(s)) && digits_val(number_body(s)) <= usize::MAX
}

proof fn lemma_digits_val_nonneg(s: Seq<char>)
    requires
        forall|i: int| 0 <= i < s.len() ==> is_ascii_digit_spec(s[i]),
    ensures
        digits_val(s) >= 0,
    decreases s.len(),
{
    if s.len() > 0 {
        lemma_digits_val_nonneg(s.drop_last());
    }
}

proof fn lemma_digits_val_prefix_le(s: Seq<char>, j: int)
    requires
        forall|i: int| 0 <= i < s.len() ==> is_ascii_digit_spec(s[i]),
        0 <= j <= s.len(),
    ensures
        digits_val(s.subrange(0, j)) <= digits_val(s),
    decreases s.len() - j,
{
    if j == s.len() {
        assert(s.subrange(0, j) =~= s);
    } else {
        lemma_digits_val_prefix_le(s, j + 1);
        let t = s.subrange(0, j + 1);
        assert(t.drop_last() =~= s.subrange(0, j));
        assert(forall|i: int| 0 <= i < t.len() ==> is_ascii_digit_spec(t[i]));
        lemma_digits_val_nonneg(t.drop_last());
        assert(digits_val(t) == digits_val(t.drop_last()) * 10 + digit_val(t.last()));
        assert(digit_val(t.last()) >= 0);
        assert(digits_val(t.drop_last()) * 10 >= digits_val(t.drop_last())) by {
            lemma_digits_val_nonneg(t.drop_last());
        }
    }
}

/// Parse `s` as a decimal `usize`, accepting an optional leading plus
/// sign, as `str::parse::<usize>` does.
pub fn parse_usize(s: &str) -> (r: Option<usize>)
    ensures
        parses_as_usize(s@) ==> (r matches Some(v) && v == digits_val(number_body(s@))),
        !parses_as_usize(s@) ==> r is None,
{
    let n = s.unicode_len();
    let start: usize = if n > 0 && s.get_char(0) == '+' {
        1
    } else {
        0
    };
    let ghost body = number_body(s@);
    proof {
        assert(body =~= s@.subrange(start as int, n as int));
    }
    if start == n {
        return None;
    }
    let mut acc: usize = 0;
    let mut i: usize = start;
    while i < n
        invariant
            start <= i <= n,
            n == s@.len(),
            start < n,
            body == number_body(s@),
            body =~= s@.subrange(start as int, n as int),
            forall|k: int| 0 <= k < i - start ==> is_ascii_digit_spec(body[k]),
            acc == digits_val(body.subrange(0, i - start)),
        decreases n - i,
    {
        let c = s.get_char(i);
        if !(c >= '0' && c <= '9') {
            proof {
                assert(!is_ascii_digit_spec(body[i - start]));
                if digits_wf(body) {
                    assert(is_ascii_digit_spec(body[i - start]));
                }
            }
            return None;
        }
        let d: usize = (c as usize) - 48;
        assert(d == digit_val(body[i - start]));
        let wide: u128 = (acc as u128) * 10 + (d as u128);
        if wide > (usize::MAX as u128) {
            proof {
                let taken = body.subrange(0, i - start + 1);
                assert(taken.drop_last() =~= body.subrange(0, i - start));
                assert(taken.last() == body[i - start]);
                assert(digits_val(taken) == acc * 10 + d);
                assert(acc * 10 + d > usize::MAX);
                if digits_wf(body) {
                    lemma_digits_val_prefix_le(body, i - start + 1);
                }
            }
            return None;
        }
        acc = wide as usize;
        i = i + 1;
        proof {
            let taken = body.subrange(0, i - start);
            assert(taken.drop_last() =~= body.subrange(0, i - start - 1));
            assert(taken.last() == body[i - start - 1]);
        }
    }
    proof {
        assert(body.subrange(0, n - start) =~= body);
    }
    Some(acc)
}

/// Lowercase an ASCII letter, leaving every other character unchanged.
pub fn to_ascii_lower(c: char) -> (r: char)
    ensures
        r == lower_ascii_spec(c),
{
    match c {
        'A' => 'a',
        'B' => 'b',
        'C' => 'c',
        'D' => 'd',
        'E' => 'e',
        'F' => 'f',
        'G' => 'g',
        'H' => 'h',
        'I' => 'i',
        'J' => 'j',
        'K' => 'k',
        'L' => 'l',
        'M' => 'm',
        'N' => 'n',
        'O' => 'o',
        'P' => 'p',
        'Q' => 'q',
        'R' => 'r',
        'S' => 's',
        'T' => 't',
        'U' => 'u',
        'V' => 'v',
        'W' => 'w',
        'X' => 'x',
        'Y' => 'y',
        'Z' => 'z',
        _ => c,
    }
}

} // verus!
