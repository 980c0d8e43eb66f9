//! Derivation of the character's display name from identity candidates:
//! split on hyphens, underscores and whitespace, capitalize each word, and
//! fall back to a fixed name when nothing usable is left.

use vstd::prelude::*;
use crate::text::is_unicode_whitespace;
use crate::text::char_is_whitespace;

verus! {

/// What `char::to_uppercase` yields for `c`, collected in order.
pub uninterp spec fn unicode_upper_char(c: char) -> Seq<char>;

/// Relies on char::to_uppercase: the Unicode uppercase mapping of the
/// character, which depends on the character alone.
#[verifier::external_body]
fn char_to_upper(c: char) -> (r: String)
    ensures
        r@ == unicode_upper_char(c),
{
    c.to_uppercase().collect::<String>()
}

/// What `str::to_lowercase` returns for a string with these characters.
pub uninterp spec fn unicode_lower(s: Seq<char>) -> Seq<char>;

/// Relies on str::to_lowercase: the Unicode lowercase form of the string,
/// which depends on its characters alone.
#[verifier::external_body]
fn str_to_lower(s: &str) -> (r: String)
    ensures
        r@ == unicode_lower(s@),
{
    s.to_lowercase()
}

/// Characters that separate the words of a name candidate.
pub open spec fn is_name_sep(c: char) -> bool {
    c == '-' || c == '_' || is_unicode_whitespace(c)
}

fn is_name_sep_exec(c: char) -> (r: bool)
    ensures
        r == is_name_sep(c),
{
    c == '-' || c == '_' || char_is_whitespace(c)
}

/// Index of the first separator at or after `i`, or the length of `s` if
/// the word runs to the end.
pub open spec fn word_end_from(s: Seq<char>, i: int) -> int
    decreases s.len() - i,
{
    if i < 0 || i >= s.len() {
        s.len() as int
    } else if is_name_sep(s[i]) {
        i
    } else {
        word_end_from(s, i + 1)
    }
}

proof fn lemma_word_end_bounds(s: Seq<char>, i: int)
    requires
        0 <= i <= s.len(),
    ensures
        i <= word_end_from(s, i) <= s.len(),
    decreases s.len() - i,
{
    if i < s.len() && !is_name_sep(s[i]) {
        lemma_word_end_bounds(s, i + 1);
    }
}

/// The formatted name derived from the characters of `s` at and after
/// `i`: each separator-delimited word becomes its first character's
/// uppercase mapping followed by the lowercase form of the rest, and the
/// words are joined by single spaces.
pub open spec fn fmt_from(s: Seq<char>, i: int) -> Seq<char>
    decreases s.len() - i,
    when 0 <= i <= s.len()
    via fmt_from_decreases
{
    if i >= s.len() {
        Seq::empty()
    } else if is_name_sep(s[i]) {
        fmt_from(s, i + 1)
    } else {
        let j = word_end_from(s, i);
        let word = unicode_upper_char(s[i]) + unicode_lower(s.subrange(i + 1, j));
        let rest = fmt_from(s, j);
        if rest.len() == 0 {
            word
        } else {
            word + seq![' '] + rest
        }
    }
}

#[via_fn]
proof fn fmt_from_decreases(s: Seq<char>, i: int) {
    if 0 <= i < s.len() && !is_name_sep(s[i]) {
        lemma_word_end_bounds(s, i + 1);
    }
}

fn word_end_exec(s: &str, i: usize) -> (r: usize)
    requires
        i <= s@.len(),
    ensures
        r == word_end_from(s@, i as int),
{
    let n = s.unicode_len();
    let mut k: usize = i;
    while k < n && !is_name_sep_exec(s.get_char(k))
        invariant
            i <= k <= n,
            n == s@.len(),
            word_end_from(s@, i as int) == word_end_from(s@, k as int),
        decreases n - k,
    {
        k = k + 1;
    }
    k
}

fn fmt_tail(s: &str, i: usize) -> (r: String)
    requires
        i <= s@.len(),
    ensures
        r@ == fmt_from(s@, i as int),
    decreases s@.len() - i,
{
    let n = s.unicode_len();
    if i >= n {
        return String::new();
    }
    let c = s.get_char(i);
    if is_name_sep_exec(c) {
        return fmt_tail(s, i + 1);
    }
    let j = word_end_exec(s, i);
    proof {
        lemma_word_end_bounds(s@, i + 1);
    }
    let head = char_to_upper(c);
    let rest_of_word = s.substring_char(i + 1, j);
    let low = str_to_lower(rest_of_word);
    let word = head.concat(low.as_str());
    let tail = fmt_tail(s, j);
    if tail.unicode_len() == 0 {
        word
    } else {
        proof {
            reveal_strlit(" ");
            assert(" "@ =~= seq![' ']);
        }
        word.concat(" ").concat(tail.as_str())
    }
}

/// Format one identity candidate into a display name: words split on
/// hyphens, underscores and whitespace, each capitalized, joined by
/// spaces. All-separator and empty candidates come out empty.
pub fn format_candidate(raw: &str) -> (r: String)
    ensures
        r@ == fmt_from(raw@, 0),
{
    fmt_tail(raw, 0)
}

/// The display name the candidates yield: the first whose formatted form
/// is non-empty, or the fixed fallback name.
pub open spec fn derived_name_from(cands: Seq<Seq<char>>, i: int) -> Seq<char>
    decreases cands.len() - i,
{
    if i < 0 || i >= cands.len() {
        "Traveler"@
    } else if fmt_from(cands[i], 0).len() > 0 {
        fmt_from(cands[i], 0)
    } else {
        derived_name_from(cands, i + 1)
    }
}

/// Derive the character's display name from the identity candidates, in
/// priority order: the first that formats to something non-empty wins,
/// and `Traveler` stands in when none does.
pub fn determine_character_name(candidates: &Vec<String>) -> (r: String)
    ensures
        r@ == derived_name_from(candidates.deep_view(), 0),
{
    let ghost cands = candidates.deep_view();
    let mut i: usize = 0;
    while i < candidates.len()
        invariant
            0 <= i <= candidates.len(),
            cands == candidates.deep_view(),
            cands.len() == candidates@.len(),
            forall|k: int| 0 <= k < cands.len() ==> cands[k] == candidates@[k]@,
            derived_name_from(cands, 0) == derived_name_from(cands, i as int),
        decreases candidates.len() - i,
    {
        let f = format_candidate(candidates[i].as_str());
        if f.unicode_len() > 0 {
            return f;
        }
        i = i + 1;
    }
    String::from_str("Traveler")
}

} // verus!
