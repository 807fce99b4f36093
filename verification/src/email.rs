//! The email-format test shared by registration validation and login
//! classification.
//!
//! The accepted shape is the permissive RFC-style pattern: a local part
//! that is either a dot-separated sequence of atoms or a quoted string
//! with backslash escapes, then `@`, then either a dotted sequence of
//! lowercase labels or a bracketed address literal (three dotted octets
//! followed by a fourth octet or a tagged literal). Only a *prefix* of
//! the string needs to fit this shape: trailing characters after a valid
//! domain do not disqualify the address.

use vstd::prelude::*;
use crate::store::UserField;
use crate::store::UserStore;
use crate::store::spec_is_unique;
use crate::text;

verus! {

/// One reason a submitted email is rejected.
#[derive(Clone, Copy, PartialEq, Eq, Structural, Debug)]
pub enum Issues {
    CouldNotBeProcessed,
    Malformed,
    NotUnique,
}

/// The exact list of issues an email accumulates, given the uniqueness
/// oracle's outcome. Uniqueness is considered only once the format test
/// passed: for a malformed email the outcome is ignored, so a caller
/// need not have consulted the oracle then.
pub open spec fn spec_email_issues(email: Seq<char>, uniqueness: Result<bool, ()>) -> Seq<Issues> {
    if !is_email_like(email) {
        seq![Issues::Malformed]
    } else {
        match uniqueness {
            Ok(true) => Seq::empty(),
            Ok(false) => seq![Issues::NotUnique],
            Err(_) => seq![Issues::CouldNotBeProcessed],
        }
    }
}

/// Validates an email against an already-obtained uniqueness-oracle
/// outcome. Returns `None` exactly when there is no issue.
pub fn find_issues_given(email: &String, uniqueness: Result<bool, ()>) -> (r: Option<Vec<Issues>>)
    ensures
        match r {
            Some(v) => v@ == spec_email_issues(email@, uniqueness) && v@.len() > 0,
            None => spec_email_issues(email@, uniqueness).len() == 0,
        },
{
    let mut issues: Vec<Issues> = Vec::new();
    if !string_is_email(email) {
        issues.push(Issues::Malformed);
    } else {
        match uniqueness {
            Ok(true) => (),
            Ok(false) => issues.push(Issues::NotUnique),
            Err(_) => issues.push(Issues::CouldNotBeProcessed),
        }
    }
    assert(issues@ =~= spec_email_issues(email@, uniqueness));
    if issues.len() > 0 {
        Some(issues)
    } else {
        None
    }
}

/// Validates an email against the store, consulting the uniqueness
/// oracle only when the format test passed.
pub fn find_issues(email: &String, store: &UserStore) -> (r: Option<Vec<Issues>>)
    ensures
        match r {
            Some(v) => v@ == spec_email_issues(
                email@,
                Ok(spec_is_unique(store@, UserField::Email, email@)),
            ) && v@.len() > 0,
            None => spec_email_issues(
                email@,
                Ok(spec_is_unique(store@, UserField::Email, email@)),
            ).len() == 0,
        },
{
    if string_is_email(email) {
        let unique = store.is_unique(UserField::Email, email);
        find_issues_given(email, Ok(unique))
    } else {
        // The oracle outcome is ignored for a malformed email, so any
        // value stands in for the unconsulted oracle.
        let r = find_issues_given(email, Ok(true));
        assert(spec_email_issues(email@, Ok(true)) =~= spec_email_issues(
            email@,
            Ok(spec_is_unique(store@, UserField::Email, email@)),
        ));
        r
    }
}

/// Characters allowed in an unquoted local-part atom.
pub open spec fn is_atext(c: char) -> bool {
    ||| text::is_lower_char(c)
    ||| text::is_digit_char(c)
    ||| c == '!' || c == '#' || c == '$' || c == '%' || c == '&' || c == '\'' || c == '*'
    ||| c == '+' || c == '/' || c == '=' || c == '?' || c == '^' || c == '_' || c == '`'
    ||| c == '{' || c == '|' || c == '}' || c == '~' || c == '-'
}

/// Characters allowed in a domain label: lowercase letters, digits and
/// hyphens.
pub open spec fn is_label_char(c: char) -> bool {
    text::is_lower_char(c) || text::is_digit_char(c) || c == '-'
}

/// Lowercase letter or digit: what a domain label must start and end
/// with.
pub open spec fn is_lower_alnum(c: char) -> bool {
    text::is_lower_char(c) || text::is_digit_char(c)
}

/// Characters that may stand unescaped inside a quoted local part: the
/// ASCII range without NUL, tab, line breaks, space, the quote and the
/// backslash.
pub open spec fn is_qtext(c: char) -> bool {
    let x = c as u32;
    (1 <= x <= 8) || x == 11 || x == 12 || (14 <= x <= 31) || x == 33 || (35 <= x <= 91) || (93
        <= x <= 127)
}

/// Characters that may follow a backslash escape: the ASCII range
/// without NUL and line breaks.
pub open spec fn is_etext(c: char) -> bool {
    let x = c as u32;
    (1 <= x <= 9) || x == 11 || x == 12 || (14 <= x <= 127)
}

/// Characters that may stand unescaped inside a bracketed tagged
/// literal: the ASCII range without NUL, tab, line breaks and space.
pub open spec fn is_btext(c: char) -> bool {
    let x = c as u32;
    (1 <= x <= 8) || x == 11 || x == 12 || (14 <= x <= 31) || (33 <= x <= 127)
}

/// Tab or space: allowed in a tagged literal only right after a
/// backslash.
pub open spec fn is_escaped_only(c: char) -> bool {
    c as u32 == 9 || c as u32 == 32
}

/// The unquoted local part `s[0..at]`: one or more atoms of `atext`
/// characters separated by single dots.
pub open spec fn local_dot_atom_to(s: Seq<char>, at: int) -> bool {
    &&& 1 <= at <= s.len()
    &&& forall|i: int| 0 <= i < at ==> is_atext(#[trigger] s[i]) || s[i] == '.'
    &&& s[0] != '.'
    &&& s[at - 1] != '.'
    &&& forall|i: int| 0 <= i < at - 1 ==> !(s[i] == '.' && #[trigger] s[i + 1] == '.')
}

/// Where a quoted local part opened at position 0 ends: scanning from
/// `i` (inside the quotes), the position just past the closing quote.
/// A backslash must begin an escape, and an unescaped quote always
/// closes, so the parse is a plain scan.
pub open spec fn quoted_end(s: Seq<char>, i: int) -> Option<int>
    decreases s.len() - i,
{
    if i < 0 || i >= s.len() {
        None
    } else if s[i] == '"' {
        Some(i + 1)
    } else if s[i] == '\\' {
        if i + 1 < s.len() && is_etext(s[i + 1]) {
            quoted_end(s, i + 2)
        } else {
            None
        }
    } else if is_qtext(s[i]) {
        quoted_end(s, i + 1)
    } else {
        None
    }
}

/// `s[from..to]` is a domain label: nonempty, label characters only,
/// first and last lowercase alphanumeric.
pub open spec fn label_range(s: Seq<char>, from: int, to: int) -> bool {
    &&& 0 <= from < to <= s.len()
    &&& forall|i: int| from <= i < to ==> is_label_char(#[trigger] s[i])
    &&& is_lower_alnum(s[from])
    &&& is_lower_alnum(s[to - 1])
}

/// A dotted-label domain begins at `i`: a label, a dot, and at least the
/// start of a further label. Since only a prefix must match and a single
/// lowercase alphanumeric character is already a label, nothing more is
/// needed after the dot.
pub open spec fn dns_domain_at(s: Seq<char>, i: int) -> bool {
    exists|k: int| #![trigger s[k]] label_range(s, i, k) && k + 1 < s.len() && s[k] == '.'
        && is_lower_alnum(s[k + 1])
}

/// End of the run of digits starting at `i`.
pub open spec fn digit_run_end(s: Seq<char>, i: int) -> int
    decreases s.len() - i,
{
    if 0 <= i < s.len() && text::is_digit_char(s[i]) {
        digit_run_end(s, i + 1)
    } else {
        i
    }
}

/// End of the run of label characters starting at `i`.
pub open spec fn label_run_end(s: Seq<char>, i: int) -> int
    decreases s.len() - i,
{
    if 0 <= i < s.len() && is_label_char(s[i]) {
        label_run_end(s, i + 1)
    } else {
        i
    }
}

/// `s[from..to]` is a decimal octet 0..=255, without leading zeros
/// except for `0` itself.
pub open spec fn octet_range(s: Seq<char>, from: int, to: int) -> bool {
    &&& 0 <= from < to <= s.len()
    &&& to - from <= 3
    &&& forall|i: int| from <= i < to ==> text::is_digit_char(#[trigger] s[i])
    &&& (to - from == 2 ==> s[from] != '0')
    &&& (to - from == 3 ==> s[from] == '1' || (s[from] == '2' && (s[from + 1] as u32 <= 52 || (s[
        from + 1] == '5' && s[from + 2] as u32 <= 53))))
}

/// Between the tag's colon and some closing bracket there is a nonempty
/// word of literal characters, where tab and space appear only right
/// after a backslash.
pub open spec fn literal_word_range(s: Seq<char>, from: int, to: int) -> bool {
    &&& 0 <= from < to <= s.len()
    &&& forall|k: int| from <= k < to ==> is_btext(#[trigger] s[k]) || is_escaped_only(s[k])
    &&& forall|k: int|
        from <= k < to && is_escaped_only(#[trigger] s[k]) ==> k > from && s[k - 1] == '\\'
}

/// A closing bracket follows the tagged literal's content somewhere
/// after `i`.
pub open spec fn literal_close_at(s: Seq<char>, i: int) -> bool {
    exists|m: int| #![trigger s[m]] i < m < s.len() && s[m] == ']' && literal_word_range(s, i, m)
}

/// What may follow the three dotted octets of a bracketed literal: a
/// fourth octet and the closing bracket, or a tag, a colon, content and
/// the closing bracket. An octet is always the whole digit run and a tag
/// the whole label run, because the character after each must be the
/// delimiter.
pub open spec fn bracket_tail_at(s: Seq<char>, i: int) -> bool {
    let e = digit_run_end(s, i);
    let t = label_run_end(s, i);
    ||| (octet_range(s, i, e) && e < s.len() && s[e] == ']')
    ||| (t > i && is_lower_alnum(s[t - 1]) && t < s.len() && s[t] == ':' && literal_close_at(
        s,
        t + 1,
    ))
}

/// A bracketed address literal begins at `i`: `[`, three octets each
/// followed by a dot, then a fourth octet or a tagged literal, then `]`.
pub open spec fn bracket_domain_at(s: Seq<char>, i: int) -> bool {
    let e1 = digit_run_end(s, i + 1);
    let e2 = digit_run_end(s, e1 + 1);
    let e3 = digit_run_end(s, e2 + 1);
    &&& i < s.len()
    &&& s[i] == '['
    &&& octet_range(s, i + 1, e1) && e1 < s.len() && s[e1] == '.'
    &&& octet_range(s, e1 + 1, e2) && e2 < s.len() && s[e2] == '.'
    &&& octet_range(s, e2 + 1, e3) && e3 < s.len() && s[e3] == '.'
    &&& bracket_tail_at(s, e3 + 1)
}

/// A domain begins at position `i`.
pub open spec fn domain_at(s: Seq<char>, i: int) -> bool {
    0 <= i < s.len() && (dns_domain_at(s, i) || bracket_domain_at(s, i))
}

/// The email-format test: a dot-atom or quoted local part, `@`, and the
/// start of a domain. An unquoted local part cannot contain `@`, and a
/// quoted one ends at the first unescaped quote, so the split position
/// is determined by the string.
pub open spec fn is_email_like(s: Seq<char>) -> bool {
    if s.len() == 0 {
        false
    } else if s[0] == '"' {
        match quoted_end(s, 1) {
            Some(e) => e < s.len() && s[e] == '@' && domain_at(s, e + 1),
            None => false,
        }
    } else {
        exists|j: int| #![trigger s[j]] 0 < j < s.len() && s[j] == '@' && local_dot_atom_to(s, j)
            && domain_at(s, j + 1)
    }
}

fn char_is_atext(c: char) -> (r: bool)
    ensures
        r == is_atext(c),
{
    let x = c as u32;
    (97 <= x && x <= 122) || (48 <= x && x <= 57) || x == 33 || (35 <= x && x <= 39) || x == 42
        || x == 43 || x == 47 || x == 61 || x == 63 || (94 <= x && x <= 96) || (123 <= x && x
        <= 126) || x == 45
}

fn char_is_label(c: char) -> (r: bool)
    ensures
        r == is_label_char(c),
{
    let x = c as u32;
    (97 <= x && x <= 122) || (48 <= x && x <= 57) || x == 45
}

fn char_is_lower_alnum(c: char) -> (r: bool)
    ensures
        r == is_lower_alnum(c),
{
    let x = c as u32;
    (97 <= x && x <= 122) || (48 <= x && x <= 57)
}

fn char_is_qtext(c: char) -> (r: bool)
    ensures
        r == is_qtext(c),
{
    let x = c as u32;
    (1 <= x && x <= 8) || x == 11 || x == 12 || (14 <= x && x <= 31) || x == 33 || (35 <= x && x
        <= 91) || (93 <= x && x <= 127)
}

fn char_is_etext(c: char) -> (r: bool)
    ensures
        r == is_etext(c),
{
    let x = c as u32;
    (1 <= x && x <= 9) || x == 11 || x == 12 || (14 <= x && x <= 127)
}

fn char_is_btext(c: char) -> (r: bool)
    ensures
        r == is_btext(c),
{
    let x = c as u32;
    (1 <= x && x <= 8) || x == 11 || x == 12 || (14 <= x && x <= 31) || (33 <= x && x <= 127)
}

fn char_is_escaped_only(c: char) -> (r: bool)
    ensures
        r == is_escaped_only(c),
{
    let x = c as u32;
    x == 9 || x == 32
}

/// End of the digit run starting at `start`.
fn digit_run(chars: &Vec<char>, start: usize) -> (e: usize)
    requires
        start <= chars@.len(),
    ensures
        e as int == digit_run_end(chars@, start as int),
        start <= e <= chars@.len(),
{
    let mut j = start;
    while j < chars.len()
        invariant
            start <= j <= chars@.len(),
            digit_run_end(chars@, start as int) == digit_run_end(chars@, j as int),
        ensures
            j as int == digit_run_end(chars@, start as int),
        decreases chars@.len() - j,
    {
        if !text::char_is_digit(chars[j]) {
            assert(digit_run_end(chars@, j as int) == j as int);
            break ;
        }
        assert(digit_run_end(chars@, j as int) == digit_run_end(chars@, j + 1 as int));
        j = j + 1;
    }
    j
}

/// End of the label-character run starting at `start`.
fn label_run(chars: &Vec<char>, start: usize) -> (e: usize)
    requires
        start <= chars@.len(),
    ensures
        e as int == label_run_end(chars@, start as int),
        start <= e <= chars@.len(),
{
    let mut j = start;
    while j < chars.len()
        invariant
            start <= j <= chars@.len(),
            label_run_end(chars@, start as int) == label_run_end(chars@, j as int),
        ensures
            j as int == label_run_end(chars@, start as int),
        decreases chars@.len() - j,
    {
        if !char_is_label(chars[j]) {
            assert(label_run_end(chars@, j as int) == j as int);
            break ;
        }
        assert(label_run_end(chars@, j as int) == label_run_end(chars@, j + 1 as int));
        j = j + 1;
    }
    j
}

/// Checks that `chars[from..to]` is a decimal octet.
fn check_octet(chars: &Vec<char>, from: usize, to: usize) -> (r: bool)
    requires
        to <= chars@.len(),
        forall|i: int| from <= i < to ==> text::is_digit_char(#[trigger] chars@[i]),
    ensures
        r == octet_range(chars@, from as int, to as int),
{
    if from >= to || to - from > 3 {
        return false;
    }
    if to - from == 2 && chars[from] == '0' {
        return false;
    }
    if to - from == 3 {
        let c0 = chars[from] as u32;
        let c1 = chars[from + 1] as u32;
        let c2 = chars[from + 2] as u32;
        proof {
            vstd::utf8::char_u32_cast(chars@[from as int], c0);
            vstd::utf8::char_u32_cast(chars@[from as int + 1], c1);
            vstd::utf8::char_u32_cast('1', 49u32);
            vstd::utf8::char_u32_cast('2', 50u32);
            vstd::utf8::char_u32_cast('5', 53u32);
        }
        if c0 == 49 {
            assert(chars@[from as int] == '1');
            return true;
        }
        if c0 == 50 && (c1 <= 52 || (c1 == 53 && c2 <= 53)) {
            assert(chars@[from as int] == '2');
            assert(c1 == 53 ==> chars@[from as int + 1] == '5');
            return true;
        }
        assert(chars@[from as int] != '1');
        return false;
    }
    true
}

/// Scans a quoted local part opened at position 0, returning the
/// position just past the closing quote.
fn parse_quoted(chars: &Vec<char>) -> (r: Option<usize>)
    requires
        chars@.len() >= 1,
        chars@[0] == '"',
    ensures
        match r {
            Some(e) => quoted_end(chars@, 1) == Some(e as int) && e <= chars@.len(),
            None => quoted_end(chars@, 1) is None,
        },
{
    let mut j: usize = 1;
    loop
        invariant
            1 <= j <= chars@.len(),
            quoted_end(chars@, 1) == quoted_end(chars@, j as int),
        ensures
            quoted_end(chars@, 1) is Some <==> (j < chars@.len() && chars@[j as int] == '"'),
            quoted_end(chars@, 1) is Some ==> quoted_end(chars@, 1) == Some(j + 1 as int),
            j < chars@.len() ==> chars@[j as int] == '"',
        decreases chars@.len() - j,
    {
        if j >= chars.len() {
            assert(quoted_end(chars@, j as int) is None);
            break ;
        }
        let c = chars[j];
        if c == '"' {
            assert(quoted_end(chars@, j as int) == Some(j + 1 as int));
            break ;
        }
        if c == '\\' {
            if j + 1 < chars.len() && char_is_etext(chars[j + 1]) {
                assert(quoted_end(chars@, j as int) == quoted_end(chars@, j + 2 as int));
                j = j + 2;
            } else {
                assert(quoted_end(chars@, j as int) is None);
                return None;
            }
        } else if char_is_qtext(c) {
            assert(quoted_end(chars@, j as int) == quoted_end(chars@, j + 1 as int));
            j = j + 1;
        } else {
            assert(quoted_end(chars@, j as int) is None);
            return None;
        }
    }
    if j < chars.len() {
        Some(j + 1)
    } else {
        None
    }
}

/// Scans a tagged literal's content from `start` for a closing bracket.
fn scan_literal_close(chars: &Vec<char>, start: usize) -> (r: bool)
    requires
        start <= chars@.len(),
    ensures
        r == literal_close_at(chars@, start as int),
{
    let mut j = start;
    loop
        invariant
            start <= j <= chars@.len(),
            forall|m: int| start < m < j ==> chars@[m] != ']',
            literal_word_range(chars@, start as int, j as int) || j == start,
        ensures
            literal_close_at(chars@, start as int) <==> j < chars@.len() && chars@[j as int]
                == ']' && j > start,
            j < chars@.len() ==> (chars@[j as int] == ']' && j > start),
        decreases chars@.len() - j,
    {
        if j >= chars.len() {
            assert(!literal_close_at(chars@, start as int)) by {
                assert forall|m: int|
                    start < m < chars@.len() implies !(chars@[m] == ']' && literal_word_range(
                    chars@,
                    start as int,
                    m,
                )) by {}
            }
            break ;
        }
        let c = chars[j];
        if c == ']' && j > start {
            assert(literal_close_at(chars@, start as int)) by {
                assert(chars@[j as int] == ']' && literal_word_range(
                    chars@,
                    start as int,
                    j as int,
                ));
            }
            break ;
        }
        let ok = if char_is_btext(c) {
            true
        } else if char_is_escaped_only(c) {
            j > start && chars[j - 1] == '\\'
        } else {
            false
        };
        if !ok {
            // No later close can skip over an invalid content character,
            // and no earlier close exists.
            assert(!literal_close_at(chars@, start as int)) by {
                assert forall|m: int|
                    start < m < chars@.len() && chars@[m] == ']' implies !literal_word_range(
                    chars@,
                    start as int,
                    m,
                ) by {
                    if m > j {
                        assert(!(is_btext(chars@[j as int]) && !is_escaped_only(
                            chars@[j as int],
                        )));
                    }
                }
            }
            return false;
        }
        assert(literal_word_range(chars@, start as int, j + 1 as int));
        j = j + 1;
    }
    j < chars.len() && j > start
}

/// Checks that a bracketed address literal begins at `i`.
fn check_bracket_domain(chars: &Vec<char>, i: usize) -> (r: bool)
    requires
        i < chars@.len(),
    ensures
        r == bracket_domain_at(chars@, i as int),
{
    let n = chars.len();
    if chars[i] != '[' {
        return false;
    }
    let e1 = digit_run(chars, i + 1);
    proof {
        lemma_digit_run_chars(chars@, i + 1 as int);
    }
    if !(check_octet(chars, i + 1, e1) && e1 < n && chars[e1] == '.') {
        return false;
    }
    let e2 = digit_run(chars, e1 + 1);
    proof {
        lemma_digit_run_chars(chars@, e1 + 1 as int);
    }
    if !(check_octet(chars, e1 + 1, e2) && e2 < n && chars[e2] == '.') {
        return false;
    }
    let e3 = digit_run(chars, e2 + 1);
    proof {
        lemma_digit_run_chars(chars@, e2 + 1 as int);
    }
    if !(check_octet(chars, e2 + 1, e3) && e3 < n && chars[e3] == '.') {
        return false;
    }
    // Fourth position: an octet and the closing bracket, or a tagged
    // literal.
    let e4 = digit_run(chars, e3 + 1);
    proof {
        lemma_digit_run_chars(chars@, e3 + 1 as int);
    }
    if check_octet(chars, e3 + 1, e4) && e4 < n && chars[e4] == ']' {
        return true;
    }
    let t = label_run(chars, e3 + 1);
    if t > e3 + 1 && char_is_lower_alnum(chars[t - 1]) && t < n && chars[t] == ':' {
        scan_literal_close(chars, t + 1)
    } else {
        false
    }
}

/// Every character in a digit run is a digit.
proof fn lemma_digit_run_chars(s: Seq<char>, i: int)
    requires
        0 <= i <= s.len(),
    ensures
        i <= digit_run_end(s, i) <= s.len(),
        forall|k: int| i <= k < digit_run_end(s, i) ==> text::is_digit_char(#[trigger] s[k]),
    decreases s.len() - i,
{
    if i < s.len() && text::is_digit_char(s[i]) {
        lemma_digit_run_chars(s, i + 1);
    }
}

/// Checks that a dotted-label domain begins at `i`: the label before the
/// first dot is forced, because labels cannot contain dots.
fn check_dns_domain(chars: &Vec<char>, i: usize) -> (r: bool)
    requires
        i < chars@.len(),
    ensures
        r == dns_domain_at(chars@, i as int),
{
    let n = chars.len();
    let t = label_run(chars, i);
    proof {
        lemma_label_run_chars(chars@, i as int);
    }
    if t > i && char_is_lower_alnum(chars[i]) && char_is_lower_alnum(chars[t - 1]) && t < n && t + 1
        < n && chars[t] == '.' && char_is_lower_alnum(chars[t + 1]) {
        assert(label_range(chars@, i as int, t as int));
        assert(dns_domain_at(chars@, i as int)) by {
            assert(chars@[t as int] == '.');
        }
        true
    } else {
        assert(!dns_domain_at(chars@, i as int)) by {
            assert forall|k: int|
                label_range(chars@, i as int, k) && k + 1 < chars@.len() && chars@[k] == '.'
                    && is_lower_alnum(chars@[k + 1]) implies false by {
                assert(k <= t) by {
                    if k > t {
                        assert(is_label_char(chars@[t as int]));
                    }
                }
                assert(k == t) by {
                    if k < t {
                        assert(is_label_char(chars@[k]));
                    }
                }
            }
        }
        false
    }
}

/// Every character in a label run is a label character, and the run end
/// is not one (or is the end of the string).
proof fn lemma_label_run_chars(s: Seq<char>, i: int)
    requires
        0 <= i <= s.len(),
    ensures
        i <= label_run_end(s, i) <= s.len(),
        forall|k: int| i <= k < label_run_end(s, i) ==> is_label_char(#[trigger] s[k]),
        label_run_end(s, i) == s.len() || !is_label_char(s[label_run_end(s, i)]),
    decreases s.len() - i,
{
    if i < s.len() && is_label_char(s[i]) {
        lemma_label_run_chars(s, i + 1);
    }
}

/// Checks that a domain begins at `i`.
fn check_domain(chars: &Vec<char>, i: usize) -> (r: bool)
    requires
        i <= chars@.len(),
    ensures
        r == domain_at(chars@, i as int),
{
    if i >= chars.len() {
        return false;
    }
    if check_dns_domain(chars, i) {
        true
    } else {
        check_bracket_domain(chars, i)
    }
}

/// Checks the unquoted local part `chars[0..at]`.
fn check_dot_atom(chars: &Vec<char>, at: usize) -> (r: bool)
    requires
        1 <= at <= chars@.len(),
    ensures
        r == local_dot_atom_to(chars@, at as int),
{
    if chars[0] == '.' || chars[at - 1] == '.' {
        return false;
    }
    let mut j: usize = 0;
    while j < at
        invariant
            j <= at <= chars@.len(),
            chars@[0] != '.',
            chars@[at - 1] != '.',
            forall|i: int| 0 <= i < j ==> is_atext(#[trigger] chars@[i]) || chars@[i] == '.',
            forall|i: int| 0 <= i < j - 1 ==> !(chars@[i] == '.' && #[trigger] chars@[i + 1]
                == '.'),
        decreases at - j,
    {
        let c = chars[j];
        if !(char_is_atext(c) || c == '.') {
            return false;
        }
        if j > 0 && c == '.' && chars[j - 1] == '.' {
            assert(!local_dot_atom_to(chars@, at as int)) by {
                assert(chars@[(j - 1) as int] == '.' && chars@[(j - 1) as int + 1] == '.');
            }
            return false;
        }
        j = j + 1;
    }
    true
}

/// The email-format test on a string.
pub fn string_is_email(email: &String) -> (r: bool)
    ensures
        r == is_email_like(email@),
{
    let chars = text::chars_of(email);
    if chars.len() == 0 {
        return false;
    }
    if chars[0] == '"' {
        match parse_quoted(&chars) {
            Some(e) => {
                if e < chars.len() && chars[e] == '@' {
                    check_domain(&chars, e + 1)
                } else {
                    false
                }
            },
            None => false,
        }
    } else {
        // The `@` ending the local part must be the first one: atoms
        // cannot contain `@`.
        let mut j: usize = 0;
        while j < chars.len()
            invariant
                j <= chars@.len(),
                forall|i: int| 0 <= i < j ==> chars@[i] != '@',
            ensures
                forall|i: int| 0 <= i < j ==> chars@[i] != '@',
                j == chars@.len() || chars@[j as int] == '@',
            decreases chars@.len() - j,
        {
            if chars[j] == '@' {
                break ;
            }
            j = j + 1;
        }
        if j >= chars.len() || j == 0 {
            assert(!is_email_like(chars@)) by {
                assert forall|k: int|
                    0 < k < chars@.len() && chars@[k] == '@' && local_dot_atom_to(chars@, k)
                        && domain_at(chars@, k + 1) implies false by {}
            }
            return false;
        }
        let local_ok = check_dot_atom(&chars, j);
        if !local_ok {
            assert(!is_email_like(chars@)) by {
                assert forall|k: int|
                    0 < k < chars@.len() && chars@[k] == '@' && local_dot_atom_to(chars@, k)
                        && domain_at(chars@, k + 1) implies false by {
                    if k > j {
                        assert(!(is_atext(chars@[j as int]) || chars@[j as int] == '.'));
                    }
                }
            }
            return false;
        }
        let r = check_domain(&chars, j + 1);
        proof {
            if r {
                assert(chars@[j as int] == '@' && local_dot_atom_to(chars@, j as int)
                    && domain_at(chars@, j + 1));
            } else {
                assert forall|k: int|
                    0 < k < chars@.len() && chars@[k] == '@' && local_dot_atom_to(chars@, k)
                        && domain_at(chars@, k + 1) implies false by {
                    if k > j {
                        assert(!(is_atext(chars@[j as int]) || chars@[j as int] == '.'));
                    }
                }
            }
        }
        r
    }
}

} // verus!
