//! The password policy: a pure strength check that reports every weakness
//! a submitted password accumulates.
//!
//! The length rule counts UTF-8 bytes; the letter and case tests use the
//! Unicode character classes (named after the std predicates computing
//! them), while the digit test accepts the ASCII digits only.

use vstd::prelude::*;
use crate::text;
use crate::text::byte_len;
use crate::security;

verus! {

/// One reason a password is considered weak. The checks are independent:
/// a password can accumulate several weaknesses at once. `NoSpecialChars`
/// flags a password that is entirely alphanumeric, i.e. it penalizes the
/// absence of special characters.
#[derive(Clone, Copy, PartialEq, Eq, Structural, Debug)]
pub enum Weakness {
    NotLongEnough,
    NoUpperCase,
    NoLowerCase,
    NoSpecialChars,
    NoNumeric,
    NoAlphabetic,
}

pub open spec fn has_digit(s: Seq<char>) -> bool {
    exists|i: int| 0 <= i < s.len() && text::is_digit_char(s[i])
}

pub open spec fn has_alpha(s: Seq<char>) -> bool {
    exists|i: int| 0 <= i < s.len() && text::unicode_alphabetic(s[i])
}

pub open spec fn has_upper(s: Seq<char>) -> bool {
    exists|i: int| 0 <= i < s.len() && text::unicode_uppercase(s[i])
}

pub open spec fn has_lower(s: Seq<char>) -> bool {
    exists|i: int| 0 <= i < s.len() && text::unicode_lowercase(s[i])
}

pub open spec fn all_alnum(s: Seq<char>) -> bool {
    forall|i: int| 0 <= i < s.len() ==> text::unicode_alphanumeric(s[i])
}

/// The exact list of weaknesses a password accumulates, in the order they
/// are reported: byte length, then missing digits and letters, then the
/// absence of special characters, then missing upper and lower case.
pub open spec fn spec_weaknesses(s: Seq<char>) -> Seq<Weakness> {
    (if byte_len(s) < 8 {
        seq![Weakness::NotLongEnough]
    } else {
        Seq::empty()
    }) + (if !has_digit(s) {
        seq![Weakness::NoNumeric]
    } else {
        Seq::empty()
    }) + (if !has_alpha(s) {
        seq![Weakness::NoAlphabetic]
    } else {
        Seq::empty()
    }) + (if all_alnum(s) {
        seq![Weakness::NoSpecialChars]
    } else {
        Seq::empty()
    }) + (if !has_upper(s) {
        seq![Weakness::NoUpperCase]
    } else {
        Seq::empty()
    }) + (if !has_lower(s) {
        seq![Weakness::NoLowerCase]
    } else {
        Seq::empty()
    })
}

fn contains_digit(chars: &Vec<char>) -> (r: bool)
    ensures
        r == has_digit(chars@),
{
    let mut i: usize = 0;
    while i < chars.len()
        invariant
            i <= chars@.len(),
            forall|j: int| 0 <= j < i ==> !text::is_digit_char(chars@[j]),
        decreases chars@.len() - i,
    {
        if text::char_is_digit(chars[i]) {
            return true;
        }
        i = i + 1;
    }
    false
}

fn contains_alpha(chars: &Vec<char>) -> (r: bool)
    ensures
        r == has_alpha(chars@),
{
    let mut i: usize = 0;
    while i < chars.len()
        invariant
            i <= chars@.len(),
            forall|j: int| 0 <= j < i ==> !text::unicode_alphabetic(chars@[j]),
        decreases chars@.len() - i,
    {
        if text::char_is_alphabetic(chars[i]) {
            return true;
        }
        i = i + 1;
    }
    false
}

fn contains_upper(chars: &Vec<char>) -> (r: bool)
    ensures
        r == has_upper(chars@),
{
    let mut i: usize = 0;
    while i < chars.len()
        invariant
            i <= chars@.len(),
            forall|j: int| 0 <= j < i ==> !text::unicode_uppercase(chars@[j]),
        decreases chars@.len() - i,
    {
        if text::char_is_uppercase(chars[i]) {
            return true;
        }
        i = i + 1;
    }
    false
}

fn contains_lower(chars: &Vec<char>) -> (r: bool)
    ensures
        r == has_lower(chars@),
{
    let mut i: usize = 0;
    while i < chars.len()
        invariant
            i <= chars@.len(),
            forall|j: int| 0 <= j < i ==> !text::unicode_lowercase(chars@[j]),
        decreases chars@.len() - i,
    {
        if text::char_is_lowercase(chars[i]) {
            return true;
        }
        i = i + 1;
    }
    false
}

fn only_alnum(chars: &Vec<char>) -> (r: bool)
    ensures
        r == all_alnum(chars@),
{
    let mut i: usize = 0;
    while i < chars.len()
        invariant
            i <= chars@.len(),
            forall|j: int| 0 <= j < i ==> text::unicode_alphanumeric(chars@[j]),
        decreases chars@.len() - i,
    {
        if !text::char_is_alphanumeric(chars[i]) {
            return false;
        }
        i = i + 1;
    }
    true
}

/// Evaluates the password policy. Returns `None` exactly when the
/// password has no weakness; otherwise the full list, so callers
/// distinguish "no issues" from "has issues" by presence, never by error.
pub fn find_weaknesses(password: &String) -> (r: Option<Vec<Weakness>>)
    ensures
        match r {
            Some(v) => v@ == spec_weaknesses(password@) && v@.len() > 0,
            None => spec_weaknesses(password@).len() == 0,
        },
{
    let chars = text::chars_of(password);
    let mut weaknesses: Vec<Weakness> = Vec::new();

    if password.as_str().as_bytes().len() < 8 {
        weaknesses.push(Weakness::NotLongEnough);
    }
    if !contains_digit(&chars) {
        weaknesses.push(Weakness::NoNumeric);
    }
    if !contains_alpha(&chars) {
        weaknesses.push(Weakness::NoAlphabetic);
    }
    if only_alnum(&chars) {
        weaknesses.push(Weakness::NoSpecialChars);
    }
    if !contains_upper(&chars) {
        weaknesses.push(Weakness::NoUpperCase);
    }
    if !contains_lower(&chars) {
        weaknesses.push(Weakness::NoLowerCase);
    }

    assert(weaknesses@ =~= spec_weaknesses(password@));

    if weaknesses.len() > 0 {
        Some(weaknesses)
    } else {
        None
    }
}

/// Hashes a password with the credential hasher; any hashing fault is
/// reported as a plain error, never attributed to the input.
pub fn hash(password: &String) -> (r: Result<String, ()>)
    ensures
        r is Ok ==> security::is_hash_of(r.unwrap()@, password@),
{
    security::password_salt_and_hash(password)
}

/// A password shorter than eight bytes always carries `NotLongEnough`,
/// and one of eight bytes or more never does.
pub proof fn lemma_short_password_flagged(s: Seq<char>)
    ensures
        byte_len(s) < 8 <==> spec_weaknesses(s).contains(Weakness::NotLongEnough),
{
    if byte_len(s) < 8 {
        assert(spec_weaknesses(s)[0] == Weakness::NotLongEnough);
    } else {
        assert forall|i: int| 0 <= i < spec_weaknesses(s).len() implies spec_weaknesses(s)[i]
            != Weakness::NotLongEnough by {}
    }
}

/// A string of lowercase letters only: every character is lowercase and
/// alphabetic — hence alphanumeric — and neither uppercase nor an ASCII
/// digit. These are the facts about lowercase letters that the policy's
/// independent checks read.
pub open spec fn all_lowercase_letters(s: Seq<char>) -> bool {
    forall|i: int|
        0 <= i < s.len() ==> text::unicode_lowercase(#[trigger] s[i]) && text::unicode_alphabetic(
            s[i],
        ) && text::unicode_alphanumeric(s[i]) && !text::unicode_uppercase(s[i])
            && !text::is_digit_char(s[i])
}

/// A password of eight or more bytes made only of lowercase letters has
/// exactly the weaknesses `NoNumeric`, `NoSpecialChars` and
/// `NoUpperCase`, in that order.
pub proof fn lemma_lowercase_only_weaknesses(s: Seq<char>)
    requires
        byte_len(s) >= 8,
        all_lowercase_letters(s),
    ensures
        spec_weaknesses(s) == seq![
            Weakness::NoNumeric,
            Weakness::NoSpecialChars,
            Weakness::NoUpperCase,
        ],
{
    assert(s.len() > 0) by {
        if s.len() == 0 {
            assert(vstd::utf8::encode_utf8(s).len() == 0);
        }
    }
    assert(has_lower(s)) by {
        assert(text::unicode_lowercase(s[0]));
    }
    assert(has_alpha(s)) by {
        assert(text::unicode_alphabetic(s[0]));
    }
    assert(!has_digit(s));
    assert(!has_upper(s));
    assert(all_alnum(s));
    assert(spec_weaknesses(s) =~= seq![
        Weakness::NoNumeric,
        Weakness::NoSpecialChars,
        Weakness::NoUpperCase,
    ]);
}

} // verus!
