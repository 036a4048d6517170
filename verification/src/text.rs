//! Small text helpers shared by the other modules.

use vstd::prelude::*;
use vstd::string::*;

verus! {

/// The character that stands for the decimal digit `d`.
pub open spec fn digit_char(d: nat) -> char {
    if d == 0 {
        '0'
    } else if d == 1 {
        '1'
    } else if d == 2 {
        '2'
    } else if d == 3 {
        '3'
    } else if d == 4 {
        '4'
    } else if d == 5 {
        '5'
    } else if d == 6 {
        '6'
    } else if d == 7 {
        '7'
    } else if d == 8 {
        '8'
    } else {
        '9'
    }
}

/// The decimal numeral of `n`, most significant digit first, without
/// leading zeros (`0` is written `"0"`).
pub open spec fn decimal_digits(n: nat) -> Seq<char>
    decreases n,
{
    if n < 10 {
        seq![digit_char(n)]
    } else {
        decimal_digits(n / 10).push(digit_char(n % 10))
    }
}

/// Appends one character to a string: `String::push` of the standard
/// library, which adds the character at the end and changes nothing else.
#[verifier::external_body]
pub(crate) fn push_char(out: &mut String, c: char)
    ensures
        final(out)@ == old(out)@.push(c),
{
    out.push(c);
}

fn digit_of(d: u64) -> (c: char)
    requires
        d < 10,
    ensures
        c == digit_char(d as nat),
{
    if d == 0 {
        '0'
    } else if d == 1 {
        '1'
    } else if d == 2 {
        '2'
    } else if d == 3 {
        '3'
    } else if d == 4 {
        '4'
    } else if d == 5 {
        '5'
    } else if d == 6 {
        '6'
    } else if d == 7 {
        '7'
    } else if d == 8 {
        '8'
    } else {
        '9'
    }
}

/// Appends the decimal numeral of `n` to `out`.
pub fn push_decimal(out: &mut String, n: u64)
    ensures
        final(out)@ == old(out)@ + decimal_digits(n as nat),
    decreases n,
{
    if n >= 10 {
        push_decimal(out, n / 10);
    }
    push_char(out, digit_of(n % 10));
}

/// The decimal numeral of `n` as a string of its own.
pub fn decimal_string(n: u64) -> (out: String)
    ensures
        out@ == decimal_digits(n as nat),
{
    let mut out = String::new();
    push_decimal(&mut out, n);
    out
}

/// Whether two string slices hold the same characters.
pub fn str_eq(a: &str, b: &str) -> (same: bool)
    ensures
        same == (a@ == b@),
{
    let left: String = a.to_owned();
    let right: String = b.to_owned();
    left == right
}

/// `first` followed by `second`, as a new string.
pub fn concat2(first: &str, second: &str) -> (out: String)
    ensures
        out@ == first@ + second@,
{
    let mut out = String::from_str(first);
    out.append(second);
    out
}

/// `first`, `second` and `third` in that order, as a new string.
pub fn concat3(first: &str, second: &str, third: &str) -> (out: String)
    ensures
        out@ == first@ + second@ + third@,
{
    let mut out = String::from_str(first);
    out.append(second);
    out.append(third);
    out
}

/// What `str::to_lowercase` of the standard library returns for a text:
/// its lowercase form as Unicode defines it.
pub uninterp spec fn lowercase_of(text: Seq<char>) -> Seq<char>;

/// What `str::lines` of the standard library yields for a text: its
/// lines, each without its line ending.
pub uninterp spec fn lines_of(text: Seq<char>) -> Seq<Seq<char>>;

/// What `str::trim` of the standard library returns for a text: the text
/// without the white space at its two ends.
pub uninterp spec fn trimmed(text: Seq<char>) -> Seq<char>;

/// What `str::trim_end_matches` of the standard library returns for a
/// text and a character: the text without the run of that character at its
/// end.
pub open spec fn without_trailing(text: Seq<char>, c: char) -> Seq<char>
    decreases text.len(),
{
    if text.len() > 0 && text.last() == c {
        without_trailing(text.drop_last(), c)
    } else {
        text
    }
}

/// Whether `needle` occurs in `hay` as a run of consecutive characters.
pub open spec fn is_substring(needle: Seq<char>, hay: Seq<char>) -> bool {
    exists|i: int|
        0 <= i && i + needle.len() <= hay.len() && #[trigger] hay.subrange(
            i,
            i + needle.len(),
        ) == needle
}

/// The texts of a sequence of strings.
pub open spec fn texts(strings: Seq<String>) -> Seq<Seq<char>> {
    Seq::new(strings.len(), |i: int| strings[i]@)
}

/// The lowercase form of a text: `str::to_lowercase` of the standard
/// library.
#[verifier::external_body]
pub(crate) fn to_lowercase(text: &str) -> (lowered: String)
    ensures
        lowered@ == lowercase_of(text@),
{
    text.to_lowercase()
}

/// The lines of a text: `str::lines` of the standard library, each line
/// as a string of its own.
#[verifier::external_body]
pub(crate) fn lines(text: &str) -> (all: Vec<String>)
    ensures
        texts(all@) == lines_of(text@),
{
    text.lines().map(String::from).collect()
}

/// A text without the white space at its ends: `str::trim` of the
/// standard library.
#[verifier::external_body]
pub(crate) fn trim(text: &str) -> (inner: &str)
    ensures
        inner@ == trimmed(text@),
{
    text.trim()
}

/// A text without the run of `c` at its end: `str::trim_end_matches` of
/// the standard library, which removes the character as often as the text
/// ends with it.
#[verifier::external_body]
pub(crate) fn trim_end_matches(text: &str, c: char) -> (inner: &str)
    ensures
        inner@ == without_trailing(text@, c),
{
    text.trim_end_matches(c)
}

/// Whether `needle` occurs in `hay`: `str::contains` of the standard
/// library, which says whether the pattern matches a part of the text.
#[verifier::external_body]
pub(crate) fn contains(hay: &str, needle: &str) -> (found: bool)
    ensures
        found == is_substring(needle@, hay@),
{
    hay.contains(needle)
}

/// The part of a text behind the last `c` in it; the whole text where `c`
/// does not occur.
pub open spec fn after_last(text: Seq<char>, c: char) -> Seq<char>
    decreases text.len(),
{
    if text.len() == 0 {
        text
    } else if text.last() == c {
        Seq::<char>::empty()
    } else {
        after_last(text.drop_last(), c).push(text.last())
    }
}

/// Splits a text at the last `c` in it: `str::rsplit_once` of the
/// standard library, which returns what stands before that `c` and what
/// stands behind it, and nothing where `c` does not occur.
#[verifier::external_body]
pub(crate) fn rsplit_once(text: &str, c: char) -> (parts: Option<(&str, &str)>)
    ensures
        match parts {
            Some((head, tail)) => text@ == head@ + seq![c] + tail@ && !tail@.contains(c),
            None => !text@.contains(c),
        },
{
    text.rsplit_once(c)
}

/// A text that ends in a part without `c`, right behind a `c`, has that
/// part behind its last `c`.
pub proof fn lemma_after_last_of_split(head: Seq<char>, c: char, tail: Seq<char>)
    requires
        !tail.contains(c),
    ensures
        after_last(head + seq![c] + tail, c) == tail,
    decreases tail.len(),
{
    let text = head + seq![c] + tail;
    if tail.len() == 0 {
        assert(text.last() == c);
        assert(tail =~= Seq::<char>::empty());
    } else {
        let shorter = tail.drop_last();
        assert(text.last() == tail.last());
        assert(tail.contains(tail.last()));
        assert(text.drop_last() =~= head + seq![c] + shorter);
        assert forall|k: int| 0 <= k < shorter.len() implies shorter[k] != c by {
            assert(tail.contains(tail[k]));
        }
        lemma_after_last_of_split(head, c, shorter);
        assert(shorter.push(tail.last()) =~= tail);
    }
}

/// A text without `c` is what stands behind its last `c`.
pub proof fn lemma_after_last_without(text: Seq<char>, c: char)
    requires
        !text.contains(c),
    ensures
        after_last(text, c) == text,
    decreases text.len(),
{
    if text.len() > 0 {
        assert(text.contains(text.last()));
        let shorter = text.drop_last();
        assert forall|k: int| 0 <= k < shorter.len() implies shorter[k] != c by {
            assert(text.contains(text[k]));
        }
        lemma_after_last_without(shorter, c);
        assert(shorter.push(text.last()) =~= text);
    }
}

/// The part of a text behind the last `c` in it, or the whole text where
/// `c` does not occur.
pub fn last_segment(text: &str, c: char) -> (tail: &str)
    ensures
        tail@ == after_last(text@, c),
{
    match rsplit_once(text, c) {
        Some((head, tail)) => {
            proof {
                lemma_after_last_of_split(head@, c, tail@);
            }
            tail
        },
        None => {
            proof {
                lemma_after_last_without(text@, c);
            }
            text
        },
    }
}

/// The digit that a character stands for; 0 for a character that is no
/// digit.
pub open spec fn digit_value(c: char) -> nat {
    if c == '1' {
        1
    } else if c == '2' {
        2
    } else if c == '3' {
        3
    } else if c == '4' {
        4
    } else if c == '5' {
        5
    } else if c == '6' {
        6
    } else if c == '7' {
        7
    } else if c == '8' {
        8
    } else if c == '9' {
        9
    } else {
        0
    }
}

/// The number that a row of digits denotes.
pub open spec fn numeral_value(digits: Seq<char>) -> nat
    decreases digits.len(),
{
    if digits.len() == 0 {
        0
    } else {
        numeral_value(digits.drop_last()) * 10 + digit_value(digits.last())
    }
}

/// The decimal numeral of a number denotes that number, is not empty, and
/// begins with a zero only where the number is zero.
pub proof fn lemma_decimal_digits_denote(n: nat)
    ensures
        numeral_value(decimal_digits(n)) == n,
        decimal_digits(n).len() >= 1,
        n > 0 ==> decimal_digits(n)[0] != '0',
    decreases n,
{
    if n < 10 {
        let digits = seq![digit_char(n)];
        assert(digits.drop_last() =~= Seq::<char>::empty());
        assert(digits.last() == digit_char(n));
        assert(numeral_value(digits.drop_last()) == 0);
    } else {
        lemma_decimal_digits_denote(n / 10);
        let head = decimal_digits(n / 10);
        let digits = head.push(digit_char(n % 10));
        assert(digits.drop_last() =~= head);
        assert(digits.last() == digit_char(n % 10));
        assert(digits[0] == head[0]);
    }
}

} // verus!
