//! Text primitives that the rest of the library builds on.
//!
//! The standard library's string functions are used as they are. Verus is
//! told here what each returns; nothing in this file proves that.

use vstd::prelude::*;
use vstd::string::StringExecFns;

verus! {

/// A character with an ASCII capital letter made small.
pub open spec fn ascii_lower(c: char) -> char {
    if 65 <= c as int <= 90 {
        (c as int + 32) as char
    } else {
        c
    }
}

/// The text with its ASCII capital letters made small.
pub open spec fn ascii_lowercased(s: Seq<char>) -> Seq<char> {
    Seq::new(s.len(), |i: int| ascii_lower(s[i]))
}

/// The lowercase form of a text by Unicode's rules, as `str::to_lowercase`
/// gives it.
pub uninterp spec fn lowercased(s: Seq<char>) -> Seq<char>;

/// The text without the white space at its two ends, as `str::trim` gives
/// it. What counts as white space is Unicode's to say.
pub uninterp spec fn trimmed(s: Seq<char>) -> Seq<char>;

/// Whether `needle` occurs in `s` as a run of consecutive characters.
pub open spec fn has_slice(s: Seq<char>, needle: Seq<char>) -> bool {
    exists|i: int|
        0 <= i <= s.len() - needle.len() && #[trigger] s.subrange(i, i + needle.len()) == needle
}

/// The text without the run of `c` at its end.
pub open spec fn without_trailing(s: Seq<char>, c: char) -> Seq<char>
    decreases s.len(),
{
    if s.len() > 0 && s.last() == c {
        without_trailing(s.drop_last(), c)
    } else {
        s
    }
}

/// The text with each occurrence of `from` replaced by `to`, the
/// occurrences taken from the left and not overlapping. An empty `from`
/// occurs before each character and at the end.
pub open spec fn replaced(s: Seq<char>, from: Seq<char>, to: Seq<char>) -> Seq<char>
    decreases s.len(),
{
    if from.len() == 0 {
        if s.len() == 0 {
            to
        } else {
            to + seq![s[0]] + replaced(s.drop_first(), from, to)
        }
    } else if s.len() < from.len() {
        s
    } else if from.is_prefix_of(s) {
        to + replaced(s.skip(from.len() as int), from, to)
    } else {
        seq![s[0]] + replaced(s.drop_first(), from, to)
    }
}

/// The parts in order with `sep` between each two.
pub open spec fn joined(parts: Seq<Seq<char>>, sep: Seq<char>) -> Seq<char>
    decreases parts.len(),
{
    if parts.len() == 0 {
        Seq::empty()
    } else if parts.len() == 1 {
        parts[0]
    } else {
        joined(parts.drop_last(), sep) + sep + parts.last()
    }
}

/// The views of a vector of strings.
pub open spec fn views(parts: Seq<String>) -> Seq<Seq<char>> {
    Seq::new(parts.len(), |i: int| parts[i]@)
}

/// The views of a vector of string slices.
pub open spec fn slice_views(parts: Seq<&'static str>) -> Seq<Seq<char>> {
    Seq::new(parts.len(), |i: int| parts[i]@)
}

/// `str`'s `==`: two slices are equal where they hold the same characters.
pub assume_specification[ <str as PartialEq>::eq ](a: &str, b: &str) -> (r: bool)
    ensures
        r == (a@ == b@),
;

/// `str::to_ascii_lowercase`: the letters `A` to `Z` become `a` to `z`,
/// every other character stays.
pub assume_specification[ str::to_ascii_lowercase ](s: &str) -> (r: String)
    ensures
        r@ == ascii_lowercased(s@),
;

/// `str::eq_ignore_ascii_case`: the two slices are equal once their ASCII
/// capital letters are made small.
pub assume_specification[ str::eq_ignore_ascii_case ](a: &str, b: &str) -> (r: bool)
    ensures
        r == (ascii_lowercased(a@) == ascii_lowercased(b@)),
;

/// `str::to_lowercase`: the result is named, not restated.
pub assume_specification[ str::to_lowercase ](s: &str) -> (r: String)
    ensures
        r@ == lowercased(s@),
;

/// `str::trim`: the result is named, not restated.
pub assume_specification[ str::trim ](s: &str) -> (r: &str)
    ensures
        r@ == trimmed(s@),
;

/// `str::starts_with` with a string pattern: whether the slice begins with
/// the pattern.
#[verifier::external_body]
pub(crate) fn starts_with(s: &str, prefix: &str) -> (r: bool)
    ensures
        r == prefix@.is_prefix_of(s@),
{
    s.starts_with(prefix)
}

/// `str::contains` with a string pattern: whether the pattern matches a
/// part of the slice.
#[verifier::external_body]
pub(crate) fn contains(s: &str, needle: &str) -> (r: bool)
    ensures
        r == has_slice(s@, needle@),
{
    s.contains(needle)
}

/// `str::trim_end_matches` with the pattern `/`: the slice with every `/`
/// at its end removed.
#[verifier::external_body]
pub(crate) fn trim_end_slashes(s: &str) -> (r: &str)
    ensures
        r@ == without_trailing(s@, '/'),
{
    s.trim_end_matches('/')
}

/// `str::replace` with a string pattern: a new string in which every match
/// of the pattern is replaced.
#[verifier::external_body]
pub(crate) fn replace(s: &str, from: &str, to: &str) -> (r: String)
    ensures
        r@ == replaced(s@, from@, to@),
{
    s.replace(from, to)
}

/// `String::push`: the character is appended.
pub assume_specification[ String::push ](s: &mut String, c: char)
    ensures
        final(s)@ == old(s)@.push(c),
;

/// The character for a decimal digit.
pub open spec fn digit_char(d: int) -> char {
    (48 + d) as char
}

/// A number in decimal digits, without leading zeros.
pub open spec fn decimal(n: nat) -> Seq<char>
    decreases n,
{
    if n < 10 {
        seq![digit_char(n as int)]
    } else {
        decimal(n / 10).push(digit_char((n % 10) as int))
    }
}

/// Writes a number in decimal digits.
pub fn to_decimal(n: u128) -> (s: String)
    ensures
        s@ == decimal(n as nat),
{
    let mut digits: Vec<u8> = Vec::new();
    let mut rest: u128 = n;
    while rest >= 10
        invariant
            forall|i: int| 0 <= i < digits@.len() ==> #[trigger] digits@[i] < 10,
            decimal(n as nat) == decimal(rest as nat) + Seq::new(
                digits@.len(),
                |i: int| digit_char(digits@[digits@.len() - 1 - i] as int),
            ),
        decreases rest,
    {
        let ghost before = digits@;
        digits.push((rest % 10) as u8);
        proof {
            let tail_before = Seq::new(
                before.len(),
                |i: int| digit_char(before[before.len() - 1 - i] as int),
            );
            let tail_after = Seq::new(
                digits@.len(),
                |i: int| digit_char(digits@[digits@.len() - 1 - i] as int),
            );
            assert(tail_after =~= seq![digit_char((rest % 10) as int)] + tail_before);
            assert(decimal(rest as nat) == decimal((rest / 10) as nat).push(
                digit_char((rest % 10) as int),
            ));
            assert(decimal(rest as nat) + tail_before =~= decimal((rest / 10) as nat) + tail_after);
        }
        rest = rest / 10;
    }
    let mut out: String = String::new();
    out.push((48u8 + rest as u8) as char);
    let ghost tail = Seq::new(
        digits@.len(),
        |i: int| digit_char(digits@[digits@.len() - 1 - i] as int),
    );
    let mut k: usize = digits.len();
    while k > 0
        invariant
            0 <= k <= digits@.len(),
            forall|i: int| 0 <= i < digits@.len() ==> #[trigger] digits@[i] < 10,
            tail == Seq::new(
                digits@.len(),
                |i: int| digit_char(digits@[digits@.len() - 1 - i] as int),
            ),
            out@ == decimal(rest as nat) + tail.take(digits@.len() - k),
            rest < 10,
        decreases k,
    {
        k -= 1;
        let ghost before = out@;
        out.push((48u8 + digits[k]) as char);
        assert(out@ =~= decimal(rest as nat) + tail.take(digits@.len() - k)) by {
            assert(tail.take(digits@.len() - k) =~= tail.take(digits@.len() - k - 1).push(
                tail[digits@.len() - k - 1],
            ));
        }
    }
    assert(tail.take(digits@.len() as int) =~= tail);
    out
}

/// Joins strings with a separator between each two.
pub fn join(parts: &Vec<String>, sep: &str) -> (s: String)
    ensures
        s@ == joined(views(parts@), sep@),
{
    let mut out: String = String::new();
    let mut i: usize = 0;
    while i < parts.len()
        invariant
            0 <= i <= parts.len(),
            out@ == joined(views(parts@).take(i as int), sep@),
        decreases parts.len() - i,
    {
        proof {
            let upto = views(parts@).take(i + 1);
            assert(upto.drop_last() =~= views(parts@).take(i as int));
            assert(upto.last() == parts@[i as int]@);
            if i > 0 {
                assert(joined(upto, sep@) == joined(upto.drop_last(), sep@) + sep@ + upto.last());
            } else {
                assert(Seq::<char>::empty() + parts@[0]@ =~= parts@[0]@);
            }
        }
        if i > 0 {
            out.append(sep);
        }
        out.append(parts[i].as_str());
        i += 1;
    }
    assert(views(parts@).take(parts@.len() as int) =~= views(parts@));
    out
}

/// Joins string slices with a separator between each two.
pub fn join_slices(parts: &Vec<&'static str>, sep: &str) -> (s: String)
    ensures
        s@ == joined(slice_views(parts@), sep@),
{
    let mut out: String = String::new();
    let mut i: usize = 0;
    while i < parts.len()
        invariant
            0 <= i <= parts.len(),
            out@ == joined(slice_views(parts@).take(i as int), sep@),
        decreases parts.len() - i,
    {
        proof {
            let upto = slice_views(parts@).take(i + 1);
            assert(upto.drop_last() =~= slice_views(parts@).take(i as int));
            assert(upto.last() == parts@[i as int]@);
            if i > 0 {
                assert(joined(upto, sep@) == joined(upto.drop_last(), sep@) + sep@ + upto.last());
            } else {
                assert(Seq::<char>::empty() + parts@[0]@ =~= parts@[0]@);
            }
        }
        if i > 0 {
            out.append(sep);
        }
        out.append(parts[i]);
        i += 1;
    }
    assert(slice_views(parts@).take(parts@.len() as int) =~= slice_views(parts@));
    out
}

/// `a`, then `b`, then `c`.
pub fn concat3(a: &str, b: &str, c: &str) -> (s: String)
    ensures
        s@ == a@ + b@ + c@,
{
    let mut s: String = String::from_str(a);
    s.append(b);
    s.append(c);
    s
}

/// An owned copy, where there is a text.
pub fn cloned_text(text: &Option<String>) -> (copy: Option<String>)
    ensures
        copy is Some == text is Some,
        copy matches Some(c) ==> text matches Some(t) && c@ == t@,
{
    match text {
        Some(t) => Some(t.clone()),
        None => None,
    }
}

} // verus!
