//! Text primitives shared by the rest of the crate: conversion between strings and
//! character vectors, numbers written in decimal and hexadecimal, unsigned number
//! parsing, substring search and splitting.
//!
//! Every contract here is stated over `Seq<char>`, the view of `str` and `String`.

use vstd::prelude::*;
use vstd::string::*;

verus! {

/// `String::push` appends one character at the end of the string.
pub assume_specification[ String::push ](s: &mut String, c: char)
    ensures
        final(s)@ == old(s)@.push(c),
;

/// The views of a sequence of strings.
pub open spec fn texts(v: Seq<String>) -> Seq<Seq<char>> {
    Seq::new(v.len(), |i: int| v[i]@)
}

/// Appends a text to a list of texts.
pub fn push_string(list: &mut Vec<String>, s: String)
    ensures
        texts(final(list)@) == texts(old(list)@).push(s@),
{
    list.push(s);
    assert(texts(list@) =~= texts(old(list)@).push(s@));
}

/// Appends a copy of a text to a list of texts.
pub fn push_text(list: &mut Vec<String>, s: &str)
    ensures
        texts(final(list)@) == texts(old(list)@).push(s@),
{
    push_string(list, s.to_owned());
}

/// The characters of `s`, in order.
pub fn chars_of(s: &str) -> (v: Vec<char>)
    ensures
        v@ == s@,
{
    let mut v: Vec<char> = Vec::new();
    for c in it: s.chars()
        invariant
            it.seq() == s@,
            v@ == it.seq().take(it.index()),
    {
        v.push(c);
    }
    v
}

/// Appends the characters `v[from..to]` to `out`.
pub fn push_chars(out: &mut String, v: &Vec<char>, from: usize, to: usize)
    requires
        from <= to <= v.len(),
    ensures
        final(out)@ == old(out)@ + v@.subrange(from as int, to as int),
{
    let mut i: usize = from;
    while i < to
        invariant
            from <= i <= to <= v.len(),
            out@ == old(out)@ + v@.subrange(from as int, i as int),
        decreases to - i,
    {
        out.push(v[i]);
        i += 1;
    }
}

/// The string made of the characters `v[from..to]`.
pub fn string_of_range(v: &Vec<char>, from: usize, to: usize) -> (s: String)
    requires
        from <= to <= v.len(),
    ensures
        s@ == v@.subrange(from as int, to as int),
{
    let mut s = String::new();
    push_chars(&mut s, v, from, to);
    s
}

/// Whether two strings hold the same characters.
pub fn str_eq(a: &str, b: &str) -> (same: bool)
    ensures
        same == (a@ == b@),
{
    let x = chars_of(a);
    let y = chars_of(b);
    if x.len() != y.len() {
        return false;
    }
    let mut i: usize = 0;
    while i < x.len()
        invariant
            x@ == a@,
            y@ == b@,
            x.len() == y.len(),
            i <= x.len(),
            x@.take(i as int) == y@.take(i as int),
        decreases x.len() - i,
    {
        if x[i] != y[i] {
            assert(x@[i as int] != y@[i as int]);
            return false;
        }
        assert(x@.take(i + 1) == x@.take(i as int).push(x@[i as int]));
        assert(y@.take(i + 1) == y@.take(i as int).push(y@[i as int]));
        i += 1;
    }
    assert(x@.take(x.len() as int) == x@);
    assert(y@.take(y.len() as int) == y@);
    true
}

/// The sixteen digits of lower-case hexadecimal; the first ten are the decimal digits.
pub open spec fn digit(d: nat) -> char
    recommends
        d < 16,
{
    seq![
        '0', '1', '2', '3', '4', '5', '6', '7', '8', '9', 'a', 'b', 'c', 'd', 'e', 'f',
    ][d as int]
}

/// `n` in decimal, without leading zeros.
pub open spec fn decimal(n: nat) -> Seq<char>
    decreases n,
{
    if n < 10 {
        seq![digit(n)]
    } else {
        decimal(n / 10).push(digit(n % 10))
    }
}

/// `n` in lower-case hexadecimal, without leading zeros.
pub open spec fn lower_hex(n: nat) -> Seq<char>
    decreases n,
{
    if n < 16 {
        seq![digit(n)]
    } else {
        lower_hex(n / 16).push(digit(n % 16))
    }
}

/// `n` in decimal, with a leading zero where it has a single digit.
pub open spec fn decimal_two(n: nat) -> Seq<char> {
    if n < 10 {
        seq!['0'] + decimal(n)
    } else {
        decimal(n)
    }
}

fn digit_of(d: u64) -> (c: char)
    requires
        d < 16,
    ensures
        c == digit(d as nat),
{
    match d {
        0 => '0',
        1 => '1',
        2 => '2',
        3 => '3',
        4 => '4',
        5 => '5',
        6 => '6',
        7 => '7',
        8 => '8',
        9 => '9',
        10 => 'a',
        11 => 'b',
        12 => 'c',
        13 => 'd',
        14 => 'e',
        _ => 'f',
    }
}

/// Appends `n` in decimal to `out`.
pub fn push_decimal(out: &mut String, n: u64)
    ensures
        final(out)@ == old(out)@ + decimal(n as nat),
    decreases n,
{
    if n >= 10 {
        push_decimal(out, n / 10);
    }
    out.push(digit_of(n % 10));
}

/// Appends `n` in lower-case hexadecimal to `out`.
pub fn push_lower_hex(out: &mut String, n: u64)
    ensures
        final(out)@ == old(out)@ + lower_hex(n as nat),
    decreases n,
{
    if n >= 16 {
        push_lower_hex(out, n / 16);
    }
    out.push(digit_of(n % 16));
}

/// Appends `n` in decimal to `out`, padded with a zero to two digits.
pub fn push_decimal_two(out: &mut String, n: u64)
    ensures
        final(out)@ == old(out)@ + decimal_two(n as nat),
{
    if n < 10 {
        out.push('0');
        assert(old(out)@.push('0') + decimal(n as nat) == old(out)@ + (seq!['0'] + decimal(
            n as nat,
        )));
    }
    push_decimal(out, n);
}

/// `n` in decimal, as a string of its own.
pub fn decimal_string(n: u64) -> (s: String)
    ensures
        s@ == decimal(n as nat),
{
    let mut s = String::new();
    push_decimal(&mut s, n);
    s
}

/// Whether `c` is one of the ten decimal digits.
pub open spec fn is_digit(c: char) -> bool {
    '0' <= c <= '9'
}

/// The value of a decimal digit; zero for any other character.
pub open spec fn digit_value(c: char) -> nat {
    if is_digit(c) {
        (c as u32 - '0' as u32) as nat
    } else {
        0
    }
}

/// Whether `s` holds decimal digits only.
pub open spec fn all_digits(s: Seq<char>) -> bool {
    forall|i: int| 0 <= i < s.len() ==> is_digit(#[trigger] s[i])
}

/// The number that the digits of `s` write in decimal.
pub open spec fn digits_value(s: Seq<char>) -> nat
    decreases s.len(),
{
    if s.len() == 0 {
        0
    } else {
        digits_value(s.drop_last()) * 10 + digit_value(s.last())
    }
}

/// The number written by `s`, where `s` is one decimal digit or more and the
/// number is at most `max`.
pub open spec fn number_of_digits(s: Seq<char>, max: nat) -> Option<nat> {
    if s.len() > 0 && all_digits(s) && digits_value(s) <= max {
        Some(digits_value(s))
    } else {
        None
    }
}

/// The number written by `s` as an unsigned integer up to `max`: an optional
/// `+`, then one decimal digit or more, and nothing else.
pub open spec fn parsed_unsigned(s: Seq<char>, max: nat) -> Option<nat> {
    if s.len() > 0 && s[0] == '+' {
        number_of_digits(s.skip(1), max)
    } else {
        number_of_digits(s, max)
    }
}

/// What `s` parses to as a `u32`.
pub open spec fn parsed_u32(s: Seq<char>) -> Option<u32> {
    match parsed_unsigned(s, u32::MAX as nat) {
        Some(n) => Some(n as u32),
        None => None,
    }
}

/// A prefix of a digit string writes a number no greater than the whole.
pub proof fn lemma_digits_value_prefix(s: Seq<char>, k: int)
    requires
        0 <= k <= s.len(),
    ensures
        digits_value(s.take(k)) <= digits_value(s),
    decreases s.len(),
{
    if k == s.len() {
        assert(s.take(k) == s);
    } else {
        assert(s.drop_last().take(k) == s.take(k));
        lemma_digits_value_prefix(s.drop_last(), k);
    }
}

/// Reads `v[from..to]` as decimal digits writing a number up to `max`.
pub fn parse_digits(v: &Vec<char>, from: usize, to: usize, max: u64) -> (r: Option<u64>)
    requires
        from <= to <= v.len(),
    ensures
        r is Some <==> number_of_digits(v@.subrange(from as int, to as int), max as nat) is Some,
        r matches Some(n) ==> number_of_digits(v@.subrange(from as int, to as int), max as nat)
            == Some(n as nat),
{
    let ghost s = v@.subrange(from as int, to as int);
    if from == to {
        return None;
    }
    let mut acc: u64 = 0;
    let mut i: usize = from;
    while i < to
        invariant
            from <= i <= to <= v.len(),
            s == v@.subrange(from as int, to as int),
            acc <= max,
            acc == digits_value(s.take(i - from)),
            all_digits(s.take(i - from)),
        decreases to - i,
    {
        let c = v[i];
        proof {
            assert(s.take(i - from + 1).drop_last() == s.take(i - from));
            assert(s.take(i - from + 1).last() == c);
            lemma_digits_value_prefix(s, i - from + 1);
        }
        if c < '0' || c > '9' {
            assert(!is_digit(s[i - from]));
            return None;
        }
        let d: u128 = (c as u32 - '0' as u32) as u128;
        let next: u128 = acc as u128 * 10 + d;
        if next > max as u128 {
            return None;
        }
        acc = next as u64;
        i += 1;
    }
    assert(s.take(to - from) == s);
    Some(acc)
}

/// Reads `s` as a `u32`: an optional `+`, then decimal digits, and nothing else.
pub fn parse_u32(s: &str) -> (r: Option<u32>)
    ensures
        r == parsed_u32(s@),
{
    let v = chars_of(s);
    let from: usize = if v.len() > 0 && v[0] == '+' {
        1
    } else {
        0
    };
    assert(v@.subrange(from as int, v.len() as int) == v@.skip(from as int));
    assert(v@.skip(0) == v@);
    match parse_digits(&v, from, v.len(), 0xffff_ffff) {
        Some(n) => Some(n as u32),
        None => None,
    }
}

/// Whether `v` holds decimal digits only from `from` on.
pub fn digits_only(v: &Vec<char>, from: usize) -> (b: bool)
    requires
        from <= v.len(),
    ensures
        b == all_digits(v@.skip(from as int)),
{
    let ghost rest = v@.skip(from as int);
    let mut k: usize = from;
    while k < v.len()
        invariant
            from <= k <= v.len(),
            rest == v@.skip(from as int),
            forall|j: int| 0 <= j < k - from ==> is_digit(#[trigger] rest[j]),
        decreases v.len() - k,
    {
        let c = v[k];
        if c < '0' || c > '9' {
            assert(!is_digit(rest[k - from]));
            return false;
        }
        k += 1;
    }
    true
}

/// The number written by `s` as an unsigned integer, where `s` is an optional
/// `+`, then one decimal digit or more, and nothing else; a number above
/// `max` counts as `max`.
pub open spec fn saturated_unsigned(s: Seq<char>, max: nat) -> Option<nat> {
    let digits = if s.len() > 0 && s[0] == '+' {
        s.skip(1)
    } else {
        s
    };
    if digits.len() > 0 && all_digits(digits) {
        if digits_value(digits) <= max {
            Some(digits_value(digits))
        } else {
            Some(max)
        }
    } else {
        None
    }
}

/// Reads `s` as an unsigned integer; a number that no `u64` holds is read as
/// the largest `u64`.
pub fn parse_saturated_u64(s: &str) -> (r: Option<u64>)
    ensures
        r is Some <==> saturated_unsigned(s@, u64::MAX as nat) is Some,
        r matches Some(n) ==> saturated_unsigned(s@, u64::MAX as nat) == Some(n as nat),
{
    let v = chars_of(s);
    let from: usize = if v.len() > 0 && v[0] == '+' {
        1
    } else {
        0
    };
    assert(v@.subrange(from as int, v.len() as int) == v@.skip(from as int));
    assert(v@.skip(0) == v@);
    match parse_digits(&v, from, v.len(), 0xffff_ffff_ffff_ffff) {
        Some(n) => Some(n),
        None => if from < v.len() && digits_only(&v, from) {
            Some(0xffff_ffff_ffff_ffff)
        } else {
            None
        },
    }
}

/// Whether `needle` stands in `hay` at index `i`.
pub open spec fn occurs_at(hay: Seq<char>, needle: Seq<char>, i: int) -> bool {
    &&& 0 <= i
    &&& i + needle.len() <= hay.len()
    &&& hay.subrange(i, i + needle.len()) == needle
}

/// Whether `i` is the least index from `from` on at which `needle` stands in `hay`.
pub open spec fn is_first_from(hay: Seq<char>, needle: Seq<char>, from: int, i: int) -> bool {
    &&& from <= i
    &&& occurs_at(hay, needle, i)
    &&& forall|j: int| from <= j < i ==> !occurs_at(hay, needle, j)
}

/// The least index from `from` on at which `needle` stands in `hay`, if there is one.
pub open spec fn first_from(hay: Seq<char>, needle: Seq<char>, from: int) -> Option<int> {
    if exists|i: int| from <= i && occurs_at(hay, needle, i) {
        Some(choose|i: int| is_first_from(hay, needle, from, i))
    } else {
        None
    }
}

/// The least index at which `needle` stands in `hay`, if there is one.
pub open spec fn first_occurrence(hay: Seq<char>, needle: Seq<char>) -> Option<int> {
    first_from(hay, needle, 0)
}

/// Whether `needle` stands somewhere in `hay`.
pub open spec fn contains_text(hay: Seq<char>, needle: Seq<char>) -> bool {
    exists|i: int| occurs_at(hay, needle, i)
}

/// The least index is the only one that [`is_first_from`] accepts.
pub proof fn lemma_first_from(hay: Seq<char>, needle: Seq<char>, from: int, i: int)
    requires
        is_first_from(hay, needle, from, i),
    ensures
        first_from(hay, needle, from) == Some(i),
{
    let k = choose|k: int| is_first_from(hay, needle, from, k);
    if k < i {
        assert(!occurs_at(hay, needle, k));
    }
    if i < k {
        assert(!occurs_at(hay, needle, i));
    }
}

fn matches_at(hay: &Vec<char>, needle: &Vec<char>, i: usize) -> (b: bool)
    requires
        i + needle.len() <= hay.len(),
    ensures
        b == occurs_at(hay@, needle@, i as int),
{
    let mut k: usize = 0;
    while k < needle.len()
        invariant
            i + needle.len() <= hay.len(),
            k <= needle.len(),
            hay@.subrange(i as int, i + k) == needle@.take(k as int),
        decreases needle.len() - k,
    {
        if hay[i + k] != needle[k] {
            assert(hay@.subrange(i as int, i + needle.len())[k as int] != needle@[k as int]);
            return false;
        }
        assert(hay@.subrange(i as int, i + k + 1) == hay@.subrange(i as int, i + k).push(
            hay@[i + k],
        ));
        assert(needle@.take(k + 1) == needle@.take(k as int).push(needle@[k as int]));
        k += 1;
    }
    assert(needle@.take(needle.len() as int) == needle@);
    true
}

/// Finds the first place from `from` on at which `needle` stands in `hay`.
pub fn find_from(hay: &Vec<char>, needle: &Vec<char>, from: usize) -> (r: Option<usize>)
    ensures
        r is Some <==> first_from(hay@, needle@, from as int) is Some,
        r matches Some(i) ==> is_first_from(hay@, needle@, from as int, i as int) && first_from(
            hay@,
            needle@,
            from as int,
        ) == Some(i as int),
{
    if needle.len() > hay.len() || from > hay.len() - needle.len() {
        return None;
    }
    let last: usize = hay.len() - needle.len();
    let mut i: usize = from;
    loop
        invariant
            last == hay.len() - needle.len(),
            from <= i <= last,
            forall|j: int| from <= j < i ==> !occurs_at(hay@, needle@, j),
        decreases last - i,
    {
        if matches_at(hay, needle, i) {
            proof {
                lemma_first_from(hay@, needle@, from as int, i as int);
            }
            return Some(i);
        }
        if i == last {
            return None;
        }
        i += 1;
    }
}

/// Whether `needle` stands somewhere in `hay`.
pub fn contains(hay: &str, needle: &str) -> (b: bool)
    ensures
        b == contains_text(hay@, needle@),
{
    let h = chars_of(hay);
    let n = chars_of(needle);
    let r = find_from(&h, &n, 0);
    proof {
        if r is Some {
            assert(occurs_at(h@, n@, r->0 as int));
        }
    }
    r.is_some()
}

/// The pieces of `s` between the occurrences of `sep`, taken from `from` on.
pub open spec fn split_from(s: Seq<char>, sep: Seq<char>, from: int) -> Seq<Seq<char>>
    decreases s.len() - from,
{
    match first_from(s, sep, from) {
        Some(i) if sep.len() > 0 && from <= i && i + sep.len() <= s.len() => seq![
            s.subrange(from, i),
        ] + split_from(s, sep, i + sep.len()),
        _ => seq![s.subrange(from, s.len() as int)],
    }
}

/// The pieces of `s` between the occurrences of `sep`, found from left to right
/// without overlap: one piece more than there are separators.
pub open spec fn split_text(s: Seq<char>, sep: Seq<char>) -> Seq<Seq<char>> {
    split_from(s, sep, 0)
}

/// Splits `s` at each occurrence of `sep`.
pub fn split(s: &str, sep: &str) -> (parts: Vec<String>)
    requires
        sep@.len() > 0,
    ensures
        texts(parts@) == split_text(s@, sep@),
{
    let v = chars_of(s);
    let p = chars_of(sep);
    let mut parts: Vec<String> = Vec::new();
    let mut from: usize = 0;
    loop
        invariant_except_break
            from <= v.len(),
            split_text(v@, p@) == texts(parts@) + split_from(v@, p@, from as int),
        invariant
            v@ == s@,
            p@ == sep@,
            p@.len() > 0,
        ensures
            texts(parts@) == split_text(v@, p@),
        decreases v.len() - from,
    {
        let ghost before = parts@;
        match find_from(&v, &p, from) {
            Some(i) => {
                parts.push(string_of_range(&v, from, i));
                proof {
                    assert(texts(parts@) == texts(before).push(v@.subrange(from as int, i as int)));
                    assert(texts(before) + (seq![v@.subrange(from as int, i as int)] + split_from(
                        v@,
                        p@,
                        i + p@.len(),
                    )) == texts(parts@) + split_from(v@, p@, i + p@.len()));
                }
                from = i + p.len();
            },
            None => {
                parts.push(string_of_range(&v, from, v.len()));
                proof {
                    assert(texts(parts@) == texts(before).push(
                        v@.subrange(from as int, v.len() as int),
                    ));
                    assert(texts(before) + seq![v@.subrange(from as int, v.len() as int)]
                        == texts(parts@));
                }
                break ;
            },
        }
    }
    parts
}

/// What `str::to_lowercase` makes of a text: its lower-case equivalent by the
/// Unicode rules.
pub uninterp spec fn lowercase(s: Seq<char>) -> Seq<char>;

/// `str::to_lowercase`: the result is the lower-case equivalent of `s`, which
/// depends on the characters of `s` alone.
#[verifier::external_body]
pub(crate) fn to_lowercase(s: &str) -> (lower: String)
    ensures
        lower@ == lowercase(s@),
{
    s.to_lowercase()
}

} // verus!
