//! Small text utilities shared by the rest of the crate. Strings are
//! described by their sequence of characters.

use vstd::prelude::*;
use vstd::utf8::{decode_utf8, valid_utf8};

verus! {

/// The characters of an optional text.
pub open spec fn opt_text(s: Option<String>) -> Option<Seq<char>> {
    match s {
        Some(t) => Some(t@),
        None => None,
    }
}

/// The lower-case form of an ASCII letter; any other character is itself.
pub open spec fn ascii_lower(c: char) -> char {
    if 'A' <= c && c <= 'Z' {
        ((c as u8 + 32) as u8) as char
    } else {
        c
    }
}

/// Two texts are equal up to the case of their ASCII letters.
pub open spec fn eq_ignore_case(a: Seq<char>, b: Seq<char>) -> bool {
    &&& a.len() == b.len()
    &&& forall|i: int| 0 <= i < a.len() ==> ascii_lower(#[trigger] a[i]) == ascii_lower(b[i])
}

/// No text equals, up to case, two texts that differ in length or — up to
/// case — at some position.
pub proof fn lemma_eq_ignore_case_apart(s: Seq<char>, a: Seq<char>, b: Seq<char>, at: int)
    requires
        a.len() != b.len() || (0 <= at < a.len() && ascii_lower(a[at]) != ascii_lower(b[at])),
    ensures
        !(eq_ignore_case(s, a) && eq_ignore_case(s, b)),
{
    if eq_ignore_case(s, a) && eq_ignore_case(s, b) {
        assert(ascii_lower(s[at]) == ascii_lower(b[at]));
    }
}

/// `pat` occurs in `s` at position `at`.
pub open spec fn occurs_at(s: Seq<char>, pat: Seq<char>, at: int) -> bool {
    &&& 0 <= at
    &&& at + pat.len() <= s.len()
    &&& s.subrange(at, at + pat.len()) == pat
}

/// `at` is the leftmost position at which `pat` occurs in `s`.
pub open spec fn first_occurrence(s: Seq<char>, pat: Seq<char>, at: int) -> bool {
    &&& occurs_at(s, pat, at)
    &&& forall|j: int| 0 <= j < at ==> !occurs_at(s, pat, j)
}

/// `s` begins with `prefix`.
pub open spec fn has_prefix(s: Seq<char>, prefix: Seq<char>) -> bool {
    occurs_at(s, prefix, 0)
}

/// `s` ends with `suffix`.
pub open spec fn has_suffix(s: Seq<char>, suffix: Seq<char>) -> bool {
    occurs_at(s, suffix, s.len() - suffix.len())
}

/// The lower-case form of an ASCII letter; any other character is itself.
pub fn to_ascii_lower(c: char) -> (r: char)
    ensures
        r == ascii_lower(c),
{
    if 'A' <= c && c <= 'Z' {
        ((c as u8) + 32) as char
    } else {
        c
    }
}

/// The characters of `s`, in order.
pub fn chars_of(s: &str) -> (v: Vec<char>)
    ensures
        v@ == s@,
{
    let mut v: Vec<char> = Vec::new();
    for c in it: s.chars()
        invariant
            v@ == it.seq().take(it.index() as int),
            it.seq() == s@,
    {
        v.push(c);
    }
    v
}

/// Compares two texts, ignoring the case of ASCII letters.
pub fn eq_ignore_ascii_case(a: &str, b: &str) -> (same: bool)
    ensures
        same == eq_ignore_case(a@, b@),
{
    let x = chars_of(a);
    let y = chars_of(b);
    if x.len() != y.len() {
        return false;
    }
    let mut i: usize = 0;
    while i < x.len()
        invariant
            i <= x.len(),
            x.len() == y.len(),
            x@ == a@,
            y@ == b@,
            forall|k: int| 0 <= k < i ==> ascii_lower(#[trigger] x@[k]) == ascii_lower(y@[k]),
        decreases x.len() - i,
    {
        if to_ascii_lower(x[i]) != to_ascii_lower(y[i]) {
            return false;
        }
        i += 1;
    }
    true
}

/// Whether `pat` occurs in `s` at index `at`.
pub fn matches_at(s: &Vec<char>, pat: &Vec<char>, at: usize) -> (hit: bool)
    ensures
        hit == occurs_at(s@, pat@, at as int),
{
    if at > s.len() || pat.len() > s.len() - at {
        return false;
    }
    let mut k: usize = 0;
    while k < pat.len()
        invariant
            k <= pat.len(),
            at + pat.len() <= s.len(),
            forall|j: int| 0 <= j < k ==> s@[at + j] == pat@[j],
        decreases pat.len() - k,
    {
        if s[at + k] != pat[k] {
            return false;
        }
        k += 1;
    }
    assert(s@.subrange(at as int, at + pat.len()) =~= pat@);
    true
}

/// The leftmost position of `pat` in `s`, if it occurs at all.
pub fn find(s: &Vec<char>, pat: &Vec<char>) -> (pos: Option<usize>)
    ensures
        match pos {
            Some(at) => first_occurrence(s@, pat@, at as int),
            None => forall|j: int| !occurs_at(s@, pat@, j),
        },
{
    if pat.len() > s.len() {
        return None;
    }
    let last: usize = s.len() - pat.len();
    let mut at: usize = 0;
    loop
        invariant
            at <= last,
            last == s.len() - pat.len(),
            forall|j: int| 0 <= j < at ==> !occurs_at(s@, pat@, j),
        decreases last - at,
    {
        if matches_at(s, pat, at) {
            return Some(at);
        }
        if at == last {
            return None;
        }
        at += 1;
    }
}

/// The text that `bytes` encode in UTF-8; the empty text where they encode
/// none.
pub open spec fn text_of(bytes: Seq<u8>) -> Seq<char> {
    if valid_utf8(bytes) {
        decode_utf8(bytes)
    } else {
        Seq::<char>::empty()
    }
}

/// `std::str::from_utf8`: the text that `bytes` encode, where they are
/// well-formed UTF-8, and `None` where they are not.
#[verifier::external_body]
fn decode_text(bytes: &[u8]) -> (text: Option<&str>)
    ensures
        text is Some <==> valid_utf8(bytes@),
        text matches Some(s) ==> s@ == decode_utf8(bytes@),
{
    std::str::from_utf8(bytes).ok()
}

/// Reads `bytes` as UTF-8 text; bytes that are no such text read as the
/// empty text.
pub fn text_or_empty(bytes: &[u8]) -> (text: String)
    ensures
        text@ == text_of(bytes@),
{
    match decode_text(bytes) {
        Some(s) => String::from_str(s),
        None => String::new(),
    }
}

/// `String::push`: appends one character to the end of `s`.
#[verifier::external_body]
pub(crate) fn push_char(s: &mut String, c: char)
    ensures
        final(s)@ == old(s)@.push(c),
{
    s.push(c)
}

/// The digit that stands for `n` in base sixteen, in lower case.
pub open spec fn hex_digit(n: nat) -> char
    recommends
        n < 16,
{
    if n < 10 {
        ((48 + n) as u8) as char
    } else {
        ((87 + n) as u8) as char
    }
}

/// `bytes` written in base sixteen, two lower-case digits per byte.
pub open spec fn hex_lower(bytes: Seq<u8>) -> Seq<char>
    decreases bytes.len(),
{
    if bytes.len() == 0 {
        Seq::<char>::empty()
    } else {
        hex_lower(bytes.drop_last()).push(hex_digit(bytes.last() as nat / 16)).push(
            hex_digit(bytes.last() as nat % 16),
        )
    }
}

/// The digit that stands for `n` in base sixteen.
pub fn to_hex_digit(n: u8) -> (c: char)
    requires
        n < 16,
    ensures
        c == hex_digit(n as nat),
{
    if n < 10 {
        (48 + n) as char
    } else {
        (87 + n) as char
    }
}

/// Writes `bytes` in base sixteen, in lower case.
pub fn to_hex_lower(bytes: &[u8]) -> (hex: String)
    ensures
        hex@ == hex_lower(bytes@),
{
    let mut hex = String::new();
    let mut i: usize = 0;
    while i < bytes.len()
        invariant
            i <= bytes.len(),
            hex@ == hex_lower(bytes@.take(i as int)),
        decreases bytes.len() - i,
    {
        proof {
            assert(bytes@.take(i + 1).drop_last() =~= bytes@.take(i as int));
        }
        let b = bytes[i];
        push_char(&mut hex, to_hex_digit(b / 16));
        push_char(&mut hex, to_hex_digit(b % 16));
        i += 1;
    }
    assert(bytes@.take(bytes.len() as int) =~= bytes@);
    hex
}

/// The two parts of `s` around the leftmost occurrence of `sep`, or `None`
/// where `sep` does not occur in `s`.
pub open spec fn split_once(s: Seq<char>, sep: Seq<char>) -> Option<(Seq<char>, Seq<char>)> {
    if exists|at: int| first_occurrence(s, sep, at) {
        let at = choose|at: int| first_occurrence(s, sep, at);
        Some((s.take(at), s.skip(at + sep.len())))
    } else {
        None
    }
}

/// The rest of `s` after `prefix`, or `None` where `s` does not begin
/// with `prefix`.
pub open spec fn strip_prefix(s: Seq<char>, prefix: Seq<char>) -> Option<Seq<char>> {
    if has_prefix(s, prefix) {
        Some(s.skip(prefix.len() as int))
    } else {
        None
    }
}

/// There is at most one leftmost occurrence.
pub proof fn lemma_first_occurrence_unique(s: Seq<char>, pat: Seq<char>, a: int, b: int)
    requires
        first_occurrence(s, pat, a),
        first_occurrence(s, pat, b),
    ensures
        a == b,
{
}

/// Cuts `s` at the leftmost occurrence of `sep`.
pub fn split_text(s: &str, sep: &str) -> (parts: Option<(String, String)>)
    ensures
        match parts {
            Some((head, tail)) => split_once(s@, sep@) == Some((head@, tail@)),
            None => split_once(s@, sep@) is None,
        },
{
    let hay = chars_of(s);
    let pat = chars_of(sep);
    let len = hay.len();
    match find(&hay, &pat) {
        Some(at) => {
            proof {
                let first = choose|k: int| first_occurrence(s@, sep@, k);
                lemma_first_occurrence_unique(s@, sep@, first, at as int);
            }
            let head = String::from_str(s.substring_char(0, at));
            let tail = String::from_str(s.substring_char(at + pat.len(), len));
            Some((head, tail))
        },
        None => None,
    }
}

/// Removes `prefix` from the front of `s`.
pub fn strip_text_prefix(s: &str, prefix: &str) -> (rest: Option<String>)
    ensures
        match rest {
            Some(r) => strip_prefix(s@, prefix@) == Some(r@),
            None => strip_prefix(s@, prefix@) is None,
        },
{
    let hay = chars_of(s);
    let pat = chars_of(prefix);
    if matches_at(&hay, &pat, 0) {
        Some(String::from_str(s.substring_char(pat.len(), hay.len())))
    } else {
        None
    }
}

/// The pieces of `s` between occurrences of `sep`: one more than there are
/// separators, empty pieces included.
pub open spec fn split_on(s: Seq<char>, sep: char) -> Seq<Seq<char>>
    decreases s.len(),
{
    if s.len() == 0 {
        seq![Seq::<char>::empty()]
    } else {
        let before = split_on(s.drop_last(), sep);
        if s.last() == sep {
            before.push(Seq::<char>::empty())
        } else {
            before.drop_last().push(before.last().push(s.last()))
        }
    }
}

/// The pieces of `s` between occurrences of `sep` that are not empty.
pub open spec fn fields_of(s: Seq<char>, sep: char) -> Seq<Seq<char>> {
    split_on(s, sep).filter(|piece: Seq<char>| piece.len() > 0)
}

/// What follows the last `sep` in `s`; all of `s` where it has no `sep`.
pub open spec fn last_segment(s: Seq<char>, sep: char) -> Seq<char> {
    split_on(s, sep).last()
}

/// A split has at least one piece, and the last piece is the longest tail
/// of `s` that is free of `sep`.
pub proof fn lemma_split_last(s: Seq<char>, sep: char)
    ensures
        split_on(s, sep).len() >= 1,
        split_on(s, sep).last().len() <= s.len(),
        split_on(s, sep).last() == s.skip(s.len() - split_on(s, sep).last().len()),
        !split_on(s, sep).last().contains(sep),
        split_on(s, sep).last().len() < s.len() ==> s[s.len() - split_on(s, sep).last().len() - 1]
            == sep,
    decreases s.len(),
{
    if s.len() > 0 {
        lemma_split_last(s.drop_last(), sep);
    }
}

/// Cuts `s` at every `sep`.
pub fn split_text_on(s: &str, sep: char) -> (pieces: Vec<String>)
    ensures
        pieces.deep_view() == split_on(s@, sep),
{
    let chars = chars_of(s);
    let n = chars.len();
    let mut pieces: Vec<String> = Vec::new();
    let mut start: usize = 0;
    let mut i: usize = 0;
    while i < n
        invariant
            start <= i <= n,
            n == chars.len(),
            chars@ == s@,
            split_on(chars@.take(i as int), sep) =~~= pieces.deep_view().push(
                chars@.subrange(start as int, i as int),
            ),
        decreases n - i,
    {
        assert(chars@.take(i + 1).drop_last() =~~= chars@.take(i as int));
        if chars[i] == sep {
            pieces.push(String::from_str(s.substring_char(start, i)));
            start = i + 1;
        } else {
            assert(chars@.subrange(start as int, i + 1) =~~= chars@.subrange(
                start as int,
                i as int,
            ).push(chars@[i as int]));
        }
        i += 1;
    }
    pieces.push(String::from_str(s.substring_char(start, n)));
    assert(chars@.take(n as int) =~~= chars@);
    pieces
}

/// The pieces of `s` between occurrences of `sep` that are not empty.
pub fn fields(s: &str, sep: char) -> (kept: Vec<String>)
    ensures
        kept.deep_view() == fields_of(s@, sep),
{
    let pieces = split_text_on(s, sep);
    let ghost all = pieces.deep_view();
    let ghost filled = |piece: Seq<char>| piece.len() > 0;
    let mut kept: Vec<String> = Vec::new();
    let mut i: usize = 0;
    proof {
        reveal(Seq::filter);
    }
    while i < pieces.len()
        invariant
            i <= pieces.len(),
            all == pieces.deep_view(),
            all == split_on(s@, sep),
            filled == |piece: Seq<char>| piece.len() > 0,
            kept.deep_view() =~~= all.take(i as int).filter(filled),
        decreases pieces.len() - i,
    {
        proof {
            reveal(Seq::filter);
            assert(all.take(i + 1).drop_last() =~~= all.take(i as int));
        }
        if !pieces[i].as_str().is_empty() {
            kept.push(pieces[i].clone());
        }
        i += 1;
    }
    assert(all.take(pieces.len() as int) =~~= all);
    kept
}

/// What follows the last `sep` in `s`; all of `s` where it has no `sep`.
pub fn last_segment_of(s: &str, sep: char) -> (tail: String)
    ensures
        tail@ == last_segment(s@, sep),
{
    let chars = chars_of(s);
    let n = chars.len();
    let mut start: usize = n;
    proof {
        lemma_split_last(s@, sep);
    }
    while start > 0 && chars[start - 1] != sep
        invariant
            start <= n,
            n == chars.len(),
            chars@ == s@,
            forall|k: int| start <= k < n ==> chars@[k] != sep,
        decreases start,
    {
        start -= 1;
    }
    proof {
        let tail = last_segment(s@, sep);
        let at = n - tail.len();
        if at < start {
            // the char before `start` is a separator, yet lies in the tail
            assert(tail[start - 1 - at] == sep);
        }
    }
    String::from_str(s.substring_char(start, n))
}

/// Whether `c` is one of the digits `0` to `9`.
pub open spec fn is_digit(c: char) -> bool {
    '0' <= c && c <= '9'
}

/// The number that a digit stands for.
pub open spec fn digit_value(c: char) -> nat
    recommends
        is_digit(c),
{
    (c as u8 - 48) as nat
}

/// The number that a sequence of digits denotes in base ten.
pub open spec fn decimal_value(digits: Seq<char>) -> nat
    decreases digits.len(),
{
    if digits.len() == 0 {
        0
    } else {
        decimal_value(digits.drop_last()) * 10 + digit_value(digits.last())
    }
}

/// Whether `s` holds digits only.
pub open spec fn all_digits(s: Seq<char>) -> bool {
    forall|i: int| 0 <= i < s.len() ==> is_digit(#[trigger] s[i])
}

/// The unsigned 64-bit number that `s` denotes in base ten: one or more
/// digits, with or without a `+` in front, whose value fits. Any other text
/// denotes no number.
pub open spec fn parsed_u64(s: Seq<char>) -> Option<u64> {
    let digits = if s.len() > 0 && s[0] == '+' {
        s.skip(1)
    } else {
        s
    };
    if digits.len() > 0 && all_digits(digits) && decimal_value(digits) <= u64::MAX {
        Some(decimal_value(digits) as u64)
    } else {
        None
    }
}

/// Further digits never make a number smaller.
pub proof fn lemma_decimal_value_grows(digits: Seq<char>, k: int)
    requires
        0 <= k <= digits.len(),
    ensures
        decimal_value(digits.take(k)) <= decimal_value(digits),
    decreases digits.len() - k,
{
    if k < digits.len() {
        lemma_decimal_value_grows(digits, k + 1);
        assert(digits.take(k + 1).drop_last() =~= digits.take(k));
    } else {
        assert(digits.take(k) =~= digits);
    }
}

/// Reads an unsigned 64-bit number written in base ten.
pub fn parse_u64(s: &str) -> (number: Option<u64>)
    ensures
        number == parsed_u64(s@),
{
    let chars = chars_of(s);
    let n = chars.len();
    let first: usize = if n > 0 && chars[0] == '+' {
        1
    } else {
        0
    };
    if first == n {
        return None;
    }
    let ghost digits = chars@.skip(first as int);
    let mut value: u64 = 0;
    let mut i: usize = first;
    while i < n
        invariant
            first <= i <= n,
            n == chars.len(),
            chars@ == s@,
            first < n,
            digits == chars@.skip(first as int),
            digits == if s@.len() > 0 && s@[0] == '+' {
                s@.skip(1)
            } else {
                s@
            },
            all_digits(digits.take(i - first)),
            value == decimal_value(digits.take(i - first)),
        decreases n - i,
    {
        let c = chars[i];
        let ghost head = digits.take(i - first);
        let ghost next = digits.take(i - first + 1);
        assert(next.drop_last() =~= head);
        if !('0' <= c && c <= '9') {
            assert(!is_digit(digits[i - first]));
            return None;
        }
        let d: u64 = ((c as u8) - 48) as u64;
        if value > (u64::MAX - d) / 10 {
            proof {
                lemma_decimal_value_grows(digits, i - first + 1);
            }
            return None;
        }
        value = value * 10 + d;
        i += 1;
    }
    assert(digits.take(n - first) =~= digits);
    Some(value)
}

/// `s` with `to` before each of its characters and after the last.
pub open spec fn threaded(s: Seq<char>, to: Seq<char>) -> Seq<char>
    decreases s.len(),
{
    if s.len() == 0 {
        to
    } else {
        to + seq![s[0]] + threaded(s.skip(1), to)
    }
}

/// `s` with every occurrence of `from` replaced by `to`. Occurrences are
/// taken from the left and do not overlap. An empty `from` occurs before
/// each character and at the end.
pub open spec fn replaced(s: Seq<char>, from: Seq<char>, to: Seq<char>) -> Seq<char>
    decreases s.len(),
{
    if from.len() == 0 {
        threaded(s, to)
    } else if s.len() == 0 {
        s
    } else if has_prefix(s, from) {
        to + replaced(s.skip(from.len() as int), from, to)
    } else {
        seq![s[0]] + replaced(s.skip(1), from, to)
    }
}

/// Replaces every occurrence of `from` in `s` by `to`.
pub fn replace_all(s: &str, from: &str, to: &str) -> (out: String)
    ensures
        out@ == replaced(s@, from@, to@),
{
    let chars = chars_of(s);
    let pat = chars_of(from);
    let n = chars.len();
    let m = pat.len();
    let mut out = String::new();
    let mut i: usize = 0;
    assert(chars@.skip(0) =~= chars@);
    if m == 0 {
        while i < n
            invariant
                i <= n,
                n == chars.len(),
                chars@ == s@,
                out@ + threaded(chars@.skip(i as int), to@) == threaded(s@, to@),
            decreases n - i,
        {
            let ghost rest = chars@.skip(i as int);
            let ghost before = out@;
            proof {
                assert(rest.skip(1) =~= chars@.skip(i + 1));
                assert(before + (to@ + seq![rest[0]] + threaded(rest.skip(1), to@)) =~= (before
                    + to@).push(chars@[i as int]) + threaded(rest.skip(1), to@));
            }
            out.append(to);
            push_char(&mut out, chars[i]);
            i += 1;
        }
        out.append(to);
        return out;
    }
    while i < n
        invariant
            i <= n,
            n == chars.len(),
            m == pat.len(),
            m > 0,
            chars@ == s@,
            pat@ == from@,
            out@ + replaced(chars@.skip(i as int), from@, to@) == replaced(s@, from@, to@),
        decreases n - i,
    {
        let ghost rest = chars@.skip(i as int);
        let ghost before = out@;
        if matches_at(&chars, &pat, i) {
            proof {
                assert(rest.subrange(0, m as int) =~= chars@.subrange(i as int, i + m));
                assert(rest.skip(m as int) =~= chars@.skip(i + m));
                assert(before + (to@ + replaced(rest.skip(m as int), from@, to@)) =~= (before
                    + to@) + replaced(rest.skip(m as int), from@, to@));
            }
            out.append(to);
            i += m;
        } else {
            proof {
                assert(!has_prefix(rest, from@)) by {
                    if has_prefix(rest, from@) {
                        assert(rest.subrange(0, m as int) =~= chars@.subrange(i as int, i + m));
                    }
                }
                assert(rest.skip(1) =~= chars@.skip(i + 1));
                assert(before + (seq![rest[0]] + replaced(rest.skip(1), from@, to@)) =~= before.push(
                    chars@[i as int],
                ) + replaced(rest.skip(1), from@, to@));
            }
            push_char(&mut out, chars[i]);
            i += 1;
        }
    }
    out
}

/// The digit that stands for `n` in base ten.
pub open spec fn decimal_digit(n: nat) -> char
    recommends
        n < 10,
{
    ((48 + n) as u8) as char
}

/// `n` written in base ten, without leading zeros.
pub open spec fn decimal(n: nat) -> Seq<char>
    decreases n,
{
    if n < 10 {
        seq![decimal_digit(n)]
    } else {
        decimal(n / 10).push(decimal_digit(n % 10))
    }
}

/// Writes `n` in base ten.
pub fn to_decimal(n: u64) -> (text: String)
    ensures
        text@ == decimal(n as nat),
{
    // Peel off the digits from the right, then write them from the left.
    let mut digits: Vec<char> = Vec::new();
    let mut rest: u64 = n;
    while rest >= 10
        invariant
            decimal(n as nat) == decimal(rest as nat) + digits@.reverse(),
        decreases rest,
    {
        let d = (48 + (rest % 10) as u8) as char;
        assert(decimal((rest / 10) as nat).push(d) + digits@.reverse() =~= decimal(
            (rest / 10) as nat,
        ) + digits@.push(d).reverse());
        digits.push(d);
        rest = rest / 10;
    }
    let mut text = String::new();
    push_char(&mut text, (48 + rest as u8) as char);
    let mut i: usize = digits.len();
    while i > 0
        invariant
            i <= digits.len(),
            text@ == decimal(rest as nat) + digits@.reverse().take(digits.len() - i),
        decreases i,
    {
        i -= 1;
        push_char(&mut text, digits[i]);
    }
    text
}

} // verus!
