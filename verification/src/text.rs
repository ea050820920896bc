use vstd::prelude::*;

verus! {

/// `String::push` of std: the character is appended to the string.
pub assume_specification[ String::push ](s: &mut String, c: char)
    ensures
        final(s)@ == old(s)@.push(c),
;

/// An optional string as an optional sequence of characters.
pub open spec fn opt_view(text: Option<String>) -> Option<Seq<char>> {
    match text {
        Some(t) => Some(t@),
        None => None,
    }
}

/// The characters of a string slice, in order.
pub fn chars_of(s: &str) -> (out: Vec<char>)
    ensures
        out@ == s@,
{
    let mut out: Vec<char> = Vec::new();
    for c in it: s.chars()
        invariant
            out@ == it.seq().take(it.index()),
            it.seq() == s@,
    {
        out.push(c);
    }
    out
}

/// The string made of the given characters, in order.
pub fn string_of(chars: &[char]) -> (out: String)
    ensures
        out@ == chars@,
{
    let mut out = String::new();
    let mut i: usize = 0;
    while i < chars.len()
        invariant
            i <= chars.len(),
            out@ == chars@.take(i as int),
        decreases chars.len() - i,
    {
        out.push(chars[i]);
        i += 1;
    }
    out
}


/// The character of a decimal digit `d < 10`.
pub open spec fn digit_char(d: nat) -> char {
    (48 + d) as u8 as char
}

/// The decimal numeral of `n`, without leading zeros.
pub open spec fn decimal(n: nat) -> Seq<char>
    decreases n,
{
    if n < 10 {
        seq![digit_char(n)]
    } else {
        decimal(n / 10).push(digit_char(n % 10))
    }
}

/// The decimal numeral of a signed number: a minus sign before the digits of a negative one.
pub open spec fn signed_decimal(i: int) -> Seq<char> {
    if i < 0 {
        seq!['-'] + decimal((-i) as nat)
    } else {
        decimal(i as nat)
    }
}

/// Appends the decimal numeral of `n`.
pub fn push_decimal(out: &mut String, n: u64)
    ensures
        final(out)@ == old(out)@ + decimal(n as nat),
    decreases n,
{
    if n >= 10 {
        push_decimal(out, n / 10);
    }
    let d: u8 = (n % 10) as u8;
    out.push((48u8 + d) as char);
    proof {
        let before = old(out)@;
        if n >= 10 {
            assert((before + decimal((n / 10) as nat)).push(digit_char((n % 10) as nat))
                =~= before + decimal(n as nat));
        } else {
            assert(before.push(digit_char(n as nat)) =~= before + decimal(n as nat));
        }
    }
}

/// The decimal numeral of `n` as a string.
pub fn decimal_string(n: u64) -> (out: String)
    ensures
        out@ == decimal(n as nat),
{
    let mut out = String::new();
    push_decimal(&mut out, n);
    assert(Seq::<char>::empty() + decimal(n as nat) =~= decimal(n as nat));
    out
}

/// Appends the decimal numeral of a signed number.
pub fn push_signed_decimal(out: &mut String, i: i64)
    ensures
        final(out)@ == old(out)@ + signed_decimal(i as int),
{
    if i < 0 {
        out.push('-');
        let wide: i128 = -(i as i128);
        let magnitude: u64 = wide as u64;
        push_decimal(out, magnitude);
        assert(old(out)@.push('-') + decimal(magnitude as nat) =~= old(out)@ + signed_decimal(
            i as int,
        ));
    } else {
        push_decimal(out, i as u64);
    }
}

/// The decimal numeral of a signed number as a string.
pub fn signed_decimal_string(i: i64) -> (out: String)
    ensures
        out@ == signed_decimal(i as int),
{
    let mut out = String::new();
    push_signed_decimal(&mut out, i);
    assert(Seq::<char>::empty() + signed_decimal(i as int) =~= signed_decimal(i as int));
    out
}

/// `needle` stands in `hay` at position `at`.
pub open spec fn occurs_at(hay: Seq<char>, needle: Seq<char>, at: int) -> bool {
    &&& 0 <= at
    &&& at + needle.len() <= hay.len()
    &&& hay.subrange(at, at + needle.len()) == needle
}

/// `needle` stands somewhere in `hay`.
pub open spec fn contains(hay: Seq<char>, needle: Seq<char>) -> bool {
    exists|at: int| occurs_at(hay, needle, at)
}

/// `hay` begins with `needle`.
pub open spec fn starts_with(hay: Seq<char>, needle: Seq<char>) -> bool {
    occurs_at(hay, needle, 0)
}

/// `hay` ends with `needle`.
pub open spec fn ends_with(hay: Seq<char>, needle: Seq<char>) -> bool {
    occurs_at(hay, needle, hay.len() - needle.len())
}

/// Whether `needle` stands in `hay` at position `at`.
pub fn matches_at(hay: &[char], needle: &[char], at: usize) -> (found: bool)
    ensures
        found == occurs_at(hay@, needle@, at as int),
{
    if at > hay.len() || needle.len() > hay.len() - at {
        return false;
    }
    let mut k: usize = 0;
    while k < needle.len()
        invariant
            k <= needle.len(),
            at + needle.len() <= hay.len(),
            forall|j: int| 0 <= j < k ==> hay@[at + j] == needle@[j],
        decreases needle.len() - k,
    {
        if hay[at + k] != needle[k] {
            proof {
                let window = hay@.subrange(at as int, at + needle.len());
                assert(window[k as int] == hay@[at + k]);
            }
            return false;
        }
        k += 1;
    }
    assert(hay@.subrange(at as int, at + needle.len()) =~= needle@);
    true
}

/// The first position at which `needle` stands in `hay`, if there is one.
pub fn find_in(hay: &[char], needle: &[char]) -> (pos: Option<usize>)
    ensures
        pos is Some <==> contains(hay@, needle@),
        pos matches Some(p) ==> occurs_at(hay@, needle@, p as int) && forall|q: int|
            0 <= q < p ==> !occurs_at(hay@, needle@, q),
{
    if needle.len() > hay.len() {
        return None;
    }
    let last: usize = hay.len() - needle.len();
    let mut at: usize = 0;
    loop
        invariant
            at <= last,
            last == hay.len() - needle.len(),
            forall|q: int| 0 <= q < at ==> !occurs_at(hay@, needle@, q),
        decreases last - at,
    {
        if matches_at(hay, needle, at) {
            return Some(at);
        }
        if at == last {
            return None;
        }
        at += 1;
    }
}

/// Whether `needle` stands somewhere in `hay`.
pub fn str_contains(hay: &str, needle: &str) -> (found: bool)
    ensures
        found == contains(hay@, needle@),
{
    let h = chars_of(hay);
    let n = chars_of(needle);
    find_in(h.as_slice(), n.as_slice()).is_some()
}

/// Whether `hay` begins with `needle`.
pub fn str_starts_with(hay: &str, needle: &str) -> (found: bool)
    ensures
        found == starts_with(hay@, needle@),
{
    let h = chars_of(hay);
    let n = chars_of(needle);
    matches_at(h.as_slice(), n.as_slice(), 0)
}

/// Whether `hay` ends with `needle`.
pub fn str_ends_with(hay: &str, needle: &str) -> (found: bool)
    ensures
        found == ends_with(hay@, needle@),
{
    let h = chars_of(hay);
    let n = chars_of(needle);
    if n.len() > h.len() {
        return false;
    }
    matches_at(h.as_slice(), n.as_slice(), h.len() - n.len())
}

/// Whether two string slices hold the same characters.
pub fn str_eq(a: &str, b: &str) -> (same: bool)
    ensures
        same == (a@ == b@),
{
    let x = chars_of(a);
    let y = chars_of(b);
    if x.len() != y.len() {
        return false;
    }
    let found = matches_at(x.as_slice(), y.as_slice(), 0);
    assert(x@.subrange(0, x@.len() as int) =~= x@);
    found
}


/// The character sequences of a list of strings.
pub open spec fn views(parts: Seq<String>) -> Seq<Seq<char>> {
    Seq::new(parts.len(), |i: int| parts[i]@)
}

/// The parts written one after another with `sep` between neighbours.
pub open spec fn joined(parts: Seq<Seq<char>>, sep: Seq<char>) -> Seq<char>
    decreases parts.len(),
{
    if parts.len() == 0 {
        Seq::empty()
    } else if parts.len() == 1 {
        parts[0]
    } else {
        joined(parts.drop_last(), sep) + sep + parts.last()
    }
}

/// Joins the parts with `sep` between neighbours.
pub fn join(parts: &Vec<String>, sep: &str) -> (out: String)
    ensures
        out@ == joined(views(parts@), sep@),
{
    let mut out = String::new();
    let mut i: usize = 0;
    while i < parts.len()
        invariant
            i <= parts.len(),
            out@ == joined(views(parts@).take(i as int), sep@),
        decreases parts.len() - i,
    {
        proof {
            let all = views(parts@);
            let next = all.take(i + 1);
            assert(next.drop_last() =~= all.take(i as int));
            assert(next.last() == parts@[i as int]@);
            if i == 0 {
                assert(Seq::<char>::empty() + parts@[0]@ =~= parts@[0]@);
            }
        }
        if i > 0 {
            out.append(sep);
        }
        out.append(parts[i].as_str());
        i += 1;
    }
    assert(views(parts@).take(parts.len() as int) =~= views(parts@));
    out
}


/// `text` without the run of `c` at its end.
pub open spec fn trimmed_end(text: Seq<char>, c: char) -> Seq<char>
    decreases text.len(),
{
    if text.len() > 0 && text.last() == c {
        trimmed_end(text.drop_last(), c)
    } else {
        text
    }
}

/// `text` without the repetitions of `suffix` at its end.
pub open spec fn without_suffix_run(text: Seq<char>, suffix: Seq<char>) -> Seq<char>
    decreases text.len(),
{
    if suffix.len() > 0 && ends_with(text, suffix) {
        without_suffix_run(text.take(text.len() - suffix.len()), suffix)
    } else {
        text
    }
}

/// `text` with every occurrence of `from` replaced by `to`, found from the
/// left and never overlapping. `from` is not empty.
pub open spec fn replaced(text: Seq<char>, from: Seq<char>, to: Seq<char>) -> Seq<char>
    decreases text.len(),
{
    if from.len() == 0 || text.len() < from.len() {
        text
    } else if occurs_at(text, from, 0) {
        to + replaced(text.skip(from.len() as int), from, to)
    } else {
        seq![text[0]] + replaced(text.skip(1), from, to)
    }
}

/// The length of `text` without the run of `c` at its end.
pub fn trimmed_end_len(text: &[char], c: char) -> (len: usize)
    ensures
        len <= text.len(),
        text@.take(len as int) == trimmed_end(text@, c),
{
    let mut len: usize = text.len();
    assert(text@.take(len as int) =~= text@);
    while len > 0 && text[len - 1] == c
        invariant
            len <= text.len(),
            trimmed_end(text@.take(len as int), c) == trimmed_end(text@, c),
        decreases len,
    {
        assert(text@.take(len as int).drop_last() =~= text@.take(len - 1));
        len -= 1;
    }
    len
}

/// The length of `text` without the repetitions of `suffix` at its end.
pub fn without_suffix_run_len(text: &[char], suffix: &[char]) -> (len: usize)
    ensures
        len <= text.len(),
        text@.take(len as int) == without_suffix_run(text@, suffix@),
{
    let mut len: usize = text.len();
    assert(text@.take(len as int) =~= text@);
    if suffix.len() == 0 {
        return len;
    }
    while len >= suffix.len() && matches_at(text, suffix, len - suffix.len())
        invariant
            len <= text.len(),
            suffix.len() > 0,
            without_suffix_run(text@.take(len as int), suffix@) == without_suffix_run(
                text@,
                suffix@,
            ),
        decreases len,
    {
        proof {
            let head = text@.take(len as int);
            assert(head.subrange(len - suffix.len(), len as int) =~= text@.subrange(
                len - suffix.len(),
                len as int,
            ));
            assert(ends_with(head, suffix@));
            assert(head.take(len - suffix.len()) =~= text@.take(len - suffix.len()));
        }
        len -= suffix.len();
    }
    proof {
        let head = text@.take(len as int);
        if len >= suffix.len() {
            assert(head.subrange(len - suffix.len(), len as int) =~= text@.subrange(
                len - suffix.len(),
                len as int,
            ));
        }
        assert(!ends_with(head, suffix@));
    }
    len
}

/// Appends `text` with every occurrence of `from` replaced by `to`.
pub fn push_replaced(out: &mut Vec<char>, text: &[char], from: &[char], to: &[char])
    requires
        from@.len() > 0,
    ensures
        final(out)@ == old(out)@ + replaced(text@, from@, to@),
{
    let mut i: usize = 0;
    assert(text@.skip(0) =~= text@);
    assert(out@ =~= old(out)@ + Seq::<char>::empty());
    while i < text.len() && text.len() - i >= from.len()
        invariant
            i <= text.len(),
            from@.len() > 0,
            out@ + replaced(text@.skip(i as int), from@, to@) == old(out)@ + replaced(
                text@,
                from@,
                to@,
            ),
        decreases text.len() - i,
    {
        let ghost rest = text@.skip(i as int);
        let ghost before = out@;
        if matches_at(text, from, i) {
            proof {
                assert(rest.subrange(0, from@.len() as int) =~= text@.subrange(
                    i as int,
                    i + from@.len(),
                ));
                assert(rest.skip(from@.len() as int) =~= text@.skip(i + from@.len()));
            }
            let mut k: usize = 0;
            while k < to.len()
                invariant
                    k <= to.len(),
                    out@ == before + to@.take(k as int),
                decreases to.len() - k,
            {
                out.push(to[k]);
                assert(before + to@.take(k as int + 1) =~= (before + to@.take(k as int)).push(
                    to@[k as int],
                ));
                k += 1;
            }
            assert(to@.take(to@.len() as int) =~= to@);
            i += from.len();
            assert(out@ + replaced(text@.skip(i as int), from@, to@) =~= before + replaced(
                rest,
                from@,
                to@,
            ));
        } else {
            proof {
                assert(rest.subrange(0, from@.len() as int) =~= text@.subrange(
                    i as int,
                    i + from@.len(),
                ));
                assert(rest.skip(1) =~= text@.skip(i + 1));
                assert(rest[0] == text@[i as int]);
            }
            out.push(text[i]);
            i += 1;
            assert(out@ + replaced(text@.skip(i as int), from@, to@) =~= before + replaced(
                rest,
                from@,
                to@,
            ));
        }
    }
    let ghost tail = text@.skip(i as int);
    let ghost mid = out@;
    assert(replaced(tail, from@, to@) == tail);
    while i < text.len()
        invariant
            i <= text.len(),
            out@ + text@.skip(i as int) == mid + tail,
        decreases text.len() - i,
    {
        let ghost before = out@;
        out.push(text[i]);
        assert(before + text@.skip(i as int) =~= before.push(text@[i as int]) + text@.skip(
            i + 1,
        ));
        i += 1;
    }
    assert(out@ + text@.skip(i as int) =~= out@);
}


/// A white-space character, as std's `char::is_whitespace` tells it.
pub open spec fn is_space(c: char) -> bool {
    c == ' ' || ('\u{9}' <= c && c <= '\u{d}') || c == '\u{85}' || c == '\u{a0}' || c
        == '\u{1680}' || ('\u{2000}' <= c && c <= '\u{200a}') || c == '\u{2028}' || c
        == '\u{2029}' || c == '\u{202f}' || c == '\u{205f}' || c == '\u{3000}'
}

/// Whether a character is white space.
pub fn space_char(c: char) -> (yes: bool)
    ensures
        yes == is_space(c),
{
    c == ' ' || ('\u{9}' <= c && c <= '\u{d}') || c == '\u{85}' || c == '\u{a0}' || c
        == '\u{1680}' || ('\u{2000}' <= c && c <= '\u{200a}') || c == '\u{2028}' || c
        == '\u{2029}' || c == '\u{202f}' || c == '\u{205f}' || c == '\u{3000}'
}

/// `text` without the white space at its start.
pub open spec fn trimmed_start(text: Seq<char>) -> Seq<char>
    decreases text.len(),
{
    if text.len() > 0 && is_space(text[0]) {
        trimmed_start(text.skip(1))
    } else {
        text
    }
}

/// `text` without the white space at its end.
pub open spec fn trimmed_tail(text: Seq<char>) -> Seq<char>
    decreases text.len(),
{
    if text.len() > 0 && is_space(text.last()) {
        trimmed_tail(text.drop_last())
    } else {
        text
    }
}

/// `text` without the white space at its start and at its end.
pub open spec fn trimmed(text: Seq<char>) -> Seq<char> {
    trimmed_tail(trimmed_start(text))
}

/// Where `text[from..to]` without the white space around it begins and ends.
pub fn trim_bounds(text: &[char], from: usize, to: usize) -> (bounds: (usize, usize))
    requires
        from <= to <= text.len(),
    ensures
        from <= bounds.0 <= bounds.1 <= to,
        text@.subrange(bounds.0 as int, bounds.1 as int) == trimmed(
            text@.subrange(from as int, to as int),
        ),
{
    let ghost part = text@.subrange(from as int, to as int);
    let mut start: usize = from;
    while start < to && space_char(text[start])
        invariant
            from <= start <= to <= text.len(),
            trimmed_start(text@.subrange(start as int, to as int)) == trimmed_start(part),
        decreases to - start,
    {
        assert(text@.subrange(start as int, to as int).skip(1) =~= text@.subrange(
            start + 1,
            to as int,
        ));
        start += 1;
    }
    let ghost inner = text@.subrange(start as int, to as int);
    assert(trimmed_start(part) == inner);
    let mut end: usize = to;
    while end > start && space_char(text[end - 1])
        invariant
            start <= end <= to <= text.len(),
            trimmed_tail(text@.subrange(start as int, end as int)) == trimmed_tail(inner),
        decreases end - start,
    {
        assert(text@.subrange(start as int, end as int).drop_last() =~= text@.subrange(
            start as int,
            end - 1,
        ));
        end -= 1;
    }
    (start, end)
}

/// `text` without the white space around it.
pub fn trim(text: &[char]) -> (out: Vec<char>)
    ensures
        out@ == trimmed(text@),
{
    let bounds = trim_bounds(text, 0, text.len());
    assert(text@.subrange(0, text@.len() as int) =~= text@);
    vstd::slice::slice_to_vec(vstd::slice::slice_subrange(text, bounds.0, bounds.1))
}

/// A decimal digit.
pub open spec fn is_digit(c: char) -> bool {
    '0' <= c && c <= '9'
}

/// Every character of `text` is a decimal digit.
pub open spec fn all_digits(text: Seq<char>) -> bool {
    forall|i: int| 0 <= i < text.len() ==> is_digit(#[trigger] text[i])
}

/// The number that a run of decimal digits stands for.
pub open spec fn digits_value(text: Seq<char>) -> nat
    decreases text.len(),
{
    if text.len() == 0 {
        0
    } else {
        digits_value(text.drop_last()) * 10 + (text.last() as nat - 48) as nat
    }
}

/// The number that a text stands for, as std's `u64::from_str` reads it: an
/// optional plus sign and then at least one decimal digit, and nothing else;
/// no number where it would not fit.
pub open spec fn parsed_u64(text: Seq<char>) -> Option<u64> {
    let digits = if text.len() > 0 && text[0] == '+' {
        text.skip(1)
    } else {
        text
    };
    if digits.len() > 0 && all_digits(digits) && digits_value(digits) <= u64::MAX {
        Some(digits_value(digits) as u64)
    } else {
        None
    }
}

/// The value of a run of digits is at least the value of each of its beginnings.
pub proof fn lemma_digits_value_grows(text: Seq<char>, k: int)
    requires
        0 <= k <= text.len(),
        all_digits(text),
    ensures
        digits_value(text.take(k)) <= digits_value(text),
    decreases text.len() - k,
{
    if k == text.len() {
        assert(text.take(k) =~= text);
    } else {
        lemma_digits_value_grows(text, k + 1);
        assert(text.take(k + 1).drop_last() =~= text.take(k));
        assert(is_digit(text[k]));
    }
}

/// Reads a number as std's `u64::from_str` does.
pub fn parse_u64(text: &[char]) -> (value: Option<u64>)
    ensures
        value == parsed_u64(text@),
{
    let start: usize = if text.len() > 0 && text[0] == '+' {
        1
    } else {
        0
    };
    let ghost digits = text@.skip(start as int);
    let ghost signed = text@.len() > 0 && text@[0] == '+';
    assert(text@.skip(0) =~= text@);
    if start == text.len() {
        return None;
    }
    let mut value: u64 = 0;
    let mut i: usize = start;
    while i < text.len()
        invariant
            start <= i <= text.len(),
            start < text.len(),
            signed == (text@.len() > 0 && text@[0] == '+'),
            digits == if signed {
                text@.skip(1)
            } else {
                text@
            },
            digits == text@.skip(start as int),
            all_digits(digits.take(i - start)),
            value == digits_value(digits.take(i - start)),
        decreases text.len() - i,
    {
        let c = text[i];
        if !('0' <= c && c <= '9') {
            assert(!is_digit(digits[i - start]));
            return None;
        }
        let d: u64 = (c as u64) - 48;
        proof {
            let next = digits.take(i - start + 1);
            assert(next.drop_last() =~= digits.take(i - start));
            assert(next.last() == c);
            assert forall|j: int| 0 <= j < next.len() implies is_digit(#[trigger] next[j]) by {
                if j < i - start {
                    assert(digits.take(i - start)[j] == next[j]);
                }
            }
        }
        if value > (u64::MAX - d) / 10 {
            proof {
                let next = digits.take(i - start + 1);
                assert(digits_value(next) > u64::MAX);
                if all_digits(digits) {
                    lemma_digits_value_grows(digits, i - start + 1);
                }
            }
            return None;
        }
        value = value * 10 + d;
        i += 1;
    }
    assert(digits.take(i - start) =~= digits);
    Some(value)
}


/// `needle` stands in `hay` at `at` and nowhere before it.
pub open spec fn is_first_at(hay: Seq<char>, needle: Seq<char>, at: int) -> bool {
    occurs_at(hay, needle, at) && forall|before: int|
        0 <= before < at ==> !occurs_at(hay, needle, before)
}

/// The first position at which `needle` stands in `hay`, where it stands in
/// it at all.
pub open spec fn first_at(hay: Seq<char>, needle: Seq<char>) -> int {
    choose|at: int| is_first_at(hay, needle, at)
}

/// There is only one first position.
pub proof fn lemma_first_at_unique(hay: Seq<char>, needle: Seq<char>, at: int)
    requires
        is_first_at(hay, needle, at),
    ensures
        first_at(hay, needle) == at,
{
    let chosen = first_at(hay, needle);
    assert(is_first_at(hay, needle, chosen));
    if chosen < at {
        assert(!occurs_at(hay, needle, chosen));
    } else if at < chosen {
        assert(!occurs_at(hay, needle, at));
    }
}


/// Appends the decimal numeral of a number of up to 128 bits.
pub fn push_decimal_wide(out: &mut String, n: u128)
    ensures
        final(out)@ == old(out)@ + decimal(n as nat),
    decreases n,
{
    if n >= 10 {
        push_decimal_wide(out, n / 10);
    }
    let d: u8 = (n % 10) as u8;
    out.push((48u8 + d) as char);
    proof {
        let before = old(out)@;
        if n >= 10 {
            assert((before + decimal((n / 10) as nat)).push(digit_char((n % 10) as nat))
                =~= before + decimal(n as nat));
        } else {
            assert(before.push(digit_char(n as nat)) =~= before + decimal(n as nat));
        }
    }
}

/// The value of a hexadecimal digit, in either case.
pub open spec fn hex_digit_value(c: char) -> Option<nat> {
    if '0' <= c && c <= '9' {
        Some((c as nat - 48) as nat)
    } else if 'a' <= c && c <= 'f' {
        Some((c as nat - 87) as nat)
    } else if 'A' <= c && c <= 'F' {
        Some((c as nat - 55) as nat)
    } else {
        None
    }
}

/// Every character of `text` is a hexadecimal digit.
pub open spec fn all_hex_digits(text: Seq<char>) -> bool {
    forall|i: int| 0 <= i < text.len() ==> hex_digit_value(#[trigger] text[i]) is Some
}

/// The number that a run of hexadecimal digits stands for.
pub open spec fn hex_digits_value(text: Seq<char>) -> nat
    decreases text.len(),
{
    if text.len() == 0 {
        0
    } else {
        hex_digits_value(text.drop_last()) * 16 + match hex_digit_value(text.last()) {
            Some(d) => d,
            None => 0,
        }
    }
}

/// The number that a text stands for, as std's `from_str_radix` reads it
/// to the base 16: an optional plus sign and then at least one hexadecimal
/// digit, and nothing else; no number where it would exceed `max`.
pub open spec fn parsed_hex(text: Seq<char>, max: nat) -> Option<nat> {
    let digits = if text.len() > 0 && text[0] == '+' {
        text.skip(1)
    } else {
        text
    };
    if digits.len() > 0 && all_hex_digits(digits) && hex_digits_value(digits) <= max {
        Some(hex_digits_value(digits))
    } else {
        None
    }
}

/// The value of a run of hexadecimal digits is at least the value of each
/// of its beginnings.
pub proof fn lemma_hex_digits_value_grows(text: Seq<char>, k: int)
    requires
        0 <= k <= text.len(),
        all_hex_digits(text),
    ensures
        hex_digits_value(text.take(k)) <= hex_digits_value(text),
    decreases text.len() - k,
{
    if k == text.len() {
        assert(text.take(k) =~= text);
    } else {
        lemma_hex_digits_value_grows(text, k + 1);
        assert(text.take(k + 1).drop_last() =~= text.take(k));
        assert(hex_digit_value(text[k]) is Some);
    }
}

fn hex_digit_of(c: char) -> (value: Option<u8>)
    ensures
        match hex_digit_value(c) {
            Some(d) => value == Some(d as u8) && d < 16,
            None => value is None,
        },
{
    if '0' <= c && c <= '9' {
        Some((c as u32 - 48) as u8)
    } else if 'a' <= c && c <= 'f' {
        Some((c as u32 - 87) as u8)
    } else if 'A' <= c && c <= 'F' {
        Some((c as u32 - 55) as u8)
    } else {
        None
    }
}

/// Reads a number to the base 16 as std's `from_str_radix` does, up to `max`.
pub fn parse_hex(text: &[char], max: u128) -> (value: Option<u128>)
    ensures
        match parsed_hex(text@, max as nat) {
            Some(n) => value == Some(n as u128),
            None => value is None,
        },
{
    let start: usize = if text.len() > 0 && text[0] == '+' {
        1
    } else {
        0
    };
    let ghost signed = text@.len() > 0 && text@[0] == '+';
    let ghost digits = text@.skip(start as int);
    assert(text@.skip(0) =~= text@);
    if start == text.len() {
        return None;
    }
    let mut value: u128 = 0;
    let mut i: usize = start;
    while i < text.len()
        invariant
            start <= i <= text.len(),
            start < text.len(),
            signed == (text@.len() > 0 && text@[0] == '+'),
            digits == if signed {
                text@.skip(1)
            } else {
                text@
            },
            digits == text@.skip(start as int),
            all_hex_digits(digits.take(i - start)),
            value == hex_digits_value(digits.take(i - start)),
            value <= max,
        decreases text.len() - i,
    {
        let d: u128 = match hex_digit_of(text[i]) {
            Some(d) => d as u128,
            None => {
                assert(hex_digit_value(digits[i - start]) is None);
                return None;
            },
        };
        proof {
            let next = digits.take(i - start + 1);
            assert(next.drop_last() =~= digits.take(i - start));
            assert(next.last() == text@[i as int]);
            assert forall|j: int| 0 <= j < next.len() implies hex_digit_value(
                #[trigger] next[j],
            ) is Some by {
                if j < i - start {
                    assert(digits.take(i - start)[j] == next[j]);
                }
            }
        }
        if max < d || value > (max - d) / 16 {
            proof {
                let next = digits.take(i - start + 1);
                assert(hex_digits_value(next) > max);
                if all_hex_digits(digits) {
                    lemma_hex_digits_value_grows(digits, i - start + 1);
                }
            }
            return None;
        }
        value = value * 16 + d;
        i += 1;
    }
    assert(digits.take(i - start) =~= digits);
    Some(value)
}


/// The number of characters of `text` before its first white space, or all
/// of them where it has none.
pub open spec fn word_len(text: Seq<char>) -> nat
    decreases text.len(),
{
    if text.len() == 0 || is_space(text[0]) {
        0
    } else {
        1 + word_len(text.skip(1))
    }
}

/// The words of a text: its longest runs of characters that are no white
/// space, in order, as std's `str::split_whitespace` gives them.
pub open spec fn words(text: Seq<char>) -> Seq<Seq<char>>
    decreases text.len(),
{
    if text.len() == 0 {
        Seq::empty()
    } else if is_space(text[0]) {
        words(text.skip(1))
    } else {
        let n = word_len(text);
        if n <= text.len() {
            seq![text.take(n as int)] + words(text.skip(n as int))
        } else {
            seq![text]
        }
    }
}

/// The words of `text[from..to]`.
pub fn words_of(text: &[char], from: usize, to: usize) -> (out: Vec<String>)
    requires
        from <= to <= text.len(),
    ensures
        views(out@) == words(text@.subrange(from as int, to as int)),
{
    let mut out: Vec<String> = Vec::new();
    let mut at: usize = from;
    let ghost whole = text@.subrange(from as int, to as int);
    assert(views(out@) =~= Seq::<Seq<char>>::empty());
    assert(views(out@) + words(whole) =~= words(whole));
    while at < to
        invariant
            from <= at <= to <= text.len(),
            whole == text@.subrange(from as int, to as int),
            views(out@) + words(text@.subrange(at as int, to as int)) == words(whole),
        decreases to - at,
    {
        let ghost rest = text@.subrange(at as int, to as int);
        let ghost before = views(out@);
        if space_char(text[at]) {
            assert(rest.skip(1) =~= text@.subrange(at + 1, to as int));
            at += 1;
        } else {
            let mut end: usize = at;
            while end < to && !space_char(text[end])
                invariant
                    at <= end <= to <= text.len(),
                    word_len(text@.subrange(at as int, to as int)) == (end - at) + word_len(
                        text@.subrange(end as int, to as int),
                    ),
                decreases to - end,
            {
                assert(text@.subrange(end as int, to as int).skip(1) =~= text@.subrange(
                    end + 1,
                    to as int,
                ));
                end += 1;
            }
            assert(word_len(rest) == end - at);
            let word = string_of(vstd::slice::slice_subrange(text, at, end));
            assert(text@.subrange(at as int, end as int) =~= rest.take(end - at));
            assert(rest.skip(end - at) =~= text@.subrange(end as int, to as int));
            out.push(word);
            assert(views(out@) =~= before + seq![rest.take(end - at)]);
            at = end;
            assert(views(out@) + words(text@.subrange(at as int, to as int)) =~= before + words(
                rest,
            ));
        }
    }
    assert(text@.subrange(to as int, to as int) =~= Seq::<char>::empty());
    assert(views(out@) + words(text@.subrange(at as int, to as int)) =~= views(out@));
    out
}

} // verus!
