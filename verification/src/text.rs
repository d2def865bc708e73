//! Character-level text utilities with exact specifications over `Seq<char>`.
use vstd::prelude::*;

verus! {

/// Appends one character to a string (`String::push`).
///
/// Trusted: claims that `String::push` extends the character sequence of the
/// string by exactly the pushed character, as its documentation states.
#[verifier::external_body]
pub(crate) fn push_char(s: &mut String, c: char)
    ensures
        final(s)@ == old(s)@.push(c),
{
    s.push(c);
}

/// The character of the decimal digit `d` (for `d < 10`).
pub open spec fn digit_char(d: nat) -> char {
    if d == 0 { '0' }
    else if d == 1 { '1' }
    else if d == 2 { '2' }
    else if d == 3 { '3' }
    else if d == 4 { '4' }
    else if d == 5 { '5' }
    else if d == 6 { '6' }
    else if d == 7 { '7' }
    else if d == 8 { '8' }
    else { '9' }
}

/// Decimal notation of a natural number, without sign or leading zeros
/// (as `Display` writes unsigned integers).
pub open spec fn decimal(n: nat) -> Seq<char>
    decreases n,
{
    if n < 10 {
        seq![digit_char(n)]
    } else {
        decimal(n / 10).push(digit_char(n % 10))
    }
}

fn digit_to_char(d: u64) -> (c: char)
    requires
        d < 10,
    ensures
        c == digit_char(d as nat),
{
    if d == 0 { '0' }
    else if d == 1 { '1' }
    else if d == 2 { '2' }
    else if d == 3 { '3' }
    else if d == 4 { '4' }
    else if d == 5 { '5' }
    else if d == 6 { '6' }
    else if d == 7 { '7' }
    else if d == 8 { '8' }
    else { '9' }
}

/// Appends the decimal notation of `n` to `out`.
pub fn push_decimal(out: &mut String, n: u64)
    ensures
        final(out)@ == old(out)@ + decimal(n as nat),
    decreases n,
{
    if n < 10 {
        push_char(out, digit_to_char(n));
        assert(old(out)@.push(digit_char(n as nat)) =~= old(out)@ + decimal(n as nat));
    } else {
        push_decimal(out, n / 10);
        push_char(out, digit_to_char(n % 10));
        assert(final(out)@ =~= old(out)@ + decimal(n as nat));
    }
}

/// The decimal notation of `n` as a new string.
pub fn decimal_text(n: u64) -> (s: String)
    ensures
        s@ == decimal(n as nat),
{
    let mut s = String::new();
    push_decimal(&mut s, n);
    assert(s@ =~= decimal(n as nat));
    s
}


/// ASCII lower-casing of one character (`char::to_ascii_lowercase`).
pub open spec fn ascii_lower_char(c: char) -> char {
    if 'A' <= c && c <= 'Z' {
        ((c as u32) + 32) as char
    } else {
        c
    }
}

/// ASCII lower-casing of a text: every `A`..`Z` becomes `a`..`z`, every other
/// character is kept (`str::to_ascii_lowercase`).
pub open spec fn ascii_lower(s: Seq<char>) -> Seq<char> {
    s.map_values(|c: char| ascii_lower_char(c))
}

/// `needle` occurs in `hay` at position `i`.
pub open spec fn occurs_at(hay: Seq<char>, needle: Seq<char>, i: int) -> bool {
    0 <= i && i + needle.len() <= hay.len() && hay.subrange(i, i + needle.len()) == needle
}

/// `needle` occurs somewhere in `hay` (`str::contains` with a string pattern).
pub open spec fn contains_seq(hay: Seq<char>, needle: Seq<char>) -> bool {
    exists|i: int| occurs_at(hay, needle, i)
}

/// What one character becomes when every `from` is replaced by `to`.
pub open spec fn replacement_of(c: char, from: char, to: Seq<char>) -> Seq<char> {
    if c == from { to } else { seq![c] }
}

/// `s` with every occurrence of the character `from` replaced by `to`
/// (`str::replace` with a character pattern).
pub open spec fn replace_char(s: Seq<char>, from: char, to: Seq<char>) -> Seq<char>
    decreases s.len(),
{
    if s.len() == 0 {
        Seq::empty()
    } else {
        replace_char(s.drop_last(), from, to) + replacement_of(s.last(), from, to)
    }
}

/// The characters with the Unicode `White_Space` property, the set that
/// `char::is_whitespace` and `str::trim` use.
pub open spec fn is_unicode_whitespace(c: char) -> bool {
    ||| ('\u{9}' <= c && c <= '\u{d}')
    ||| c == ' '
    ||| c == '\u{85}'
    ||| c == '\u{a0}'
    ||| c == '\u{1680}'
    ||| ('\u{2000}' <= c && c <= '\u{200a}')
    ||| c == '\u{2028}'
    ||| c == '\u{2029}'
    ||| c == '\u{202f}'
    ||| c == '\u{205f}'
    ||| c == '\u{3000}'
}

/// The text is empty once trimmed: every character is white space.
pub open spec fn is_blank(s: Seq<char>) -> bool {
    forall|i: int| 0 <= i < s.len() ==> is_unicode_whitespace(#[trigger] s[i])
}

/// Copies a string slice into a new owned string.
pub fn owned(s: &str) -> (r: String)
    ensures
        r@ == s@,
{
    let mut r = String::new();
    r.append(s);
    assert(r@ =~= s@);
    r
}

/// `str::to_ascii_lowercase`.
pub fn to_ascii_lowercase(s: &str) -> (r: String)
    ensures
        r@ == ascii_lower(s@),
{
    let n = s.unicode_len();
    let mut r = String::new();
    let mut i: usize = 0;
    while i < n
        invariant
            n == s@.len(),
            i <= n,
            r@ =~= ascii_lower(s@.take(i as int)),
        decreases n - i,
    {
        let c = s.get_char(i);
        let l = if 'A' <= c && c <= 'Z' {
            let code: u8 = ((c as u32) + 32) as u8;
            code as char
        } else {
            c
        };
        assert(l == ascii_lower_char(c));
        push_char(&mut r, l);
        assert(s@.take(i + 1) =~= s@.take(i as int).push(c));
        i = i + 1;
    }
    assert(s@.take(n as int) =~= s@);
    r
}

/// Checks `needle` against `hay` at position `at`.
fn matches_at(hay: &str, hay_len: usize, needle: &str, needle_len: usize, at: usize) -> (b: bool)
    requires
        hay_len == hay@.len(),
        needle_len == needle@.len(),
        at + needle_len <= hay_len,
    ensures
        b == occurs_at(hay@, needle@, at as int),
{
    let mut j: usize = 0;
    while j < needle_len
        invariant
            hay_len == hay@.len(),
            needle_len == needle@.len(),
            at + needle_len <= hay_len,
            j <= needle_len,
            forall|k: int| 0 <= k < j ==> hay@[at + k] == needle@[k],
        decreases needle_len - j,
    {
        if hay.get_char(at + j) != needle.get_char(j) {
            assert(hay@.subrange(at as int, at + needle_len)[j as int] != needle@[j as int]);
            return false;
        }
        j = j + 1;
    }
    assert(hay@.subrange(at as int, at + needle_len) =~= needle@);
    true
}

/// `str::contains` with a string pattern.
pub fn contains_text(hay: &str, needle: &str) -> (b: bool)
    ensures
        b == contains_seq(hay@, needle@),
{
    let hay_len = hay.unicode_len();
    let needle_len = needle.unicode_len();
    if needle_len > hay_len {
        assert forall|i: int| !occurs_at(hay@, needle@, i) by {}
        return false;
    }
    let last = hay_len - needle_len;
    let mut at: usize = 0;
    loop
        invariant
            hay_len == hay@.len(),
            needle_len == needle@.len(),
            last == hay_len - needle_len,
            at <= last,
            forall|i: int| 0 <= i < at ==> !occurs_at(hay@, needle@, i),
        ensures
            forall|i: int| 0 <= i <= last ==> !occurs_at(hay@, needle@, i),
        decreases last - at,
    {
        if matches_at(hay, hay_len, needle, needle_len, at) {
            return true;
        }
        if at == last {
            break;
        }
        at = at + 1;
    }
    assert forall|i: int| !occurs_at(hay@, needle@, i) by {
        if 0 <= i && i <= last {
        }
    }
    false
}

proof fn lemma_replace_char_push(s: Seq<char>, c: char, from: char, to: Seq<char>)
    ensures
        replace_char(s.push(c), from, to) == replace_char(s, from, to) + replacement_of(c, from, to),
{
    assert(s.push(c).drop_last() =~= s);
}

/// Replacing characters distributes over concatenation.
pub proof fn lemma_replace_char_concat(a: Seq<char>, b: Seq<char>, from: char, to: Seq<char>)
    ensures
        replace_char(a + b, from, to) == replace_char(a, from, to) + replace_char(b, from, to),
    decreases b.len(),
{
    if b.len() == 0 {
        assert(a + b =~= a);
        assert(replace_char(a, from, to) + replace_char(b, from, to) =~= replace_char(a, from, to));
    } else {
        assert((a + b).drop_last() =~= a + b.drop_last());
        lemma_replace_char_concat(a, b.drop_last(), from, to);
        assert(replace_char(a + b, from, to) =~= replace_char(a, from, to) + replace_char(b, from, to));
    }
}

/// Replacing characters in a one-character text.
pub proof fn lemma_replace_char_single(c: char, from: char, to: Seq<char>)
    ensures
        replace_char(seq![c], from, to) == replacement_of(c, from, to),
{
    assert(seq![c].drop_last() =~= Seq::<char>::empty());
    assert(replace_char(Seq::<char>::empty(), from, to) == Seq::<char>::empty());
    assert(Seq::<char>::empty() + replacement_of(c, from, to) =~= replacement_of(c, from, to));
}

/// Replacing a character that does not occur changes nothing.
pub proof fn lemma_replace_char_absent(s: Seq<char>, from: char, to: Seq<char>)
    requires
        forall|i: int| 0 <= i < s.len() ==> s[i] != from,
    ensures
        replace_char(s, from, to) == s,
    decreases s.len(),
{
    if s.len() > 0 {
        lemma_replace_char_absent(s.drop_last(), from, to);
        assert(s.drop_last().push(s.last()) =~= s);
        assert(replace_char(s, from, to) =~= s);
    } else {
        assert(s =~= Seq::<char>::empty());
    }
}

/// Replacing characters, read from the front: the first character's
/// replacement, then the rest replaced.
pub proof fn lemma_replace_char_front(s: Seq<char>, from: char, to: Seq<char>)
    requires
        s.len() > 0,
    ensures
        replace_char(s, from, to) == replacement_of(s[0], from, to) + replace_char(s.drop_first(), from, to),
{
    assert(s =~= seq![s[0]] + s.drop_first());
    lemma_replace_char_concat(seq![s[0]], s.drop_first(), from, to);
    lemma_replace_char_single(s[0], from, to);
}

/// `str::replace` with a character pattern: every `from` becomes `to`.
pub fn replace_char_with(s: &str, from: char, to: &str) -> (r: String)
    ensures
        r@ == replace_char(s@, from, to@),
{
    let n = s.unicode_len();
    let mut r = String::new();
    let mut i: usize = 0;
    while i < n
        invariant
            n == s@.len(),
            i <= n,
            r@ == replace_char(s@.take(i as int), from, to@),
        decreases n - i,
    {
        let c = s.get_char(i);
        proof {
            assert(s@.take(i + 1) =~= s@.take(i as int).push(c));
            lemma_replace_char_push(s@.take(i as int), c, from, to@);
        }
        if c == from {
            r.append(to);
        } else {
            push_char(&mut r, c);
            assert(seq![c] =~= replacement_of(c, from, to@));
        }
        i = i + 1;
    }
    assert(s@.take(n as int) =~= s@);
    r
}

/// Whether the text is empty after `str::trim`.
pub fn is_blank_text(s: &str) -> (b: bool)
    ensures
        b == is_blank(s@),
{
    let n = s.unicode_len();
    let mut i: usize = 0;
    while i < n
        invariant
            n == s@.len(),
            i <= n,
            forall|k: int| 0 <= k < i ==> is_unicode_whitespace(#[trigger] s@[k]),
        decreases n - i,
    {
        let c = s.get_char(i);
        let ws = ('\u{9}' <= c && c <= '\u{d}') || c == ' ' || c == '\u{85}' || c == '\u{a0}'
            || c == '\u{1680}' || ('\u{2000}' <= c && c <= '\u{200a}') || c == '\u{2028}'
            || c == '\u{2029}' || c == '\u{202f}' || c == '\u{205f}' || c == '\u{3000}';
        if !ws {
            return false;
        }
        i = i + 1;
    }
    true
}


/// An ASCII decimal digit.
pub open spec fn is_digit(c: char) -> bool {
    '0' <= c && c <= '9'
}

/// The value of an ASCII decimal digit.
pub open spec fn digit_value(c: char) -> nat {
    ((c as u32) - ('0' as u32)) as nat
}

/// Every character is an ASCII decimal digit.
pub open spec fn all_digits(s: Seq<char>) -> bool {
    forall|i: int| 0 <= i < s.len() ==> is_digit(#[trigger] s[i])
}

/// The number that a string of decimal digits denotes.
pub open spec fn digits_value(s: Seq<char>) -> nat
    decreases s.len(),
{
    if s.len() == 0 {
        0
    } else {
        digits_value(s.drop_last()) * 10 + digit_value(s.last())
    }
}

/// `u32::from_str`: an optional leading `+`, then one or more ASCII digits
/// whose value fits in a `u32`.
pub open spec fn parse_u32_spec(s: Seq<char>) -> Option<u32> {
    let digits = if s.len() > 0 && s[0] == '+' { s.drop_first() } else { s };
    if digits.len() > 0 && all_digits(digits) && digits_value(digits) <= u32::MAX {
        Some(digits_value(digits) as u32)
    } else {
        None
    }
}

proof fn lemma_digits_value_prefix(s: Seq<char>, k: int)
    requires
        all_digits(s),
        0 <= k <= s.len(),
    ensures
        digits_value(s.take(k)) <= digits_value(s),
    decreases s.len() - k,
{
    if k < s.len() {
        let t = s.take(k + 1);
        assert(all_digits(t));
        assert(t.drop_last() =~= s.take(k));
        lemma_digits_value_prefix(s, k + 1);
    } else {
        assert(s.take(k) =~= s);
    }
}

/// Parses `s[start..end]` as `u32::from_str` would.
pub fn parse_u32_range(s: &str, start: usize, end: usize) -> (r: Option<u32>)
    requires
        start <= end <= s@.len(),
    ensures
        r == parse_u32_spec(s@.subrange(start as int, end as int)),
{
    let ghost t = s@.subrange(start as int, end as int);
    let mut i = start;
    if i < end && s.get_char(i) == '+' {
        i = i + 1;
    }
    let ghost digits = s@.subrange(i as int, end as int);
    assert(digits =~= if t.len() > 0 && t[0] == '+' { t.drop_first() } else { t });
    if i == end {
        return None;
    }
    let first = i;
    let mut acc: u64 = 0;
    while i < end
        invariant
            start <= first <= i <= end <= s@.len(),
            digits == s@.subrange(first as int, end as int),
            t == s@.subrange(start as int, end as int),
            digits == (if t.len() > 0 && t[0] == '+' { t.drop_first() } else { t }),
            digits.len() > 0,
            acc <= u32::MAX,
            acc == digits_value(s@.subrange(first as int, i as int)),
            all_digits(s@.subrange(first as int, i as int)),
        decreases end - i,
    {
        let c = s.get_char(i);
        if !('0' <= c && c <= '9') {
            assert(digits[i - first] == c);
            return None;
        }
        let d: u64 = ((c as u32) - ('0' as u32)) as u64;
        let ghost prev = s@.subrange(first as int, i as int);
        let ghost next = s@.subrange(first as int, i + 1);
        assert(next.drop_last() =~= prev);
        assert(next.last() == c);
        assert(all_digits(next));
        acc = acc * 10 + d;
        assert(acc == digits_value(next));
        if acc > 0xffff_ffff {
            proof {
                if all_digits(digits) {
                    assert(digits.take(i + 1 - first) =~= next);
                    lemma_digits_value_prefix(digits, i + 1 - first);
                }
            }
            return None;
        }
        i = i + 1;
    }
    assert(s@.subrange(first as int, i as int) =~= digits);
    Some(acc as u32)
}


/// Position `i` holds the first `c` of `s`.
pub open spec fn is_first_of(s: Seq<char>, c: char, i: int) -> bool {
    0 <= i < s.len() && s[i] == c && forall|j: int| 0 <= j < i ==> s[j] != c
}

/// The position of the first `c` in `s`, or its length when there is none.
pub open spec fn first_of(s: Seq<char>, c: char) -> int {
    if exists|i: int| is_first_of(s, c, i) {
        choose|i: int| is_first_of(s, c, i)
    } else {
        s.len() as int
    }
}

/// Finds the first `c` in `s[from..n]`, returning `n` when there is none.
pub fn find_char(s: &str, c: char, from: usize, n: usize) -> (r: usize)
    requires
        from <= n == s@.len(),
    ensures
        from <= r <= n,
        r - from == first_of(s@.subrange(from as int, n as int), c),
{
    let ghost t = s@.subrange(from as int, n as int);
    let mut i = from;
    while i < n
        invariant
            from <= i <= n == s@.len(),
            t == s@.subrange(from as int, n as int),
            forall|j: int| 0 <= j < i - from ==> t[j] != c,
        decreases n - i,
    {
        if s.get_char(i) == c {
            proof {
                let k = i - from;
                assert(is_first_of(t, c, k));
                let w = choose|w: int| is_first_of(t, c, w);
                assert(w == k) by {
                    if w < k {
                    } else if w > k {
                        assert(t[k] == c);
                    }
                }
            }
            return i;
        }
        i = i + 1;
    }
    assert(!exists|w: int| is_first_of(t, c, w));
    i
}

/// A line without the carriage return that ended it, if any.
pub open spec fn without_cr(line: Seq<char>) -> Seq<char> {
    if line.len() > 0 && line.last() == '\r' {
        line.drop_last()
    } else {
        line
    }
}

/// `str::lines`: the text split at each `\n`, a `\r` just before a `\n`
/// removed with it, and no empty line after a final `\n`.
pub open spec fn lines_spec(s: Seq<char>) -> Seq<Seq<char>>
    decreases s.len(),
{
    if s.len() == 0 {
        Seq::empty()
    } else {
        let i = first_of(s, '\n');
        if i < s.len() {
            if 0 <= i {
                seq![without_cr(s.take(i))] + lines_spec(s.skip(i + 1))
            } else {
                Seq::empty()
            }
        } else {
            seq![s]
        }
    }
}

/// Splits a text into its lines (see `lines_spec`).
pub fn split_lines(s: &str) -> (r: Vec<String>)
    ensures
        r.deep_view() == lines_spec(s@),
{
    let n = s.unicode_len();
    let mut r: Vec<String> = Vec::new();
    let mut pos: usize = 0;
    assert(s@.subrange(0, n as int) =~= s@);
    while pos < n
        invariant
            n == s@.len(),
            pos <= n,
            r.deep_view() + lines_spec(s@.subrange(pos as int, n as int)) == lines_spec(s@),
        decreases n - pos,
    {
        let ghost rest = s@.subrange(pos as int, n as int);
        let e = find_char(s, '\n', pos, n);
        let ghost before = r.deep_view();
        if e < n {
            let piece = s.substring_char(pos, e);
            let len = e - pos;
            let line = if len > 0 && piece.get_char(len - 1) == '\r' {
                owned(piece.substring_char(0, len - 1))
            } else {
                owned(piece)
            };
            proof {
                assert(piece@ =~= rest.take(e - pos));
                assert(rest.skip(e - pos + 1) =~= s@.subrange(e + 1, n as int));
                if len > 0 && piece@[len - 1] == '\r' {
                    assert(line@ =~= piece@.drop_last());
                }
                assert(line@ == without_cr(rest.take(e - pos)));
                assert(lines_spec(rest) == seq![line@] + lines_spec(s@.subrange(e + 1, n as int)));
            }
            r.push(line);
            assert(r.deep_view() =~= before.push(line@));
            assert(before.push(line@) + lines_spec(s@.subrange(e + 1, n as int)) =~= before + (seq![line@] + lines_spec(s@.subrange(e + 1, n as int))));
            pos = e + 1;
        } else {
            let line = owned(s.substring_char(pos, n));
            proof {
                assert(line@ =~= rest);
                assert(lines_spec(rest) == seq![rest]);
                assert(s@.subrange(n as int, n as int) =~= Seq::<char>::empty());
            }
            r.push(line);
            assert(r.deep_view() =~= before.push(line@));
            assert(before + seq![rest] =~= before.push(rest));
            assert(r.deep_view() + lines_spec(s@.subrange(n as int, n as int)) =~= r.deep_view());
            pos = n;
        }
    }
    assert(s@.subrange(n as int, n as int) =~= Seq::<char>::empty());
    assert(r.deep_view() + Seq::<Seq<char>>::empty() =~= r.deep_view());
    r
}

} // verus!
