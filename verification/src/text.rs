//! Character-sequence helpers shared by the parsers and generators of the library.
//!
//! Strings are reasoned about through their view, a `Seq<char>`.

use vstd::prelude::*;

verus! {

// ---------------------------------------------------------------------------
// Building strings
// ---------------------------------------------------------------------------

/// Appends one character to a string (`String::push`).
#[verifier::external_body]
pub(crate) fn push_char(s: &mut String, c: char)
    ensures
        final(s)@ == old(s)@.push(c),
{
    s.push(c);
}

/// Appends the characters of `v` to `s`.
pub fn push_chars(s: &mut String, v: &[char])
    ensures
        final(s)@ == old(s)@ + v@,
{
    let mut i: usize = 0;
    while i < v.len()
        invariant
            i <= v@.len(),
            s@ == old(s)@ + v@.take(i as int),
        decreases v@.len() - i,
    {
        push_char(s, v[i]);
        assert(v@.take(i as int + 1) == v@.take(i as int).push(v@[i as int]));
        i = i + 1;
    }
    assert(v@.take(v@.len() as int) == v@);
}

/// A string holding exactly the given characters.
pub fn string_from_chars(v: &[char]) -> (s: String)
    ensures
        s@ == v@,
{
    let mut s = String::new();
    push_chars(&mut s, v);
    s
}

/// The characters of a string slice, in order.
pub fn chars_of(s: &str) -> (v: Vec<char>)
    ensures
        v@ == s@,
{
    let mut v: Vec<char> = Vec::new();
    for c in it: s.chars()
        invariant
            v@ == it.seq().take(it.index() as int),
            it.seq() == s@,
    {
        v.push(c);
    }
    v
}

/// Appends a string slice to a string.
pub fn push_str(s: &mut String, t: &str)
    ensures
        final(s)@ == old(s)@ + t@,
{
    s.append(t);
}

// ---------------------------------------------------------------------------
// Numbers as text
// ---------------------------------------------------------------------------

/// The character of a decimal or hexadecimal digit value (lower case letters).
pub open spec fn digit_char(d: nat) -> char {
    if d < 10 {
        (48 + d) as char
    } else {
        (87 + d) as char
    }
}

/// Decimal notation of a natural number, without leading zeros.
pub open spec fn decimal(n: nat) -> Seq<char>
    decreases n,
{
    if n < 10 {
        seq![digit_char(n)]
    } else {
        decimal(n / 10).push(digit_char(n % 10))
    }
}

/// Lower-case hexadecimal notation of a natural number, without leading zeros.
pub open spec fn hex_lower(n: nat) -> Seq<char>
    decreases n,
{
    if n < 16 {
        seq![digit_char(n)]
    } else {
        hex_lower(n / 16).push(digit_char(n % 16))
    }
}

/// Decimal notation padded with zeros to at least two digits (`{:02}`).
pub open spec fn pad2(n: nat) -> Seq<char> {
    if n < 10 {
        seq!['0'].push(digit_char(n))
    } else {
        decimal(n)
    }
}

fn digit(d: u64) -> (c: char)
    requires
        d < 16,
    ensures
        c == digit_char(d as nat),
{
    if d < 10 {
        ((48 + d) as u8) as char
    } else {
        ((87 + d) as u8) as char
    }
}

/// Appends the decimal notation of `n`.
pub fn push_decimal(s: &mut String, n: u64)
    ensures
        final(s)@ == old(s)@ + decimal(n as nat),
    decreases n,
{
    if n >= 10 {
        push_decimal(s, n / 10);
    }
    push_char(s, digit(n % 10));
}

/// Appends the lower-case hexadecimal notation of `n`.
pub fn push_hex(s: &mut String, n: u64)
    ensures
        final(s)@ == old(s)@ + hex_lower(n as nat),
    decreases n,
{
    if n >= 16 {
        push_hex(s, n / 16);
    }
    push_char(s, digit(n % 16));
}

/// Appends `n` padded with zeros to two digits.
pub fn push_pad2(s: &mut String, n: u64)
    ensures
        final(s)@ == old(s)@ + pad2(n as nat),
{
    if n < 10 {
        push_char(s, '0');
        push_char(s, digit(n));
    } else {
        push_decimal(s, n);
    }
}

/// The decimal notation of `n` as a string (`n.to_string()`).
pub fn decimal_string(n: u64) -> (s: String)
    ensures
        s@ == decimal(n as nat),
{
    let mut s = String::new();
    push_decimal(&mut s, n);
    s
}

// ---------------------------------------------------------------------------
// Characters
// ---------------------------------------------------------------------------

/// ASCII lower-casing of one character; every other character is left as it is.
pub open spec fn ascii_lower(c: char) -> char {
    if 'A' <= c && c <= 'Z' {
        ((c as u32) + 32) as char
    } else {
        c
    }
}

/// ASCII upper-casing of one character; every other character is left as it is.
pub open spec fn ascii_upper(c: char) -> char {
    if 'a' <= c && c <= 'z' {
        ((c as u32) - 32) as char
    } else {
        c
    }
}

pub open spec fn ascii_lower_seq(s: Seq<char>) -> Seq<char> {
    s.map_values(|c: char| ascii_lower(c))
}

pub open spec fn ascii_upper_seq(s: Seq<char>) -> Seq<char> {
    s.map_values(|c: char| ascii_upper(c))
}

pub fn char_to_ascii_lower(c: char) -> (r: char)
    ensures
        r == ascii_lower(c),
{
    if 'A' <= c && c <= 'Z' {
        let b: u8 = (c as u32 + 32) as u8;
        b as char
    } else {
        c
    }
}

pub fn char_to_ascii_upper(c: char) -> (r: char)
    ensures
        r == ascii_upper(c),
{
    if 'a' <= c && c <= 'z' {
        let b: u8 = (c as u32 - 32) as u8;
        b as char
    } else {
        c
    }
}

pub open spec fn is_ascii_digit(c: char) -> bool {
    '0' <= c && c <= '9'
}

pub open spec fn is_ascii_hexdigit(c: char) -> bool {
    ('0' <= c && c <= '9') || ('a' <= c && c <= 'f') || ('A' <= c && c <= 'F')
}

/// The value of a hexadecimal digit.
pub open spec fn hex_value(c: char) -> nat {
    if '0' <= c && c <= '9' {
        (c as nat - 48) as nat
    } else if 'a' <= c && c <= 'f' {
        (c as nat - 87) as nat
    } else {
        (c as nat - 55) as nat
    }
}

pub fn hex_digit_value(c: char) -> (v: u8)
    requires
        is_ascii_hexdigit(c),
    ensures
        v as nat == hex_value(c),
        v < 16,
{
    if '0' <= c && c <= '9' {
        (c as u32 - 48) as u8
    } else if 'a' <= c && c <= 'f' {
        (c as u32 - 87) as u8
    } else {
        (c as u32 - 55) as u8
    }
}

pub fn char_is_ascii_hexdigit(c: char) -> (b: bool)
    ensures
        b == is_ascii_hexdigit(c),
{
    ('0' <= c && c <= '9') || ('a' <= c && c <= 'f') || ('A' <= c && c <= 'F')
}

/// Unicode `White_Space`, the set `char::is_whitespace` tests.
pub open spec fn is_ws(c: char) -> bool {
    ||| c == ' '
    ||| ('\t' <= c && c <= '\r')
    ||| c == '\u{85}'
    ||| c == '\u{A0}'
    ||| c == '\u{1680}'
    ||| ('\u{2000}' <= c && c <= '\u{200A}')
    ||| c == '\u{2028}'
    ||| c == '\u{2029}'
    ||| c == '\u{202F}'
    ||| c == '\u{205F}'
    ||| c == '\u{3000}'
}

pub fn char_is_ws(c: char) -> (b: bool)
    ensures
        b == is_ws(c),
{
    c == ' ' || ('\t' <= c && c <= '\r') || c == '\u{85}' || c == '\u{A0}' || c == '\u{1680}'
        || ('\u{2000}' <= c && c <= '\u{200A}') || c == '\u{2028}' || c == '\u{2029}'
        || c == '\u{202F}' || c == '\u{205F}' || c == '\u{3000}'
}


// ---------------------------------------------------------------------------
// Searching
// ---------------------------------------------------------------------------

/// `p` occurs in `s` at index `i`.
pub open spec fn matches_at(s: Seq<char>, p: Seq<char>, i: int) -> bool {
    0 <= i && i + p.len() <= s.len() && s.subrange(i, i + p.len()) == p
}

/// The first index at or after `i` where `p` occurs in `s`.
pub open spec fn find_from(s: Seq<char>, p: Seq<char>, i: int) -> Option<int>
    decreases s.len() + 1 - i,
{
    if i < 0 || i + p.len() > s.len() {
        None
    } else if matches_at(s, p, i) {
        Some(i)
    } else {
        find_from(s, p, i + 1)
    }
}

/// The first index where `p` occurs in `s` (`str::find`).
pub open spec fn find_seq(s: Seq<char>, p: Seq<char>) -> Option<int> {
    find_from(s, p, 0)
}

/// `p` occurs somewhere in `s` (`str::contains`).
pub open spec fn contains_seq(s: Seq<char>, p: Seq<char>) -> bool {
    find_seq(s, p) is Some
}

pub open spec fn starts_with(s: Seq<char>, p: Seq<char>) -> bool {
    p.len() <= s.len() && s.take(p.len() as int) == p
}

pub open spec fn ends_with(s: Seq<char>, p: Seq<char>) -> bool {
    p.len() <= s.len() && s.skip(s.len() - p.len()) == p
}

pub proof fn lemma_find_from_bounds(s: Seq<char>, p: Seq<char>, i: int)
    requires
        0 <= i,
    ensures
        find_from(s, p, i) matches Some(k) ==> i <= k && matches_at(s, p, k)
            && forall|j: int| i <= j < k ==> !matches_at(s, p, j),
        find_from(s, p, i) is None ==> forall|j: int| i <= j ==> !matches_at(s, p, j),
    decreases s.len() + 1 - i,
{
    if i + p.len() <= s.len() && !matches_at(s, p, i) {
        lemma_find_from_bounds(s, p, i + 1);
    }
}

pub fn slice_matches_at(s: &[char], p: &[char], i: usize) -> (b: bool)
    ensures
        b == matches_at(s@, p@, i as int),
{
    if i > s.len() || p.len() > s.len() - i {
        return false;
    }
    let mut j: usize = 0;
    while j < p.len()
        invariant
            i + p@.len() <= s@.len(),
            j <= p@.len(),
            forall|k: int| 0 <= k < j ==> s@[i + k] == p@[k],
        decreases p@.len() - j,
    {
        assert(i + j < s@.len() && s@.len() == s.len());
        if s[i + j] != p[j] {
            assert(s@.subrange(i as int, i + p@.len())[j as int] != p@[j as int]);
            return false;
        }
        j = j + 1;
    }
    assert(s@.subrange(i as int, i + p@.len()) =~= p@);
    true
}

/// The first index at or after `from` where `p` occurs in `s`.
pub fn find_chars_from(s: &[char], p: &[char], from: usize) -> (r: Option<usize>)
    ensures
        r matches Some(k) ==> find_from(s@, p@, from as int) == Some(k as int),
        r is None ==> find_from(s@, p@, from as int) is None,
{
    let mut i: usize = from;
    while i <= s.len() && p.len() <= s.len() - i
        invariant
            from <= i,
            find_from(s@, p@, from as int) == find_from(s@, p@, i as int),
        decreases s@.len() + 1 - i,
    {
        if slice_matches_at(s, p, i) {
            return Some(i);
        }
        if i == s.len() {
            if p.len() == 0 {
                assert(s@.subrange(i as int, i as int) =~= p@);
            }
            return None;
        }
        i = i + 1;
    }
    None
}

/// The first index where `p` occurs in `s`.
pub fn find_chars(s: &[char], p: &[char]) -> (r: Option<usize>)
    ensures
        r matches Some(k) ==> find_seq(s@, p@) == Some(k as int),
        r is None ==> find_seq(s@, p@) is None,
{
    find_chars_from(s, p, 0)
}

pub fn contains_chars(s: &[char], p: &[char]) -> (b: bool)
    ensures
        b == contains_seq(s@, p@),
{
    find_chars(s, p).is_some()
}

pub fn starts_with_chars(s: &[char], p: &[char]) -> (b: bool)
    ensures
        b == starts_with(s@, p@),
{
    if p.len() > s.len() {
        return false;
    }
    let b = slice_matches_at(s, p, 0);
    assert(s@.subrange(0, p@.len() as int) == s@.take(p@.len() as int));
    b
}

pub fn ends_with_chars(s: &[char], p: &[char]) -> (b: bool)
    ensures
        b == ends_with(s@, p@),
{
    if p.len() > s.len() {
        return false;
    }
    let b = slice_matches_at(s, p, s.len() - p.len());
    assert(s@.subrange(s@.len() - p@.len(), s@.len() as int) == s@.skip(s@.len() - p@.len()));
    b
}

/// The first index at or after `i` holding `c`.
pub open spec fn find_char_from(s: Seq<char>, c: char, i: int) -> Option<int>
    decreases s.len() - i,
{
    if i < 0 || i >= s.len() {
        None
    } else if s[i] == c {
        Some(i)
    } else {
        find_char_from(s, c, i + 1)
    }
}

pub proof fn lemma_find_char_from(s: Seq<char>, c: char, i: int)
    requires
        0 <= i,
    ensures
        find_char_from(s, c, i) matches Some(k) ==> i <= k < s.len() && s[k] == c
            && forall|j: int| i <= j < k ==> s[j] != c,
        find_char_from(s, c, i) is None ==> forall|j: int| i <= j < s.len() ==> s[j] != c,
    decreases s.len() - i,
{
    if i < s.len() && s[i] != c {
        lemma_find_char_from(s, c, i + 1);
    }
}

pub fn find_char_in(s: &[char], c: char, from: usize) -> (r: Option<usize>)
    ensures
        r matches Some(k) ==> find_char_from(s@, c, from as int) == Some(k as int),
        r is None ==> find_char_from(s@, c, from as int) is None,
{
    let mut i = from;
    while i < s.len()
        invariant
            from <= i,
            find_char_from(s@, c, from as int) == find_char_from(s@, c, i as int),
        decreases s@.len() - i,
    {
        if s[i] == c {
            return Some(i);
        }
        i = i + 1;
    }
    None
}

// ---------------------------------------------------------------------------
// Trimming
// ---------------------------------------------------------------------------

pub open spec fn trim_start(s: Seq<char>) -> Seq<char>
    decreases s.len(),
{
    if s.len() > 0 && is_ws(s[0]) {
        trim_start(s.drop_first())
    } else {
        s
    }
}

pub open spec fn trim_end(s: Seq<char>) -> Seq<char>
    decreases s.len(),
{
    if s.len() > 0 && is_ws(s.last()) {
        trim_end(s.drop_last())
    } else {
        s
    }
}

/// `str::trim`: white space removed at both ends.
pub open spec fn trim(s: Seq<char>) -> Seq<char> {
    trim_end(trim_start(s))
}

/// The index range of the trimmed part of `s[from..to]`.
pub fn trim_range(s: &[char], from: usize, to: usize) -> (r: (usize, usize))
    requires
        from <= to <= s@.len(),
    ensures
        from <= r.0 <= r.1 <= to,
        s@.subrange(r.0 as int, r.1 as int) == trim(s@.subrange(from as int, to as int)),
{
    let mut a = from;
    while a < to && char_is_ws(s[a])
        invariant
            from <= a <= to <= s@.len(),
            trim_start(s@.subrange(from as int, to as int)) == trim_start(
                s@.subrange(a as int, to as int),
            ),
        decreases to - a,
    {
        assert(s@.subrange(a as int, to as int).drop_first() == s@.subrange(a + 1, to as int));
        a = a + 1;
    }
    let mut b = to;
    while b > a && char_is_ws(s[b - 1])
        invariant
            from <= a <= b <= to <= s@.len(),
            trim_end(s@.subrange(a as int, to as int)) == trim_end(
                s@.subrange(a as int, b as int),
            ),
        decreases b - a,
    {
        assert(s@.subrange(a as int, b as int).drop_last() == s@.subrange(a as int, b - 1));
        b = b - 1;
    }
    (a, b)
}

pub fn trim_chars(s: &[char]) -> (r: Vec<char>)
    ensures
        r@ == trim(s@),
{
    let (a, b) = trim_range(s, 0, s.len());
    assert(s@.subrange(0, s@.len() as int) == s@);
    slice_range(s, a, b)
}

/// A copy of `s[a..b]`.
pub fn slice_range(s: &[char], a: usize, b: usize) -> (r: Vec<char>)
    requires
        a <= b <= s@.len(),
    ensures
        r@ == s@.subrange(a as int, b as int),
{
    let mut r: Vec<char> = Vec::new();
    let mut i = a;
    while i < b
        invariant
            a <= i <= b <= s@.len(),
            r@ == s@.subrange(a as int, i as int),
        decreases b - i,
    {
        r.push(s[i]);
        i = i + 1;
    }
    r
}


// ---------------------------------------------------------------------------
// Splitting
// ---------------------------------------------------------------------------

/// The views of a sequence of character vectors.
pub open spec fn views(v: Seq<Vec<char>>) -> Seq<Seq<char>> {
    v.map_values(|x: Vec<char>| x@)
}

/// `str::split(c)`: the pieces between the occurrences of `c`.
pub open spec fn split_char(s: Seq<char>, c: char) -> Seq<Seq<char>>
    decreases s.len(),
{
    match find_char_from(s, c, 0) {
        None => seq![s],
        Some(k) => {
            proof {
                lemma_find_char_from(s, c, 0);
            }
            seq![s.take(k)] + split_char(s.skip(k + 1), c)
        },
    }
}

/// `s` with one trailing carriage return removed, if it has one.
pub open spec fn strip_cr(l: Seq<char>) -> Seq<char> {
    if l.len() > 0 && l.last() == '\r' {
        l.drop_last()
    } else {
        l
    }
}

/// `str::lines`: pieces ended by `\n` (a `\r` before it dropped); no empty last line.
pub open spec fn lines(s: Seq<char>) -> Seq<Seq<char>>
    decreases s.len(),
{
    if s.len() == 0 {
        seq![]
    } else {
        match find_char_from(s, '\n', 0) {
            None => seq![s],
            Some(k) => {
                proof {
                    lemma_find_char_from(s, '\n', 0);
                }
                seq![strip_cr(s.take(k))] + lines(s.skip(k + 1))
            },
        }
    }
}

proof fn lemma_views_push(v: Seq<Vec<char>>, x: Vec<char>)
    ensures
        views(v.push(x)) == views(v).push(x@),
{
    assert(views(v.push(x)) =~= views(v).push(x@));
}

/// The pieces of `s` between occurrences of `c`.
pub fn split_chars(s: &[char], c: char) -> (r: Vec<Vec<char>>)
    ensures
        views(r@) == split_char(s@, c),
{
    let mut r: Vec<Vec<char>> = Vec::new();
    let mut start: usize = 0;
    assert(s@.skip(0) =~= s@);
    assert(views(r@) + split_char(s@, c) =~= split_char(s@, c));
    loop
        invariant
            start <= s@.len(),
            split_char(s@, c) == views(r@) + split_char(s@.skip(start as int), c),
        decreases s@.len() - start,
    {
        let ghost rest = s@.skip(start as int);
        match find_char_in(s, c, start) {
            None => {
                proof {
                    lemma_find_char_from(s@, c, start as int);
                    lemma_find_char_from(rest, c, 0);
                    if let Some(k) = find_char_from(rest, c, 0) {
                        assert(rest[k] == s@[start + k]);
                    }
                }
                let piece = slice_range(s, start, s.len());
                proof {
                    lemma_views_push(r@, piece);
                }
                r.push(piece);
                assert(split_char(rest, c) == seq![rest]);
                assert(split_char(s@, c) == views(r@));
                return r;
            },
            Some(k) => {
                proof {
                    lemma_find_char_from(s@, c, start as int);
                    lemma_find_char_from(rest, c, 0);
                    assert(s@[k as int] == rest[k - start]);
                    if let Some(k2) = find_char_from(rest, c, 0) {
                        assert(rest[k2] == s@[start + k2]);
                    }
                    assert(find_char_from(rest, c, 0) == Some(k - start));
                    assert(rest.take(k - start) == s@.subrange(start as int, k as int));
                    assert(rest.skip(k - start + 1) == s@.skip(k + 1));
                    assert(k < s@.len() && s@.len() == s.len());
                }
                let piece = slice_range(s, start, k);
                proof {
                    lemma_views_push(r@, piece);
                }
                r.push(piece);
                start = k + 1;
            },
        }
    }
}

/// The lines of `s`, as `str::lines` gives them.
pub fn lines_of(s: &[char]) -> (r: Vec<Vec<char>>)
    ensures
        views(r@) == lines(s@),
{
    let mut r: Vec<Vec<char>> = Vec::new();
    let mut start: usize = 0;
    assert(s@.skip(0) =~= s@);
    assert(views(r@) + lines(s@) =~= lines(s@));
    loop
        invariant
            start <= s@.len(),
            lines(s@) == views(r@) + lines(s@.skip(start as int)),
        decreases s@.len() - start,
    {
        let ghost rest = s@.skip(start as int);
        if start == s.len() {
            assert(rest.len() == 0);
            assert(views(r@) + lines(rest) == views(r@));
            return r;
        }
        match find_char_in(s, '\n', start) {
            None => {
                proof {
                    lemma_find_char_from(s@, '\n', start as int);
                    lemma_find_char_from(rest, '\n', 0);
                    if let Some(k) = find_char_from(rest, '\n', 0) {
                        assert(rest[k] == s@[start + k]);
                    }
                }
                let piece = slice_range(s, start, s.len());
                proof {
                    lemma_views_push(r@, piece);
                }
                r.push(piece);
                assert(lines(rest) == seq![rest]);
                assert(lines(s@) == views(r@));
                return r;
            },
            Some(k) => {
                proof {
                    lemma_find_char_from(s@, '\n', start as int);
                    lemma_find_char_from(rest, '\n', 0);
                    assert(s@[k as int] == rest[k - start]);
                    if let Some(k2) = find_char_from(rest, '\n', 0) {
                        assert(rest[k2] == s@[start + k2]);
                    }
                    assert(find_char_from(rest, '\n', 0) == Some(k - start));
                    assert(rest.take(k - start) == s@.subrange(start as int, k as int));
                    assert(rest.skip(k - start + 1) == s@.skip(k + 1));
                    assert(k < s@.len() && s@.len() == s.len());
                }
                let mut end = k;
                if end > start && s[end - 1] == '\r' {
                    end = end - 1;
                }
                let piece = slice_range(s, start, end);
                proof {
                    assert(piece@ == strip_cr(rest.take(k - start)));
                    lemma_views_push(r@, piece);
                }
                r.push(piece);
                start = k + 1;
            },
        }
    }
}


// ---------------------------------------------------------------------------
// Parsing unsigned decimal numbers
// ---------------------------------------------------------------------------

/// The digits of an unsigned number: one leading `+` is allowed.
pub open spec fn unsigned_digits(s: Seq<char>) -> Seq<char> {
    if s.len() > 0 && s[0] == '+' {
        s.drop_first()
    } else {
        s
    }
}

/// What `str::parse(..).ok()` gives for an unsigned integer type whose largest
/// value is `max`.
pub open spec fn parse_unsigned(s: Seq<char>, max: nat) -> Option<nat> {
    match parse_int(s, max) {
        Ok(v) => Some(v),
        Err(_) => None,
    }
}

/// Parses an unsigned decimal number no larger than `max`, as `str::parse` does.
pub fn parse_unsigned_chars(s: &[char], max: u64) -> (r: Option<u64>)
    ensures
        match r {
            Some(v) => parse_unsigned(s@, max as nat) == Some(v as nat) && v <= max,
            None => parse_unsigned(s@, max as nat) is None,
        },
{
    match parse_int_chars(s, max) {
        Ok(v) => Some(v),
        Err(_) => None,
    }
}

/// Parses a `u64` as `str::parse::<u64>` does.
pub fn parse_u64(s: &str) -> (r: Option<u64>)
    ensures
        match r {
            Some(v) => parse_unsigned(s@, u64::MAX as nat) == Some(v as nat),
            None => parse_unsigned(s@, u64::MAX as nat) is None,
        },
{
    parse_unsigned_chars(chars_of(s).as_slice(), u64::MAX)
}

/// Parses a `u32` as `str::parse::<u32>` does.
pub fn parse_u32(s: &str) -> (r: Option<u32>)
    ensures
        match r {
            Some(v) => parse_unsigned(s@, u32::MAX as nat) == Some(v as nat),
            None => parse_unsigned(s@, u32::MAX as nat) is None,
        },
{
    match parse_unsigned_chars(chars_of(s).as_slice(), u32::MAX as u64) {
        Some(v) => Some(v as u32),
        None => None,
    }
}


// ---------------------------------------------------------------------------
// Words
// ---------------------------------------------------------------------------

/// The first index at or after `i` holding whitespace, or the length of `s`.
pub open spec fn ws_from(s: Seq<char>, i: int) -> int
    decreases s.len() - i,
{
    if i < 0 || i >= s.len() {
        s.len() as int
    } else if is_ws(s[i]) {
        i
    } else {
        ws_from(s, i + 1)
    }
}

pub proof fn lemma_ws_from(s: Seq<char>, i: int)
    requires
        0 <= i <= s.len(),
    ensures
        i <= ws_from(s, i) <= s.len(),
        forall|j: int| i <= j < ws_from(s, i) ==> !is_ws(#[trigger] s[j]),
        ws_from(s, i) < s.len() ==> is_ws(s[ws_from(s, i)]),
    decreases s.len() - i,
{
    if i < s.len() && !is_ws(s[i]) {
        lemma_ws_from(s, i + 1);
    }
}

/// `str::split_whitespace`: the maximal runs of non-whitespace characters.
pub open spec fn words(s: Seq<char>) -> Seq<Seq<char>>
    decreases s.len(),
{
    if s.len() == 0 {
        seq![]
    } else if is_ws(s[0]) {
        words(s.drop_first())
    } else {
        let k = ws_from(s, 0);
        proof {
            lemma_ws_from(s, 0);
            lemma_ws_from(s, 1);
        }
        seq![s.take(k)] + words(s.skip(k))
    }
}

/// The words of `s`, as `str::split_whitespace` gives them.
pub fn split_whitespace_chars(s: &[char]) -> (r: Vec<Vec<char>>)
    ensures
        views(r@) == words(s@),
{
    let mut r: Vec<Vec<char>> = Vec::new();
    let mut start: usize = 0;
    assert(s@.skip(0) =~= s@);
    assert(views(r@) + words(s@) =~= words(s@));
    while start < s.len()
        invariant
            start <= s@.len(),
            words(s@) == views(r@) + words(s@.skip(start as int)),
        decreases s@.len() - start,
    {
        let ghost rest = s@.skip(start as int);
        if char_is_ws(s[start]) {
            assert(rest.drop_first() =~= s@.skip(start + 1));
            start = start + 1;
        } else {
            let mut k: usize = start + 1;
            while k < s.len() && !char_is_ws(s[k])
                invariant
                    start < k <= s@.len(),
                    forall|j: int| start <= j < k ==> !is_ws(#[trigger] s@[j]),
                decreases s@.len() - k,
            {
                k = k + 1;
            }
            proof {
                lemma_ws_from(rest, 0);
                lemma_ws_from(rest, 1);
                let w = ws_from(rest, 0);
                if w < k - start {
                    assert(rest[w] == s@[start + w]);
                }
                if k - start < w {
                    assert(rest[k - start] == s@[k as int]);
                }
                assert(w == k - start);
                assert(rest.take(w) =~= s@.subrange(start as int, k as int));
                assert(rest.skip(w) =~= s@.skip(k as int));
            }
            let piece = slice_range(s, start, k);
            proof {
                lemma_views_push(r@, piece);
            }
            r.push(piece);
            start = k;
        }
    }
    assert(s@.skip(start as int) =~= Seq::<char>::empty());
    assert(views(r@) + Seq::<Seq<char>>::empty() =~= views(r@));
    r
}

/// Why a string is no unsigned integer (`std::num::IntErrorKind`, as far as
/// unsigned types go).
#[derive(Debug, Clone, Copy, PartialEq, Eq, Structural)]
pub enum IntError {
    Empty,
    InvalidDigit,
    PosOverflow,
}

/// Reading digits left to right from the value `acc`: the first character that
/// is no digit, or the first digit that takes the value past `max`, ends it.
pub open spec fn scan_digits(d: Seq<char>, acc: nat, max: nat) -> Result<nat, IntError>
    decreases d.len(),
{
    if d.len() == 0 {
        Ok(acc)
    } else if !is_ascii_digit(d[0]) {
        Err(IntError::InvalidDigit)
    } else if acc * 10 + (d[0] as nat - 48) > max {
        Err(IntError::PosOverflow)
    } else {
        scan_digits(d.drop_first(), (acc * 10 + (d[0] as nat - 48)) as nat, max)
    }
}

/// What `str::parse` gives for an unsigned type whose largest value is `max`.
pub open spec fn parse_int(s: Seq<char>, max: nat) -> Result<nat, IntError> {
    if s.len() == 0 {
        Err(IntError::Empty)
    } else if unsigned_digits(s).len() == 0 {
        Err(IntError::InvalidDigit)
    } else {
        scan_digits(unsigned_digits(s), 0, max)
    }
}

/// The message `ParseIntError` shows for each kind.
pub open spec fn int_error_message(e: IntError) -> Seq<char> {
    match e {
        IntError::Empty => "cannot parse integer from empty string"@,
        IntError::InvalidDigit => "invalid digit found in string"@,
        IntError::PosOverflow => "number too large to fit in target type"@,
    }
}

impl IntError {
    /// The error's message, as `ParseIntError` shows it.
    pub fn message(&self) -> (r: &'static str)
        ensures
            r@ == int_error_message(*self),
    {
        match self {
            IntError::Empty => "cannot parse integer from empty string",
            IntError::InvalidDigit => "invalid digit found in string",
            IntError::PosOverflow => "number too large to fit in target type",
        }
    }
}

/// Parses an unsigned decimal number no larger than `max`, telling why it fails.
pub fn parse_int_chars(s: &[char], max: u64) -> (r: Result<u64, IntError>)
    ensures
        match r {
            Ok(v) => parse_int(s@, max as nat) == Ok::<nat, IntError>(v as nat) && v <= max,
            Err(e) => parse_int(s@, max as nat) == Err::<nat, IntError>(e),
        },
{
    if s.len() == 0 {
        return Err(IntError::Empty);
    }
    let ghost d = unsigned_digits(s@);
    let start: usize = if s[0] == '+' { 1 } else { 0 };
    assert(d =~= s@.skip(start as int));
    if start == s.len() {
        return Err(IntError::InvalidDigit);
    }
    let mut v: u64 = 0;
    let mut i: usize = start;
    assert(d.skip(0) =~= d);
    while i < s.len()
        invariant
            start <= i <= s@.len(),
            d == s@.skip(start as int),
            d == unsigned_digits(s@),
            d.len() > 0,
            v <= max,
            parse_int(s@, max as nat) == scan_digits(d.skip(i - start), v as nat, max as nat),
        decreases s@.len() - i,
    {
        let c = s[i];
        let ghost rest = d.skip(i - start);
        assert(rest[0] == c);
        assert(rest.drop_first() =~= d.skip(i - start + 1));
        if !('0' <= c && c <= '9') {
            return Err(IntError::InvalidDigit);
        }
        let dig: u64 = (c as u32 - 48) as u64;
        if dig > max || v > (max - dig) / 10 {
            proof {
                if dig <= max {
                    assert(v * 10 + dig > max) by (nonlinear_arith)
                        requires v > (max - dig) / 10, dig <= max;
                }
            }
            return Err(IntError::PosOverflow);
        }
        assert(v * 10 + dig <= max) by (nonlinear_arith)
            requires v <= (max - dig) / 10, dig <= max;
        v = v * 10 + dig;
        i = i + 1;
    }
    assert(d.skip(i - start).len() == 0);
    Ok(v)
}

/// Parses a `u64` as `str::parse::<u64>` does, telling why it fails.
pub fn parse_u64_detailed(s: &str) -> (r: Result<u64, IntError>)
    ensures
        match r {
            Ok(v) => parse_int(s@, u64::MAX as nat) == Ok::<nat, IntError>(v as nat),
            Err(e) => parse_int(s@, u64::MAX as nat) == Err::<nat, IntError>(e),
        },
{
    parse_int_chars(chars_of(s).as_slice(), u64::MAX)
}

// ---------------------------------------------------------------------------
// Replacing
// ---------------------------------------------------------------------------

/// `str::replace` with a non-empty pattern: each occurrence of `p`, left to
/// right and not overlapping, becomes `r`.
pub open spec fn replace_all(s: Seq<char>, p: Seq<char>, r: Seq<char>) -> Seq<char>
    recommends
        p.len() > 0,
    decreases s.len(),
{
    if p.len() == 0 {
        s
    } else {
        match find_seq(s, p) {
            None => s,
            Some(k) => {
                proof {
                    lemma_find_from_bounds(s, p, 0);
                }
                s.take(k) + r + replace_all(s.skip(k + p.len()), p, r)
            },
        }
    }
}

/// Replaces each occurrence of the non-empty pattern `p` in `s` by `r`.
pub fn replace_str(s: &str, p: &str, r: &str) -> (out: String)
    requires
        p@.len() > 0,
    ensures
        out@ == replace_all(s@, p@, r@),
{
    let sc = chars_of(s);
    let pc = chars_of(p);
    let mut out = String::new();
    let mut start: usize = 0;
    assert(sc@.skip(0) =~= sc@);
    assert(out@ + replace_all(sc@, p@, r@) =~= replace_all(sc@, p@, r@));
    loop
        invariant
            sc@ == s@,
            pc@ == p@,
            p@.len() > 0,
            start <= sc@.len(),
            replace_all(s@, p@, r@) == out@ + replace_all(sc@.skip(start as int), p@, r@),
        decreases sc@.len() - start,
    {
        let rest = slice_range(sc.as_slice(), start, sc.len());
        assert(rest@ =~= sc@.skip(start as int));
        match find_chars(rest.as_slice(), pc.as_slice()) {
            None => {
                push_chars(&mut out, rest.as_slice());
                return out;
            },
            Some(k) => {
                proof {
                    lemma_find_from_bounds(rest@, p@, 0);
                }
                let before = slice_range(rest.as_slice(), 0, k);
                assert(before@ =~= rest@.take(k as int));
                let ghost prev = out@;
                push_chars(&mut out, before.as_slice());
                push_str(&mut out, r);
                assert(rest@.skip(k + p@.len()) =~= sc@.skip(start + k + p@.len()));
                assert(prev + (rest@.take(k as int) + r@ + replace_all(rest@.skip(k + p@.len()), p@, r@))
                    =~= out@ + replace_all(rest@.skip(k + p@.len()), p@, r@));
                start = start + k + pc.len();
            },
        }
    }
}

/// `split` always gives at least one piece.
pub proof fn lemma_split_char_nonempty(s: Seq<char>, c: char)
    ensures
        split_char(s, c).len() > 0,
    decreases s.len(),
{
    match find_char_from(s, c, 0) {
        None => {},
        Some(k) => {
            lemma_find_char_from(s, c, 0);
            lemma_split_char_nonempty(s.skip(k + 1), c);
        },
    }
}

/// Whether every character is an ASCII digit.
pub open spec fn all_digits(s: Seq<char>) -> bool {
    forall|i: int| 0 <= i < s.len() ==> is_ascii_digit(#[trigger] s[i])
}

/// The value of a string of decimal digits.
pub open spec fn digits_value(s: Seq<char>) -> nat
    decreases s.len(),
{
    if s.len() == 0 {
        0
    } else {
        digits_value(s.drop_last()) * 10 + (s.last() as nat - 48) as nat
    }
}

/// The number of bytes UTF-8 takes for `c`.
pub open spec fn char_utf8_len(c: char) -> nat {
    if (c as u32) < 0x80 {
        1
    } else if (c as u32) < 0x800 {
        2
    } else if (c as u32) < 0x10000 {
        3
    } else {
        4
    }
}

/// The number of bytes UTF-8 takes for `s` (`str::len`).
pub open spec fn utf8_len(s: Seq<char>) -> nat
    decreases s.len(),
{
    if s.len() == 0 { 0 } else { char_utf8_len(s[0]) + utf8_len(s.drop_first()) }
}

/// How many characters of `s` fit in its first `n` bytes.
pub open spec fn chars_in_bytes(s: Seq<char>, n: nat) -> nat
    decreases s.len(),
{
    if s.len() > 0 && char_utf8_len(s[0]) <= n {
        1 + chars_in_bytes(s.drop_first(), (n - char_utf8_len(s[0])) as nat)
    } else {
        0
    }
}

/// Whether byte `n` of `s` begins a character or ends the text
/// (`str::is_char_boundary`).
pub open spec fn is_char_boundary(s: Seq<char>, n: nat) -> bool
    decreases s.len(),
{
    if n == 0 {
        true
    } else if s.len() > 0 && char_utf8_len(s[0]) <= n {
        is_char_boundary(s.drop_first(), (n - char_utf8_len(s[0])) as nat)
    } else {
        false
    }
}

/// The number of bytes UTF-8 takes for `c`.
pub fn char_utf8_len_exec(c: char) -> (r: usize)
    ensures
        r as nat == char_utf8_len(c),
{
    if (c as u32) < 0x80 {
        1
    } else if (c as u32) < 0x800 {
        2
    } else if (c as u32) < 0x10000 {
        3
    } else {
        4
    }
}

/// The number of bytes UTF-8 takes for `s`.
pub fn utf8_len_exec(s: &[char]) -> (r: u128)
    ensures
        r as nat == utf8_len(s@),
{
    let mut acc: u128 = 0;
    let mut i: usize = 0;
    assert(s@.skip(0) =~= s@);
    while i < s.len()
        invariant
            i <= s@.len(),
            acc <= 4 * i,
            utf8_len(s@) == acc + utf8_len(s@.skip(i as int)),
        decreases s@.len() - i,
    {
        let ghost t = s@.skip(i as int);
        assert(t[0] == s@[i as int]);
        assert(t.drop_first() =~= s@.skip(i + 1));
        acc = acc + char_utf8_len_exec(s[i]) as u128;
        i = i + 1;
    }
    assert(s@.skip(i as int) =~= Seq::<char>::empty());
    acc
}

/// How many characters of `s` fit in its first `n` bytes.
pub fn chars_in_bytes_exec(s: &[char], n: u128) -> (r: usize)
    ensures
        r as nat == chars_in_bytes(s@, n as nat),
        r <= s@.len(),
{
    let mut i: usize = 0;
    let mut bytes: u128 = 0;
    assert(s@.skip(0) =~= s@);
    while i < s.len() && (char_utf8_len_exec(s[i]) as u128) <= n - bytes
        invariant
            i <= s@.len(),
            bytes <= n,
            chars_in_bytes(s@, n as nat) == i + chars_in_bytes(s@.skip(i as int), (n - bytes) as nat),
        decreases s@.len() - i,
    {
        let ghost t = s@.skip(i as int);
        assert(t[0] == s@[i as int]);
        assert(t.drop_first() =~= s@.skip(i + 1));
        bytes = bytes + char_utf8_len_exec(s[i]) as u128;
        i = i + 1;
    }
    if i < s.len() {
        let ghost t = s@.skip(i as int);
        assert(t[0] == s@[i as int]);
    } else {
        assert(s@.skip(i as int) =~= Seq::<char>::empty());
    }
    i
}

} // verus!
