//! Durations as the command line reads and shows them: whole seconds, or
//! `MM:SS`, or `HH:MM:SS`.

use vstd::prelude::*;
use crate::text::{
    chars_of, decimal, digit_char, int_error_message, is_ascii_digit, pad2, parse_int,
    parse_int_chars, parse_u64_detailed, push_pad2, push_str, scan_digits, split_char,
    split_chars, unsigned_digits, views, find_char_from, lemma_find_char_from, IntError,
};

verus! {

/// A number of seconds, a count of minutes and seconds, or of hours, minutes
/// and seconds: the value in seconds, or the message of the first failure.
pub open spec fn duration_parse(s: Seq<char>) -> Result<nat, Seq<char>> {
    match parse_int(s, u64::MAX as nat) {
        Ok(v) => Ok(v),
        Err(_) => {
            let parts = split_char(s, ':');
            if parts.len() == 2 {
                match (parse_int(parts[0], u64::MAX as nat), parse_int(parts[1], u64::MAX as nat)) {
                    (Err(e), _) => Err(int_error_message(e)),
                    (Ok(_), Err(e)) => Err(int_error_message(e)),
                    (Ok(m), Ok(sec)) => Ok(m * 60 + sec),
                }
            } else if parts.len() == 3 {
                match (
                    parse_int(parts[0], u64::MAX as nat),
                    parse_int(parts[1], u64::MAX as nat),
                    parse_int(parts[2], u64::MAX as nat),
                ) {
                    (Err(e), _, _) => Err(int_error_message(e)),
                    (Ok(_), Err(e), _) => Err(int_error_message(e)),
                    (Ok(_), Ok(_), Err(e)) => Err(int_error_message(e)),
                    (Ok(h), Ok(m), Ok(sec)) => Ok(h * 3600 + m * 60 + sec),
                }
            } else {
                Err("Invalid duration format: "@ + s)
            }
        },
    }
}

/// Whether the seconds that `s` reads as fit in a `u64`.
pub open spec fn duration_fits(s: Seq<char>) -> bool {
    duration_parse(s) matches Ok(v) ==> v <= u64::MAX
}

fn int_error_string(e: IntError) -> (r: String)
    ensures
        r@ == int_error_message(e),
{
    String::from_str(e.message())
}

/// Whether the seconds that `s` reads as overflow a `u64` (where
/// `parse_duration` cannot be called).
pub fn duration_overflows(s: &str) -> (r: bool)
    ensures
        r == !duration_fits(s@),
{
    if parse_u64_detailed(s).is_ok() {
        return false;
    }
    let cs = chars_of(s);
    let parts = split_chars(cs.as_slice(), ':');
    let ghost pv = views(parts@);
    assert(pv.len() == parts@.len());
    if parts.len() == 2 {
        assert(pv[0] == parts@[0]@ && pv[1] == parts@[1]@);
        match (parse_int_chars(parts[0].as_slice(), u64::MAX), parse_int_chars(parts[1].as_slice(), u64::MAX)) {
            (Ok(m), Ok(sec)) => m > (u64::MAX - sec) / 60,
            _ => false,
        }
    } else if parts.len() == 3 {
        assert(pv[0] == parts@[0]@ && pv[1] == parts@[1]@ && pv[2] == parts@[2]@);
        match (
            parse_int_chars(parts[0].as_slice(), u64::MAX),
            parse_int_chars(parts[1].as_slice(), u64::MAX),
            parse_int_chars(parts[2].as_slice(), u64::MAX),
        ) {
            (Ok(h), Ok(m), Ok(sec)) => {
                if m > (u64::MAX - sec) / 60 {
                    true
                } else {
                    let tail = m * 60 + sec;
                    h > (u64::MAX - tail) / 3600
                }
            },
            _ => false,
        }
    } else {
        false
    }
}

/// Parse duration from string (seconds or HH:MM:SS or MM:SS), in seconds
pub fn parse_duration(s: &str) -> (r: Result<u64, String>)
    requires
        duration_fits(s@),
    ensures
        match r {
            Ok(v) => duration_parse(s@) == Ok::<nat, Seq<char>>(v as nat),
            Err(m) => duration_parse(s@) == Err::<nat, Seq<char>>(m@),
        },
{
    match parse_u64_detailed(s) {
        Ok(secs) => return Ok(secs),
        Err(_) => {},
    }
    let cs = chars_of(s);
    let parts = split_chars(cs.as_slice(), ':');
    let ghost pv = views(parts@);
    assert(pv.len() == parts@.len());
    if parts.len() == 2 {
        assert(pv[0] == parts@[0]@ && pv[1] == parts@[1]@);
        let mins = match parse_int_chars(parts[0].as_slice(), u64::MAX) {
            Ok(v) => v,
            Err(e) => return Err(int_error_string(e)),
        };
        let secs = match parse_int_chars(parts[1].as_slice(), u64::MAX) {
            Ok(v) => v,
            Err(e) => return Err(int_error_string(e)),
        };
        Ok(mins * 60 + secs)
    } else if parts.len() == 3 {
        assert(pv[0] == parts@[0]@ && pv[1] == parts@[1]@ && pv[2] == parts@[2]@);
        let hours = match parse_int_chars(parts[0].as_slice(), u64::MAX) {
            Ok(v) => v,
            Err(e) => return Err(int_error_string(e)),
        };
        let mins = match parse_int_chars(parts[1].as_slice(), u64::MAX) {
            Ok(v) => v,
            Err(e) => return Err(int_error_string(e)),
        };
        let secs = match parse_int_chars(parts[2].as_slice(), u64::MAX) {
            Ok(v) => v,
            Err(e) => return Err(int_error_string(e)),
        };
        Ok(hours * 3600 + mins * 60 + secs)
    } else {
        let mut m = String::new();
        push_str(&mut m, "Invalid duration format: ");
        push_str(&mut m, s);
        Err(m)
    }
}

/// `HH:MM:SS` where there is an hour, else `MM:SS`.
pub open spec fn clock(secs: nat) -> Seq<char> {
    if secs / 3600 > 0 {
        pad2(secs / 3600) + seq![':'] + pad2((secs % 3600) / 60) + seq![':'] + pad2(secs % 60)
    } else {
        pad2((secs % 3600) / 60) + seq![':'] + pad2(secs % 60)
    }
}

/// Format duration (in seconds) as HH:MM:SS or MM:SS
pub fn format_duration(d: u64) -> (r: String)
    ensures
        r@ == clock(d as nat),
{
    let hours = d / 3600;
    let mins = (d % 3600) / 60;
    let secs = d % 60;
    let mut r = String::new();
    if hours > 0 {
        push_pad2(&mut r, hours);
        push_str(&mut r, ":");
    }
    push_pad2(&mut r, mins);
    push_str(&mut r, ":");
    push_pad2(&mut r, secs);
    proof {
        reveal_strlit(":");
    }
    r
}

proof fn lemma_scan_push(s: Seq<char>, c: char, acc: nat, max: nat)
    ensures
        scan_digits(s.push(c), acc, max) == match scan_digits(s, acc, max) {
            Ok(v) => if !is_ascii_digit(c) {
                Err(IntError::InvalidDigit)
            } else if v * 10 + (c as nat - 48) > max {
                Err(IntError::PosOverflow)
            } else {
                Ok((v * 10 + (c as nat - 48)) as nat)
            },
            Err(e) => Err(e),
        },
    decreases s.len(),
{
    if s.len() == 0 {
        assert(s.push(c).drop_first() =~= Seq::<char>::empty());
        assert(s.push(c)[0] == c);
        assert(scan_digits(s, acc, max) == Ok::<nat, IntError>(acc));
        if is_ascii_digit(c) && acc * 10 + (c as nat - 48) <= max {
            assert(scan_digits(Seq::<char>::empty(), (acc * 10 + (c as nat - 48)) as nat, max)
                == Ok::<nat, IntError>((acc * 10 + (c as nat - 48)) as nat));
        }
    } else {
        assert(s.push(c)[0] == s[0]);
        assert(s.push(c).drop_first() =~= s.drop_first().push(c));
        if is_ascii_digit(s[0]) && acc * 10 + (s[0] as nat - 48) <= max {
            lemma_scan_push(s.drop_first(), c, (acc * 10 + (s[0] as nat - 48)) as nat, max);
        }
    }
}

proof fn lemma_digit_char(d: nat)
    requires
        d < 10,
    ensures
        is_ascii_digit(digit_char(d)),
        digit_char(d) as nat - 48 == d,
        digit_char(d) != ':',
        digit_char(d) != '+',
{
}

proof fn lemma_decimal(n: nat, max: nat)
    requires
        n <= max,
    ensures
        scan_digits(decimal(n), 0, max) == Ok::<nat, IntError>(n),
        decimal(n).len() > 0,
        decimal(n)[0] != '+',
        forall|i: int| 0 <= i < decimal(n).len() ==> #[trigger] decimal(n)[i] != ':',
    decreases n,
{
    if n < 10 {
        lemma_digit_char(n);
        assert(seq![digit_char(n)] =~= Seq::<char>::empty().push(digit_char(n)));
        lemma_scan_push(Seq::<char>::empty(), digit_char(n), 0, max);
    } else {
        lemma_decimal(n / 10, max);
        lemma_digit_char(n % 10);
        lemma_scan_push(decimal(n / 10), digit_char(n % 10), 0, max);
        assert((n / 10) * 10 + n % 10 == n);
        let p = decimal(n / 10);
        assert(decimal(n)[0] == p[0]);
        assert forall|i: int| 0 <= i < decimal(n).len() implies #[trigger] decimal(n)[i] != ':' by {
            if i < p.len() {
                assert(decimal(n)[i] == p[i]);
            }
        }
    }
}

proof fn lemma_pad2(n: nat)
    requires
        n <= u64::MAX,
    ensures
        parse_int(pad2(n), u64::MAX as nat) == Ok::<nat, IntError>(n),
        forall|i: int| 0 <= i < pad2(n).len() ==> #[trigger] pad2(n)[i] != ':',
        pad2(n).len() > 0,
        pad2(n)[0] != '+',
{
    if n < 10 {
        lemma_digit_char(n);
        lemma_digit_char(0);
        assert(digit_char(0) == '0');
        let z = seq!['0'];
        assert(z =~= Seq::<char>::empty().push('0'));
        lemma_scan_push(Seq::<char>::empty(), '0', 0, u64::MAX as nat);
        lemma_scan_push(z, digit_char(n), 0, u64::MAX as nat);
        assert(unsigned_digits(pad2(n)) == pad2(n));
    } else {
        lemma_decimal(n, u64::MAX as nat);
        assert(unsigned_digits(pad2(n)) == pad2(n));
    }
}

proof fn lemma_scan_stops(s: Seq<char>, acc: nat, max: nat, k: int)
    requires
        0 <= k < s.len(),
        !is_ascii_digit(s[k]),
    ensures
        scan_digits(s, acc, max) is Err,
    decreases s.len(),
{
    if k > 0 && is_ascii_digit(s[0]) && acc * 10 + (s[0] as nat - 48) <= max {
        assert(s.drop_first()[k - 1] == s[k]);
        lemma_scan_stops(s.drop_first(), (acc * 10 + (s[0] as nat - 48)) as nat, max, k - 1);
    }
}

proof fn lemma_no_colon(s: Seq<char>, i: int)
    requires
        0 <= i,
        forall|j: int| 0 <= j < s.len() ==> #[trigger] s[j] != ':',
    ensures
        find_char_from(s, ':', i) is None,
    decreases s.len() - i,
{
    if i < s.len() {
        lemma_no_colon(s, i + 1);
    }
}

proof fn lemma_split_two(a: Seq<char>, b: Seq<char>)
    requires
        forall|j: int| 0 <= j < a.len() ==> #[trigger] a[j] != ':',
        forall|j: int| 0 <= j < b.len() ==> #[trigger] b[j] != ':',
    ensures
        split_char(a + seq![':'] + b, ':') == seq![a, b],
{
    let s = a + seq![':'] + b;
    assert forall|j: int| 0 <= j < a.len() implies s[j] != ':' by {
        assert(s[j] == a[j]);
    }
    lemma_find_char_from(s, ':', 0);
    assert(s[a.len() as int] == ':');
    assert(find_char_from(s, ':', 0) == Some(a.len() as int));
    assert(s.take(a.len() as int) =~= a);
    assert(s.skip(a.len() as int + 1) =~= b);
    lemma_no_colon(b, 0);
    assert(split_char(b, ':') == seq![b]);
    assert(seq![a] + seq![b] =~= seq![a, b]);
}

/// What `format_duration` writes, `parse_duration` reads back as the same
/// number of seconds: for every `d`, the text `clock(d)` that
/// `format_duration(d)` returns meets `parse_duration`'s `requires`, and
/// `parse_duration` of it returns `Ok(d)`.
pub proof fn format_then_parse(d: u64)
    ensures
        duration_parse(clock(d as nat)) == Ok::<nat, Seq<char>>(d as nat),
        duration_fits(clock(d as nat)),
{
    let n = d as nat;
    let h = n / 3600;
    let m = (n % 3600) / 60;
    let sec = n % 60;
    assert(h <= u64::MAX && m <= u64::MAX && sec <= u64::MAX);
    lemma_pad2(h);
    lemma_pad2(m);
    lemma_pad2(sec);
    let c = clock(n);
    assert(n == h * 3600 + m * 60 + sec) by (nonlinear_arith)
        requires h == n / 3600, m == (n % 3600) / 60, sec == n % 60;
    let ms = pad2(m);
    // the whole text holds a colon, so it is no plain number
    let pre = if h > 0 { pad2(h) + seq![':'] + ms } else { ms };
    assert(c == pre + seq![':'] + pad2(sec));
    assert(c[pre.len() as int] == ':');
    assert(c.len() > 0);
    let dg = unsigned_digits(c);
    if h > 0 {
        assert(c[0] == pad2(h)[0]);
    } else {
        assert(c[0] == ms[0]);
    }
    assert(dg == c);
    lemma_scan_stops(c, 0, u64::MAX as nat, pre.len() as int);
    assert(parse_int(c, u64::MAX as nat) is Err);
    if h > 0 {
        let a = pad2(h);
        lemma_split_two(ms, pad2(sec));
        let tail = ms + seq![':'] + pad2(sec);
        lemma_split_two(a, ms);
        // split `a : ms : sec` piece by piece
        assert(c =~= a + seq![':'] + tail);
        lemma_find_char_from(c, ':', 0);
        assert forall|j: int| 0 <= j < a.len() implies c[j] != ':' by {
            assert(c[j] == a[j]);
        }
        assert(c[a.len() as int] == ':');
        assert(find_char_from(c, ':', 0) == Some(a.len() as int));
        assert(c.take(a.len() as int) =~= a);
        assert(c.skip(a.len() as int + 1) =~= tail);
        assert(split_char(c, ':') =~= seq![a] + seq![ms, pad2(sec)]);
        assert(split_char(c, ':') =~= seq![a, ms, pad2(sec)]);
    } else {
        lemma_split_two(ms, pad2(sec));
        assert(split_char(c, ':') == seq![ms, pad2(sec)]);
        assert(m * 60 + sec == n);
    }
}
} // verus!
