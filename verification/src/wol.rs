//! Wake-on-LAN: MAC address parsing, the magic packet, and MAC lookup in the
//! output of `arp -n`.

use vstd::prelude::*;
use crate::error::Error;
use crate::process::{CommandStdout, decode_utf8_lossy, utf8_lossy};
use crate::text::{
    ascii_upper, ascii_upper_seq, char_is_ascii_hexdigit, char_to_ascii_upper, chars_of,
    decimal, hex_digit_value, hex_value, is_ascii_hexdigit, lines,
    lines_of, push_char, push_decimal, push_str, slice_range, split_whitespace_chars, views, words,
};

verus! {

/// The hexadecimal digits of `s`, in order.
pub open spec fn keep_hex(s: Seq<char>) -> Seq<char>
    decreases s.len(),
{
    if s.len() == 0 {
        s
    } else if is_ascii_hexdigit(s.last()) {
        keep_hex(s.drop_last()).push(s.last())
    } else {
        keep_hex(s.drop_last())
    }
}

/// The number of `:` and `-` characters in `s`.
pub open spec fn count_sep(s: Seq<char>) -> nat
    decreases s.len(),
{
    if s.len() == 0 {
        0
    } else if s.last() == ':' || s.last() == '-' {
        count_sep(s.drop_last()) + 1
    } else {
        count_sep(s.drop_last())
    }
}

/// The six bytes written by twelve hexadecimal digits, two per byte.
pub open spec fn mac_bytes(h: Seq<char>) -> Seq<u8> {
    Seq::new(6, |i: int| (hex_value(h[2 * i]) * 16 + hex_value(h[2 * i + 1])) as u8)
}

/// A MAC address is read from its hexadecimal digits alone, whatever
/// separates them; it needs exactly twelve.
pub open spec fn mac_parse(s: Seq<char>) -> Option<Seq<u8>> {
    if keep_hex(s).len() == 12 {
        Some(mac_bytes(keep_hex(s)))
    } else {
        None
    }
}

/// The message of a MAC address without twelve hexadecimal digits.
pub open spec fn bad_mac_message(s: Seq<char>) -> Seq<char> {
    "Invalid MAC address '"@ + s + "': expected 12 hex digits, got "@ + decimal(keep_hex(s).len())
}

fn hex_only(s: &[char]) -> (r: Vec<char>)
    ensures
        r@ == keep_hex(s@),
{
    let mut r: Vec<char> = Vec::new();
    let mut i: usize = 0;
    while i < s.len()
        invariant
            i <= s@.len(),
            r@ == keep_hex(s@.take(i as int)),
        decreases s@.len() - i,
    {
        let ghost t = s@.take(i as int + 1);
        assert(t.drop_last() =~= s@.take(i as int));
        if char_is_ascii_hexdigit(s[i]) {
            r.push(s[i]);
        }
        i = i + 1;
    }
    assert(s@.take(s@.len() as int) =~= s@);
    r
}

proof fn lemma_keep_hex_digits(s: Seq<char>)
    ensures
        forall|i: int| 0 <= i < keep_hex(s).len() ==> is_ascii_hexdigit(#[trigger] keep_hex(s)[i]),
    decreases s.len(),
{
    if s.len() > 0 {
        let p = keep_hex(s.drop_last());
        lemma_keep_hex_digits(s.drop_last());
        if is_ascii_hexdigit(s.last()) {
            assert forall|i: int| 0 <= i < keep_hex(s).len() implies is_ascii_hexdigit(#[trigger] keep_hex(s)[i]) by {
                if i < p.len() {
                    assert(keep_hex(s)[i] == p[i]);
                }
            }
        }
    }
}

/// Parse MAC address string into bytes
pub fn parse_mac_address(mac: &str) -> (r: Result<[u8; 6], Error>)
    ensures
        match r {
            Ok(b) => mac_parse(mac@) == Some(b@),
            Err(e) => mac_parse(mac@) is None && (e matches Error::Config(m) && m@ == bad_mac_message(mac@)),
        },
{
    let cleaned = hex_only(chars_of(mac).as_slice());
    proof {
        lemma_keep_hex_digits(mac@);
    }
    if cleaned.len() != 12 {
        let mut m = String::new();
        push_str(&mut m, "Invalid MAC address '");
        push_str(&mut m, mac);
        push_str(&mut m, "': expected 12 hex digits, got ");
        push_decimal(&mut m, cleaned.len() as u64);
        return Err(Error::Config(m));
    }
    let mut bytes = [0u8; 6];
    let mut i: usize = 0;
    while i < 6
        invariant
            cleaned@ == keep_hex(mac@),
            cleaned@.len() == 12,
            forall|k: int| 0 <= k < 12 ==> is_ascii_hexdigit(#[trigger] cleaned@[k]),
            i <= 6,
            forall|k: int| 0 <= k < i ==> bytes@[k] == #[trigger] mac_bytes(cleaned@)[k],
        decreases 6 - i,
    {
        let hi = hex_digit_value(cleaned[2 * i]);
        let lo = hex_digit_value(cleaned[2 * i + 1]);
        bytes[i] = hi * 16 + lo;
        i = i + 1;
    }
    assert(bytes@ =~= mac_bytes(cleaned@));
    Ok(bytes)
}

/// The magic packet for a MAC address: six bytes 0xFF, then the address
/// sixteen times.
pub open spec fn magic_packet(mac: Seq<u8>) -> Seq<u8> {
    Seq::new(102, |i: int| if i < 6 { 0xFFu8 } else { mac[(i - 6) % 6] })
}

/// Build the WOL magic packet
///
/// Format: 6 bytes of 0xFF followed by 16 repetitions of the MAC address
pub fn build_magic_packet(mac: &[u8; 6]) -> (r: [u8; 102])
    ensures
        r@ == magic_packet(mac@),
{
    let mut packet = [0u8; 102];
    let mut i: usize = 0;
    while i < 6
        invariant
            i <= 6,
            forall|k: int| 0 <= k < i ==> packet@[k] == 0xFFu8,
        decreases 6 - i,
    {
        packet[i] = 0xFF;
        i = i + 1;
    }
    let mut j: usize = 6;
    while j < 102
        invariant
            6 <= j <= 102,
            forall|k: int| 0 <= k < 6 ==> packet@[k] == 0xFFu8,
            forall|k: int| 6 <= k < j ==> packet@[k] == mac@[(k - 6) % 6],
        decreases 102 - j,
    {
        packet[j] = mac[(j - 6) % 6];
        j = j + 1;
    }
    assert(packet@ =~= magic_packet(mac@));
    packet
}

/// Twelve characters written as six colon-separated pairs.
pub open spec fn colon_pairs(h: Seq<char>) -> Seq<char> {
    h.subrange(0, 2) + seq![':'] + h.subrange(2, 4) + seq![':'] + h.subrange(4, 6) + seq![':']
        + h.subrange(6, 8) + seq![':'] + h.subrange(8, 10) + seq![':'] + h.subrange(10, 12)
}

/// The MAC address a word of `arp` output holds, upper-cased and written with
/// colons: it needs twelve hexadecimal digits and five separators.
pub open spec fn word_mac(w: Seq<char>) -> Option<Seq<char>> {
    if keep_hex(w).len() == 12 && count_sep(w) == 5 {
        Some(colon_pairs(ascii_upper_seq(keep_hex(w))))
    } else {
        None
    }
}

/// The MAC address of the first word that holds one.
pub open spec fn first_word_mac(ws: Seq<Seq<char>>) -> Option<Seq<char>>
    decreases ws.len(),
{
    if ws.len() == 0 {
        None
    } else {
        match word_mac(ws[0]) {
            Some(m) => Some(m),
            None => first_word_mac(ws.drop_first()),
        }
    }
}

/// A word of an `arp` line without the parentheses macOS puts around the
/// address (`? (ip) at ...`).
pub open spec fn strip_parens(w: Seq<char>) -> Seq<char> {
    let a = if w.len() > 0 && w[0] == '(' { w.drop_first() } else { w };
    if a.len() > 0 && a.last() == ')' { a.drop_last() } else { a }
}

/// Some word of the line, without its parentheses, is the address `ip`.
pub open spec fn names_ip(ws: Seq<Seq<char>>, ip: Seq<char>) -> bool {
    exists|i: int| 0 <= i < ws.len() && strip_parens(#[trigger] ws[i]) == ip
}

/// The MAC address on the first line that names `ip` (one of its words,
/// without parentheses, is `ip`) and holds one.
pub open spec fn arp_mac(ls: Seq<Seq<char>>, ip: Seq<char>) -> Option<Seq<char>>
    decreases ls.len(),
{
    if ls.len() == 0 {
        None
    } else if names_ip(words(ls[0]), ip) && first_word_mac(words(ls[0])) is Some {
        first_word_mac(words(ls[0]))
    } else {
        arp_mac(ls.drop_first(), ip)
    }
}

fn count_separators(s: &[char]) -> (r: usize)
    ensures
        r as nat == count_sep(s@),
{
    let mut n: usize = 0;
    let mut i: usize = 0;
    while i < s.len()
        invariant
            i <= s@.len(),
            n as nat == count_sep(s@.take(i as int)),
            n <= i,
        decreases s@.len() - i,
    {
        let ghost t = s@.take(i as int + 1);
        assert(t.drop_last() =~= s@.take(i as int));
        if s[i] == ':' || s[i] == '-' {
            n = n + 1;
        }
        i = i + 1;
    }
    assert(s@.take(s@.len() as int) =~= s@);
    n
}

fn mac_of_word(w: &[char]) -> (r: Option<String>)
    ensures
        match r {
            Some(m) => word_mac(w@) == Some(m@),
            None => word_mac(w@) is None,
        },
{
    let hex = hex_only(w);
    if hex.len() != 12 || count_separators(w) != 5 {
        return None;
    }
    let mut m = String::new();
    let mut i: usize = 0;
    let ghost up = ascii_upper_seq(hex@);
    while i < 12
        invariant
            hex@.len() == 12,
            up == ascii_upper_seq(hex@),
            i <= 12,
            i % 2 == 0,
            i == 0 ==> m@ == Seq::<char>::empty(),
            i > 0 ==> m@ == colon_prefix(up, i as int),
        decreases 12 - i,
    {
        if i > 0 {
            push_char(&mut m, ':');
        }
        push_char(&mut m, char_to_ascii_upper(hex[i]));
        push_char(&mut m, char_to_ascii_upper(hex[i + 1]));
        proof {
            assert(up[i as int] == ascii_upper(hex@[i as int]));
            assert(up[i + 1] == ascii_upper(hex@[i + 1]));
            assert(m@ =~= colon_prefix(up, i + 2));
        }
        i = i + 2;
    }
    proof {
        reveal_with_fuel(colon_prefix, 7);
        assert(colon_prefix(up, 12) =~= colon_pairs(up));
    }
    Some(m)
}

/// The first `n` characters of `h` (`n` even) as colon-separated pairs.
pub open spec fn colon_prefix(h: Seq<char>, n: int) -> Seq<char>
    decreases n,
{
    if n <= 2 {
        h.subrange(0, 2)
    } else {
        colon_prefix(h, n - 2) + seq![':'] + h.subrange(n - 2, n)
    }
}

/// Whether the word, without parentheses, is `ip`.
fn word_is_ip(w: &[char], ip: &[char]) -> (r: bool)
    ensures
        r == (strip_parens(w@) == ip@),
{
    let start: usize = if w.len() > 0 && w[0] == '(' { 1 } else { 0 };
    let end: usize = if w.len() > start && w[w.len() - 1] == ')' { w.len() - 1 } else { w.len() };
    let core = slice_range(w, start, end);
    proof {
        let a = if w@.len() > 0 && w@[0] == '(' { w@.drop_first() } else { w@ };
        assert(a =~= w@.subrange(start as int, w@.len() as int));
        if a.len() > 0 && a.last() == ')' {
            assert(a.drop_last() =~= core@);
        } else {
            assert(a =~= core@);
        }
    }
    crate::paths::chars_eq(core.as_slice(), ip)
}

/// Whether some word of a line names `ip`.
fn line_names_ip(ws: &Vec<Vec<char>>, ip: &[char]) -> (r: bool)
    ensures
        r == names_ip(views(ws@), ip@),
{
    let ghost wv = views(ws@);
    let mut j: usize = 0;
    while j < ws.len()
        invariant
            j <= ws@.len(),
            wv == views(ws@),
            forall|k: int| 0 <= k < j ==> strip_parens(#[trigger] wv[k]) != ip@,
        decreases ws@.len() - j,
    {
        assert(wv[j as int] == ws@[j as int]@);
        if word_is_ip(ws[j].as_slice(), ip) {
            assert(strip_parens(wv[j as int]) == ip@);
            return true;
        }
        j = j + 1;
    }
    false
}

/// Parse ARP command output to extract MAC address
pub fn parse_arp_output(output: &str, ip: &str) -> (r: Option<String>)
    ensures
        match r {
            Some(m) => arp_mac(lines(output@), ip@) == Some(m@),
            None => arp_mac(lines(output@), ip@) is None,
        },
{
    let ls = lines_of(chars_of(output).as_slice());
    let ipc = chars_of(ip);
    let ghost lv = views(ls@);
    let mut i: usize = 0;
    assert(lv.skip(0) =~= lv);
    while i < ls.len()
        invariant
            lv == views(ls@),
            lv == lines(output@),
            ipc@ == ip@,
            i <= ls@.len(),
            arp_mac(lv, ip@) == arp_mac(lv.skip(i as int), ip@),
        decreases ls@.len() - i,
    {
        let ghost rest = lv.skip(i as int);
        assert(rest[0] == ls@[i as int]@);
        assert(rest.drop_first() =~= lv.skip(i + 1));
        let ws = split_whitespace_chars(ls[i].as_slice());
        let ghost wv = views(ws@);
        if line_names_ip(&ws, ipc.as_slice()) {
            let mut j: usize = 0;
            assert(wv.skip(0) =~= wv);
            while j < ws.len()
                invariant
                    i < ls@.len(),
                    lv == views(ls@),
                    lv == lines(output@),
                    ipc@ == ip@,
                    arp_mac(lv, ip@) == arp_mac(lv.skip(i as int), ip@),
                    names_ip(wv, ip@),
                    wv == views(ws@),
                    wv == words(ls@[i as int]@),
                    j <= ws@.len(),
                    first_word_mac(wv) == first_word_mac(wv.skip(j as int)),
                decreases ws@.len() - j,
            {
                let ghost wrest = wv.skip(j as int);
                assert(wrest[0] == ws@[j as int]@);
                assert(wrest.drop_first() =~= wv.skip(j + 1));
                if let Some(m) = mac_of_word(ws[j].as_slice()) {
                    return Some(m);
                }
                j = j + 1;
            }
            assert(wv.skip(j as int).len() == 0);
        }
        i = i + 1;
    }
    assert(lv.skip(i as int).len() == 0);
    None
}

/// The MAC address that the output of `arp -n <ip>` gives for `ip`: none where
/// the command could not run, timed out, or failed.
pub open spec fn arp_lookup(ip: Seq<char>, output: Option<CommandStdout>) -> Option<Seq<char>> {
    match output {
        None => None,
        Some(o) => if o.success {
            arp_mac(lines(utf8_lossy(o.stdout@)), ip)
        } else {
            None
        },
    }
}

/// Get MAC address from ARP table for a given IP, given what `arp -n <ip>`
/// returned (`None` where it could not run or timed out).
pub fn get_mac_from_arp(ip: &str, output: Option<CommandStdout>) -> (r: Option<String>)
    ensures
        match r {
            Some(m) => arp_lookup(ip@, output) == Some(m@),
            None => arp_lookup(ip@, output) is None,
        },
{
    match output {
        None => None,
        Some(o) => {
            if !o.success {
                return None;
            }
            let stdout = decode_utf8_lossy(o.stdout.as_slice());
            parse_arp_output(stdout.as_str(), ip)
        },
    }
}


proof fn lemma_keep_hex_concat(a: Seq<char>, b: Seq<char>)
    ensures
        keep_hex(a + b) == keep_hex(a) + keep_hex(b),
    decreases b.len(),
{
    if b.len() == 0 {
        assert(a + b =~= a);
        assert(keep_hex(a) + keep_hex(b) =~= keep_hex(a));
    } else {
        assert((a + b).drop_last() =~= a + b.drop_last());
        assert((a + b).last() == b.last());
        lemma_keep_hex_concat(a, b.drop_last());
        if is_ascii_hexdigit(b.last()) {
            assert(keep_hex(a) + keep_hex(b) =~= (keep_hex(a) + keep_hex(b.drop_last())).push(b.last()));
        }
    }
}

proof fn lemma_keep_hex_all(s: Seq<char>)
    requires
        forall|i: int| 0 <= i < s.len() ==> is_ascii_hexdigit(#[trigger] s[i]),
    ensures
        keep_hex(s) == s,
    decreases s.len(),
{
    if s.len() > 0 {
        lemma_keep_hex_all(s.drop_last());
        assert(s.drop_last().push(s.last()) =~= s);
    }
}

proof fn lemma_word_mac_parses(w: Seq<char>)
    requires
        word_mac(w) is Some,
    ensures
        word_mac(w)->0.len() == 17,
        mac_parse(word_mac(w)->0) == Some(mac_bytes(ascii_upper_seq(keep_hex(w)))),
{
    let h = keep_hex(w);
    let u = ascii_upper_seq(h);
    lemma_keep_hex_digits(w);
    assert forall|i: int| 0 <= i < u.len() implies is_ascii_hexdigit(#[trigger] u[i]) by {
        assert(is_ascii_hexdigit(h[i]));
    }
    let c = seq![':'];
    assert(keep_hex(c) =~= Seq::<char>::empty()) by {
        assert(c.drop_last() =~= Seq::<char>::empty());
        assert(c.last() == ':');
        assert(!is_ascii_hexdigit(':'));
        assert(keep_hex(c) == keep_hex(c.drop_last()));
        assert(keep_hex(Seq::<char>::empty()) == Seq::<char>::empty());
    }
    let p0 = u.subrange(0, 2);
    let p1 = u.subrange(2, 4);
    let p2 = u.subrange(4, 6);
    let p3 = u.subrange(6, 8);
    let p4 = u.subrange(8, 10);
    let p5 = u.subrange(10, 12);
    lemma_keep_hex_all(p0);
    lemma_keep_hex_all(p1);
    lemma_keep_hex_all(p2);
    lemma_keep_hex_all(p3);
    lemma_keep_hex_all(p4);
    lemma_keep_hex_all(p5);
    lemma_keep_hex_concat(p0, c);
    lemma_keep_hex_concat(p0 + c, p1);
    lemma_keep_hex_concat(p0 + c + p1, c);
    lemma_keep_hex_concat(p0 + c + p1 + c, p2);
    lemma_keep_hex_concat(p0 + c + p1 + c + p2, c);
    lemma_keep_hex_concat(p0 + c + p1 + c + p2 + c, p3);
    lemma_keep_hex_concat(p0 + c + p1 + c + p2 + c + p3, c);
    lemma_keep_hex_concat(p0 + c + p1 + c + p2 + c + p3 + c, p4);
    lemma_keep_hex_concat(p0 + c + p1 + c + p2 + c + p3 + c + p4, c);
    lemma_keep_hex_concat(p0 + c + p1 + c + p2 + c + p3 + c + p4 + c, p5);
    assert(p0 + p1 + p2 + p3 + p4 + p5 =~= u);
    assert(keep_hex(colon_pairs(u)) =~= u);
}

proof fn lemma_first_word_mac(ws: Seq<Seq<char>>)
    requires
        first_word_mac(ws) is Some,
    ensures
        exists|w: Seq<char>| word_mac(w) == first_word_mac(ws),
    decreases ws.len(),
{
    if word_mac(ws[0]) is None {
        lemma_first_word_mac(ws.drop_first());
    } else {
        assert(word_mac(ws[0]) == first_word_mac(ws));
    }
}

proof fn lemma_arp_mac(ls: Seq<Seq<char>>, ip: Seq<char>)
    requires
        arp_mac(ls, ip) is Some,
    ensures
        exists|w: Seq<char>| word_mac(w) == arp_mac(ls, ip),
    decreases ls.len(),
{
    if names_ip(words(ls[0]), ip) && first_word_mac(words(ls[0])) is Some {
        lemma_first_word_mac(words(ls[0]));
    } else {
        lemma_arp_mac(ls.drop_first(), ip);
    }
}

/// A MAC address found in `arp` output is written as six colon-separated
/// pairs of upper-case digits, and `parse_mac_address` accepts it.
pub proof fn arp_mac_is_parseable(output: Seq<char>, ip: Seq<char>)
    ensures
        arp_mac(lines(output), ip) matches Some(m) ==> m.len() == 17 && mac_parse(m) is Some,
{
    if arp_mac(lines(output), ip) is Some {
        lemma_arp_mac(lines(output), ip);
        let w = choose|w: Seq<char>| word_mac(w) == arp_mac(lines(output), ip);
        lemma_word_mac_parses(w);
    }
}

/// Every magic packet is 102 bytes: six 0xFF bytes, then the address sixteen
/// times over.
pub proof fn magic_packet_layout(mac: Seq<u8>)
    requires
        mac.len() == 6,
    ensures
        magic_packet(mac).len() == 102,
        magic_packet(mac).take(6) == seq![0xFFu8, 0xFFu8, 0xFFu8, 0xFFu8, 0xFFu8, 0xFFu8],
        forall|k: int| 0 <= k < 16 ==> #[trigger] magic_packet(mac).subrange(6 + 6 * k, 12 + 6 * k) == mac,
{
    assert(magic_packet(mac).take(6) =~= seq![0xFFu8, 0xFFu8, 0xFFu8, 0xFFu8, 0xFFu8, 0xFFu8]);
    assert forall|k: int| 0 <= k < 16 implies #[trigger] magic_packet(mac).subrange(6 + 6 * k, 12 + 6 * k) == mac by {
        assert forall|j: int| 0 <= j < 6 implies magic_packet(mac).subrange(6 + 6 * k, 12 + 6 * k)[j] == mac[j] by {
            assert((6 + 6 * k + j - 6) % 6 == j) by (nonlinear_arith)
                requires 0 <= j < 6, 0 <= k;
        }
        assert(magic_packet(mac).subrange(6 + 6 * k, 12 + 6 * k) =~= mac);
    }
}
} // verus!
