//! Network diagnostics: which switches turn them on, and how long command
//! output is cut for the log. Collecting and logging are left to the caller.

use vstd::prelude::*;
use crate::text::{chars_of, lines, lines_of, push_char, push_chars, push_str, slice_range, views};

verus! {

/// The marker put where output was cut.
pub open spec fn trimmed_marker() -> Seq<char> {
    "\n[output trimmed]"@
}

/// The output of a command cut for the log: whole lines joined by newlines
/// while fewer than `max_lines` lines and `max_chars` characters were taken;
/// a line that would pass `max_chars` is cut there; the marker ends cut
/// output. `out` and `taken` are what the first `idx` lines gave.
pub open spec fn trim_lines(ls: Seq<Seq<char>>, idx: nat, out: Seq<char>, taken: nat, max_chars: nat, max_lines: nat) -> Seq<char>
    decreases ls.len() - idx,
{
    if idx >= ls.len() {
        out
    } else if idx >= max_lines || taken >= max_chars {
        out + trimmed_marker()
    } else {
        let line = ls[idx as int];
        if taken + line.len() > max_chars {
            out + line.take((max_chars - taken) as int) + trimmed_marker()
        } else {
            let out2 = if out.len() == 0 { line } else { out + seq!['\n'] + line };
            trim_lines(ls, idx + 1, out2, taken + line.len(), max_chars, max_lines)
        }
    }
}

/// Cut command output for the log.
pub fn trim_output(input: &str, max_chars: usize, max_lines: usize) -> (r: String)
    ensures
        r@ == trim_lines(lines(input@), 0, Seq::empty(), 0, max_chars as nat, max_lines as nat),
{
    let ls = lines_of(chars_of(input).as_slice());
    let ghost lv = views(ls@);
    let mut out = String::new();
    let mut taken: usize = 0;
    let mut i: usize = 0;
    assert(lv.len() == ls@.len());
    while i < ls.len()
        invariant
            lv == views(ls@),
            lv == lines(input@),
            lv.len() == ls@.len(),
            i <= ls@.len(),
            taken <= max_chars,
            trim_lines(lv, 0, Seq::empty(), 0, max_chars as nat, max_lines as nat)
                == trim_lines(lv, i as nat, out@, taken as nat, max_chars as nat, max_lines as nat),
        decreases ls@.len() - i,
    {
        let line = &ls[i];
        assert(lv[i as int] == line@);
        if i >= max_lines || taken >= max_chars {
            push_str(&mut out, "\n[output trimmed]");
            return out;
        }
        if line.len() > max_chars - taken {
            let part = slice_range(line.as_slice(), 0, max_chars - taken);
            assert(part@ =~= line@.take((max_chars - taken) as int));
            push_chars(&mut out, part.as_slice());
            push_str(&mut out, "\n[output trimmed]");
            return out;
        }
        let ghost before = out@;
        if chars_of(out.as_str()).len() > 0 {
            push_char(&mut out, '\n');
        } else {
            assert(before =~= Seq::<char>::empty());
        }
        push_chars(&mut out, line.as_slice());
        proof {
            let out2 = if before.len() == 0 { line@ } else { before + seq!['\n'] + line@ };
            assert(out@ =~= out2);
        }
        taken = taken + line.len();
        i = i + 1;
    }
    out
}

} // verus!
