//! Unix path arithmetic on path strings, after `std::path::Path`.
//!
//! A path is read as its components: a leading `/` is the root, a leading `.`
//! piece of a relative path is the current directory, and every other piece
//! between separators is kept unless it is empty or `.`.

use vstd::prelude::*;
use crate::text::{chars_of, slice_range, split_char, split_chars, views};

verus! {

/// A piece between separators that names a file or directory.
pub open spec fn is_normal_piece(p: Seq<char>) -> bool {
    p.len() > 0 && p != seq!['.']
}

/// The pieces of `ps` that are kept as components, in order.
pub open spec fn keep_normal(ps: Seq<Seq<char>>) -> Seq<Seq<char>>
    decreases ps.len(),
{
    if ps.len() == 0 {
        seq![]
    } else if is_normal_piece(ps.last()) {
        keep_normal(ps.drop_last()).push(ps.last())
    } else {
        keep_normal(ps.drop_last())
    }
}

/// The components of a path (`Path::components`); the root is `"/"`.
pub open spec fn components(s: Seq<char>) -> Seq<Seq<char>> {
    let ps = split_char(s, '/');
    if s.len() > 0 && s[0] == '/' {
        seq![seq!['/']] + keep_normal(ps)
    } else if ps.len() > 0 && ps[0] == seq!['.'] {
        seq![seq!['.']] + keep_normal(ps.drop_first())
    } else {
        keep_normal(ps)
    }
}

/// `Path::starts_with`: the components of `base` begin the components of `p`.
pub open spec fn path_starts_with(p: Seq<char>, base: Seq<char>) -> bool {
    let cp = components(p);
    let cb = components(base);
    cb.len() <= cp.len() && cp.take(cb.len() as int) == cb
}

/// `Path::file_name`: the last component when it names a file or directory.
pub open spec fn file_name(p: Seq<char>) -> Option<Seq<char>> {
    let c = components(p);
    if c.len() > 0 && is_normal_piece(c.last()) && c.last() != seq!['/'] && c.last() != seq!['.', '.'] {
        Some(c.last())
    } else {
        None
    }
}

/// The index of the last `.` in `s`, if any.
pub open spec fn last_dot(s: Seq<char>) -> Option<int>
    decreases s.len(),
{
    if s.len() == 0 {
        None
    } else if s.last() == '.' {
        Some(s.len() - 1)
    } else {
        last_dot(s.drop_last())
    }
}

/// `Path::extension`: the part of the file name after its last `.`, unless that
/// `.` opens the name.
pub open spec fn extension(p: Seq<char>) -> Option<Seq<char>> {
    match file_name(p) {
        None => None,
        Some(n) => match last_dot(n) {
            None => None,
            Some(i) => if i == 0 {
                None
            } else {
                Some(n.skip(i + 1))
            },
        },
    }
}

pub fn chars_eq(a: &[char], b: &[char]) -> (r: bool)
    ensures
        r == (a@ == b@),
{
    if a.len() != b.len() {
        return false;
    }
    let mut i: usize = 0;
    while i < a.len()
        invariant
            a@.len() == b@.len(),
            i <= a@.len(),
            forall|k: int| 0 <= k < i ==> a@[k] == b@[k],
        decreases a@.len() - i,
    {
        if a[i] != b[i] {
            return false;
        }
        i = i + 1;
    }
    assert(a@ =~= b@);
    true
}

fn piece_is_normal(p: &[char]) -> (r: bool)
    ensures
        r == is_normal_piece(p@),
{
    if p.len() == 0 {
        return false;
    }
    if p.len() == 1 && p[0] == '.' {
        assert(p@ =~= seq!['.']);
        return false;
    }
    proof {
        if p@ == seq!['.'] {
            assert(p@.len() == 1 && p@[0] == '.');
        }
    }
    true
}

/// The kept pieces of `ps[from..]`, pushed after `out`.
fn push_normal(out: &mut Vec<Vec<char>>, ps: Vec<Vec<char>>, from: usize)
    requires
        from <= ps@.len(),
    ensures
        views(final(out)@) == views(old(out)@) + keep_normal(views(ps@).skip(from as int)),
{
    let ghost start = views(old(out)@);
    let mut i: usize = from;
    let ghost vps = views(ps@);
    assert(vps.skip(from as int).take(0) =~= Seq::<Seq<char>>::empty());
    while i < ps.len()
        invariant
            from <= i <= ps@.len(),
            vps == views(ps@),
            views(out@) == start + keep_normal(vps.skip(from as int).take(i - from)),
        decreases ps@.len() - i,
    {
        let ghost prev = vps.skip(from as int).take(i - from);
        let ghost next = vps.skip(from as int).take(i - from + 1);
        assert(next.drop_last() =~= prev);
        assert(next.last() == ps@[i as int]@);
        if piece_is_normal(&ps[i]) {
            let p = slice_range(&ps[i], 0, ps[i].len());
            assert(p@ =~= ps@[i as int]@);
            let ghost before = out@;
            out.push(p);
            assert(views(out@) =~= views(before).push(p@));
        }
        i = i + 1;
    }
    assert(vps.skip(from as int).take(ps@.len() - from) =~= vps.skip(from as int));
}

/// The components of a path.
pub fn path_components(s: &[char]) -> (r: Vec<Vec<char>>)
    ensures
        views(r@) == components(s@),
{
    let ps = split_chars(s, '/');
    let ghost vps = views(ps@);
    let mut out: Vec<Vec<char>> = Vec::new();
    if s.len() > 0 && s[0] == '/' {
        let mut root: Vec<char> = Vec::new();
        root.push('/');
        out.push(root);
        assert(views(out@) =~= seq![seq!['/']]);
        assert(vps.skip(0) =~= vps);
        push_normal(&mut out, ps, 0);
    } else if ps.len() > 0 && ps[0].len() == 1 && ps[0][0] == '.' {
        assert(vps[0] =~= seq!['.']);
        let mut cur: Vec<char> = Vec::new();
        cur.push('.');
        out.push(cur);
        assert(views(out@) =~= seq![seq!['.']]);
        assert(vps.skip(1) =~= vps.drop_first());
        push_normal(&mut out, ps, 1);
    } else {
        proof {
            if vps.len() > 0 && vps[0] == seq!['.'] {
                assert(vps[0].len() == 1);
            }
        }
        assert(vps.skip(0) =~= vps);
        push_normal(&mut out, ps, 0);
        assert(views(out@) =~= keep_normal(vps));
    }
    out
}

/// Whether the components of `base` begin the components of `p`.
pub fn chars_path_starts_with(p: &[char], base: &[char]) -> (r: bool)
    ensures
        r == path_starts_with(p@, base@),
{
    let cp = path_components(p);
    let cb = path_components(base);
    if cb.len() > cp.len() {
        return false;
    }
    let ghost vp = views(cp@);
    let ghost vb = views(cb@);
    let mut i: usize = 0;
    while i < cb.len()
        invariant
            vp == views(cp@),
            vb == views(cb@),
            vp == components(p@),
            vb == components(base@),
            cb@.len() <= cp@.len(),
            i <= cb@.len(),
            forall|k: int| 0 <= k < i ==> vp[k] == vb[k],
        decreases cb@.len() - i,
    {
        assert(vp[i as int] == cp@[i as int]@ && vb[i as int] == cb@[i as int]@);
        if !chars_eq(&cp[i], &cb[i]) {
            assert(vp.take(vb.len() as int)[i as int] != vb[i as int]);
            assert(vp.take(vb.len() as int) != vb);
            return false;
        }
        i = i + 1;
    }
    assert(vp.take(vb.len() as int) =~= vb);
    true
}

/// `Path::starts_with` on path strings.
pub fn str_path_starts_with(p: &str, base: &str) -> (r: bool)
    ensures
        r == path_starts_with(p@, base@),
{
    let pc = chars_of(p);
    let bc = chars_of(base);
    chars_path_starts_with(&pc, &bc)
}


/// The file name of a path, when it has one.
pub fn path_file_name(p: &[char]) -> (r: Option<Vec<char>>)
    ensures
        r matches Some(n) ==> file_name(p@) == Some(n@),
        r is None ==> file_name(p@) is None,
{
    let c = path_components(p);
    let ghost vc = views(c@);
    if c.len() == 0 {
        return None;
    }
    let last = &c[c.len() - 1];
    assert(last@ == vc.last());
    let is_root = last.len() == 1 && last[0] == '/';
    let is_dotdot = last.len() == 2 && last[0] == '.' && last[1] == '.';
    proof {
        if last@ == seq!['/'] { assert(last@.len() == 1 && last@[0] == '/'); }
        if last@ == seq!['.', '.'] { assert(last@.len() == 2 && last@[0] == '.' && last@[1] == '.'); }
        if is_root { assert(last@ =~= seq!['/']); }
        if is_dotdot { assert(last@ =~= seq!['.', '.']); }
    }
    if !piece_is_normal(last) || is_root || is_dotdot {
        return None;
    }
    Some(slice_range(last, 0, last.len()))
}


proof fn lemma_last_dot(s: Seq<char>)
    ensures
        last_dot(s) matches Some(i) ==> 0 <= i < s.len(),
    decreases s.len(),
{
    if s.len() > 0 && s.last() != '.' {
        lemma_last_dot(s.drop_last());
    }
}

fn last_dot_index(s: &[char]) -> (r: Option<usize>)
    ensures
        r matches Some(i) ==> i < s@.len(),
        match r {
            Some(i) => last_dot(s@) == Some(i as int),
            None => last_dot(s@) is None,
        },
{
    let mut k: usize = s.len();
    assert(s@.take(k as int) =~= s@);
    while k > 0
        invariant
            k <= s@.len(),
            last_dot(s@) == last_dot(s@.take(k as int)),
        decreases k,
    {
        proof { lemma_last_dot(s@.take(k as int)); }
        let ghost t = s@.take(k as int);
        assert(t.drop_last() =~= s@.take(k - 1));
        if s[k - 1] == '.' {
            assert(t.last() == s@[k - 1]);
            return Some(k - 1);
        }
        k = k - 1;
    }
    None
}

/// The extension of a path (`Path::extension`).
pub fn path_extension(p: &str) -> (r: Option<String>)
    ensures
        match r {
            Some(e) => extension(p@) == Some(e@),
            None => extension(p@) is None,
        },
{
    assert(p@.take(p@.len() as int) =~= p@);
    let pc = chars_of(p);
    let name = match path_file_name(pc.as_slice()) {
        Some(n) => n,
        None => return None,
    };
    assert(name@.take(name@.len() as int) =~= name@);
    match last_dot_index(name.as_slice()) {
        None => None,
        Some(i) => {
            if i == 0 {
                None
            } else {
                proof {
                    assert(last_dot(name@) == Some(i as int));
                }
                assert(name@.len() == name.len());
                let rest = slice_range(name.as_slice(), i + 1, name.len());
                assert(rest@ =~= name@.skip(i + 1));
                Some(crate::text::string_from_chars(rest.as_slice()))
            }
        },
    }
}

/// `PathBuf::join`: an absolute name replaces the base; otherwise the name
/// alone on an empty base, else the base and the name with one separator
/// between them.
pub open spec fn join_path(base: Seq<char>, name: Seq<char>) -> Seq<char> {
    if name.len() > 0 && name[0] == '/' {
        name
    } else if base.len() == 0 {
        name
    } else if base.last() == '/' {
        base + name
    } else {
        base + seq!['/'] + name
    }
}

/// Joins a name onto a base path (`PathBuf::join`).
pub fn path_join(base: &str, name: &str) -> (r: String)
    ensures
        r@ == join_path(base@, name@),
{
    let bc = chars_of(base);
    let nc = chars_of(name);
    let mut r = String::new();
    if nc.len() > 0 && nc[0] == '/' {
        crate::text::push_str(&mut r, name);
        return r;
    }
    crate::text::push_str(&mut r, base);
    if bc.len() > 0 && bc[bc.len() - 1] != '/' {
        crate::text::push_char(&mut r, '/');
    }
    crate::text::push_str(&mut r, name);
    r
}
} // verus!
