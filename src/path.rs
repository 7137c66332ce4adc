//! Joining a base name onto a directory path, splitting a delimited list, and
//! comparing paths by their components.
use vstd::prelude::*;

verus! {

/// The path `dir/name`: `name` alone under an empty directory, and no second
/// separator where `dir` already ends with one.
pub open spec fn joined(dir: Seq<char>, name: Seq<char>) -> Seq<char> {
    if dir.len() == 0 {
        name
    } else if dir.last() == '/' {
        dir + name
    } else {
        dir + seq!['/'] + name
    }
}

/// The pieces of `s` between the separators `sep`, scanning from `i`, with the
/// current piece begun at `start`.
pub open spec fn pieces_from(s: Seq<char>, sep: char, start: int, i: int) -> Seq<Seq<char>>
    decreases s.len() - i,
{
    if i >= s.len() {
        seq![s.subrange(start, s.len() as int)]
    } else if s[i] == sep {
        seq![s.subrange(start, i)] + pieces_from(s, sep, i + 1, i + 1)
    } else {
        pieces_from(s, sep, start, i + 1)
    }
}

/// The pieces of `s` between the separators `sep`: one more than there are
/// separators, empty pieces kept.
pub open spec fn split_on(s: Seq<char>, sep: char) -> Seq<Seq<char>> {
    pieces_from(s, sep, 0, 0)
}

/// Joins the base name `name` onto the directory path `dir`.
pub fn join(dir: &str, name: &str) -> (r: String)
    ensures
        r@ == joined(dir@, name@),
{
    let n = dir.unicode_len();
    let mut r = String::from_str(dir);
    if n == 0 {
        return String::from_str(name);
    }
    if dir.get_char(n - 1) != '/' {
        let sep = "/";
        proof {
            reveal_strlit("/");
        }
        r.append(sep);
    }
    r.append(name);
    r
}

/// Splits `s` at every `sep`, keeping empty pieces.
pub fn split(s: &str, sep: char) -> (r: Vec<String>)
    ensures
        r@.map_values(|p: String| p@) == split_on(s@, sep),
{
    let n = s.unicode_len();
    let mut out: Vec<String> = Vec::new();
    let mut start: usize = 0;
    let mut i: usize = 0;
    while i < n
        invariant
            n == s@.len(),
            start <= i <= n,
            out@.map_values(|p: String| p@) + pieces_from(s@, sep, start as int, i as int)
                == split_on(s@, sep),
        decreases n - i,
    {
        if s.get_char(i) == sep {
            let piece = String::from_str(s.substring_char(start, i));
            proof {
                assert(pieces_from(s@, sep, start as int, i as int) == seq![piece@] + pieces_from(
                    s@,
                    sep,
                    i + 1,
                    i + 1,
                ));
                assert(out@.push(piece).map_values(|p: String| p@) == out@.map_values(
                    |p: String| p@,
                ).push(piece@));
            }
            out.push(piece);
            start = i + 1;
        }
        i = i + 1;
    }
    let last = String::from_str(s.substring_char(start, n));
    proof {
        assert(out@.push(last).map_values(|p: String| p@) == out@.map_values(|p: String| p@).push(
            last@,
        ));
    }
    out.push(last);
    out
}

/// A path that starts at the root.
pub open spec fn has_root(s: Seq<char>) -> bool {
    s.len() > 0 && s[0] == '/'
}

/// A relative path that starts with the current directory: `.` alone or
/// followed by a separator.
pub open spec fn leading_cur(s: Seq<char>) -> bool {
    s.len() > 0 && s[0] == '.' && (s.len() == 1 || s[1] == '/')
}

/// The pieces that name something: empty pieces, left by repeated or
/// trailing separators, and `.` pieces are dropped.
pub open spec fn named_parts(pieces: Seq<Seq<char>>) -> Seq<Seq<char>>
    decreases pieces.len(),
{
    if pieces.len() == 0 {
        Seq::empty()
    } else {
        let rest = named_parts(pieces.drop_last());
        let p = pieces.last();
        if p.len() == 0 || p == seq!['.'] {
            rest
        } else {
            rest.push(p)
        }
    }
}

/// Two paths with the same components: the same root, the same leading `.`,
/// and the same named parts, whatever the separators between them.
pub open spec fn same_path(a: Seq<char>, b: Seq<char>) -> bool {
    &&& has_root(a) == has_root(b)
    &&& leading_cur(a) == leading_cur(b)
    &&& named_parts(split_on(a, '/')) == named_parts(split_on(b, '/'))
}

/// The named parts of the path `s`.
pub fn path_parts(s: &str) -> (r: Vec<String>)
    ensures
        r@.map_values(|p: String| p@) == named_parts(split_on(s@, '/')),
{
    let pieces = split(s, '/');
    let ghost all = pieces@.map_values(|p: String| p@);
    let mut out: Vec<String> = Vec::new();
    let mut i: usize = 0;
    while i < pieces.len()
        invariant
            i <= pieces@.len(),
            all == pieces@.map_values(|p: String| p@),
            out@.map_values(|p: String| p@) == named_parts(all.subrange(0, i as int)),
        decreases pieces.len() - i,
    {
        let p = &pieces[i];
        let ghost next = all.subrange(0, i + 1);
        assert(next.drop_last() =~= all.subrange(0, i as int));
        assert(next.last() == p@);
        let n = p.unicode_len();
        let is_dot = n == 1 && p.as_str().get_char(0) == '.';
        proof {
            if n == 1 {
                assert(is_dot == (p@ =~= seq!['.']));
            } else {
                assert(p@.len() != seq!['.'].len());
            }
        }
        if n != 0 && !is_dot {
            let ghost before = out@.map_values(|q: String| q@);
            out.push(p.clone());
            assert(out@.map_values(|q: String| q@) =~= before.push(p@));
        }
        i = i + 1;
    }
    assert(all.subrange(0, pieces@.len() as int) =~= all);
    out
}

/// Whether `a` and `b` name the same path, component by component.
pub fn same_path_exec(a: &str, b: &str) -> (r: bool)
    ensures
        r == same_path(a@, b@),
{
    let root_a = a.unicode_len() > 0 && a.get_char(0) == '/';
    let root_b = b.unicode_len() > 0 && b.get_char(0) == '/';
    let cur_a = a.unicode_len() > 0 && a.get_char(0) == '.' && (a.unicode_len() == 1
        || a.get_char(1) == '/');
    let cur_b = b.unicode_len() > 0 && b.get_char(0) == '.' && (b.unicode_len() == 1
        || b.get_char(1) == '/');
    if root_a != root_b || cur_a != cur_b {
        return false;
    }
    let pa = path_parts(a);
    let pb = path_parts(b);
    let ghost va = pa@.map_values(|p: String| p@);
    let ghost vb = pb@.map_values(|p: String| p@);
    if pa.len() != pb.len() {
        assert(va.len() == pa@.len() && vb.len() == pb@.len());
        assert(va.len() != vb.len());
        return false;
    }
    let mut i: usize = 0;
    while i < pa.len()
        invariant
            pa@.len() == pb@.len(),
            i <= pa@.len(),
            va == pa@.map_values(|p: String| p@),
            vb == pb@.map_values(|p: String| p@),
            va == named_parts(split_on(a@, '/')),
            vb == named_parts(split_on(b@, '/')),
            has_root(a@) == has_root(b@),
            leading_cur(a@) == leading_cur(b@),
            forall|j: int| 0 <= j < i ==> va[j] == vb[j],
        decreases pa.len() - i,
    {
        if !(pa[i] == pb[i]) {
            assert(va[i as int] != vb[i as int]);
            return false;
        }
        i = i + 1;
    }
    assert(va =~= vb);
    true
}

} // verus!
