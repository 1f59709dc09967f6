//! File names of '/'-separated paths, with the rules of `std::path::Path`.
use vstd::prelude::*;
use vstd::string::StringExecFns;

verus! {

/// The part of `s` after its last `c`; all of `s` when it holds no `c`.
pub open spec fn after_last(s: Seq<char>, c: char) -> Seq<char>
    decreases s.len(),
{
    if s.len() == 0 {
        s
    } else if s.last() == c {
        Seq::empty()
    } else {
        after_last(s.drop_last(), c).push(s.last())
    }
}

/// The final component of path `p`, as `Path::file_name` gives it: trailing
/// separators and `.` components are passed over, and a final `..` has no
/// name.
pub open spec fn file_name_of(p: Seq<char>) -> Option<Seq<char>>
    decreases p.len(),
{
    let last = after_last(p, '/');
    if last.len() == 0 || last == seq!['.'] {
        if 0 < p.len() - last.len() {
            file_name_of(p.subrange(0, p.len() - last.len() - 1))
        } else {
            None
        }
    } else if last == seq!['.', '.'] {
        None
    } else {
        Some(last)
    }
}

/// The extension of path `p`, as `Path::extension` gives it: the text after
/// the last dot of the file name, where that dot is not its first character.
pub open spec fn extension_of(p: Seq<char>) -> Option<Seq<char>> {
    match file_name_of(p) {
        None => None,
        Some(f) => {
            let after = after_last(f, '.');
            if after.len() + 1 < f.len() {
                Some(after)
            } else {
                None
            }
        },
    }
}

proof fn lemma_after_last_len(s: Seq<char>, c: char)
    ensures
        after_last(s, c).len() <= s.len(),
        after_last(s, c) == s.subrange(s.len() - after_last(s, c).len(), s.len() as int),
    decreases s.len(),
{
    if s.len() > 0 && s.last() != c {
        lemma_after_last_len(s.drop_last(), c);
        assert(after_last(s, c) =~= s.subrange(s.len() - after_last(s, c).len(), s.len() as int));
    } else if s.len() > 0 {
        assert(after_last(s, c) =~= s.subrange(s.len() as int, s.len() as int));
    }
}

/// Where the text after the last `c` of `v[..end]` starts.
pub fn segment_start(v: &Vec<char>, end: usize, c: char) -> (start: usize)
    requires
        end <= v.len(),
    ensures
        start <= end,
        v@.subrange(start as int, end as int) == after_last(v@.subrange(0, end as int), c),
        start > 0 ==> v@[start - 1] == c,
{
    let mut i: usize = end;
    while i > 0 && v[i - 1] != c
        invariant
            i <= end <= v.len(),
            after_last(v@.subrange(0, end as int), c) == after_last(v@.subrange(0, i as int), c)
                + v@.subrange(i as int, end as int),
        decreases i,
    {
        let ghost pre = v@.subrange(0, i as int);
        assert(pre.drop_last() =~= v@.subrange(0, i - 1));
        assert(after_last(pre, c) == after_last(v@.subrange(0, i - 1), c).push(v@[i - 1]));
        assert(after_last(v@.subrange(0, i - 1), c).push(v@[i - 1]) + v@.subrange(i as int, end as int)
            =~= after_last(v@.subrange(0, i - 1), c) + v@.subrange(i - 1, end as int));
        i -= 1;
    }
    if i == 0 {
        assert(after_last(v@.subrange(0, 0), c) =~= Seq::empty());
    }
    assert(after_last(v@.subrange(0, end as int), c) =~= v@.subrange(i as int, end as int));
    i
}

/// Where the file name of `v[..end]` stands in `v`, if it has one.
pub fn file_name_range(v: &Vec<char>, end: usize) -> (r: Option<(usize, usize)>)
    requires
        end <= v.len(),
    ensures
        match r {
            Some((a, b)) => a <= b <= end && file_name_of(v@.subrange(0, end as int)) == Some(
                v@.subrange(a as int, b as int),
            ),
            None => file_name_of(v@.subrange(0, end as int)) is None,
        },
    decreases end,
{
    let start = segment_start(v, end, '/');
    let ghost p = v@.subrange(0, end as int);
    let ghost last = v@.subrange(start as int, end as int);
    let len = end - start;
    let dot = len == 1 && v[start] == '.';
    let dotdot = len == 2 && v[start] == '.' && v[start + 1] == '.';
    assert(dot <==> last == seq!['.']) by {
        if last == seq!['.'] {
            assert(last[0] == '.');
        }
        if dot {
            assert(last =~= seq!['.']);
        }
    }
    assert(dotdot <==> last == seq!['.', '.']) by {
        if last == seq!['.', '.'] {
            assert(last[0] == '.' && last[1] == '.');
        }
        if dotdot {
            assert(last =~= seq!['.', '.']);
        }
    }
    if len == 0 || dot {
        if start > 0 {
            assert(p.subrange(0, p.len() - last.len() - 1) =~= v@.subrange(0, start - 1));
            file_name_range(v, start - 1)
        } else {
            None
        }
    } else if dotdot {
        None
    } else {
        Some((start, end))
    }
}

/// Where the extension of path `v` stands in `v`, if it has one.
pub fn extension_range(v: &Vec<char>) -> (r: Option<(usize, usize)>)
    ensures
        match r {
            Some((a, b)) => a <= b <= v.len() && extension_of(v@) == Some(
                v@.subrange(a as int, b as int),
            ),
            None => extension_of(v@) is None,
        },
{
    assert(v@.subrange(0, v@.len() as int) =~= v@);
    match file_name_range(v, v.len()) {
        None => None,
        Some((a, b)) => {
            let dot = segment_start(v, b, '.');
            let ghost f = v@.subrange(a as int, b as int);
            proof {
                lemma_after_last_len(v@.subrange(0, b as int), '.');
                lemma_after_last_len(f, '.');
                lemma_after_last_suffix(v@, a as int, b as int, '.');
            }
            if dot > a && dot - a > 1 {
                Some((dot, b))
            } else {
                None
            }
        },
    }
}

/// Cutting text off the front keeps the part after the last `c`, as long as
/// the cut does not reach into it.
proof fn lemma_after_last_suffix(s: Seq<char>, a: int, b: int, c: char)
    requires
        0 <= a <= b <= s.len(),
    ensures
        after_last(s.subrange(a, b), c).len() < b - a ==> after_last(s.subrange(a, b), c)
            == after_last(s.subrange(0, b), c),
        after_last(s.subrange(a, b), c).len() == b - a ==> after_last(s.subrange(0, b), c).len()
            >= b - a,
    decreases b - a,
{
    if a < b {
        let t = s.subrange(a, b);
        let u = s.subrange(0, b);
        assert(t.drop_last() =~= s.subrange(a, b - 1));
        assert(u.drop_last() =~= s.subrange(0, b - 1));
        assert(t.last() == u.last());
        lemma_after_last_suffix(s, a, b - 1, c);
        lemma_after_last_len(s.subrange(a, b - 1), c);
    }
}

/// `part` put under `base`, as `PathBuf::push` does it: an absolute `part`
/// replaces `base`, and one separator stands between the two.
pub open spec fn joined(base: Seq<char>, part: Seq<char>) -> Seq<char> {
    if part.len() > 0 && part[0] == '/' {
        part
    } else if base.len() == 0 || base.last() == '/' {
        base + part
    } else {
        base + seq!['/'] + part
    }
}

/// The path `part` under directory `base`.
pub fn join_path(base: &str, part: &str) -> (r: String)
    ensures
        r@ == joined(base@, part@),
{
    broadcast use vstd::string::group_string_axioms;

    let nb = base.unicode_len();
    let np = part.unicode_len();
    if np > 0 && part.get_char(0) == '/' {
        return part.to_string();
    }
    let mut r = base.to_string();
    if nb > 0 && base.get_char(nb - 1) != '/' {
        r.append("/");
        proof {
            reveal_strlit("/");
        }
        assert(r@ =~= base@ + seq!['/']);
    }
    r.append(part);
    r
}

} // verus!
