//! From a document's URI to its file name and its workspace.
use vstd::prelude::*;
use crate::path::{after_last, file_name_of, file_name_range, join_path, joined, segment_start};
use crate::text::{chars_of, string_from, text_of};

verus! {

/// The path of a URI, percent-encoded, as the `url` crate parses it.
pub uninterp spec fn uri_path(uri: Seq<char>) -> Option<Seq<char>>;

/// The local file path that the `url` crate gives for a `file:` URI.
pub uninterp spec fn uri_file_path(uri: Seq<char>) -> Option<Seq<char>>;

/// Relies on `url::Url::path` of the URI read by `url::Url::parse`: the
/// path of the URI, or nothing where `uri` is no URI.
#[verifier::external_body]
fn path_of_uri(uri: &str) -> (r: Option<String>)
    ensures
        text_of(r) == uri_path(uri@),
{
    match url::Url::parse(uri) {
        Ok(u) => Some(u.path().to_string()),
        Err(_) => None,
    }
}

/// Relies on `url::Url::to_file_path` of the URI read by `url::Url::parse`:
/// the local path of the document, or nothing where the URI names no local
/// file (or its path is not UTF-8).
#[verifier::external_body]
fn file_path_of_uri(uri: &str) -> (r: Option<String>)
    ensures
        text_of(r) == uri_file_path(uri@),
{
    match url::Url::parse(uri) {
        Ok(u) => match u.to_file_path() {
            Ok(p) => p.to_str().map(|s| s.to_string()),
            Err(_) => None,
        },
        Err(_) => None,
    }
}

/// The last segment of a URI path, as `Url::path_segments` gives it: none
/// where the path does not begin with a separator.
pub open spec fn last_segment(path: Seq<char>) -> Option<Seq<char>> {
    if path.len() > 0 && path[0] == '/' {
        Some(after_last(path, '/'))
    } else {
        None
    }
}

/// The file name of the document at `uri`: the last segment of its path.
pub open spec fn filename_of_uri(uri: Seq<char>) -> Option<Seq<char>> {
    match uri_path(uri) {
        Some(p) => last_segment(p),
        None => None,
    }
}

/// The last segment of URI path `path`.
pub fn path_last_segment(path: &str) -> (r: Option<String>)
    ensures
        text_of(r) == last_segment(path@),
{
    let v = chars_of(path);
    if v.len() > 0 && v[0] == '/' {
        let start = segment_start(&v, v.len(), '/');
        assert(v@.subrange(0, v@.len() as int) =~= v@);
        Some(string_from(&v, start, v.len()))
    } else {
        None
    }
}

/// The file name of the document at `uri`.
pub fn get_filename_from_uri(uri: &str) -> (r: Option<String>)
    ensures
        text_of(r) == filename_of_uri(uri@),
{
    match path_of_uri(uri) {
        Some(p) => path_last_segment(p.as_str()),
        None => None,
    }
}

/// The components of path `p`: its separated parts, where empty and `.`
/// parts do not count.
pub open spec fn components(p: Seq<char>) -> Seq<Seq<char>>
    decreases p.len(),
{
    let last = after_last(p, '/');
    let rest = p.len() - last.len();
    let before = if rest > 0 {
        components(p.subrange(0, rest - 1))
    } else {
        Seq::empty()
    };
    if last.len() == 0 || last == seq!['.'] {
        before
    } else {
        before.push(last)
    }
}

/// The root of path `p`: the separator for an absolute path, else nothing.
pub open spec fn root_of(p: Seq<char>) -> Seq<char> {
    if p.len() > 0 && p[0] == '/' {
        seq!['/']
    } else {
        Seq::empty()
    }
}

/// The directory made of `root` and the first `k` of `comps`.
pub open spec fn dir_at(root: Seq<char>, comps: Seq<Seq<char>>, k: int) -> Seq<char>
    decreases k,
{
    if k <= 0 {
        root
    } else if k == 1 {
        root + comps[0]
    } else {
        dir_at(root, comps, k - 1) + seq!['/'] + comps[k - 1]
    }
}

/// The directories that hold the file at path `p`, nearest first, up to the
/// root.
pub open spec fn ancestors(p: Seq<char>) -> Seq<Seq<char>> {
    let comps = components(p);
    Seq::new(comps.len(), |i: int| dir_at(root_of(p), comps, comps.len() - 1 - i))
}

/// The workspace that marker flags `marks` choose among directories `dirs`
/// (nearest first), looking from index `i` on: the name of the first marked
/// one, else that of the nearest.
pub open spec fn choice_from(dirs: Seq<Seq<char>>, marks: Seq<bool>, i: int) -> Option<Seq<char>>
    decreases dirs.len() - i,
{
    if i >= dirs.len() {
        if dirs.len() > 0 {
            file_name_of(dirs[0])
        } else {
            None
        }
    } else if 0 <= i < marks.len() && marks[i] {
        file_name_of(dirs[i])
    } else {
        choice_from(dirs, marks, i + 1)
    }
}

/// The workspace of a file whose directories, nearest first, are `dirs`,
/// where `marks[i]` tells whether `dirs[i]` holds the repository marker.
pub open spec fn workspace_choice(dirs: Seq<Seq<char>>, marks: Seq<bool>) -> Option<Seq<char>> {
    choice_from(dirs, marks, 0)
}

/// The name of the directory that holds the repository's data.
pub const REPOSITORY_MARKER: &'static str = ".git";

/// The path at which the repository marker of directory `dir` would stand.
pub fn marker_path(dir: &str) -> (r: String)
    ensures
        r@ == joined(dir@, REPOSITORY_MARKER@),
{
    join_path(dir, REPOSITORY_MARKER)
}

/// The components of `v[..end]`.
fn components_upto(v: &Vec<char>, end: usize) -> (r: Vec<Vec<char>>)
    requires
        end <= v.len(),
    ensures
        r@.len() == components(v@.subrange(0, end as int)).len(),
        forall|i: int| 0 <= i < r@.len() ==> r@[i]@ == components(v@.subrange(0, end as int))[i],
    decreases end,
{
    let start = segment_start(v, end, '/');
    let ghost p = v@.subrange(0, end as int);
    let ghost last = v@.subrange(start as int, end as int);
    let mut before = if start > 0 {
        assert(p.subrange(0, p.len() - last.len() - 1) =~= v@.subrange(0, start - 1));
        components_upto(v, start - 1)
    } else {
        Vec::new()
    };
    let len = end - start;
    let dot = len == 1 && v[start] == '.';
    assert(dot <==> last == seq!['.']) by {
        if last == seq!['.'] {
            assert(last[0] == '.');
        }
        if dot {
            assert(last =~= seq!['.']);
        }
    }
    if len == 0 || dot {
        before
    } else {
        let mut part: Vec<char> = Vec::new();
        let mut i: usize = start;
        while i < end
            invariant
                start <= i <= end <= v.len(),
                part@ == v@.subrange(start as int, i as int),
            decreases end - i,
        {
            part.push(v[i]);
            assert(part@ =~= v@.subrange(start as int, i + 1));
            i += 1;
        }
        before.push(part);
        before
    }
}

/// The directories that hold the file at `path`, nearest first, up to the
/// root: where the workspace's repository marker is looked for.
pub fn ancestor_dirs(path: &str) -> (r: Vec<String>)
    ensures
        r@.len() == ancestors(path@).len(),
        forall|i: int| 0 <= i < r@.len() ==> r@[i]@ == ancestors(path@)[i],
{
    let v = chars_of(path);
    assert(v@.subrange(0, v@.len() as int) =~= v@);
    let comps = components_upto(&v, v.len());
    let ghost cs = components(path@);
    let ghost root = root_of(path@);
    let n = comps.len();
    if n == 0 {
        return Vec::new();
    }
    let mut cur: Vec<char> = Vec::new();
    if v.len() > 0 && v[0] == '/' {
        cur.push('/');
    }
    assert(cur@ =~= root);
    let mut upward: Vec<String> = Vec::new();
    let mut k: usize = 0;
    while k + 1 < n
        invariant
            n == comps@.len() == cs.len(),
            forall|i: int| 0 <= i < n ==> comps@[i]@ == cs[i],
            k < n,
            cur@ == dir_at(root, cs, k as int),
            upward@.len() == k,
            forall|i: int| 0 <= i < k ==> upward@[i]@ == dir_at(root, cs, i),
        decreases n - k,
    {
        upward.push(string_from(&cur, 0, cur.len()));
        assert(cur@.subrange(0, cur@.len() as int) =~= cur@);
        if k > 0 {
            cur.push('/');
        }
        let part = &comps[k];
        let ghost before = cur@;
        let mut j: usize = 0;
        while j < part.len()
            invariant
                cur@ == before + part@.subrange(0, j as int),
                j <= part.len(),
            decreases part.len() - j,
        {
            cur.push(part[j]);
            assert(cur@ =~= before + part@.subrange(0, j + 1));
            j += 1;
        }
        assert(part@.subrange(0, part@.len() as int) =~= part@);
        assert(cur@ =~= dir_at(root, cs, k + 1));
        k += 1;
    }
    upward.push(string_from(&cur, 0, cur.len()));
    assert(cur@.subrange(0, cur@.len() as int) =~= cur@);
    let mut r: Vec<String> = Vec::new();
    let mut i: usize = 0;
    while i < n
        invariant
            upward@.len() == n,
            forall|j: int| 0 <= j < n ==> upward@[j]@ == dir_at(root, cs, j),
            i <= n,
            r@.len() == i,
            forall|j: int| 0 <= j < i ==> r@[j]@ == dir_at(root, cs, n - 1 - j),
        decreases n - i,
    {
        r.push(upward[n - 1 - i].clone());
        i += 1;
    }
    r
}

/// The directories where the repository marker of the document at `uri` is
/// looked for, nearest first; none where the URI names no local file.
pub fn workspace_dirs(uri: &str) -> (r: Option<Vec<String>>)
    ensures
        match uri_file_path(uri@) {
            None => r is None,
            Some(p) => r is Some && r->0@.map_values(|d: String| d@) == ancestors(p),
        },
{
    match file_path_of_uri(uri) {
        Some(p) => {
            let dirs = ancestor_dirs(p.as_str());
            assert(dirs@.map_values(|d: String| d@) =~= ancestors(p@));
            Some(dirs)
        },
        None => None,
    }
}

/// The name of the directory at `dir`, as `Path::file_name` gives it.
fn dir_name(dir: &str) -> (r: Option<String>)
    ensures
        text_of(r) == file_name_of(dir@),
{
    let v = chars_of(dir);
    assert(v@.subrange(0, v@.len() as int) =~= v@);
    match file_name_range(&v, v.len()) {
        Some((a, b)) => Some(string_from(&v, a, b)),
        None => None,
    }
}

/// The workspace of a file whose directories, nearest first, are `dirs`,
/// where `has_marker[i]` tells whether `dirs[i]` holds the repository marker
/// (a missing flag counts as no marker): the name of the nearest marked
/// directory, else that of the file's own directory.
pub fn detect_workspace_name(dirs: &Vec<String>, has_marker: &Vec<bool>) -> (r: Option<String>)
    ensures
        text_of(r) == workspace_choice(dirs@.map_values(|d: String| d@), has_marker@),
{
    let ghost ds = dirs@.map_values(|d: String| d@);
    let mut i: usize = 0;
    while i < dirs.len()
        invariant
            i <= dirs.len(),
            ds == dirs@.map_values(|d: String| d@),
            choice_from(ds, has_marker@, i as int) == workspace_choice(ds, has_marker@),
        decreases dirs.len() - i,
    {
        if i < has_marker.len() && has_marker[i] {
            return dir_name(dirs[i].as_str());
        }
        i += 1;
    }
    if dirs.len() > 0 {
        dir_name(dirs[0].as_str())
    } else {
        None
    }
}

/// Whether `s` holds no character `c`.
pub open spec fn free_of(s: Seq<char>, c: char) -> bool {
    forall|j: int| 0 <= j < s.len() ==> s[j] != c
}

proof fn lemma_after_last_free(s: Seq<char>, c: char)
    ensures
        free_of(after_last(s, c), c),
    decreases s.len(),
{
    if s.len() > 0 && s.last() != c {
        lemma_after_last_free(s.drop_last(), c);
    }
}

proof fn lemma_after_last_append(a: Seq<char>, b: Seq<char>, c: char)
    requires
        free_of(b, c),
    ensures
        after_last(a + b, c) == after_last(a, c) + b,
    decreases b.len(),
{
    if b.len() == 0 {
        assert(a + b =~= a);
        assert(after_last(a, c) + b =~= after_last(a, c));
    } else {
        let ab = a + b;
        assert(ab.drop_last() =~= a + b.drop_last());
        assert(ab.last() == b.last());
        lemma_after_last_append(a, b.drop_last(), c);
        assert(after_last(a, c) + b.drop_last() + seq![b.last()] =~= after_last(a, c) + b);
        assert((after_last(a, c) + b.drop_last()).push(b.last()) =~= after_last(a, c) + b.drop_last()
            + seq![b.last()]);
    }
}

/// Every component is a non-empty name other than `.`, free of separators.
proof fn lemma_components_are_names(p: Seq<char>)
    ensures
        forall|i: int|
            0 <= i < components(p).len() ==> {
                let c = #[trigger] components(p)[i];
                c.len() > 0 && c != seq!['.'] && free_of(c, '/')
            },
    decreases p.len(),
{
    let last = after_last(p, '/');
    let rest = p.len() - last.len();
    lemma_after_last_free(p, '/');
    let before = if rest > 0 {
        components(p.subrange(0, rest - 1))
    } else {
        Seq::empty()
    };
    if rest > 0 {
        lemma_components_are_names(p.subrange(0, rest - 1));
    }
    assert forall|i: int| 0 <= i < components(p).len() implies {
        let c = #[trigger] components(p)[i];
        c.len() > 0 && c != seq!['.'] && free_of(c, '/')
    } by {
        if i < before.len() {
            assert(components(p)[i] == before[i]);
        } else {
            assert(components(p)[i] == last);
        }
    }
}

/// The name that directory `k` of a path with components `comps` has: its
/// last component, none for the root or a `..`.
pub open spec fn component_name(comps: Seq<Seq<char>>, k: int) -> Option<Seq<char>> {
    if k <= 0 || comps[k - 1] == seq!['.', '.'] {
        None
    } else {
        Some(comps[k - 1])
    }
}

proof fn lemma_dir_name(p: Seq<char>, k: int)
    requires
        0 <= k <= components(p).len(),
    ensures
        file_name_of(dir_at(root_of(p), components(p), k)) == component_name(components(p), k),
{
    let comps = components(p);
    let root = root_of(p);
    lemma_components_are_names(p);
    assert(file_name_of(Seq::<char>::empty()) is None) by {
        assert(after_last(Seq::<char>::empty(), '/') =~= Seq::<char>::empty());
    }
    if k == 0 {
        if root.len() > 0 {
            assert(after_last(root, '/') =~= Seq::<char>::empty()) by {
                assert(root.last() == '/');
            }
            assert(root.subrange(0, 0) =~= Seq::<char>::empty());
        }
        assert(after_last(Seq::<char>::empty(), '/') =~= Seq::<char>::empty());
    } else {
        let c = comps[k - 1];
        let a = if k == 1 {
            root
        } else {
            dir_at(root, comps, k - 1) + seq!['/']
        };
        assert(dir_at(root, comps, k) == a + c);
        assert(after_last(a, '/') =~= Seq::<char>::empty()) by {
            if a.len() > 0 {
                assert(a.last() == '/');
            }
        }
        lemma_after_last_append(a, c, '/');
        assert(after_last(a + c, '/') =~= c);
        assert(c.len() > 0 && c != seq!['.']);
    }
}

proof fn lemma_choice_skips_unmarked(dirs: Seq<Seq<char>>, marks: Seq<bool>, i: int, j: int)
    requires
        0 <= j <= i,
        forall|m: int| 0 <= m < i && m < marks.len() ==> !marks[m],
    ensures
        choice_from(dirs, marks, j) == choice_from(dirs, marks, i),
    decreases i - j,
{
    if j < i {
        lemma_choice_skips_unmarked(dirs, marks, i, j + 1);
    }
}

/// A file below a directory that holds the repository marker is in the
/// workspace named after that directory, however deep below it the file
/// lies, as long as no nearer directory holds a marker. The directory is the
/// one made of the first `k` components of the file's path.
pub proof fn lemma_marked_directory_names_workspace(p: Seq<char>, marks: Seq<bool>, k: int)
    requires
        1 <= k < components(p).len(),
        components(p)[k - 1] != seq!['.', '.'],
        components(p).len() - 1 - k < marks.len(),
        marks[components(p).len() - 1 - k],
        forall|j: int| 0 <= j < components(p).len() - 1 - k ==> !marks[j],
    ensures
        workspace_choice(ancestors(p), marks) == Some(components(p)[k - 1]),
{
    let n = components(p).len();
    let i = n - 1 - k;
    lemma_choice_skips_unmarked(ancestors(p), marks, i, 0);
    lemma_dir_name(p, k);
}

/// With no repository marker anywhere, a file is in the workspace named
/// after the directory that holds it.
pub proof fn lemma_unmarked_file_names_parent(p: Seq<char>, marks: Seq<bool>)
    requires
        2 <= components(p).len(),
        components(p)[components(p).len() - 2] != seq!['.', '.'],
        forall|j: int| 0 <= j < marks.len() ==> !marks[j],
    ensures
        workspace_choice(ancestors(p), marks) == Some(components(p)[components(p).len() - 2]),
{
    let n = components(p).len();
    lemma_choice_skips_unmarked(ancestors(p), marks, n as int, 0);
    lemma_dir_name(p, n - 1);
}

} // verus!
