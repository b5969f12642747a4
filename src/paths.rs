//! '/'-separated paths as the directory walk produces them: file names, extensions,
//! the part of a path below a root, and joining.

use vstd::prelude::*;

verus! {

/// The index of the last `c` in `s`, or -1 where there is none.
pub open spec fn last_index(s: Seq<char>, c: char) -> int
    decreases s.len(),
{
    if s.len() == 0 {
        -1
    } else if s.last() == c {
        s.len() - 1
    } else {
        last_index(s.drop_last(), c)
    }
}

proof fn lemma_last_index_bounds(s: Seq<char>, c: char)
    ensures
        -1 <= last_index(s, c) < s.len(),
        last_index(s, c) >= 0 ==> s[last_index(s, c)] == c,
    decreases s.len(),
{
    if s.len() > 0 && s.last() != c {
        lemma_last_index_bounds(s.drop_last(), c);
    }
}

/// A path without its trailing separators and trailing `.` components.
pub open spec fn trim_tail(p: Seq<char>) -> Seq<char>
    decreases p.len(),
{
    if p.len() > 0 && p.last() == '/' {
        trim_tail(p.drop_last())
    } else if p.len() > 0 && p.last() == '.' && (p.len() == 1 || p[p.len() - 2] == '/') {
        trim_tail(p.drop_last())
    } else {
        p
    }
}

/// The last component of a trimmed path: what follows its last '/'.
pub open spec fn last_component(t: Seq<char>) -> Seq<char> {
    t.skip(last_index(t, '/') + 1)
}

/// The file name of a path: its last component once trailing separators and `.`
/// components are dropped; empty where that component is `..` or there is none.
pub open spec fn file_name_of(p: Seq<char>) -> Seq<char> {
    let n = last_component(trim_tail(p));
    if n == seq!['.', '.'] {
        Seq::empty()
    } else {
        n
    }
}

/// The extension of a path's file name: what follows the last '.' of the name, where
/// that '.' is not the name's first character.
pub open spec fn extension_of(p: Seq<char>) -> Option<Seq<char>> {
    let n = file_name_of(p);
    let d = last_index(n, '.');
    if d <= 0 {
        None
    } else {
        Some(n.skip(d + 1))
    }
}

/// The directory part of a relative path: what precedes its last component, empty where
/// it has one component only, `None` where it has none.
pub open spec fn parent_of(p: Seq<char>) -> Option<Seq<char>> {
    let t = trim_tail(p);
    if t.len() == 0 {
        None
    } else if last_index(t, '/') < 0 {
        Some(Seq::empty())
    } else {
        Some(t.take(last_index(t, '/')))
    }
}

/// The path below `root`: `None` where `path` does not lie under `root` component-wise.
pub open spec fn below_root(root: Seq<char>, path: Seq<char>) -> Option<Seq<char>> {
    if root.len() > path.len() || path.take(root.len() as int) != root {
        None
    } else {
        let rest = path.skip(root.len() as int);
        if root.len() == 0 || root.last() == '/' || rest.len() == 0 {
            Some(rest)
        } else if rest[0] == '/' {
            Some(rest.skip(1))
        } else {
            None
        }
    }
}

/// The directories between `root` and the file at `path`.
pub open spec fn relative_dir_of(root: Seq<char>, path: Seq<char>) -> Option<Seq<char>> {
    match below_root(root, path) {
        Some(rest) => parent_of(rest),
        None => None,
    }
}

/// `a` and `b` joined by one '/'.
pub open spec fn join_of(a: Seq<char>, b: Seq<char>) -> Seq<char> {
    if a.len() == 0 {
        b
    } else if a.last() == '/' {
        a + b
    } else {
        a + seq!['/'] + b
    }
}

/// The index of the last `c` in `s`.
fn find_last(s: &str, c: char) -> (r: Option<usize>)
    ensures
        r is None <==> last_index(s@, c) == -1,
        r matches Some(i) ==> i == last_index(s@, c),
{
    proof {
        lemma_last_index_bounds(s@, c);
    }
    let mut i: usize = s.unicode_len();
    assert(s@.subrange(0, i as int) =~= s@);
    while i > 0
        invariant
            i <= s@.len(),
            last_index(s@, c) == last_index(s@.subrange(0, i as int), c),
        decreases i,
    {
        if s.get_char(i - 1) == c {
            return Some(i - 1);
        }
        assert(s@.subrange(0, i as int).drop_last() =~= s@.subrange(0, i - 1));
        i = i - 1;
    }
    None
}

/// The length of `path` once trailing separators and trailing `.` components are dropped.
fn trimmed_len(path: &str) -> (r: usize)
    ensures
        r <= path@.len(),
        path@.take(r as int) == trim_tail(path@),
{
    let mut k: usize = path.unicode_len();
    assert(path@.take(k as int) =~= path@);
    loop
        invariant
            k <= path@.len(),
            trim_tail(path@) == trim_tail(path@.take(k as int)),
        decreases k,
    {
        let ghost t = path@.take(k as int);
        if k > 0 {
            let c = path.get_char(k - 1);
            if c == '/' || (c == '.' && (k == 1 || path.get_char(k - 2) == '/')) {
                assert(t.drop_last() =~= path@.take(k - 1));
                k = k - 1;
                continue;
            }
        }
        return k;
    }
}

/// The last component of the trimmed `path`, as a substring's bounds.
fn last_component_start(path: &str, k: usize) -> (r: usize)
    requires
        k <= path@.len(),
    ensures
        r <= k,
        path@.subrange(r as int, k as int) == last_component(path@.take(k as int)),
{
    let t = path.substring_char(0, k);
    assert(t@ =~= path@.take(k as int));
    proof {
        lemma_last_index_bounds(t@, '/');
    }
    let r = match find_last(t, '/') {
        Some(i) => i + 1,
        None => 0,
    };
    assert(path@.subrange(r as int, k as int) =~= t@.skip(r as int));
    r
}

/// The file name of `path`; empty where it has none.
pub fn file_name(path: &str) -> (r: String)
    ensures
        r@ == file_name_of(path@),
{
    let k = trimmed_len(path);
    let start = last_component_start(path, k);
    let r = String::from_str(path.substring_char(start, k));
    if r.as_str().unicode_len() == 2 && r.as_str().get_char(0) == '.' && r.as_str().get_char(1) == '.' {
        assert(r@ =~= seq!['.', '.']);
        let e = String::new();
        assert(e@ =~= Seq::<char>::empty());
        return e;
    }
    assert(r@ != seq!['.', '.']) by {
        if r@ =~= seq!['.', '.'] {
            assert(r@[0] == '.' && r@[1] == '.');
        }
    }
    r
}

/// The extension of the file name of `path`, if it has one.
pub fn extension(path: &str) -> (r: Option<String>)
    ensures
        text_of(r) == extension_of(path@),
{
    let name = file_name(path);
    let n = name.as_str().unicode_len();
    proof {
        lemma_last_index_bounds(name@, '.');
    }
    match find_last(name.as_str(), '.') {
        Some(d) => {
            if d == 0 {
                None
            } else {
                let r = String::from_str(name.as_str().substring_char(d + 1, n));
                assert(r@ =~= name@.skip(d + 1));
                Some(r)
            }
        },
        None => None,
    }
}

pub open spec fn text_of(r: Option<String>) -> Option<Seq<char>> {
    match r {
        Some(s) => Some(s@),
        None => None,
    }
}

/// The directory part of the relative path `p`, or `None` where it has no component.
pub fn parent(p: &str) -> (r: Option<String>)
    ensures
        text_of(r) == parent_of(p@),
{
    let k = trimmed_len(p);
    if k == 0 {
        return None;
    }
    let t = p.substring_char(0, k);
    assert(t@ =~= trim_tail(p@));
    proof {
        lemma_last_index_bounds(t@, '/');
    }
    match find_last(t, '/') {
        Some(i) => {
            let r = String::from_str(t.substring_char(0, i));
            assert(r@ =~= t@.take(i as int));
            Some(r)
        },
        None => {
            let r = String::new();
            assert(r@ =~= Seq::<char>::empty());
            Some(r)
        },
    }
}

/// Whether `prefix` is the start of `s`.
fn starts_with(s: &str, prefix: &str) -> (r: bool)
    ensures
        r <==> prefix@.len() <= s@.len() && s@.take(prefix@.len() as int) == prefix@,
{
    let n = prefix.unicode_len();
    if n > s.unicode_len() {
        return false;
    }
    let mut i: usize = 0;
    while i < n
        invariant
            n == prefix@.len(),
            n <= s@.len(),
            i <= n,
            forall|j: int| 0 <= j < i ==> s@[j] == prefix@[j],
        decreases n - i,
    {
        if s.get_char(i) != prefix.get_char(i) {
            assert(s@.take(n as int)[i as int] != prefix@[i as int]);
            return false;
        }
        i = i + 1;
    }
    assert(s@.take(n as int) =~= prefix@);
    true
}

/// The path below `root`, or `None` where `path` does not lie under it.
pub fn strip_root(root: &str, path: &str) -> (r: Option<String>)
    ensures
        text_of(r) == below_root(root@, path@),
{
    if !starts_with(path, root) {
        return None;
    }
    let m = root.unicode_len();
    let n = path.unicode_len();
    let rest = path.substring_char(m, n);
    assert(rest@ =~= path@.skip(m as int));
    if m == 0 || root.get_char(m - 1) == '/' || m == n {
        Some(String::from_str(rest))
    } else if rest.get_char(0) == '/' {
        let r = String::from_str(rest.substring_char(1, n - m));
        assert(r@ =~= rest@.skip(1));
        Some(r)
    } else {
        None
    }
}

/// The directories between `root` and the file at `path`, or `None` where `path` does
/// not lie under `root`.
pub fn relative_dir(root: &str, path: &str) -> (r: Option<String>)
    ensures
        text_of(r) == relative_dir_of(root@, path@),
{
    match strip_root(root, path) {
        Some(rest) => parent(rest.as_str()),
        None => None,
    }
}

/// `a` and `b` joined by one '/'.
pub fn join(a: &str, b: &str) -> (r: String)
    ensures
        r@ == join_of(a@, b@),
{
    let n = a.unicode_len();
    if n == 0 {
        String::from_str(b)
    } else if a.get_char(n - 1) == '/' {
        String::from_str(a).concat(b)
    } else {
        proof {
            reveal_strlit("/");
        }
        String::from_str(a).concat("/").concat(b)
    }
}

} // verus!
