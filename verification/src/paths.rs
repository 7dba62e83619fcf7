//! Paths held as text and read by their components, as `std::path::Path` reads a Unix path:
//! a leading `/` is the root, a leading `.` piece is the current directory, and elsewhere the
//! pieces between slashes are names, with empty and `.` pieces left out. Two paths with the same
//! components are the same path.
use vstd::prelude::*;

use crate::text::{append_str, chars_of, join_messages, join_path_spec, joined, push_char, str_eq, string_from_chars, string_of_range};

verus! {

/// First position from `i` on that holds `/`, or the length.
pub open spec fn next_slash(s: Seq<char>, i: int) -> int
    decreases s.len() - i,
{
    if i < 0 || i >= s.len() {
        s.len() as int
    } else if s[i] == '/' {
        i
    } else {
        next_slash(s, i + 1)
    }
}

/// The next `/` at or after `i` lies between `i` and the end of the text.
pub proof fn lemma_next_slash_bounds(s: Seq<char>, i: int)
    requires
        0 <= i <= s.len(),
    ensures
        i <= next_slash(s, i) <= s.len(),
        next_slash(s, i) < s.len() ==> s[next_slash(s, i)] == '/',
        forall|k: int| i <= k < next_slash(s, i) ==> s[k] != '/',
    decreases s.len() - i,
{
    if i < s.len() && s[i] != '/' {
        lemma_next_slash_bounds(s, i + 1);
    }
}

/// The names of `s` from position `i` on: the pieces between slashes, empty and `.` pieces
/// left out.
pub open spec fn names_from(s: Seq<char>, i: int) -> Seq<Seq<char>>
    decreases s.len() - i,
{
    if i < 0 || i >= s.len() {
        Seq::empty()
    } else {
        let j = next_slash(s, i);
        proof {
            lemma_next_slash_bounds(s, i);
        }
        let p = s.subrange(i, j);
        let rest = if j >= s.len() {
            Seq::empty()
        } else {
            names_from(s, j + 1)
        };
        if p.len() == 0 || p == seq!['.'] {
            rest
        } else {
            seq![p] + rest
        }
    }
}

/// The components of the path `s`: `/` for a leading root, `.` for a leading current
/// directory, then its names.
pub open spec fn components(s: Seq<char>) -> Seq<Seq<char>> {
    if s.len() > 0 && s[0] == '/' {
        seq![seq!['/']] + names_from(s, 1)
    } else if s.len() > 0 && s[0] == '.' && (s.len() == 1 || s[1] == '/') {
        seq![seq!['.']] + names_from(s, 1)
    } else {
        names_from(s, 0)
    }
}

/// A path written from its components: the root, then the others joined by `/`.
pub open spec fn render(c: Seq<Seq<char>>) -> Seq<char> {
    if c.len() > 0 && c[0] == seq!['/'] {
        seq!['/'] + joined(c.drop_first(), seq!['/'])
    } else {
        joined(c, seq!['/'])
    }
}

/// What is left of `path` after the components of `base`, when they begin it.
pub open spec fn strip_components(path: Seq<Seq<char>>, base: Seq<Seq<char>>) -> Option<Seq<Seq<char>>> {
    if base.len() <= path.len() && path.subrange(0, base.len() as int) == base {
        Some(path.subrange(base.len() as int, path.len() as int))
    } else {
        None
    }
}

/// The last component, when it is a name (not the root, `.` or `..`).
pub open spec fn file_name_spec(c: Seq<Seq<char>>) -> Option<Seq<char>> {
    if c.len() > 0 && c.last() != seq!['/'] && c.last() != seq!['.'] && c.last() != seq!['.', '.'] {
        Some(c.last())
    } else {
        None
    }
}

/// A path of components `c` has a parent unless it is empty or only the root.
pub open spec fn has_parent(c: Seq<Seq<char>>) -> bool {
    c.len() > 0 && c.last() != seq!['/']
}

/// The components of `c` and of its ancestors, nearest first: each one the previous without its
/// last component, for as long as there is a parent.
pub open spec fn ancestor_components(c: Seq<Seq<char>>) -> Seq<Seq<Seq<char>>>
    decreases c.len(),
{
    if has_parent(c) {
        seq![c] + ancestor_components(c.drop_last())
    } else {
        seq![c]
    }
}

/// Strings as their texts.
pub open spec fn texts(v: Seq<String>) -> Seq<Seq<char>> {
    v.map_values(|x: String| x@)
}

/// The one-character string `c`.
fn one_char(c: char) -> (r: String)
    ensures
        r@ == seq![c],
{
    let mut r = String::new();
    push_char(&mut r, c);
    r
}

/// The components of the path `s`.
pub fn path_components(s: &str) -> (r: Vec<String>)
    ensures
        texts(r@) == components(s@),
{
    let chars = chars_of(s);
    let ghost t = s@;
    let n = chars.len();
    let mut out: Vec<String> = Vec::new();
    let mut i: usize = 0;
    if n > 0 && chars[0] == '/' {
        out.push(one_char('/'));
        i = 1;
    } else if n > 0 && chars[0] == '.' && (n == 1 || chars[1] == '/') {
        out.push(one_char('.'));
        i = 1;
    }
    assert(texts(out@) + names_from(t, i as int) =~= components(t));
    while i < n
        invariant
            chars@ == t,
            n == t.len(),
            i <= n,
            texts(out@) + names_from(t, i as int) == components(t),
        decreases n - i,
    {
        proof {
            lemma_next_slash_bounds(t, i as int);
        }
        let mut j: usize = i;
        while j < n && chars[j] != '/'
            invariant
                chars@ == t,
                n == t.len(),
                i <= j <= n,
                next_slash(t, i as int) == next_slash(t, j as int),
            decreases n - j,
        {
            j = j + 1;
        }
        let ghost before = out@;
        if j > i && !(j == i + 1 && chars[i] == '.') {
            let piece = string_of_range(chars.as_slice(), i, j);
            out.push(piece);
            proof {
                assert(texts(out@) =~= texts(before).push(t.subrange(i as int, j as int)));
                assert(t.subrange(i as int, j as int) != seq!['.']) by {
                    if j == i + 1 {
                        assert(t.subrange(i as int, j as int)[0] == t[i as int]);
                    } else {
                        assert(t.subrange(i as int, j as int).len() != 1);
                    }
                }
            }
        } else {
            proof {
                if j == i + 1 {
                    assert(t.subrange(i as int, j as int) =~= seq!['.']);
                }
            }
        }
        proof {
            if j >= n {
                assert(names_from(t, n as int) =~= Seq::<Seq<char>>::empty());
            }
            assert(texts(out@) + names_from(t, if j >= n { n as int } else { j + 1 }) =~= texts(before)
                + names_from(t, i as int));
        }
        i = if j >= n {
            n
        } else {
            j + 1
        };
    }
    assert(names_from(t, i as int) =~= Seq::<Seq<char>>::empty());
    assert(texts(out@) =~= components(t));
    out
}

/// The path written from the components `c` (see `render`).
pub fn render_components(c: &[String]) -> (r: String)
    ensures
        r@ == render(texts(c@)),
{
    proof {
        reveal_strlit("/");
        assert("/"@ =~= seq!['/']);
        if c@.len() > 0 {
            assert(texts(c@)[0] == c@[0]@);
        }
    }
    if c.len() > 0 && str_eq(c[0].as_str(), "/") {
        let mut rest: Vec<String> = Vec::new();
        let mut i: usize = 1;
        while i < c.len()
            invariant
                1 <= i <= c@.len(),
                texts(rest@) == texts(c@).subrange(1, i as int),
            decreases c@.len() - i,
        {
            let x = c[i].clone();
            assert(x@ == c@[i as int]@);
            let ghost before = rest@;
            rest.push(x);
            assert(texts(rest@) =~= texts(before).push(x@));
            assert(texts(c@).subrange(1, i + 1) =~= texts(c@).subrange(1, i as int).push(c@[i as int]@));
            i = i + 1;
        }
        assert(texts(rest@) =~= texts(c@).drop_first());
        let tail = join_messages(rest.as_slice(), "/");
        let mut out: Vec<char> = Vec::new();
        out.push('/');
        append_str(&mut out, tail.as_str());
        proof {
            reveal_strlit("/");
            assert(texts(rest@) == rest@.map_values(|s: String| s@));
        }
        string_from_chars(out.as_slice())
    } else {
        assert(texts(c@) == c@.map_values(|s: String| s@));
        join_messages(c, "/")
    }
}

/// What is left of the components `path` after those of `base`, when they begin it.
pub fn strip_prefix_components(path: &[String], base: &[String]) -> (r: Option<Vec<String>>)
    ensures
        match r {
            Some(rest) => strip_components(texts(path@), texts(base@)) == Some(texts(rest@)),
            None => strip_components(texts(path@), texts(base@)) is None,
        },
{
    let ghost p = texts(path@);
    let ghost b = texts(base@);
    if base.len() > path.len() {
        return None;
    }
    let mut i: usize = 0;
    while i < base.len()
        invariant
            base@.len() <= path@.len(),
            p == texts(path@),
            b == texts(base@),
            i <= base@.len(),
            forall|k: int| 0 <= k < i ==> p[k] == b[k],
        decreases base@.len() - i,
    {
        if !str_eq(path[i].as_str(), base[i].as_str()) {
            proof {
                assert(p.subrange(0, b.len() as int)[i as int] != b[i as int]);
            }
            return None;
        }
        i = i + 1;
    }
    assert(p.subrange(0, b.len() as int) =~= b);
    let mut rest: Vec<String> = Vec::new();
    let mut k: usize = base.len();
    while k < path.len()
        invariant
            base@.len() <= k <= path@.len(),
            p == texts(path@),
            texts(rest@) == p.subrange(base@.len() as int, k as int),
        decreases path@.len() - k,
    {
        let x = path[k].clone();
        assert(x@ == path@[k as int]@);
        let ghost before = rest@;
        rest.push(x);
        assert(texts(rest@) =~= texts(before).push(x@));
        assert(texts(rest@) =~= p.subrange(base@.len() as int, k + 1));
        k = k + 1;
    }
    Some(rest)
}

/// The last component of `path`, when it is a name.
pub fn file_name(path: &str) -> (r: Option<String>)
    ensures
        match r {
            Some(n) => file_name_spec(components(path@)) == Some(n@),
            None => file_name_spec(components(path@)) is None,
        },
{
    let c = path_components(path);
    proof {
        reveal_strlit("/");
        reveal_strlit(".");
        reveal_strlit("..");
    }
    if c.len() == 0 {
        return None;
    }
    let last = &c[c.len() - 1];
    assert(texts(c@).last() == last@);
    if str_eq(last.as_str(), "/") || str_eq(last.as_str(), ".") || str_eq(last.as_str(), "..") {
        proof {
            assert("/"@ =~= seq!['/']);
            assert("."@ =~= seq!['.']);
            assert(".."@ =~= seq!['.', '.']);
        }
        None
    } else {
        proof {
            assert("/"@ =~= seq!['/']);
            assert("."@ =~= seq!['.']);
            assert(".."@ =~= seq!['.', '.']);
        }
        Some(last.clone())
    }
}

/// `start` and each of its ancestors, nearest first, each written from its components.
pub fn ancestor_dirs(start: &str) -> (r: Vec<String>)
    ensures
        texts(r@) == ancestor_components(components(start@)).map_values(|c: Seq<Seq<char>>| render(c)),
{
    let mut cur = path_components(start);
    let ghost c0 = texts(cur@);
    let mut out: Vec<String> = Vec::new();
    loop
        invariant_except_break
            ancestor_components(c0).map_values(|c: Seq<Seq<char>>| render(c)) == texts(out@)
                + ancestor_components(texts(cur@)).map_values(|c: Seq<Seq<char>>| render(c)),
        ensures
            ancestor_components(c0).map_values(|c: Seq<Seq<char>>| render(c)) == texts(out@),
        decreases cur@.len(),
    {
        let ghost before = out@;
        let ghost cc = texts(cur@);
        out.push(render_components(cur.as_slice()));
        let parent = cur.len() > 0 && !str_eq(cur[cur.len() - 1].as_str(), "/");
        proof {
            reveal_strlit("/");
            assert("/"@ =~= seq!['/']);
            if cur@.len() > 0 {
                assert(cc.last() == cur@[cur@.len() - 1]@);
            }
            assert(parent == has_parent(cc));
            assert(texts(out@) =~= texts(before).push(render(cc)));
        }
        if !parent {
            proof {
                assert(ancestor_components(cc).map_values(|c: Seq<Seq<char>>| render(c)) =~= seq![render(cc)]);
                assert(texts(out@) =~= texts(before) + seq![render(cc)]);
            }
            break;
        }
        cur.pop();
        proof {
            assert(texts(cur@) =~= cc.drop_last());
            let tail = ancestor_components(cc.drop_last());
            assert(ancestor_components(cc) == seq![cc] + tail);
            assert((seq![cc] + tail).map_values(|c: Seq<Seq<char>>| render(c)) =~= seq![render(cc)]
                + tail.map_values(|c: Seq<Seq<char>>| render(c)));
            assert(texts(out@) + tail.map_values(|c: Seq<Seq<char>>| render(c)) =~= texts(before)
                + (seq![render(cc)] + tail.map_values(|c: Seq<Seq<char>>| render(c))));
        }
    }
    out
}

/// The first of `dirs` whose mark is set.
pub open spec fn first_marked_spec(dirs: Seq<Seq<char>>, marks: Seq<bool>) -> Option<Seq<char>>
    decreases dirs.len(),
{
    if dirs.len() == 0 || marks.len() == 0 {
        None
    } else if marks[0] {
        Some(dirs[0])
    } else {
        first_marked_spec(dirs.drop_first(), marks.drop_first())
    }
}

/// The first of `dirs` whose mark in `marks` (same position) is set.
pub fn first_marked(dirs: &[String], marks: &[bool]) -> (r: Option<String>)
    requires
        dirs@.len() == marks@.len(),
    ensures
        match r {
            Some(d) => first_marked_spec(texts(dirs@), marks@) == Some(d@),
            None => first_marked_spec(texts(dirs@), marks@) is None,
        },
{
    let mut i: usize = 0;
    assert(texts(dirs@).subrange(0, dirs@.len() as int) =~= texts(dirs@));
    assert(marks@.subrange(0, marks@.len() as int) =~= marks@);
    while i < dirs.len()
        invariant
            dirs@.len() == marks@.len(),
            i <= dirs@.len(),
            first_marked_spec(texts(dirs@), marks@) == first_marked_spec(
                texts(dirs@).subrange(i as int, dirs@.len() as int),
                marks@.subrange(i as int, marks@.len() as int),
            ),
        decreases dirs@.len() - i,
    {
        let ghost d = texts(dirs@).subrange(i as int, dirs@.len() as int);
        let ghost m = marks@.subrange(i as int, marks@.len() as int);
        assert(d.drop_first() =~= texts(dirs@).subrange(i + 1, dirs@.len() as int));
        assert(m.drop_first() =~= marks@.subrange(i + 1, marks@.len() as int));
        if marks[i] {
            return Some(dirs[i].clone());
        }
        i = i + 1;
    }
    assert(texts(dirs@).subrange(i as int, dirs@.len() as int).len() == 0);
    None
}

/// A single name: not empty, not `.`, and free of `/`.
pub open spec fn plain_name(n: Seq<char>) -> bool {
    n.len() > 0 && n != seq!['.'] && forall|k: int| 0 <= k < n.len() ==> n[k] != '/'
}

proof fn lemma_next_slash_extend(s: Seq<char>, t: Seq<char>, i: int)
    requires
        0 <= i <= s.len(),
        s.len() <= t.len(),
        t.subrange(0, s.len() as int) == s,
        next_slash(s, i) < s.len(),
    ensures
        next_slash(t, i) == next_slash(s, i),
    decreases s.len() - i,
{
    assert(t[i] == s[i]);
    if s[i] != '/' {
        lemma_next_slash_extend(s, t, i + 1);
    }
}

proof fn lemma_next_slash_at_end(s: Seq<char>, t: Seq<char>, i: int)
    requires
        0 <= i <= s.len(),
        s.len() < t.len(),
        t.subrange(0, s.len() as int) == s,
        t[s.len() as int] == '/',
        next_slash(s, i) == s.len(),
    ensures
        next_slash(t, i) == s.len(),
    decreases s.len() - i,
{
    if i < s.len() {
        assert(t[i] == s[i]);
        lemma_next_slash_extend_none(s, i);
        lemma_next_slash_at_end(s, t, i + 1);
    }
}

proof fn lemma_next_slash_extend_none(s: Seq<char>, i: int)
    requires
        0 <= i < s.len(),
        next_slash(s, i) == s.len(),
    ensures
        s[i] != '/',
        next_slash(s, i + 1) == s.len(),
{
}

proof fn lemma_names_of_plain(n: Seq<char>, t: Seq<char>, at: int)
    requires
        plain_name(n),
        0 <= at,
        t.len() == at + n.len(),
        t.subrange(at, t.len() as int) == n,
    ensures
        names_from(t, at) == seq![n],
{
    lemma_no_slash_from(n, t, at, at);
    assert(t.subrange(at, t.len() as int) == n);
    assert(names_from(t, t.len() as int) =~= Seq::<Seq<char>>::empty());
}

proof fn lemma_no_slash_from(n: Seq<char>, t: Seq<char>, at: int, i: int)
    requires
        plain_name(n),
        0 <= at <= i <= t.len(),
        t.len() == at + n.len(),
        t.subrange(at, t.len() as int) == n,
    ensures
        next_slash(t, i) == t.len(),
    decreases t.len() - i,
{
    if i < t.len() {
        assert(t[i] == n[i - at]);
        lemma_no_slash_from(n, t, at, i + 1);
    }
}

/// Names of `s + '/' + n` (or of `s + n` when `s` ends in `/`): those of `s`, then `n`.
proof fn lemma_names_append(s: Seq<char>, n: Seq<char>, t: Seq<char>, i: int)
    requires
        plain_name(n),
        s.len() > 0,
        s.last() == '/' ==> t == s + n,
        s.last() != '/' ==> t == s + seq!['/'] + n,
        0 <= i <= s.len(),
    ensures
        names_from(t, i) == names_from(s, i) + seq![n],
    decreases s.len() - i,
{
    let sl = s.len() as int;
    assert(t.subrange(0, sl) =~= s);
    if i == sl {
        assert(names_from(s, i) =~= Seq::<Seq<char>>::empty());
        if s.last() == '/' {
            assert(t.subrange(sl, t.len() as int) =~= n);
            lemma_names_of_plain(n, t, sl);
        } else {
            assert(t[sl] == '/');
            assert(t.subrange(sl + 1, t.len() as int) =~= n);
            lemma_names_of_plain(n, t, sl + 1);
            lemma_next_slash_bounds(t, sl);
            assert(next_slash(t, sl) == sl);
            assert(t.subrange(sl, sl).len() == 0);
        }
    } else {
        lemma_next_slash_bounds(s, i);
        let j = next_slash(s, i);
        if j < sl {
            lemma_next_slash_extend(s, t, i);
            assert(t.subrange(i, j) =~= s.subrange(i, j));
            lemma_names_append(s, n, t, j + 1);
        } else {
            assert(s.last() != '/') by {
                assert(s[sl - 1] != '/');
            }
            assert(t[sl] == '/');
            lemma_next_slash_at_end(s, t, i);
            assert(t.subrange(i, sl) =~= s.subrange(i, sl));
            assert(names_from(s, i) =~= (if s.subrange(i, sl).len() == 0 || s.subrange(i, sl) == seq!['.'] {
                Seq::<Seq<char>>::empty()
            } else {
                seq![s.subrange(i, sl)]
            }));
            lemma_names_append(s, n, t, sl);
            assert(names_from(t, sl) == seq![n]);
        }
    }
}

/// Joining a plain name onto a path adds that name as its last component.
pub proof fn lemma_components_join_name(s: Seq<char>, n: Seq<char>)
    requires
        plain_name(n),
    ensures
        components(join_path_spec(s, n)) == components(s) + seq![n],
{
    let t = join_path_spec(s, n);
    assert(!(n.len() > 0 && n[0] == '/'));
    if s.len() == 0 {
        assert(t == n);
        assert(!(n[0] == '.' && (n.len() == 1 || n[1] == '/'))) by {
            if n.len() == 1 && n[0] == '.' {
                assert(n =~= seq!['.']);
            }
        }
        assert(t.subrange(0, t.len() as int) =~= n);
        lemma_names_of_plain(n, t, 0);
        assert(components(s) =~= Seq::<Seq<char>>::empty());
    } else {
        assert(t[0] == s[0]);
        if s.len() >= 2 {
            assert(t[1] == s[1]);
        } else if s.last() != '/' {
            assert(t[1] == '/');
        }
        if s[0] == '/' {
            lemma_names_append(s, n, t, 1);
        } else if s[0] == '.' && (s.len() == 1 || s[1] == '/') {
            lemma_names_append(s, n, t, 1);
        } else {
            lemma_names_append(s, n, t, 0);
        }
    }
}

/// The ancestors of `start`, nearest first and `start` itself included, each written from its
/// components.
pub open spec fn ancestors_spec(start: Seq<char>) -> Seq<Seq<char>> {
    ancestor_components(components(start)).map_values(|c: Seq<Seq<char>>| render(c))
}

/// The nearest ancestor of `start` (itself included) whose mark is set, `marks[i]` telling
/// whether the `i`-th ancestor (see `ancestors_spec`) has it.
pub fn first_marked_ancestor(start: &str, marks: &[bool]) -> (r: Option<String>)
    requires
        marks@.len() == ancestors_spec(start@).len(),
    ensures
        match r {
            Some(d) => first_marked_spec(ancestors_spec(start@), marks@) == Some(d@),
            None => first_marked_spec(ancestors_spec(start@), marks@) is None,
        },
{
    let dirs = ancestor_dirs(start);
    first_marked(dirs.as_slice(), marks)
}

/// The parent of the path with components `c`: all but the last component, when it has one.
pub open spec fn parent_spec(c: Seq<Seq<char>>) -> Option<Seq<Seq<char>>> {
    if has_parent(c) {
        Some(c.drop_last())
    } else {
        None
    }
}

/// The components of the parent of `path`, when it has one.
pub fn parent_components(path: &[String]) -> (r: Option<Vec<String>>)
    ensures
        match r {
            Some(p) => parent_spec(texts(path@)) == Some(texts(p@)),
            None => parent_spec(texts(path@)) is None,
        },
{
    proof {
        reveal_strlit("/");
        assert("/"@ =~= seq!['/']);
    }
    if path.len() == 0 {
        return None;
    }
    if str_eq(path[path.len() - 1].as_str(), "/") {
        assert(texts(path@).last() == path@[path@.len() - 1]@);
        return None;
    }
    assert(texts(path@).last() == path@[path@.len() - 1]@);
    let mut out: Vec<String> = Vec::new();
    let mut i: usize = 0;
    let last = path.len() - 1;
    while i < last
        invariant
            last == path@.len() - 1,
            path@.len() > 0,
            i <= path@.len() - 1,
            texts(out@) == texts(path@).subrange(0, i as int),
        decreases path@.len() - i,
    {
        let x = path[i].clone();
        assert(x@ == path@[i as int]@);
        let ghost before = out@;
        out.push(x);
        assert(texts(out@) =~= texts(before).push(x@));
        assert(texts(out@) =~= texts(path@).subrange(0, i + 1));
        i = i + 1;
    }
    assert(texts(path@).drop_last() =~= texts(path@).subrange(0, i as int));
    Some(out)
}
} // verus!
