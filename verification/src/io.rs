//! The runtime's file-system view: records of file operations and the
//! path arithmetic that needs no disk (`/`-separated paths, read alike on
//! Unix and on Windows where they hold no `\\` and no `:`).

use vstd::prelude::*;
use crate::errors::join;
use crate::text::{chars_of, lex_lt, string_from_chars, string_lt};
use std::path::Path;

verus! {

/// A file read: the path, its text, its size in bytes and how long the
/// read took.
pub struct FileRead {
    pub path: String,
    pub contents: String,
    pub bytes: u64,
    pub elapsed_ms: u64,
}

/// A file write: the path, the bytes written and how long it took.
pub struct FileWrite {
    pub path: String,
    pub bytes: u64,
    pub elapsed_ms: u64,
}

/// One entry of a directory listing.
pub struct DirectoryEntry {
    pub path: String,
    pub name: String,
    pub is_dir: bool,
}

/// The runtime's file-system access point.
pub struct IoRuntime;

pub open spec fn opt_view(o: Option<String>) -> Option<Seq<char>> {
    match o {
        Some(s) => Some(s@),
        None => None,
    }
}

/// What `Path::parent` gives for a path.
pub uninterp spec fn path_parent(path: Seq<char>) -> Option<Seq<char>>;

/// What `Path::file_name` gives for a path.
pub uninterp spec fn path_file_name(path: Seq<char>) -> Option<Seq<char>>;

/// What `Path::extension` gives for a path.
pub uninterp spec fn path_extension(path: Seq<char>) -> Option<Seq<char>>;

/// What `Path::with_extension` gives for a path and an extension.
pub uninterp spec fn path_with_extension(path: Seq<char>, extension: Seq<char>) -> Seq<char>;

/// Where the final component of a path starts: just after its last `/`.
pub open spec fn name_start(p: Seq<char>) -> int
    decreases p.len(),
{
    if p.len() == 0 {
        0
    } else if p.last() == '/' {
        p.len() as int
    } else {
        name_start(p.drop_last())
    }
}

/// A plain relative path: not empty, no leading or trailing `/`, no `//`,
/// no `.` or `..` component, and no `\\` or `:` (which Windows reads as a
/// separator or a drive prefix). On such a path `std::path` reads the
/// components as the `/`-separated pieces on every platform.
pub open spec fn plain_path(p: Seq<char>) -> bool {
    &&& p.len() > 0
    &&& !p.contains('\\')
    &&& !p.contains(':')
    &&& p[0] != '/'
    &&& p.last() != '/'
    &&& forall|i: int| 0 <= i < p.len() - 1 && #[trigger] p[i] == '/' ==> p[i + 1] != '/'
    &&& forall|k: int|
        0 <= k < segments(p).len() ==> #[trigger] segments(p)[k] != seq!['.'] && segments(p)[k] != seq![
            '.',
            '.',
        ]
}

/// The final component of a path.
pub open spec fn final_name(p: Seq<char>) -> Seq<char> {
    p.subrange(name_start(p), p.len() as int)
}

/// The path before its final component (empty for a single component).
pub open spec fn plain_parent(p: Seq<char>) -> Seq<char> {
    if name_start(p) == 0 {
        Seq::empty()
    } else {
        p.take(name_start(p) - 1)
    }
}

/// Index of the last `.` of a name, or -1.
pub open spec fn last_dot(n: Seq<char>) -> int
    decreases n.len(),
{
    if n.len() == 0 {
        -1
    } else if n.last() == '.' {
        n.len() - 1
    } else {
        last_dot(n.drop_last())
    }
}

/// A file name's extension: the text after its last `.`, unless there is
/// none or the only one leads the name.
pub open spec fn name_extension(n: Seq<char>) -> Option<Seq<char>> {
    if last_dot(n) <= 0 {
        None
    } else {
        Some(n.subrange(last_dot(n) + 1, n.len() as int))
    }
}

/// A file name's stem: the name without its extension and the dot before
/// it.
pub open spec fn name_stem(n: Seq<char>) -> Seq<char> {
    if last_dot(n) <= 0 {
        n
    } else {
        n.take(last_dot(n))
    }
}

/// A plain path with the extension of its file name replaced by `e` (or
/// dropped when `e` is empty).
pub open spec fn plain_with_extension(p: Seq<char>, e: Seq<char>) -> Seq<char> {
    p.take(name_start(p)) + name_stem(final_name(p)) + if e.len() == 0 {
        Seq::empty()
    } else {
        seq!['.'] + e
    }
}

/// `Path::parent`: the path without its final component, if it has one.
/// Which text that is, is named by [`path_parent`]; it is a part of the
/// path with a component taken off, so it is shorter. On a plain path it
/// is the text before the last `/` (empty for a single component).
#[verifier::external_body]
fn std_parent(path: &str) -> (r: Option<String>)
    ensures
        opt_view(r) == path_parent(path@),
        r matches Some(p) ==> p@.len() < path@.len(),
        plain_path(path@) ==> opt_view(r) == Some(plain_parent(path@)),
{
    match Path::new(path).parent() {
        Some(p) => Some(p.to_string_lossy().into_owned()),
        None => None,
    }
}

/// `Path::file_name`: the final component, unless the path ends in
/// `..`; named by [`path_file_name`]. On a plain path it is the text after
/// the last `/`.
#[verifier::external_body]
fn std_file_name(path: &str) -> (r: Option<String>)
    ensures
        opt_view(r) == path_file_name(path@),
        plain_path(path@) ==> opt_view(r) == Some(final_name(path@)),
{
    match Path::new(path).file_name() {
        Some(n) => Some(n.to_string_lossy().into_owned()),
        None => None,
    }
}

/// `Path::extension`: the text after the last `.` of the file name;
/// named by [`path_extension`]. On a plain path it is the extension of the
/// final component as the documentation gives it (none where the name has
/// no `.` or only a leading one).
#[verifier::external_body]
fn std_extension(path: &str) -> (r: Option<String>)
    ensures
        opt_view(r) == path_extension(path@),
        plain_path(path@) ==> opt_view(r) == name_extension(final_name(path@)),
{
    match Path::new(path).extension() {
        Some(e) => Some(e.to_string_lossy().into_owned()),
        None => None,
    }
}

/// `Path::with_extension`: the path with its extension replaced; named
/// by [`path_with_extension`]. It panics on an extension that holds a
/// path separator (`/`, and on Windows also `\\`), which is ruled out. On a plain path the file name's
/// stem keeps its place and the new extension follows it after a `.`.
#[verifier::external_body]
fn std_with_extension(path: &str, extension: &str) -> (r: String)
    requires
        !extension@.contains('/'),
        !extension@.contains('\\'),
    ensures
        r@ == path_with_extension(path@, extension@),
        plain_path(path@) ==> r@ == plain_with_extension(path@, extension@),
{
    Path::new(path).with_extension(extension).to_string_lossy().into_owned()
}

/// `base` joined with `child` as `PathBuf::push` does on Unix: an
/// absolute child replaces the base; otherwise a `/` goes between them
/// unless the base is empty or already ends in one.
pub open spec fn joined(base: Seq<char>, child: Seq<char>) -> Seq<char> {
    if child.len() > 0 && child[0] == '/' {
        child
    } else if base.len() == 0 || base.last() == '/' {
        base + child
    } else {
        base + seq!['/'] + child
    }
}

/// The `/`-separated segments of a path that are not empty, in order.
pub open spec fn segments(s: Seq<char>) -> Seq<Seq<char>>
    decreases s.len(),
{
    if s.len() == 0 {
        Seq::empty()
    } else {
        let prev = segments(s.drop_last());
        let c = s.last();
        if c == '/' {
            prev
        } else if s.len() >= 2 && s[s.len() - 2] != '/' {
            prev.update(prev.len() - 1, prev.last().push(c))
        } else {
            prev.push(seq![c])
        }
    }
}

/// Segments with `.` dropped and each `..` removing the segment before
/// it; a `..` with nothing before it stays in a relative path and is
/// dropped in an absolute one.
pub open spec fn resolve(segs: Seq<Seq<char>>, absolute: bool) -> Seq<Seq<char>>
    decreases segs.len(),
{
    if segs.len() == 0 {
        Seq::empty()
    } else {
        let st = resolve(segs.drop_last(), absolute);
        let x = segs.last();
        if x == seq!['.'] {
            st
        } else if x == seq!['.', '.'] {
            if st.len() > 0 {
                st.drop_last()
            } else if !absolute {
                st.push(x)
            } else {
                st
            }
        } else {
            st.push(x)
        }
    }
}

/// A path with `.` and `..` resolved lexically (no disk access); `.` when
/// nothing is left.
pub open spec fn normalized(path: Seq<char>) -> Seq<char> {
    let absolute = path.len() > 0 && path[0] == '/';
    let body = join(resolve(segments(path), absolute), seq!['/']);
    let r = if absolute {
        seq!['/'] + body
    } else {
        body
    };
    if r.len() == 0 {
        seq!['.']
    } else {
        r
    }
}

proof fn lemma_segments_last_open(s: Seq<char>)
    requires
        s.len() > 0,
        s.last() != '/',
    ensures
        segments(s).len() > 0,
    decreases s.len(),
{
    if s.len() >= 2 && s[s.len() - 2] != '/' {
        lemma_segments_last_open(s.drop_last());
    }
}

/// The segments of a path (see [`segments`]).
fn split_segments(v: &Vec<char>) -> (r: Vec<Vec<char>>)
    ensures
        r@.len() == segments(v@).len(),
        forall|j: int| 0 <= j < r@.len() ==> (#[trigger] r@[j])@ == segments(v@)[j],
{
    let mut list: Vec<Vec<char>> = Vec::new();
    let mut cur: Vec<char> = Vec::new();
    let mut i: usize = 0;
    while i < v.len()
        invariant
            i <= v.len(),
            cur@.len() > 0 <==> (i > 0 && v@[i - 1] != '/'),
            cur@.len() == 0 ==> list@.len() == segments(v@.take(i as int)).len(),
            cur@.len() > 0 ==> list@.len() + 1 == segments(v@.take(i as int)).len(),
            forall|j: int| 0 <= j < list@.len() ==> (#[trigger] list@[j])@ == segments(v@.take(i as int))[j],
            cur@.len() > 0 ==> cur@ == segments(v@.take(i as int))[list@.len() as int],
        decreases v.len() - i,
    {
        let c = v[i];
        let ghost before = v@.take(i as int);
        let ghost after = v@.take(i + 1);
        proof {
            assert(after.drop_last() =~= before);
            assert(after.last() == c);
            if i > 0 {
                assert(after[after.len() - 2] == v@[i - 1]);
                if v@[i - 1] != '/' {
                    lemma_segments_last_open(before);
                }
            }
        }
        if c == '/' {
            if cur.len() > 0 {
                let done = cur;
                list.push(done);
                cur = Vec::new();
            }
        } else {
            cur.push(c);
        }
        i = i + 1;
        proof {
            assert(v@.take(i as int) == after);
        }
    }
    if cur.len() > 0 {
        list.push(cur);
    }
    assert(v@.take(v.len() as int) =~= v@);
    list
}

fn is_dot(v: &Vec<char>) -> (r: bool)
    ensures
        r == (v@ == seq!['.']),
{
    let r = v.len() == 1 && v[0] == '.';
    proof {
        if v@.len() == 1 && v@[0] == '.' {
            assert(v@ =~= seq!['.']);
        }
    }
    r
}

fn is_dot_dot(v: &Vec<char>) -> (r: bool)
    ensures
        r == (v@ == seq!['.', '.']),
{
    let r = v.len() == 2 && v[0] == '.' && v[1] == '.';
    proof {
        if v@.len() == 2 && v@[0] == '.' && v@[1] == '.' {
            assert(v@ =~= seq!['.', '.']);
        }
    }
    r
}

impl IoRuntime {
    pub fn new() -> (r: IoRuntime) {
        IoRuntime
    }

    /// `base` joined with `child` (see [`joined`]).
    pub fn join_path(&self, base: &str, child: &str) -> (r: String)
        ensures
            r@ == joined(base@, child@),
    {
        let b = chars_of(base);
        let c = chars_of(child);
        let mut out: Vec<char> = Vec::new();
        if c.len() > 0 && c[0] == '/' {
            return string_from_chars(&c);
        }
        let mut i: usize = 0;
        while i < b.len()
            invariant
                i <= b@.len(),
                out@ == b@.take(i as int),
            decreases b.len() - i,
        {
            out.push(b[i]);
            i = i + 1;
            assert(out@ =~= b@.take(i as int));
        }
        assert(b@.take(b@.len() as int) =~= b@);
        if !(b.len() == 0 || b[b.len() - 1] == '/') {
            out.push('/');
        }
        let ghost head = out@;
        let mut j: usize = 0;
        while j < c.len()
            invariant
                j <= c@.len(),
                out@ == head + c@.take(j as int),
            decreases c.len() - j,
        {
            out.push(c[j]);
            j = j + 1;
            assert(out@ =~= head + c@.take(j as int));
        }
        assert(c@.take(c@.len() as int) =~= c@);
        assert(out@ =~= joined(base@, child@));
        string_from_chars(&out)
    }

    /// The path without its final component (`Path::parent`).
    pub fn parent_path(&self, path: &str) -> (r: Option<String>)
        ensures
            opt_view(r) == path_parent(path@),
            r matches Some(p) ==> p@.len() < path@.len(),
            plain_path(path@) ==> opt_view(r) == Some(plain_parent(path@)),
    {
        std_parent(path)
    }

    /// The final component (`Path::file_name`).
    pub fn file_name(&self, path: &str) -> (r: Option<String>)
        ensures
            opt_view(r) == path_file_name(path@),
            plain_path(path@) ==> opt_view(r) == Some(final_name(path@)),
    {
        std_file_name(path)
    }

    /// The extension (`Path::extension`).
    pub fn extension(&self, path: &str) -> (r: Option<String>)
        ensures
            opt_view(r) == path_extension(path@),
            plain_path(path@) ==> opt_view(r) == name_extension(final_name(path@)),
    {
        std_extension(path)
    }

    /// The path with another extension (`Path::with_extension`), which
    /// may not hold a path separator (`/`, or `\\` on Windows).
    pub fn with_extension(&self, path: &str, extension: &str) -> (r: String)
        requires
            !extension@.contains('/'),
            !extension@.contains('\\'),
        ensures
            r@ == path_with_extension(path@, extension@),
            plain_path(path@) ==> r@ == plain_with_extension(path@, extension@),
    {
        std_with_extension(path, extension)
    }

    /// The path with `.` and `..` resolved (see [`normalized`]).
    pub fn normalize_path(&self, path: &str) -> (r: String)
        ensures
            r@ == normalized(path@),
    {
        let v = chars_of(path);
        let absolute = v.len() > 0 && v[0] == '/';
        let segs = split_segments(&v);
        let ghost sv = segments(v@);
        let mut stack: Vec<Vec<char>> = Vec::new();
        let mut i: usize = 0;
        while i < segs.len()
            invariant
                i <= segs@.len(),
                segs@.len() == sv.len(),
                forall|j: int| 0 <= j < segs@.len() ==> (#[trigger] segs@[j])@ == sv[j],
                stack@.map_values(|x: Vec<char>| x@) == resolve(sv.take(i as int), absolute),
            decreases segs.len() - i,
        {
            let ghost prev = stack@.map_values(|x: Vec<char>| x@);
            proof {
                assert(sv.take(i + 1).drop_last() =~= sv.take(i as int));
                assert(sv.take(i + 1).last() == segs@[i as int]@);
            }
            let seg = &segs[i];
            if is_dot(seg) {
            } else if is_dot_dot(seg) {
                if stack.len() > 0 {
                    stack.pop();
                    assert(stack@.map_values(|x: Vec<char>| x@) =~= prev.drop_last());
                } else if !absolute {
                    stack.push(seg.clone());
                    assert(stack@.map_values(|x: Vec<char>| x@) =~= prev.push(seg@));
                }
            } else {
                stack.push(seg.clone());
                assert(stack@.map_values(|x: Vec<char>| x@) =~= prev.push(seg@));
            }
            i = i + 1;
        }
        assert(sv.take(sv.len() as int) =~= sv);
        let ghost parts = stack@.map_values(|x: Vec<char>| x@);
        let mut out: Vec<char> = Vec::new();
        if absolute {
            out.push('/');
        }
        let ghost head = out@;
        let mut k: usize = 0;
        while k < stack.len()
            invariant
                k <= stack@.len(),
                parts == stack@.map_values(|x: Vec<char>| x@),
                out@ == head + join(parts.take(k as int), seq!['/']),
            decreases stack.len() - k,
        {
            if k > 0 {
                out.push('/');
            }
            let part = &stack[k];
            let ghost before = out@;
            let mut j: usize = 0;
            while j < part.len()
                invariant
                    j <= part@.len(),
                    out@ == before + part@.take(j as int),
                decreases part.len() - j,
            {
                out.push(part[j]);
                j = j + 1;
                assert(out@ =~= before + part@.take(j as int));
            }
            proof {
                assert(part@.take(part@.len() as int) =~= part@);
                assert(parts.take(k + 1).drop_last() =~= parts.take(k as int));
                assert(parts.take(k + 1).last() == part@);
                if k == 0 {
                    assert(parts.take(1).len() == 1);
                    assert(join(parts.take(1), seq!['/']) == parts.take(1)[0]);
                }
            }
            k = k + 1;
            assert(out@ =~= head + join(parts.take(k as int), seq!['/']));
        }
        assert(parts.take(parts.len() as int) =~= parts);
        if out.len() == 0 {
            out.push('.');
        }
        assert(out@ =~= normalized(path@));
        string_from_chars(&out)
    }
}

/// Inserts `e` after every entry whose name it does not sort strictly
/// before.
pub open spec fn insert_entry_sorted(s: Seq<DirectoryEntry>, e: DirectoryEntry) -> Seq<DirectoryEntry>
    decreases s.len(),
{
    if s.len() == 0 {
        seq![e]
    } else if lex_lt(e.name@, s.last().name@) {
        insert_entry_sorted(s.drop_last(), e).push(s.last())
    } else {
        s.push(e)
    }
}

/// A listing in name order (a stable sort of the order it was read in).
pub open spec fn sorted_entries(s: Seq<DirectoryEntry>) -> Seq<DirectoryEntry>
    decreases s.len(),
{
    if s.len() == 0 {
        Seq::empty()
    } else {
        insert_entry_sorted(sorted_entries(s.drop_last()), s.last())
    }
}

fn insert_entry(out: &mut Vec<DirectoryEntry>, e: DirectoryEntry)
    ensures
        final(out)@ == insert_entry_sorted(old(out)@, e),
{
    let ghost target = insert_entry_sorted(old(out)@, e);
    let mut moved: Vec<DirectoryEntry> = Vec::new();
    while out.len() > 0 && string_lt(&e.name, &out[out.len() - 1].name)
        invariant
            target == insert_entry_sorted(out@, e) + moved@.reverse(),
        decreases out.len(),
    {
        let ghost before = out@;
        let last = out.pop().unwrap();
        proof {
            assert(before.drop_last() =~= out@);
            assert(moved@.push(last).reverse() =~= seq![last] + moved@.reverse());
            assert(target =~= insert_entry_sorted(out@, e) + moved@.push(last).reverse());
        }
        moved.push(last);
    }
    let ghost base = out@;
    out.push(e);
    assert(insert_entry_sorted(base, e) =~= base.push(e));
    while moved.len() > 0
        invariant
            target == out@ + moved@.reverse(),
        decreases moved.len(),
    {
        let ghost mv = moved@;
        let m = moved.pop().unwrap();
        proof {
            assert(mv.reverse() =~= seq![m] + moved@.reverse());
        }
        out.push(m);
        assert(target =~= out@ + moved@.reverse());
    }
    assert(moved@.reverse() =~= Seq::<DirectoryEntry>::empty());
    assert(target =~= out@);
}

/// A directory listing in name order.
pub fn sort_entries_by_name(entries: Vec<DirectoryEntry>) -> (r: Vec<DirectoryEntry>)
    ensures
        r@ == sorted_entries(entries@),
{
    let mut sorted: Vec<DirectoryEntry> = Vec::new();
    let mut rest = entries;
    let ghost all = rest@;
    let mut taken: usize = 0;
    let mut remaining: Vec<DirectoryEntry> = Vec::new();
    while rest.len() > 0
        invariant
            all == rest@ + remaining@.reverse(),
        decreases rest.len(),
    {
        let ghost before = rest@;
        let e = rest.pop().unwrap();
        proof {
            assert(before =~= rest@.push(e));
            assert(remaining@.push(e).reverse() =~= seq![e] + remaining@.reverse());
        }
        remaining.push(e);
    }
    assert(all =~= remaining@.reverse());
    let n = remaining.len();
    while remaining.len() > 0
        invariant
            taken + remaining@.len() == n,
            n == all.len(),
            taken <= all.len(),
            remaining@.reverse() == all.skip(taken as int),
            sorted@ == sorted_entries(all.take(taken as int)),
        decreases remaining.len(),
    {
        let ghost mv = remaining@;
        let e = remaining.pop().unwrap();
        proof {
            assert(mv.reverse() =~= seq![e] + remaining@.reverse());
            assert(all.skip(taken as int)[0] == e);
            assert(all.take(taken as int + 1).drop_last() =~= all.take(taken as int));
            assert(all.take(taken as int + 1).last() == e);
            assert(all.skip(taken as int + 1) =~= all.skip(taken as int).drop_first());
        }
        insert_entry(&mut sorted, e);
        taken = taken + 1;
    }
    assert(all.take(all.len() as int) =~= all);
    sorted
}

/// A piece a `/`-split can give: not empty, and without a `/`.
pub open spec fn is_piece(x: Seq<char>) -> bool {
    x.len() > 0 && !x.contains('/')
}

/// Resolved segments: pieces, none of them `.`, and `..` only first, and
/// only in a relative path.
pub open spec fn resolved_shape(r: Seq<Seq<char>>, absolute: bool) -> bool {
    forall|k: int|
        0 <= k < r.len() ==> is_piece(#[trigger] r[k]) && r[k] != seq!['.'] && (r[k] == seq!['.', '.']
            ==> k == 0 && !absolute)
}

proof fn lemma_segments_are_pieces(s: Seq<char>)
    ensures
        forall|k: int| 0 <= k < segments(s).len() ==> is_piece(#[trigger] segments(s)[k]),
    decreases s.len(),
{
    if s.len() > 0 {
        lemma_segments_are_pieces(s.drop_last());
        let prev = segments(s.drop_last());
        let c = s.last();
        if c != '/' && s.len() >= 2 && s[s.len() - 2] != '/' {
            lemma_segments_last_open(s.drop_last());
            let l = prev.last().push(c);
            assert(!l.contains('/')) by {
                if l.contains('/') {
                    let j = choose|j: int| 0 <= j < l.len() && l[j] == '/';
                    if j < l.len() - 1 {
                        assert(prev.last()[j] == '/');
                        assert(prev.last().contains('/'));
                        assert(is_piece(prev[prev.len() - 1]));
                    }
                }
            }
        } else if c != '/' {
            assert(!seq![c].contains('/')) by {
                if seq![c].contains('/') {
                    let j = choose|j: int| 0 <= j < 1 && seq![c][j] == '/';
                }
            }
        }
    }
}

proof fn lemma_resolve_shape(segs: Seq<Seq<char>>, absolute: bool)
    requires
        forall|k: int| 0 <= k < segs.len() ==> is_piece(#[trigger] segs[k]),
    ensures
        resolved_shape(resolve(segs, absolute), absolute),
    decreases segs.len(),
{
    if segs.len() > 0 {
        assert forall|k: int| 0 <= k < segs.drop_last().len() implies is_piece(#[trigger] segs.drop_last()[k]) by {
            assert(segs.drop_last()[k] == segs[k]);
        }
        lemma_resolve_shape(segs.drop_last(), absolute);
        assert(is_piece(segs[segs.len() - 1]));
    }
}

proof fn lemma_resolve_keeps_resolved(r: Seq<Seq<char>>, absolute: bool)
    requires
        resolved_shape(r, absolute),
    ensures
        resolve(r, absolute) == r,
    decreases r.len(),
{
    if r.len() > 0 {
        assert(resolved_shape(r.drop_last(), absolute)) by {
            assert forall|k: int| 0 <= k < r.drop_last().len() implies is_piece(#[trigger] r.drop_last()[k])
                && r.drop_last()[k] != seq!['.'] && (r.drop_last()[k] == seq!['.', '.'] ==> k == 0 && !absolute) by {
                assert(r.drop_last()[k] == r[k]);
            }
        }
        lemma_resolve_keeps_resolved(r.drop_last(), absolute);
        assert(is_piece(r[r.len() - 1]));
        if r.last() == seq!['.', '.'] {
            assert(r.len() - 1 == 0);
            assert(r.drop_last() =~= Seq::<Seq<char>>::empty());
        }
        assert(r.drop_last().push(r.last()) =~= r);
    }
}

proof fn lemma_segments_root()
    ensures
        segments(seq!['/']) == Seq::<Seq<char>>::empty(),
{
    let r = seq!['/'];
    assert(r.drop_last() =~= Seq::<char>::empty());
    assert(segments(r.drop_last()) == Seq::<Seq<char>>::empty());
    assert(r.last() == '/');
}

proof fn lemma_segments_slash(s: Seq<char>)
    ensures
        segments(s + seq!['/']) == segments(s),
{
    assert((s + seq!['/']).drop_last() =~= s);
}

proof fn lemma_segments_piece(s: Seq<char>, x: Seq<char>)
    requires
        s.len() == 0 || s.last() == '/',
        is_piece(x),
    ensures
        segments(s + x) == segments(s).push(x),
    decreases x.len(),
{
    assert(forall|j: int| 0 <= j < x.len() ==> x[j] != '/') by {
        assert forall|j: int| 0 <= j < x.len() implies x[j] != '/' by {
            if x[j] == '/' {
                assert(x.contains('/'));
            }
        }
    }
    if x.len() == 1 {
        assert((s + x).drop_last() =~= s);
        assert(x =~= seq![x[0]]);
    } else {
        let y = x.drop_last();
        assert(!y.contains('/')) by {
            if y.contains('/') {
                let j = choose|j: int| 0 <= j < y.len() && y[j] == '/';
                assert(x[j] == '/');
            }
        }
        lemma_segments_piece(s, y);
        assert((s + x).drop_last() =~= s + y);
        assert((s + x)[(s + x).len() - 2] == y.last());
        assert(segments(s + y).last() == y);
        assert(y.push(x.last()) =~= x);
        assert(segments(s + y).update(segments(s + y).len() - 1, y.push(x.last())) =~= segments(s).push(x));
    }
}

proof fn lemma_segments_of_join(prefix: Seq<char>, r: Seq<Seq<char>>)
    requires
        prefix == Seq::<char>::empty() || prefix == seq!['/'],
        forall|k: int| 0 <= k < r.len() ==> is_piece(#[trigger] r[k]),
    ensures
        segments(prefix + join(r, seq!['/'])) == r,
    decreases r.len(),
{
    if r.len() == 0 {
        assert(prefix + join(r, seq!['/']) =~= prefix);
        lemma_segments_root();
    } else if r.len() == 1 {
        assert(is_piece(r[0]));
        lemma_segments_piece(prefix, r[0]);
        if prefix.len() == 1 {
            lemma_segments_root();
        }
        assert(segments(prefix) =~= Seq::<Seq<char>>::empty());
        assert(Seq::<Seq<char>>::empty().push(r[0]) =~= r);
    } else {
        let rest = r.drop_last();
        assert forall|k: int| 0 <= k < rest.len() implies is_piece(#[trigger] rest[k]) by {
            assert(rest[k] == r[k]);
        }
        lemma_segments_of_join(prefix, rest);
        let a = prefix + join(rest, seq!['/']);
        lemma_segments_slash(a);
        assert(is_piece(r[r.len() - 1]));
        lemma_segments_piece(a + seq!['/'], r.last());
        assert(prefix + join(r, seq!['/']) =~= (a + seq!['/']) + r.last());
        assert(rest.push(r.last()) =~= r);
    }
}

/// Normalizing is lexical and settles at once: the normalized path has no
/// `.` component, a `..` only as the first component of a relative path,
/// is `.` when nothing is left, and normalizing it again changes nothing.
pub proof fn normalizing_is_idempotent(p: Seq<char>)
    ensures
        resolved_shape(
            segments(normalized(p)),
            normalized(p).len() > 0 && normalized(p)[0] == '/',
        ) || normalized(p) == seq!['.'],
        normalized(normalized(p)) == normalized(p),
{
    let absolute = p.len() > 0 && p[0] == '/';
    lemma_segments_are_pieces(p);
    lemma_resolve_shape(segments(p), absolute);
    let r = resolve(segments(p), absolute);
    let prefix = if absolute { seq!['/'] } else { Seq::<char>::empty() };
    let body = join(r, seq!['/']);
    assert(forall|k: int| 0 <= k < r.len() ==> is_piece(#[trigger] r[k]));
    lemma_segments_of_join(prefix, r);
    if absolute {
        assert(seq!['/'] + body == prefix + body);
    } else {
        assert(body =~= prefix + body);
    }
    let n = normalized(p);
    if (prefix + body).len() == 0 {
        assert(n == seq!['.']);
        assert(segments(seq!['.']) =~= seq![seq!['.']]) by {
            assert(seq!['.'].drop_last() =~= Seq::<char>::empty());
        }
        let dot = seq![seq!['.']];
        assert(dot.drop_last() =~= Seq::<Seq<char>>::empty());
        assert(resolve(dot.drop_last(), false) == Seq::<Seq<char>>::empty());
        assert(dot.last() == seq!['.']);
        assert(resolve(dot, false) =~= Seq::<Seq<char>>::empty());
        assert(join(Seq::<Seq<char>>::empty(), seq!['/']) =~= Seq::<char>::empty());
    } else {
        assert(n == prefix + body);
        if absolute {
            assert(n[0] == '/');
        } else if r.len() > 0 {
            assert(is_piece(r[0]));
            lemma_join_starts(r);
            assert(n[0] != '/');
        }
        assert(segments(n) == r);
        lemma_resolve_keeps_resolved(r, absolute);
        assert(n.len() > 0 && n[0] == '/' <==> absolute);
    }
}

proof fn lemma_join_starts(r: Seq<Seq<char>>)
    requires
        r.len() > 0,
        forall|k: int| 0 <= k < r.len() ==> is_piece(#[trigger] r[k]),
    ensures
        join(r, seq!['/']).len() > 0,
        join(r, seq!['/'])[0] == r[0][0],
    decreases r.len(),
{
    if r.len() > 1 {
        let rest = r.drop_last();
        assert forall|k: int| 0 <= k < rest.len() implies is_piece(#[trigger] rest[k]) by {
            assert(rest[k] == r[k]);
        }
        lemma_join_starts(rest);
        assert(rest[0] == r[0]);
    } else {
        assert(is_piece(r[0]));
    }
}

} // verus!
