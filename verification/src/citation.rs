//! Citation checking for `cites <ctx> strictly`: a response cites its
//! context when it repeats a contiguous four-word phrase of it.

use vstd::prelude::*;
use crate::text::{
    ascii_lower, blank, chars_of, contains, contains_chars, is_whitespace, is_ws, lower_chars,
    seq_is_blank, trim, trim_chars,
};

verus! {

/// The words of `s`: its maximal runs of non-whitespace characters, in
/// order (`str::split_whitespace`), built one character at a time.
pub open spec fn words(s: Seq<char>) -> Seq<Seq<char>>
    decreases s.len(),
{
    if s.len() == 0 {
        Seq::empty()
    } else {
        let prev = words(s.drop_last());
        let c = s.last();
        if is_ws(c) {
            prev
        } else if s.len() >= 2 && !is_ws(s[s.len() - 2]) {
            prev.update(prev.len() - 1, prev.last().push(c))
        } else {
            prev.push(seq![c])
        }
    }
}

/// The words `k .. k + 4` joined by single spaces.
pub open spec fn phrase(ws: Seq<Seq<char>>, k: int) -> Seq<char> {
    ws[k] + seq![' '] + ws[k + 1] + seq![' '] + ws[k + 2] + seq![' '] + ws[k + 3]
}

/// Whether `response` cites `context`, both compared in ASCII lowercase:
/// never for a blank context; for a context of fewer than four words when
/// the response contains the whole trimmed context; otherwise when the
/// response contains some run of four consecutive context words joined by
/// single spaces.
pub open spec fn cites(context: Seq<char>, response: Seq<char>) -> bool {
    let ctx = ascii_lower(context);
    let resp = ascii_lower(response);
    if blank(ctx) {
        false
    } else if words(ctx).len() < 4 {
        contains(resp, trim(ctx))
    } else {
        exists|k: int| 0 <= k && k + 4 <= words(ctx).len() && contains(resp, #[trigger] phrase(words(ctx), k))
    }
}

/// Appends `src` to `dst`.
fn append_chars(dst: &mut Vec<char>, src: &Vec<char>)
    ensures
        final(dst)@ == old(dst)@ + src@,
{
    let mut i: usize = 0;
    while i < src.len()
        invariant
            i <= src.len(),
            dst@ == old(dst)@ + src@.take(i as int),
        decreases src.len() - i,
    {
        dst.push(src[i]);
        i = i + 1;
        assert(dst@ =~= old(dst)@ + src@.take(i as int));
    }
    assert(src@.take(src.len() as int) =~= src@);
}

/// The words of a character sequence (`split_whitespace`).
pub fn split_words(v: &Vec<char>) -> (r: Vec<Vec<char>>)
    ensures
        r@.len() == words(v@).len(),
        forall|j: int| 0 <= j < r@.len() ==> (#[trigger] r@[j])@ == words(v@)[j],
{
    let mut list: Vec<Vec<char>> = Vec::new();
    let mut cur: Vec<char> = Vec::new();
    let mut i: usize = 0;
    while i < v.len()
        invariant
            i <= v.len(),
            cur@.len() > 0 <==> (i > 0 && !is_ws(v@[i - 1])),
            cur@.len() == 0 ==> list@.len() == words(v@.take(i as int)).len(),
            cur@.len() > 0 ==> list@.len() + 1 == words(v@.take(i as int)).len(),
            forall|j: int| 0 <= j < list@.len() ==> (#[trigger] list@[j])@ == words(v@.take(i as int))[j],
            cur@.len() > 0 ==> cur@ == words(v@.take(i as int))[list@.len() as int],
        decreases v.len() - i,
    {
        let c = v[i];
        let ghost before = v@.take(i as int);
        let ghost after = v@.take(i + 1);
        proof {
            assert(after.drop_last() =~= before);
            assert(after.last() == c);
            if i > 0 {
                assert(after[after.len() - 2] == v@[i - 1]);
            }
        }
        if is_whitespace(c) {
            if cur.len() > 0 {
                let done = cur;
                list.push(done);
                cur = Vec::new();
            }
        } else {
            cur.push(c);
        }
        i = i + 1;
        proof {
            assert(v@.take(i as int) == after);
        }
    }
    if cur.len() > 0 {
        list.push(cur);
    }
    assert(v@.take(v.len() as int) =~= v@);
    list
}

/// `ws[k] ws[k+1] ws[k+2] ws[k+3]` joined by single spaces.
fn join_four(ws: &Vec<Vec<char>>, k: usize) -> (r: Vec<char>)
    requires
        k + 4 <= ws@.len(),
    ensures
        r@ == ws@[k as int]@ + seq![' '] + ws@[k + 1]@ + seq![' '] + ws@[k + 2]@ + seq![' ']
            + ws@[k + 3]@,
{
    assert(k + 4 <= ws.len());
    let mut r: Vec<char> = Vec::new();
    append_chars(&mut r, &ws[k]);
    r.push(' ');
    append_chars(&mut r, &ws[k + 1]);
    r.push(' ');
    append_chars(&mut r, &ws[k + 2]);
    r.push(' ');
    append_chars(&mut r, &ws[k + 3]);
    r
}

/// Returns true when the response cites a contiguous phrase from the
/// cited context (see [`cites`]).
pub fn citation_verified(context: &str, response: &str) -> (r: bool)
    ensures
        r == cites(context@, response@),
{
    let cv = chars_of(context);
    let rv = chars_of(response);
    let ctx = lower_chars(&cv);
    let resp = lower_chars(&rv);
    if seq_is_blank(&ctx) {
        return false;
    }
    let ws = split_words(&ctx);
    if ws.len() < 4 {
        let t = trim_chars(&ctx);
        return contains_chars(&resp, &t);
    }
    let ghost wspec = words(ctx@);
    assert(ws@.len() == wspec.len());
    let last = ws.len() - 4;
    assert(last + 4 == ws.len());
    let mut k: usize = 0;
    while k <= last
        invariant
            last + 4 == ws@.len(),
            last + 4 <= usize::MAX,
            ws@.len() == wspec.len(),
            wspec == words(ctx@),
            ctx@ == ascii_lower(context@),
            !blank(ctx@),
            resp@ == ascii_lower(response@),
            forall|j: int| 0 <= j < ws@.len() ==> (#[trigger] ws@[j])@ == wspec[j],
            forall|j: int| 0 <= j < k ==> !contains(resp@, #[trigger] phrase(wspec, j)),
        decreases last + 1 - k,
    {
        let p = join_four(&ws, k);
        assert(p@ == phrase(wspec, k as int));
        if contains_chars(&resp, &p) {
            assert(contains(ascii_lower(response@), phrase(words(ascii_lower(context@)), k as int)));
            return true;
        }
        k = k + 1;
    }
    false
}

} // verus!
