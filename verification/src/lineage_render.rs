//! Text rendering of lineage traces: an indented tree of spans with their
//! contract context, or the list of violations of an incomplete trace.

use vstd::prelude::*;
use crate::errors::{join, join_strings, views};
use crate::lineage::{
    is_root, kind_label, kind_order, kind_rank, kind_text, lineage_violations, status_label,
    status_text, validate_lineage, LineageEvent,
};
use crate::text::{dec, digit, digit_char, lex_lt, push_char, push_str, string_lt, u64_to_decimal};

verus! {

/// `2 * depth` spaces.
pub open spec fn indent(depth: nat) -> Seq<char> {
    Seq::new(2 * depth, |i: int| ' ')
}

/// Four decimal digits of `n` (`n < 10000`), zero-padded.
pub open spec fn pad4(n: nat) -> Seq<char> {
    seq![digit_char(n / 1000), digit_char((n / 100) % 10), digit_char((n / 10) % 10), digit_char(n % 10)]
}

/// A cost given in millionths of a dollar, in dollars with four decimals,
/// rounded half up.
pub open spec fn money4(micros: nat) -> Seq<char> {
    let q = (micros + 50) / 100;
    dec(q / 10000) + "."@ + pad4(q % 10000)
}

/// `" <label><value>"` when `value` is not empty.
pub open spec fn tagged(label: Seq<char>, value: Seq<char>) -> Seq<char> {
    if value.len() > 0 {
        label + value
    } else {
        Seq::empty()
    }
}

/// The line of one span at the given depth.
pub open spec fn node_line(e: LineageEvent, depth: nat) -> Seq<char> {
    indent(depth) + "- "@ + kind_text(e.kind) + " "@ + e.name@ + " ["@ + status_text(e.status)
        + "]"@ + (if e.latency_ms > 0 {
        " latency="@ + dec(e.latency_ms as nat) + "ms"@
    } else {
        Seq::empty()
    }) + (if e.cost_micro_usd > 0 {
        " cost=$"@ + money4(e.cost_micro_usd as nat)
    } else {
        Seq::empty()
    }) + tagged(" guarantee="@, e.guarantee_id@) + tagged(" approval="@, e.approval_id@)
        + tagged(" replay="@, e.replay_key@) + tagged(
        " data="@,
        join(views(e.data_classes@), ","@),
    ) + "\n"@
}

/// Siblings are ordered by start time, then kind, then name.
pub open spec fn sibling_lt(a: LineageEvent, b: LineageEvent) -> bool {
    ||| a.started_ms < b.started_ms
    ||| a.started_ms == b.started_ms && kind_rank(a.kind) < kind_rank(b.kind)
    ||| a.started_ms == b.started_ms && kind_rank(a.kind) == kind_rank(b.kind) && lex_lt(
        a.name@,
        b.name@,
    )
}

/// Inserts event index `x` into `s`, after every entry it does not sort
/// strictly before (so equal keys keep their order).
pub open spec fn insert_sorted(evs: Seq<LineageEvent>, s: Seq<int>, x: int) -> Seq<int>
    decreases s.len(),
{
    if s.len() == 0 {
        seq![x]
    } else if sibling_lt(evs[x], evs[s.last()]) {
        insert_sorted(evs, s.drop_last(), x).push(s.last())
    } else {
        s.push(x)
    }
}

/// Indices of the first `n` events whose parent is `span`, in sibling
/// order (a stable sort of their order of appearance).
pub open spec fn children_upto(evs: Seq<LineageEvent>, span: Seq<char>, n: int) -> Seq<int>
    decreases n,
{
    if n <= 0 {
        Seq::empty()
    } else if evs[n - 1].parent_span_id@ == span && !is_root(evs[n - 1]) {
        insert_sorted(evs, children_upto(evs, span, n - 1), n - 1)
    } else {
        children_upto(evs, span, n - 1)
    }
}

pub open spec fn children(evs: Seq<LineageEvent>, span: Seq<char>) -> Seq<int> {
    children_upto(evs, span, evs.len() as int)
}

/// The subtree under event `i` at `depth`, going at most `fuel` levels deep.
pub open spec fn render_from(evs: Seq<LineageEvent>, i: int, depth: nat, fuel: nat) -> Seq<char>
    decreases fuel, 0nat,
{
    if fuel == 0 {
        Seq::empty()
    } else {
        node_line(evs[i], depth) + render_list(
            evs,
            children(evs, evs[i].span_id@),
            depth + 1,
            (fuel - 1) as nat,
        )
    }
}

/// The subtrees of the listed events, one after the other.
pub open spec fn render_list(evs: Seq<LineageEvent>, ks: Seq<int>, depth: nat, fuel: nat) -> Seq<
    char,
>
    decreases fuel, ks.len() + 1,
{
    if ks.len() == 0 {
        Seq::empty()
    } else {
        render_list(evs, ks.drop_last(), depth, fuel) + render_from(evs, ks.last(), depth, fuel)
    }
}

/// Index of the last root among the first `n` events, or -1.
pub open spec fn last_root_upto(evs: Seq<LineageEvent>, n: int) -> int
    decreases n,
{
    if n <= 0 {
        -1
    } else if is_root(evs[n - 1]) {
        n - 1
    } else {
        last_root_upto(evs, n - 1)
    }
}

/// `"- <v>\n"` for each violation.
pub open spec fn bullet_lines(vs: Seq<Seq<char>>) -> Seq<char>
    decreases vs.len(),
{
    if vs.len() == 0 {
        Seq::empty()
    } else {
        bullet_lines(vs.drop_last()) + "- "@ + vs.last() + "\n"@
    }
}

/// What [`render_lineage_tree`] prints: for an incomplete trace, a header
/// and its violations; otherwise the tree under the root, children in
/// sibling order, each level indented by two more spaces.
pub open spec fn rendered_tree(evs: Seq<LineageEvent>) -> Seq<char> {
    let vs = lineage_violations(evs);
    if vs.len() > 0 {
        "lineage: incomplete\n"@ + bullet_lines(vs)
    } else {
        let r = last_root_upto(evs, evs.len() as int);
        if r < 0 {
            Seq::empty()
        } else {
            render_from(evs, r, 0, evs.len() as nat)
        }
    }
}

proof fn lemma_last_root_bounds(evs: Seq<LineageEvent>, n: int)
    requires
        0 <= n <= evs.len(),
    ensures
        -1 <= last_root_upto(evs, n) < n,
        last_root_upto(evs, n) >= 0 ==> last_root_upto(evs, n) < evs.len(),
    decreases n,
{
    if n > 0 {
        lemma_last_root_bounds(evs, n - 1);
    }
}

proof fn lemma_insert_sorted_bounds(evs: Seq<LineageEvent>, s: Seq<int>, x: int, n: int)
    requires
        0 <= x < n,
        forall|j: int| 0 <= j < s.len() ==> 0 <= #[trigger] s[j] < n,
    ensures
        insert_sorted(evs, s, x).len() == s.len() + 1,
        forall|j: int|
            0 <= j < insert_sorted(evs, s, x).len() ==> 0 <= #[trigger] insert_sorted(evs, s, x)[j]
                < n,
    decreases s.len(),
{
    if s.len() > 0 && sibling_lt(evs[x], evs[s.last()]) {
        lemma_insert_sorted_bounds(evs, s.drop_last(), x, n);
    }
}

proof fn lemma_children_bounds(evs: Seq<LineageEvent>, span: Seq<char>, n: int)
    requires
        n <= evs.len(),
    ensures
        forall|j: int|
            0 <= j < children_upto(evs, span, n).len() ==> 0 <= #[trigger] children_upto(
                evs,
                span,
                n,
            )[j] < evs.len(),
        children_upto(evs, span, n).len() <= if n < 0 { 0 } else { n },
    decreases n,
{
    if n > 0 {
        lemma_children_bounds(evs, span, n - 1);
        if evs[n - 1].parent_span_id@ == span && !is_root(evs[n - 1]) {
            lemma_insert_sorted_bounds(evs, children_upto(evs, span, n - 1), n - 1, evs.len() as int);
        }
    }
}

fn sibling_before(a: &LineageEvent, b: &LineageEvent) -> (r: bool)
    ensures
        r == sibling_lt(*a, *b),
{
    if a.started_ms != b.started_ms {
        return a.started_ms < b.started_ms;
    }
    let ka = kind_order(a.kind);
    let kb = kind_order(b.kind);
    if ka != kb {
        return ka < kb;
    }
    string_lt(&a.name, &b.name)
}

/// Inserts `x` into `kids` as [`insert_sorted`] does.
fn insert_child(events: &[LineageEvent], kids: &mut Vec<usize>, x: usize)
    requires
        x < events@.len(),
        forall|j: int| 0 <= j < old(kids)@.len() ==> (#[trigger] old(kids)@[j]) < events@.len(),
    ensures
        final(kids)@.map_values(|k: usize| k as int) == insert_sorted(
            events@,
            old(kids)@.map_values(|k: usize| k as int),
            x as int,
        ),
{
    let ghost target = insert_sorted(events@, old(kids)@.map_values(|k: usize| k as int), x as int);
    let mut moved: Vec<usize> = Vec::new();
    while kids.len() > 0 && sibling_before(&events[x], &events[kids[kids.len() - 1]])
        invariant
            x < events@.len(),
            forall|j: int| 0 <= j < kids@.len() ==> (#[trigger] kids@[j]) < events@.len(),
            target == insert_sorted(events@, kids@.map_values(|k: usize| k as int), x as int)
                + moved@.reverse().map_values(|k: usize| k as int),
        decreases kids.len(),
    {
        let ghost before = kids@.map_values(|k: usize| k as int);
        let last = kids.pop().unwrap();
        proof {
            assert(before.drop_last() =~= kids@.map_values(|k: usize| k as int));
            assert(before.last() == last as int);
            assert(moved@.push(last).reverse() =~= seq![last] + moved@.reverse());
            assert(insert_sorted(events@, before, x as int) == insert_sorted(
                events@,
                kids@.map_values(|k: usize| k as int),
                x as int,
            ).push(last as int));
            assert(target =~= insert_sorted(events@, kids@.map_values(|k: usize| k as int), x as int)
                + moved@.push(last).reverse().map_values(|k: usize| k as int));
        }
        moved.push(last);
    }
    let ghost base = kids@.map_values(|k: usize| k as int);
    kids.push(x);
    proof {
        assert(insert_sorted(events@, base, x as int) =~= base.push(x as int));
        assert(kids@.map_values(|k: usize| k as int) =~= base.push(x as int));
    }
    while moved.len() > 0
        invariant
            target == kids@.map_values(|k: usize| k as int) + moved@.reverse().map_values(
                |k: usize| k as int,
            ),
        decreases moved.len(),
    {
        let ghost mv = moved@;
        let m = moved.pop().unwrap();
        proof {
            assert(mv.reverse() =~= seq![m] + moved@.reverse());
        }
        kids.push(m);
        proof {
            assert(target =~= kids@.map_values(|k: usize| k as int) + moved@.reverse().map_values(
                |k: usize| k as int,
            ));
        }
    }
    assert(moved@.reverse().map_values(|k: usize| k as int) =~= Seq::<int>::empty());
    assert(target =~= kids@.map_values(|k: usize| k as int));
}

/// Indices of the children of `span`, in sibling order.
fn sorted_children(events: &[LineageEvent], span: &String) -> (r: Vec<usize>)
    ensures
        r@.map_values(|k: usize| k as int) == children(events@, span@),
        forall|j: int| 0 <= j < r@.len() ==> (#[trigger] r@[j]) < events@.len(),
{
    let mut kids: Vec<usize> = Vec::new();
    let mut i: usize = 0;
    while i < events.len()
        invariant
            i <= events@.len(),
            kids@.map_values(|k: usize| k as int) == children_upto(events@, span@, i as int),
            forall|j: int| 0 <= j < kids@.len() ==> (#[trigger] kids@[j]) < events@.len(),
        decreases events.len() - i,
    {
        let e = &events[i];
        if e.parent_span_id == *span && !e.parent_span_id.as_str().is_empty() {
            insert_child(events, &mut kids, i);
            proof {
                lemma_children_bounds(events@, span@, i + 1);
                assert forall|j: int| 0 <= j < kids@.len() implies (#[trigger] kids@[j]) < events@.len() by {
                    assert(kids@.map_values(|k: usize| k as int)[j] == kids@[j] as int);
                }
            }
        }
        i = i + 1;
    }
    kids
}

/// Appends `s`.
fn put(out: &mut String, s: &str)
    ensures
        final(out)@ == old(out)@ + s@,
{
    push_str(out, s)
}

/// Appends a cost in dollars with four decimals.
fn put_money(out: &mut String, micros: u64)
    ensures
        final(out)@ == old(out)@ + money4(micros as nat),
{
    let q = micros / 100 + (micros % 100 + 50) / 100;
    assert(q == (micros as nat + 50) / 100);
    let whole = u64_to_decimal(q / 10000);
    put(out, whole.as_str());
    push_char(out, '.');
    let f = q % 10000;
    let d0 = digit(f / 1000);
    let d1 = digit((f / 100) % 10);
    let d2 = digit((f / 10) % 10);
    let d3 = digit(f % 10);
    push_char(out, d0);
    push_char(out, d1);
    push_char(out, d2);
    push_char(out, d3);
    proof {
        reveal_strlit(".");
        assert(pad4(f as nat) =~= seq![d0, d1, d2, d3]);
        assert(money4(micros as nat) =~= dec((q / 10000) as nat) + seq!['.'] + seq![d0, d1, d2, d3]);
        assert(final(out)@ =~= old(out)@ + money4(micros as nat));
    }
}

/// Appends `label` and `value` when `value` is not empty.
fn put_tagged(out: &mut String, label: &str, value: &String)
    ensures
        final(out)@ == old(out)@ + tagged(label@, value@),
{
    if !value.as_str().is_empty() {
        put(out, label);
        put(out, value.as_str());
    } else {
        assert(old(out)@ + tagged(label@, value@) =~= old(out)@);
    }
}

/// Appends `2 * depth` spaces.
fn put_indent(out: &mut String, depth: usize)
    ensures
        final(out)@ == old(out)@ + indent(depth as nat),
{
    let mut d: usize = 0;
    while d < depth
        invariant
            d <= depth,
            out@ == old(out)@ + indent(d as nat),
        decreases depth - d,
    {
        push_char(out, ' ');
        push_char(out, ' ');
        d = d + 1;
        assert(out@ =~= old(out)@ + indent(d as nat));
    }
}

/// Appends the latency and cost parts of a span's line.
fn put_measures(out: &mut String, e: &LineageEvent)
    ensures
        final(out)@ == old(out)@ + (if e.latency_ms > 0 {
            " latency="@ + dec(e.latency_ms as nat) + "ms"@
        } else {
            Seq::empty()
        }) + (if e.cost_micro_usd > 0 {
            " cost=$"@ + money4(e.cost_micro_usd as nat)
        } else {
            Seq::empty()
        }),
{
    let ghost start = out@;
    if e.latency_ms > 0 {
        put(out, " latency=");
        let l = u64_to_decimal(e.latency_ms);
        put(out, l.as_str());
        put(out, "ms");
    }
    let ghost mid = out@;
    assert(mid =~= start + (if e.latency_ms > 0 {
        " latency="@ + dec(e.latency_ms as nat) + "ms"@
    } else {
        Seq::empty()
    }));
    if e.cost_micro_usd > 0 {
        put(out, " cost=$");
        put_money(out, e.cost_micro_usd);
    }
    assert(out@ =~= mid + (if e.cost_micro_usd > 0 {
        " cost=$"@ + money4(e.cost_micro_usd as nat)
    } else {
        Seq::empty()
    }));
}

/// Appends the line of one span.
#[verifier::rlimit(40)]
fn put_line(out: &mut String, e: &LineageEvent, depth: usize)
    ensures
        final(out)@ == old(out)@ + node_line(*e, depth as nat),
{
    let ghost start = out@;
    put_indent(out, depth);
    put(out, "- ");
    put(out, kind_label(e.kind));
    put(out, " ");
    put(out, e.name.as_str());
    put(out, " [");
    put(out, status_label(e.status));
    put(out, "]");
    put_measures(out, e);
    put_tagged(out, " guarantee=", &e.guarantee_id);
    put_tagged(out, " approval=", &e.approval_id);
    put_tagged(out, " replay=", &e.replay_key);
    let data = join_strings(&e.data_classes, ",");
    put_tagged(out, " data=", &data);
    put(out, "\n");
    assert(out@ =~= start + node_line(*e, depth as nat));
}

/// Appends the subtree under event `idx`.
fn render_node(events: &[LineageEvent], idx: usize, depth: usize, fuel: usize, out: &mut String)
    requires
        idx < events@.len(),
        depth + fuel <= events@.len(),
    ensures
        final(out)@ == old(out)@ + render_from(events@, idx as int, depth as nat, fuel as nat),
    decreases fuel,
{
    if fuel == 0 {
        assert(old(out)@ + render_from(events@, idx as int, depth as nat, fuel as nat) =~= old(out)@);
        return;
    }
    let ghost start = out@;
    assert(depth + 1 <= events.len());
    put_line(out, &events[idx], depth);
    let kids = sorted_children(events, &events[idx].span_id);
    let ghost ks = kids@.map_values(|k: usize| k as int);
    let mut k: usize = 0;
    while k < kids.len()
        invariant
            k <= kids@.len(),
            idx < events@.len(),
            depth + fuel <= events@.len(),
            depth + 1 <= events.len(),
            fuel > 0,
            ks == kids@.map_values(|k: usize| k as int),
            ks == children(events@, events@[idx as int].span_id@),
            forall|j: int| 0 <= j < kids@.len() ==> (#[trigger] kids@[j]) < events@.len(),
            out@ == start + node_line(events@[idx as int], depth as nat) + render_list(
                events@,
                ks.take(k as int),
                (depth + 1) as nat,
                (fuel - 1) as nat,
            ),
        decreases kids.len() - k,
    {
        let ghost before = out@;
        render_node(events, kids[k], depth + 1, fuel - 1, out);
        proof {
            assert(ks.take(k + 1).drop_last() =~= ks.take(k as int));
            assert(ks.take(k + 1).last() == kids@[k as int] as int);
        }
        k = k + 1;
        assert(out@ =~= start + node_line(events@[idx as int], depth as nat) + render_list(
            events@,
            ks.take(k as int),
            (depth + 1) as nat,
            (fuel - 1) as nat,
        ));
    }
    assert(ks.take(kids@.len() as int) =~= ks);
    assert(out@ =~= old(out)@ + render_from(events@, idx as int, depth as nat, fuel as nat));
}

/// Renders a lineage trace as text (see [`rendered_tree`]).
pub fn render_lineage_tree(events: &[LineageEvent]) -> (r: String)
    ensures
        r@ == rendered_tree(events@),
{
    let validation = validate_lineage(events);
    let mut out = String::new();
    if !validation.complete {
        put(&mut out, "lineage: incomplete\n");
        let vs = &validation.violations;
        let ghost vv = vs@.map_values(|s: String| s@);
        let mut i: usize = 0;
        while i < vs.len()
            invariant
                i <= vs@.len(),
                vv == vs@.map_values(|s: String| s@),
                out@ == "lineage: incomplete\n"@ + bullet_lines(vv.take(i as int)),
            decreases vs.len() - i,
        {
            put(&mut out, "- ");
            put(&mut out, vs[i].as_str());
            put(&mut out, "\n");
            proof {
                assert(vv.take(i + 1).drop_last() =~= vv.take(i as int));
            }
            i = i + 1;
        }
        assert(vv.take(vs@.len() as int) =~= vv);
        return out;
    }
    let mut root: usize = events.len();
    let mut i: usize = 0;
    while i < events.len()
        invariant
            i <= events@.len(),
            root <= events@.len(),
            root == events@.len() <==> last_root_upto(events@, i as int) < 0,
            root < events@.len() ==> root == last_root_upto(events@, i as int),
        decreases events.len() - i,
    {
        proof {
            lemma_last_root_bounds(events@, i as int);
        }
        if events[i].parent_span_id.as_str().is_empty() {
            root = i;
        }
        i = i + 1;
    }
    assert(i == events@.len());
    proof {
        lemma_last_root_bounds(events@, events@.len() as int);
    }
    if root < events.len() {
        let ghost before = out@;
        render_node(events, root, 0, events.len(), &mut out);
        assert(before =~= Seq::<char>::empty());
        assert(lineage_violations(events@).len() == 0);
        assert(root as int == last_root_upto(events@, events@.len() as int));
        assert(out@ =~= render_from(events@, root as int, 0, events@.len() as nat));
        assert(out@ =~= rendered_tree(events@));
    } else {
        assert(lineage_violations(events@).len() == 0);
        assert(last_root_upto(events@, events@.len() as int) < 0);
        assert(out@ =~= Seq::<char>::empty());
        assert(out@ =~= rendered_tree(events@));
    }
    out
}

} // verus!
