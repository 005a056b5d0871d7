//! JSON values as the runtime's own logic reads them, and their compact
//! JSON text. A number keeps the bits of its `f64` value (what comparisons
//! use) and the text it is written as.

use vstd::prelude::*;
use crate::cache::{json_escape, put_escaped};
use crate::text::{chars_of, str_eq, string_from_chars};

verus! {

/// A JSON value.
pub enum JsonValue {
    Null,
    Bool(bool),
    Number(JsonNumber),
    String(String),
    Array(Vec<JsonValue>),
    /// An object's members; each key occurs once.
    Object(Vec<JsonMember>),
}

/// A number: the bits of its `f64` value, and its JSON text.
pub struct JsonNumber {
    pub bits: u64,
    pub text: String,
}

/// A member of a JSON object.
pub struct JsonMember {
    pub key: String,
    pub value: JsonValue,
}

/// The position of the member named `key`, or -1.
pub open spec fn member_index(ms: Seq<JsonMember>, key: Seq<char>) -> int
    decreases ms.len(),
{
    if ms.len() == 0 {
        -1
    } else if member_index(ms.drop_last(), key) >= 0 {
        member_index(ms.drop_last(), key)
    } else if ms.last().key@ == key {
        ms.len() - 1
    } else {
        -1
    }
}

pub proof fn lemma_member_index_bounds(ms: Seq<JsonMember>, key: Seq<char>)
    ensures
        -1 <= member_index(ms, key) < ms.len(),
        member_index(ms, key) >= 0 ==> ms[member_index(ms, key)].key@ == key,
    decreases ms.len(),
{
    if ms.len() > 0 {
        lemma_member_index_bounds(ms.drop_last(), key);
    }
}

/// A member's value is smaller than the object that holds it.
pub proof fn lemma_member_smaller(v: JsonValue, i: int)
    requires
        v is Object,
        0 <= i < v->Object_0@.len(),
    ensures
        decreases_to!(v => v->Object_0@[i].value),
{
    broadcast use vstd::std_specs::vec::axiom_vec_decreases_to_view;

    let ms = v->Object_0;
    assert(decreases_to!(v => ms));
    assert(decreases_to!(ms => ms@));
    assert(decreases_to!(ms@ => ms@[i]));
    assert(decreases_to!(ms@[i] => ms@[i].value));
}

/// An array's items are smaller than the array.
pub proof fn lemma_items_smaller(v: JsonValue)
    requires
        v is Array,
    ensures
        decreases_to!(v => v->Array_0@),
{
    broadcast use vstd::std_specs::vec::axiom_vec_decreases_to_view;

    let items = v->Array_0;
    assert(decreases_to!(v => items));
    assert(decreases_to!(items => items@));
}

/// The position of the member named `key`.
pub fn find_member(ms: &Vec<JsonMember>, key: &str) -> (r: Option<usize>)
    ensures
        match r {
            Some(i) => i < ms@.len() && i == member_index(ms@, key@),
            None => member_index(ms@, key@) < 0,
        },
{
    let mut i: usize = 0;
    while i < ms.len()
        invariant
            i <= ms@.len(),
            member_index(ms@.take(i as int), key@) < 0,
        decreases ms@.len() - i,
    {
        assert(ms@.take(i as int + 1).drop_last() =~= ms@.take(i as int));
        if str_eq(&ms[i].key, key) {
            proof {
                lemma_member_index_extends(ms@, i as int + 1, key@);
            }
            return Some(i);
        }
        i += 1;
    }
    assert(ms@.take(ms@.len() as int) =~= ms@);
    None
}

proof fn lemma_member_index_extends(ms: Seq<JsonMember>, n: int, key: Seq<char>)
    requires
        0 <= n <= ms.len(),
        member_index(ms.take(n), key) >= 0,
    ensures
        member_index(ms, key) == member_index(ms.take(n), key),
    decreases ms.len() - n,
{
    if n == ms.len() {
        assert(ms.take(n) =~= ms);
    } else {
        assert(ms.take(n + 1).drop_last() =~= ms.take(n));
        lemma_member_index_extends(ms, n + 1, key);
    }
}

/// An object's members are smaller than the object.
pub proof fn lemma_members_smaller(v: JsonValue)
    requires
        v is Object,
    ensures
        decreases_to!(v => v->Object_0@),
{
    broadcast use vstd::std_specs::vec::axiom_vec_decreases_to_view;

    let ms = v->Object_0;
    assert(decreases_to!(v => ms));
    assert(decreases_to!(ms => ms@));
}

/// A JSON string literal.
pub open spec fn quoted(s: Seq<char>) -> Seq<char> {
    seq!['"'] + json_escape(s) + seq!['"']
}

/// The compact JSON text of a value (as `serde_json` displays it).
pub open spec fn render(v: JsonValue) -> Seq<char>
    decreases v, 0int,
{
    match v {
        JsonValue::Null => "null"@,
        JsonValue::Bool(b) => if b {
            "true"@
        } else {
            "false"@
        },
        JsonValue::Number(n) => n.text@,
        JsonValue::String(s) => quoted(s@),
        JsonValue::Array(items) => {
            proof {
                lemma_items_smaller(v);
            }
            seq!['['] + render_items(items@, items@.len() as int) + seq![']']
        },
        JsonValue::Object(ms) => {
            proof {
                lemma_members_smaller(v);
            }
            seq!['{'] + render_members(ms@, ms@.len() as int) + seq!['}']
        },
    }
}

/// The first `n` items, comma-separated.
pub open spec fn render_items(items: Seq<JsonValue>, n: int) -> Seq<char>
    decreases items, n,
{
    if n <= 0 || n > items.len() {
        Seq::empty()
    } else {
        render_items(items, n - 1) + (if n > 1 {
            seq![',']
        } else {
            Seq::empty()
        }) + render(items[n - 1])
    }
}

/// The first `n` members as `"key":value`, comma-separated.
pub open spec fn render_members(ms: Seq<JsonMember>, n: int) -> Seq<char>
    decreases ms, n,
{
    if n <= 0 || n > ms.len() {
        Seq::empty()
    } else {
        proof {
            assert(decreases_to!(ms => ms[n - 1]));
            assert(decreases_to!(ms[n - 1] => ms[n - 1].value));
        }
        render_members(ms, n - 1) + (if n > 1 {
            seq![',']
        } else {
            Seq::empty()
        }) + quoted(ms[n - 1].key@) + seq![':'] + render(ms[n - 1].value)
    }
}

fn push_text(out: &mut Vec<char>, s: &str)
    ensures
        final(out)@ == old(out)@ + s@,
{
    let c = chars_of(s);
    let mut i: usize = 0;
    while i < c.len()
        invariant
            i <= c@.len(),
            out@ == old(out)@ + c@.take(i as int),
        decreases c@.len() - i,
    {
        out.push(c[i]);
        i += 1;
        assert(out@ =~= old(out)@ + c@.take(i as int));
    }
    assert(c@.take(c@.len() as int) =~= c@);
}

fn push_quoted(out: &mut Vec<char>, s: &str)
    ensures
        final(out)@ == old(out)@ + quoted(s@),
{
    out.push('"');
    put_escaped(out, s);
    out.push('"');
    assert(out@ =~= old(out)@ + quoted(s@));
}

/// Writes the compact JSON text of a value (see [`render`]).
pub fn write_json(v: &JsonValue, out: &mut Vec<char>)
    ensures
        final(out)@ == old(out)@ + render(*v),
    decreases v,
{
    match v {
        JsonValue::Null => push_text(out, "null"),
        JsonValue::Bool(b) => if *b {
            push_text(out, "true")
        } else {
            push_text(out, "false")
        },
        JsonValue::Number(n) => push_text(out, &n.text),
        JsonValue::String(s) => push_quoted(out, s),
        JsonValue::Array(items) => {
            proof {
                lemma_items_smaller(*v);
            }
            let ghost start = out@;
            out.push('[');
            let mut i: usize = 0;
            while i < items.len()
                invariant
                    i <= items@.len(),
                    decreases_to!(*v => items@),
                    out@ == start + seq!['['] + render_items(items@, i as int),
                decreases items@.len() - i,
            {
                let ghost before = out@;
                if i > 0 {
                    out.push(',');
                }
                proof {
                    assert(decreases_to!(items@ => items@[i as int]));
                }
                write_json(&items[i], out);
                assert(out@ =~= start + seq!['['] + render_items(items@, i as int + 1));
                i += 1;
            }
            out.push(']');
            assert(out@ =~= start + render(*v));
        },
        JsonValue::Object(ms) => {
            proof {
                lemma_members_smaller(*v);
            }
            let ghost start = out@;
            out.push('{');
            let mut i: usize = 0;
            while i < ms.len()
                invariant
                    i <= ms@.len(),
                    decreases_to!(*v => ms@),
                    out@ == start + seq!['{'] + render_members(ms@, i as int),
                decreases ms@.len() - i,
            {
                if i > 0 {
                    out.push(',');
                }
                push_quoted(out, &ms[i].key);
                out.push(':');
                proof {
                    assert(decreases_to!(ms@ => ms@[i as int]));
                    assert(decreases_to!(ms@[i as int] => ms@[i as int].value));
                }
                write_json(&ms[i].value, out);
                assert(out@ =~= start + seq!['{'] + render_members(ms@, i as int + 1));
                i += 1;
            }
            out.push('}');
            assert(out@ =~= start + render(*v));
        },
    }
}

/// The compact JSON text of a value (see [`render`]).
pub fn json_text(v: &JsonValue) -> (r: String)
    ensures
        r@ == render(*v),
{
    let mut out: Vec<char> = Vec::new();
    write_json(v, &mut out);
    assert(out@ =~= render(*v));
    string_from_chars(&out)
}

} // verus!

verus! {

/// The text is that of a floating-point number (it has a fraction or an
/// exponent); integers are written without either.
pub open spec fn has_float_mark(t: Seq<char>) -> bool {
    exists|i: int| 0 <= i < t.len() && (t[i] == '.' || t[i] == 'e' || t[i] == 'E')
}

/// `+0.0` or `-0.0`.
pub open spec fn is_zero_bits(bits: u64) -> bool {
    bits == 0 || bits == 0x8000_0000_0000_0000
}

/// Number equality as `serde_json` has it: integers by value, floats by
/// `f64` equality. Each number's text is the one form of its value, so equal
/// text is equal value; the one pair of floats that are equal with different
/// text is `0.0` and `-0.0`.
pub open spec fn number_same(x: JsonNumber, y: JsonNumber) -> bool {
    x.text@ == y.text@ || (has_float_mark(x.text@) && has_float_mark(y.text@) && is_zero_bits(x.bits)
        && is_zero_bits(y.bits))
}

/// Value equality as `serde_json` has it; objects compare member by member
/// in their order (the parser gives members sorted by key).
pub open spec fn json_same(a: JsonValue, b: JsonValue) -> bool
    decreases a, 0int,
{
    match a {
        JsonValue::Null => b is Null,
        JsonValue::Bool(x) => b matches JsonValue::Bool(y) && x == y,
        JsonValue::Number(x) => b matches JsonValue::Number(y) && number_same(x, y),
        JsonValue::String(x) => b matches JsonValue::String(y) && x@ == y@,
        JsonValue::Array(xs) => {
            proof {
                lemma_items_smaller(a);
            }
            b matches JsonValue::Array(ys) && xs@.len() == ys@.len() && items_same(
                xs@,
                ys@,
                xs@.len() as int,
            )
        },
        JsonValue::Object(xs) => {
            proof {
                lemma_members_smaller(a);
            }
            b matches JsonValue::Object(ys) && xs@.len() == ys@.len() && members_same(
                xs@,
                ys@,
                xs@.len() as int,
            )
        },
    }
}

/// The first `n` items of `xs` and `ys` are pairwise equal.
pub open spec fn items_same(xs: Seq<JsonValue>, ys: Seq<JsonValue>, n: int) -> bool
    decreases xs, n,
{
    if n <= 0 || n > xs.len() {
        true
    } else {
        items_same(xs, ys, n - 1) && json_same(xs[n - 1], ys[n - 1])
    }
}

/// The first `n` members of `xs` and `ys` have equal keys and values.
pub open spec fn members_same(xs: Seq<JsonMember>, ys: Seq<JsonMember>, n: int) -> bool
    decreases xs, n,
{
    if n <= 0 || n > xs.len() {
        true
    } else {
        proof {
            assert(decreases_to!(xs => xs[n - 1]));
            assert(decreases_to!(xs[n - 1] => xs[n - 1].value));
        }
        members_same(xs, ys, n - 1) && xs[n - 1].key@ == ys[n - 1].key@ && json_same(
            xs[n - 1].value,
            ys[n - 1].value,
        )
    }
}

proof fn lemma_items_same_prefix(xs: Seq<JsonValue>, ys: Seq<JsonValue>, n: int, k: int)
    requires
        0 <= k < n <= xs.len(),
        items_same(xs, ys, n),
    ensures
        items_same(xs, ys, k + 1),
    decreases n - k,
{
    if n > k + 1 {
        lemma_items_same_prefix(xs, ys, n - 1, k);
    }
}

proof fn lemma_members_same_prefix(xs: Seq<JsonMember>, ys: Seq<JsonMember>, n: int, k: int)
    requires
        0 <= k < n <= xs.len(),
        members_same(xs, ys, n),
    ensures
        members_same(xs, ys, k + 1),
    decreases n - k,
{
    if n > k + 1 {
        lemma_members_same_prefix(xs, ys, n - 1, k);
    }
}

fn has_float_mark_text(t: &str) -> (r: bool)
    ensures
        r == has_float_mark(t@),
{
    let c = chars_of(t);
    let mut i: usize = 0;
    while i < c.len()
        invariant
            c@ == t@,
            i <= c@.len(),
            forall|k: int| 0 <= k < i ==> !(c@[k] == '.' || c@[k] == 'e' || c@[k] == 'E'),
        decreases c@.len() - i,
    {
        if c[i] == '.' || c[i] == 'e' || c[i] == 'E' {
            return true;
        }
        i += 1;
    }
    false
}

/// Number equality (see [`number_same`]).
pub fn number_eq(x: &JsonNumber, y: &JsonNumber) -> (r: bool)
    ensures
        r == number_same(*x, *y),
{
    if str_eq(&x.text, &y.text) {
        return true;
    }
    let zeros = (x.bits == 0 || x.bits == 0x8000_0000_0000_0000) && (y.bits == 0 || y.bits
        == 0x8000_0000_0000_0000);
    zeros && has_float_mark_text(&x.text) && has_float_mark_text(&y.text)
}

/// Value equality (see [`json_same`]).
pub fn json_eq(a: &JsonValue, b: &JsonValue) -> (r: bool)
    ensures
        r == json_same(*a, *b),
    decreases a,
{
    match a {
        JsonValue::Null => matches!(b, JsonValue::Null),
        JsonValue::Bool(x) => match b {
            JsonValue::Bool(y) => *x == *y,
            _ => false,
        },
        JsonValue::Number(x) => match b {
            JsonValue::Number(y) => number_eq(x, y),
            _ => false,
        },
        JsonValue::String(x) => match b {
            JsonValue::String(y) => str_eq(x, y),
            _ => false,
        },
        JsonValue::Array(xs) => match b {
            JsonValue::Array(ys) => {
                proof {
                    lemma_items_smaller(*a);
                }
                if xs.len() != ys.len() {
                    return false;
                }
                let mut i: usize = 0;
                while i < xs.len()
                    invariant
                        i <= xs@.len(),
                        xs@.len() == ys@.len(),
                        decreases_to!(*a => xs@),
                        *a == JsonValue::Array(*xs),
                        *b == JsonValue::Array(*ys),
                        items_same(xs@, ys@, i as int),
                    decreases xs@.len() - i,
                {
                    proof {
                        assert(decreases_to!(xs@ => xs@[i as int]));
                    }
                    if !json_eq(&xs[i], &ys[i]) {
                        proof {
                            assert(!items_same(xs@, ys@, i as int + 1));
                            if items_same(xs@, ys@, xs@.len() as int) {
                                lemma_items_same_prefix(xs@, ys@, xs@.len() as int, i as int);
                            }
                            assert(!json_same(*a, *b));
                        }
                        return false;
                    }
                    i += 1;
                }
                true
            },
            _ => false,
        },
        JsonValue::Object(xs) => match b {
            JsonValue::Object(ys) => {
                proof {
                    lemma_members_smaller(*a);
                }
                if xs.len() != ys.len() {
                    return false;
                }
                let mut i: usize = 0;
                while i < xs.len()
                    invariant
                        i <= xs@.len(),
                        xs@.len() == ys@.len(),
                        decreases_to!(*a => xs@),
                        *a == JsonValue::Object(*xs),
                        *b == JsonValue::Object(*ys),
                        members_same(xs@, ys@, i as int),
                    decreases xs@.len() - i,
                {
                    proof {
                        assert(decreases_to!(xs@ => xs@[i as int]));
                        assert(decreases_to!(xs@[i as int] => xs@[i as int].value));
                    }
                    if !str_eq(&xs[i].key, &ys[i].key) || !json_eq(&xs[i].value, &ys[i].value) {
                        proof {
                            assert(!members_same(xs@, ys@, i as int + 1));
                            if members_same(xs@, ys@, xs@.len() as int) {
                                lemma_members_same_prefix(xs@, ys@, xs@.len() as int, i as int);
                            }
                            assert(!json_same(*a, *b));
                        }
                        return false;
                    }
                    i += 1;
                }
                true
            },
            _ => false,
        },
    }
}

/// The two lists are equal item by item (see [`json_same`]).
pub open spec fn lists_same(xs: Seq<JsonValue>, ys: Seq<JsonValue>) -> bool {
    xs.len() == ys.len() && items_same(xs, ys, xs.len() as int)
}

/// List equality (see [`lists_same`]).
pub fn json_list_eq(xs: &Vec<JsonValue>, ys: &Vec<JsonValue>) -> (r: bool)
    ensures
        r == lists_same(xs@, ys@),
{
    if xs.len() != ys.len() {
        return false;
    }
    let mut i: usize = 0;
    while i < xs.len()
        invariant
            i <= xs@.len(),
            xs@.len() == ys@.len(),
            items_same(xs@, ys@, i as int),
        decreases xs@.len() - i,
    {
        if !json_eq(&xs[i], &ys[i]) {
            proof {
                if items_same(xs@, ys@, xs@.len() as int) {
                    lemma_items_same_prefix(xs@, ys@, xs@.len() as int, i as int);
                }
            }
            return false;
        }
        i += 1;
    }
    true
}

/// Every value equals itself.
pub proof fn lemma_json_same_refl(v: JsonValue)
    ensures
        json_same(v, v),
    decreases v, 0int,
{
    match v {
        JsonValue::Array(xs) => {
            lemma_items_smaller(v);
            lemma_items_same_refl(xs@, xs@.len() as int);
        },
        JsonValue::Object(xs) => {
            lemma_members_smaller(v);
            lemma_members_same_refl(xs@, xs@.len() as int);
        },
        _ => {},
    }
}

proof fn lemma_items_same_refl(xs: Seq<JsonValue>, n: int)
    ensures
        items_same(xs, xs, n),
    decreases xs, n,
{
    if n > 0 && n <= xs.len() {
        lemma_items_same_refl(xs, n - 1);
        lemma_json_same_refl(xs[n - 1]);
    }
}

proof fn lemma_members_same_refl(xs: Seq<JsonMember>, n: int)
    ensures
        members_same(xs, xs, n),
    decreases xs, n,
{
    if n > 0 && n <= xs.len() {
        assert(decreases_to!(xs => xs[n - 1]));
        assert(decreases_to!(xs[n - 1] => xs[n - 1].value));
        lemma_members_same_refl(xs, n - 1);
        lemma_json_same_refl(xs[n - 1].value);
    }
}

/// Every list equals itself.
pub proof fn lemma_lists_same_refl(xs: Seq<JsonValue>)
    ensures
        lists_same(xs, xs),
{
    lemma_items_same_refl(xs, xs.len() as int);
}

proof fn lemma_items_same_prefix_only(xs: Seq<JsonValue>, xs2: Seq<JsonValue>, ys: Seq<JsonValue>, n: int)
    requires
        0 <= n <= xs.len(),
        n <= xs2.len(),
        xs.take(n) == xs2.take(n),
    ensures
        items_same(xs, ys, n) == items_same(xs2, ys, n),
    decreases n,
{
    if n > 0 {
        assert(xs.take(n - 1) =~= xs2.take(n - 1)) by {
            assert forall|k: int| 0 <= k < n - 1 implies #[trigger] xs.take(n - 1)[k] == xs2.take(n - 1)[k] by {
                assert(xs.take(n)[k] == xs2.take(n)[k]);
            }
        }
        lemma_items_same_prefix_only(xs, xs2, ys, n - 1);
        assert(xs.take(n)[n - 1] == xs[n - 1]);
        assert(xs2.take(n)[n - 1] == xs2[n - 1]);
        assert(xs[n - 1] == xs2[n - 1]);
    }
}

proof fn lemma_members_same_prefix_only(xs: Seq<JsonMember>, xs2: Seq<JsonMember>, ys: Seq<JsonMember>, n: int)
    requires
        0 <= n <= xs.len(),
        n <= xs2.len(),
        xs.take(n) == xs2.take(n),
    ensures
        members_same(xs, ys, n) == members_same(xs2, ys, n),
    decreases n,
{
    if n > 0 {
        assert(xs.take(n - 1) =~= xs2.take(n - 1)) by {
            assert forall|k: int| 0 <= k < n - 1 implies #[trigger] xs.take(n - 1)[k] == xs2.take(n - 1)[k] by {
                assert(xs.take(n)[k] == xs2.take(n)[k]);
            }
        }
        lemma_members_same_prefix_only(xs, xs2, ys, n - 1);
        assert(xs.take(n)[n - 1] == xs[n - 1]);
        assert(xs2.take(n)[n - 1] == xs2[n - 1]);
        assert(xs[n - 1] == xs2[n - 1]);
    }
}

/// A copy of a JSON value, equal to it (see [`json_same`]).
pub fn copy_json(v: &JsonValue) -> (r: JsonValue)
    ensures
        json_same(r, *v),
    decreases v,
{
    match v {
        JsonValue::Null => JsonValue::Null,
        JsonValue::Bool(b) => JsonValue::Bool(*b),
        JsonValue::Number(n) => JsonValue::Number(JsonNumber { bits: n.bits, text: n.text.clone() }),
        JsonValue::String(t) => JsonValue::String(t.clone()),
        JsonValue::Array(xs) => {
            proof {
                lemma_items_smaller(*v);
            }
            let mut out: Vec<JsonValue> = Vec::new();
            let mut i: usize = 0;
            while i < xs.len()
                invariant
                    i <= xs@.len(),
                    out@.len() == i,
                    decreases_to!(*v => xs@),
                    items_same(out@, xs@, i as int),
                decreases xs@.len() - i,
            {
                proof {
                    assert(decreases_to!(xs@ => xs@[i as int]));
                }
                let c = copy_json(&xs[i]);
                let ghost before = out@;
                out.push(c);
                proof {
                    assert(out@.take(i as int) =~= before.take(i as int));
                    lemma_items_same_prefix_only(before, out@, xs@, i as int);
                    assert(out@[i as int] == c);
                }
                i += 1;
            }
            let r = JsonValue::Array(out);
            proof {
                assert(json_same(r, *v));
            }
            r
        },
        JsonValue::Object(xs) => {
            proof {
                lemma_members_smaller(*v);
            }
            let mut out: Vec<JsonMember> = Vec::new();
            let mut i: usize = 0;
            while i < xs.len()
                invariant
                    i <= xs@.len(),
                    out@.len() == i,
                    decreases_to!(*v => xs@),
                    members_same(out@, xs@, i as int),
                decreases xs@.len() - i,
            {
                proof {
                    assert(decreases_to!(xs@ => xs@[i as int]));
                    assert(decreases_to!(xs@[i as int] => xs@[i as int].value));
                }
                let c = copy_json(&xs[i].value);
                let m = JsonMember { key: xs[i].key.clone(), value: c };
                let ghost before = out@;
                out.push(m);
                proof {
                    assert(out@.take(i as int) =~= before.take(i as int));
                    lemma_members_same_prefix_only(before, out@, xs@, i as int);
                    assert(out@[i as int] == m);
                }
                i += 1;
            }
            let r = JsonValue::Object(out);
            proof {
                assert(json_same(r, *v));
            }
            r
        },
    }
}

/// A copy of a list of members, equal to it member by member.
pub fn copy_members(xs: &Vec<JsonMember>) -> (r: Vec<JsonMember>)
    ensures
        r@.len() == xs@.len(),
        members_same(r@, xs@, xs@.len() as int),
{
    let mut out: Vec<JsonMember> = Vec::new();
    let mut i: usize = 0;
    while i < xs.len()
        invariant
            i <= xs@.len(),
            out@.len() == i,
            members_same(out@, xs@, i as int),
        decreases xs@.len() - i,
    {
        let c = copy_json(&xs[i].value);
        let m = JsonMember { key: xs[i].key.clone(), value: c };
        let ghost before = out@;
        out.push(m);
        proof {
            assert(out@.take(i as int) =~= before.take(i as int));
            lemma_members_same_prefix_only(before, out@, xs@, i as int);
            assert(out@[i as int] == m);
        }
        i += 1;
    }
    out
}

} // verus!
