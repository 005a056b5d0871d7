//! The agent filter language: a JSON expression over an agent's effect
//! dimensions, checked for form and then evaluated on each agent with
//! three-valued logic (an agent that does not declare a dimension neither
//! matches nor fails to match a test of it).
//!
//! Expressions are `{"all": [..]}`, `{"any": [..]}`, `{"not": ..}` and
//! leaves `{"dim": .., "op": .., "value": ..}`.

use vstd::prelude::*;
use crate::effect_filter::{
    op_named, ordinal_holds, parse_op, tier_rank, trust_tier_rank, compare_ordinals,
    CorvidFindAgentsStatus, FilterError, FilterOp, OwnedFindAgentsResult,
};
use crate::floatbits::{bits_eq, bits_le, bits_lt, feq, le, lt};
use crate::json::{
    find_member, lemma_items_smaller, lemma_member_index_bounds, lemma_member_smaller, member_index,
    JsonMember, JsonValue,
};
use crate::catalog::{introspection_name, is_introspection_agent, OwnedFindAgentsOutcome};
use crate::errors::{message_of, RuntimeError};
use crate::text::{cat, cat3, owned, str_eq};

verus! {

/// A failed filter: the status to report and its message.
pub type Failure = (CorvidFindAgentsStatus, Seq<char>);

pub open spec fn bad(m: Seq<char>) -> Failure {
    (CorvidFindAgentsStatus::BadJson, m)
}

pub open spec fn mismatch(m: Seq<char>) -> Failure {
    (CorvidFindAgentsStatus::OpMismatch, m)
}

/// The text of the member named `key`, when it is a string.
pub open spec fn member_text(ms: Seq<JsonMember>, key: Seq<char>) -> Option<Seq<char>> {
    let i = member_index(ms, key);
    if i >= 0 && ms[i].value is String {
        Some(ms[i].value->String_0@)
    } else {
        None
    }
}

pub open spec fn sibling_message(kind: Seq<char>) -> Seq<char> {
    "`"@ + kind + "` expression may not carry sibling keys"@
}

/// What is wrong with the form of a filter expression, if anything.
pub open spec fn expr_error(v: JsonValue) -> Option<Failure>
    decreases v, 0int,
{
    match v {
        JsonValue::Object(ms) => {
            let a = member_index(ms@, "all"@);
            let y = member_index(ms@, "any"@);
            let n = member_index(ms@, "not"@);
            if a >= 0 {
                if ms@.len() != 1 {
                    Some(bad(sibling_message("all"@)))
                } else {
                    proof {
                        lemma_member_index_bounds(ms@, "all"@);
                        lemma_member_smaller(v, a);
                    }
                    list_error("all"@, ms@[a].value)
                }
            } else if y >= 0 {
                if ms@.len() != 1 {
                    Some(bad(sibling_message("any"@)))
                } else {
                    proof {
                        lemma_member_index_bounds(ms@, "any"@);
                        lemma_member_smaller(v, y);
                    }
                    list_error("any"@, ms@[y].value)
                }
            } else if n >= 0 {
                if ms@.len() != 1 {
                    Some(bad(sibling_message("not"@)))
                } else {
                    proof {
                        lemma_member_index_bounds(ms@, "not"@);
                        lemma_member_smaller(v, n);
                    }
                    expr_error(ms@[n].value)
                }
            } else {
                leaf_error(ms@)
            }
        },
        _ => Some(bad("filter expression must be a JSON object"@)),
    }
}

/// What is wrong with the list under `all` or `any`, if anything.
pub open spec fn list_error(kind: Seq<char>, v: JsonValue) -> Option<Failure>
    decreases v, 1int,
{
    match v {
        JsonValue::Array(items) => if items@.len() == 0 {
            Some(bad("`"@ + kind + "` expects at least one child expression"@))
        } else {
            items_error(items@, 0)
        },
        _ => Some(bad("`"@ + kind + "` expects a JSON array of expressions"@)),
    }
}

/// The first error among the expressions from `i` on.
pub open spec fn items_error(items: Seq<JsonValue>, i: int) -> Option<Failure>
    decreases items, items.len() - i,
{
    if i < 0 || i >= items.len() {
        None
    } else {
        match expr_error(items[i]) {
            Some(e) => Some(e),
            None => items_error(items, i + 1),
        }
    }
}

/// What is wrong with a leaf, if anything: it needs string fields `dim`
/// and `op`, a field `value`, nothing else, and a known operator.
pub open spec fn leaf_error(ms: Seq<JsonMember>) -> Option<Failure> {
    if member_text(ms, "dim"@) is None {
        Some(bad("leaf predicate must include string field `dim`"@))
    } else if member_text(ms, "op"@) is None {
        Some(bad("leaf predicate must include string field `op`"@))
    } else if member_index(ms, "value"@) < 0 {
        Some(bad("leaf predicate must include field `value`"@))
    } else if ms.len() != 3 {
        Some(bad("leaf predicate may only contain `dim`, `op`, and `value`"@))
    } else if op_named(member_text(ms, "op"@)->0) is None {
        Some(
            bad(
                "unsupported operator `"@ + member_text(ms, "op"@)->0
                    + "`; expected one of eq/ne/lt/le/gt/ge"@,
            ),
        )
    } else {
        None
    }
}

/// `r` is the failure `f`, or succeeds when there is none.
pub open spec fn reports<T>(r: Result<T, FilterError>, f: Option<Failure>) -> bool {
    match f {
        Some(f) => r matches Err(e) && e.status == f.0 && e.message@ == f.1,
        None => r is Ok,
    }
}

/// The text of the member named `key`, when it is a string.
fn text_member<'a>(ms: &'a Vec<JsonMember>, key: &str) -> (r: Option<&'a String>)
    ensures
        match r {
            Some(t) => member_text(ms@, key@) == Some(t@),
            None => member_text(ms@, key@) is None,
        },
{
    match find_member(ms, key) {
        Some(i) => match &ms[i].value {
            JsonValue::String(t) => Some(t),
            _ => None,
        },
        None => None,
    }
}

fn bad_json(m: String) -> (e: FilterError)
    ensures
        e.status == CorvidFindAgentsStatus::BadJson,
        e.message@ == m@,
{
    FilterError::bad_json(m)
}

/// Checks the form of a filter expression (see [`expr_error`]).
pub fn check_expr(v: &JsonValue) -> (r: Result<(), FilterError>)
    ensures
        reports(r, expr_error(*v)),
    decreases v, 0int,
{
    match v {
        JsonValue::Object(ms) => {
            let a = find_member(ms, "all");
            let y = find_member(ms, "any");
            let n = find_member(ms, "not");
            if let Some(i) = a {
                if ms.len() != 1 {
                    return Err(bad_json(cat3("`", "all", "` expression may not carry sibling keys")));
                }
                proof {
                    lemma_member_smaller(*v, i as int);
                }
                check_list("all", &ms[i].value)
            } else if let Some(i) = y {
                if ms.len() != 1 {
                    return Err(bad_json(cat3("`", "any", "` expression may not carry sibling keys")));
                }
                proof {
                    lemma_member_smaller(*v, i as int);
                }
                check_list("any", &ms[i].value)
            } else if let Some(i) = n {
                if ms.len() != 1 {
                    return Err(bad_json(cat3("`", "not", "` expression may not carry sibling keys")));
                }
                proof {
                    lemma_member_smaller(*v, i as int);
                }
                check_expr(&ms[i].value)
            } else {
                check_leaf(ms)
            }
        },
        _ => Err(bad_json(owned("filter expression must be a JSON object"))),
    }
}

/// Checks the list under `all` or `any` (see [`list_error`]).
fn check_list(kind: &str, v: &JsonValue) -> (r: Result<(), FilterError>)
    ensures
        reports(r, list_error(kind@, *v)),
    decreases v, 1int,
{
    match v {
        JsonValue::Array(items) => {
            if items.len() == 0 {
                return Err(bad_json(cat3("`", kind, "` expects at least one child expression")));
            }
            let mut i: usize = 0;
            while i < items.len()
                invariant
                    *v == JsonValue::Array(*items),
                    items@.len() > 0,
                    i <= items@.len(),
                    items_error(items@, 0) == items_error(items@, i as int),
                decreases items@.len() - i,
            {
                proof {
                    broadcast use vstd::std_specs::vec::axiom_vec_decreases_to_view;
                    assert(decreases_to!(v => items));
                    assert(decreases_to!(items => items@));
                    assert(decreases_to!(items@ => items@[i as int]));
                }
                match check_expr(&items[i]) {
                    Err(e) => {
                        return Err(e);
                    },
                    Ok(()) => {},
                }
                i += 1;
            }
            Ok(())
        },
        _ => Err(bad_json(cat3("`", kind, "` expects a JSON array of expressions"))),
    }
}

/// Checks a leaf (see [`leaf_error`]).
fn check_leaf(ms: &Vec<JsonMember>) -> (r: Result<(), FilterError>)
    ensures
        reports(r, leaf_error(ms@)),
{
    let dim = text_member(ms, "dim");
    if dim.is_none() {
        return Err(bad_json(owned("leaf predicate must include string field `dim`")));
    }
    let op = text_member(ms, "op");
    match op {
        None => Err(bad_json(owned("leaf predicate must include string field `op`"))),
        Some(op) => {
            if find_member(ms, "value").is_none() {
                return Err(bad_json(owned("leaf predicate must include field `value`")));
            }
            if ms.len() != 3 {
                return Err(
                    bad_json(owned("leaf predicate may only contain `dim`, `op`, and `value`")),
                );
            }
            match parse_op(op) {
                Err(e) => Err(e),
                Ok(_) => Ok(()),
            }
        },
    }
}

/// Whether an agent matches a test: yes, no, or neither (the agent does
/// not declare the dimension).
#[derive(Debug, Clone, Copy, PartialEq, Eq, Structural)]
pub enum MatchState {
    Match,
    NoMatch,
    Unspecified,
}

/// What a filter reads of an agent. Costs and latencies are `f64` bits.
pub struct FilterAgent {
    pub trust_tier: Option<String>,
    pub cost_bound_bits: Option<u64>,
    pub latency_p99_bits: Option<u64>,
    pub dangerous: bool,
    pub replayable: bool,
    pub deterministic: bool,
    pub reversibility: Option<String>,
    /// Custom dimensions the agent declares, each once.
    pub custom: Vec<JsonMember>,
}

pub type Evaluation = Result<MatchState, Failure>;

pub open spec fn state_of(b: bool) -> MatchState {
    if b {
        MatchState::Match
    } else {
        MatchState::NoMatch
    }
}

/// `actual op expected` on two `f64` values (false when either is NaN,
/// except `ne`).
pub open spec fn float_holds(op: FilterOp, actual: u64, expected: u64) -> bool {
    match op {
        FilterOp::Eq => feq(actual, expected),
        FilterOp::Ne => !feq(actual, expected),
        FilterOp::Lt => lt(actual, expected),
        FilterOp::Le => le(actual, expected),
        FilterOp::Gt => lt(expected, actual),
        FilterOp::Ge => le(expected, actual),
    }
}

pub open spec fn dim_message(dim: Seq<char>, rest: Seq<char>) -> Seq<char> {
    "dimension `"@ + dim + rest
}

pub open spec fn custom_message(dim: Seq<char>, rest: Seq<char>) -> Seq<char> {
    "custom dimension `"@ + dim + rest
}

pub open spec fn tier_eval(op: FilterOp, actual: Seq<char>, expected: JsonValue) -> Evaluation {
    match expected {
        JsonValue::String(e) => match tier_rank(actual) {
            None => Err(mismatch("dimension `trust_tier` saw unknown tier `"@ + actual + "`"@)),
            Some(ar) => match tier_rank(e@) {
                None => Err(mismatch("dimension `trust_tier` does not recognize `"@ + e@ + "`"@)),
                Some(er) => Ok(state_of(ordinal_holds(op, ar as int, er as int))),
            },
        },
        _ => Err(mismatch("dimension `trust_tier` expects a string value"@)),
    }
}

pub open spec fn number_eval(op: FilterOp, actual: u64, expected: JsonValue, dim: Seq<char>) -> Evaluation {
    match expected {
        JsonValue::Number(e) => Ok(state_of(float_holds(op, actual, e.bits))),
        _ => Err(mismatch(dim_message(dim, "` expects a numeric value"@))),
    }
}

pub open spec fn bool_eval(op: FilterOp, actual: bool, expected: JsonValue, dim: Seq<char>) -> Evaluation {
    match expected {
        JsonValue::Bool(e) => match op {
            FilterOp::Eq => Ok(state_of(actual == e)),
            FilterOp::Ne => Ok(state_of(actual != e)),
            _ => Err(mismatch(dim_message(dim, "` only supports `eq` and `ne`"@))),
        },
        _ => Err(mismatch(dim_message(dim, "` expects a boolean value"@))),
    }
}

pub open spec fn custom_eval(dim: Seq<char>, op: FilterOp, actual: JsonValue, expected: JsonValue) -> Evaluation {
    match (actual, expected) {
        (JsonValue::Bool(a), JsonValue::Bool(e)) => match op {
            FilterOp::Eq => Ok(state_of(a == e)),
            FilterOp::Ne => Ok(state_of(a != e)),
            _ => Err(
                mismatch(custom_message(dim, "` only supports `eq` and `ne` for boolean values"@)),
            ),
        },
        (JsonValue::Number(a), JsonValue::Number(e)) => Ok(state_of(float_holds(op, a.bits, e.bits))),
        (JsonValue::String(a), JsonValue::String(e)) => match op {
            FilterOp::Eq => Ok(state_of(a@ == e@)),
            FilterOp::Ne => Ok(state_of(a@ != e@)),
            _ => Err(
                mismatch(
                    custom_message(dim, "` only supports ordered comparisons for numeric values"@),
                ),
            ),
        },
        _ => Err(
            mismatch(custom_message(dim, "` value type mismatch between descriptor and filter"@)),
        ),
    }
}

/// Whether some agent declares the custom dimension `dim`.
pub open spec fn known_dim(agents: Seq<FilterAgent>, dim: Seq<char>) -> bool {
    exists|i: int| 0 <= i < agents.len() && member_index(#[trigger] agents[i].custom@, dim) >= 0
}

/// A leaf test of one dimension on one agent.
pub open spec fn leaf_eval(
    dim: Seq<char>,
    op: FilterOp,
    value: JsonValue,
    agent: FilterAgent,
    agents: Seq<FilterAgent>,
) -> Evaluation {
    if dim == "trust_tier"@ {
        match agent.trust_tier {
            Some(t) => tier_eval(op, t@, value),
            None => Ok(MatchState::Unspecified),
        }
    } else if dim == "cost_bound_usd"@ {
        match agent.cost_bound_bits {
            Some(c) => number_eval(op, c, value, dim),
            None => Ok(MatchState::Unspecified),
        }
    } else if dim == "latency_p99_ms"@ {
        match agent.latency_p99_bits {
            Some(c) => number_eval(op, c, value, dim),
            None => Ok(MatchState::Unspecified),
        }
    } else if dim == "dangerous"@ {
        bool_eval(op, agent.dangerous, value, dim)
    } else if dim == "replayable"@ {
        bool_eval(op, agent.replayable, value, dim)
    } else if dim == "deterministic"@ {
        bool_eval(op, agent.deterministic, value, dim)
    } else if dim == "reversible"@ {
        match agent.reversibility {
            Some(r) => if r@ == "reversible"@ {
                bool_eval(op, true, value, dim)
            } else if r@ == "non_reversible"@ || r@ == "irreversible"@ {
                bool_eval(op, false, value, dim)
            } else {
                Err(
                    mismatch(
                        "dimension `reversible` saw unsupported reversibility value `"@ + r@ + "`"@,
                    ),
                )
            },
            None => Ok(MatchState::Unspecified),
        }
    } else if known_dim(agents, dim) {
        let i = member_index(agent.custom@, dim);
        if i >= 0 {
            custom_eval(dim, op, agent.custom@[i].value, value)
        } else {
            Ok(MatchState::Unspecified)
        }
    } else {
        Err((CorvidFindAgentsStatus::UnknownDimension, "unknown effect dimension `"@ + dim + "`"@))
    }
}

pub open spec fn negated(e: Evaluation) -> Evaluation {
    match e {
        Ok(MatchState::Match) => Ok(MatchState::NoMatch),
        Ok(MatchState::NoMatch) => Ok(MatchState::Match),
        other => other,
    }
}

/// A filter expression that is well formed, evaluated on one agent.
pub open spec fn eval(v: JsonValue, agent: FilterAgent, agents: Seq<FilterAgent>) -> Evaluation
    decreases v, 0int,
{
    match v {
        JsonValue::Object(ms) => {
            let a = member_index(ms@, "all"@);
            let y = member_index(ms@, "any"@);
            let n = member_index(ms@, "not"@);
            if a >= 0 {
                proof {
                    lemma_member_index_bounds(ms@, "all"@);
                    lemma_member_smaller(v, a);
                }
                match ms@[a].value {
                    JsonValue::Array(items) => {
                        proof {
                            lemma_items_smaller(ms@[a].value);
                        }
                        all_eval(items@, 0, false, agent, agents)
                    },
                    _ => Ok(MatchState::NoMatch),
                }
            } else if y >= 0 {
                proof {
                    lemma_member_index_bounds(ms@, "any"@);
                    lemma_member_smaller(v, y);
                }
                match ms@[y].value {
                    JsonValue::Array(items) => {
                        proof {
                            lemma_items_smaller(ms@[y].value);
                        }
                        any_eval(items@, 0, false, agent, agents)
                    },
                    _ => Ok(MatchState::NoMatch),
                }
            } else if n >= 0 {
                proof {
                    lemma_member_index_bounds(ms@, "not"@);
                    lemma_member_smaller(v, n);
                }
                negated(eval(ms@[n].value, agent, agents))
            } else {
                let vi = member_index(ms@, "value"@);
                match (member_text(ms@, "dim"@), member_text(ms@, "op"@)) {
                    (Some(dim), Some(op)) => if vi >= 0 && op_named(op) is Some {
                        leaf_eval(dim, op_named(op)->0, ms@[vi].value, agent, agents)
                    } else {
                        Ok(MatchState::NoMatch)
                    },
                    _ => Ok(MatchState::NoMatch),
                }
            }
        },
        _ => Ok(MatchState::NoMatch),
    }
}

/// `all`: the first child that does not match decides; otherwise any
/// unspecified child makes the whole unspecified.
pub open spec fn all_eval(
    items: Seq<JsonValue>,
    i: int,
    saw_unspecified: bool,
    agent: FilterAgent,
    agents: Seq<FilterAgent>,
) -> Evaluation
    decreases items, items.len() - i,
{
    if i < 0 || i >= items.len() {
        Ok(if saw_unspecified { MatchState::Unspecified } else { MatchState::Match })
    } else {
        match eval(items[i], agent, agents) {
            Err(f) => Err(f),
            Ok(MatchState::NoMatch) => Ok(MatchState::NoMatch),
            Ok(MatchState::Unspecified) => all_eval(items, i + 1, true, agent, agents),
            Ok(MatchState::Match) => all_eval(items, i + 1, saw_unspecified, agent, agents),
        }
    }
}

/// `any`: the first child that matches decides; otherwise any unspecified
/// child makes the whole unspecified.
pub open spec fn any_eval(
    items: Seq<JsonValue>,
    i: int,
    saw_unspecified: bool,
    agent: FilterAgent,
    agents: Seq<FilterAgent>,
) -> Evaluation
    decreases items, items.len() - i,
{
    if i < 0 || i >= items.len() {
        Ok(if saw_unspecified { MatchState::Unspecified } else { MatchState::NoMatch })
    } else {
        match eval(items[i], agent, agents) {
            Err(f) => Err(f),
            Ok(MatchState::Match) => Ok(MatchState::Match),
            Ok(MatchState::Unspecified) => any_eval(items, i + 1, true, agent, agents),
            Ok(MatchState::NoMatch) => any_eval(items, i + 1, saw_unspecified, agent, agents),
        }
    }
}

/// `r` is the evaluation `e`.
pub open spec fn yields(r: Result<MatchState, FilterError>, e: Evaluation) -> bool {
    match e {
        Ok(s) => r matches Ok(x) && x == s,
        Err(f) => r matches Err(err) && err.status == f.0 && err.message@ == f.1,
    }
}

fn op_mismatch(m: String) -> (e: FilterError)
    ensures
        e.status == CorvidFindAgentsStatus::OpMismatch,
        e.message@ == m@,
{
    FilterError::op_mismatch(m)
}

fn state(b: bool) -> (r: MatchState)
    ensures
        r == state_of(b),
{
    if b {
        MatchState::Match
    } else {
        MatchState::NoMatch
    }
}

/// `actual op expected` on two `f64` values given by their bits.
pub fn compare_f64(op: FilterOp, actual: u64, expected: u64) -> (r: bool)
    ensures
        r == float_holds(op, actual, expected),
{
    match op {
        FilterOp::Eq => bits_eq(actual, expected),
        FilterOp::Ne => !bits_eq(actual, expected),
        FilterOp::Lt => bits_lt(actual, expected),
        FilterOp::Le => bits_le(actual, expected),
        FilterOp::Gt => bits_lt(expected, actual),
        FilterOp::Ge => bits_le(expected, actual),
    }
}

/// Compares a trust tier on the ordinal scale of tiers.
pub fn compare_tier(op: FilterOp, actual: &str, expected: &JsonValue) -> (r: Result<MatchState, FilterError>)
    ensures
        yields(r, tier_eval(op, actual@, *expected)),
{
    match expected {
        JsonValue::String(e) => match trust_tier_rank(actual) {
            None => Err(op_mismatch(cat3("dimension `trust_tier` saw unknown tier `", actual, "`"))),
            Some(ar) => match trust_tier_rank(e) {
                None => Err(
                    op_mismatch(cat3("dimension `trust_tier` does not recognize `", e, "`")),
                ),
                Some(er) => Ok(state(compare_ordinals(op, ar, er))),
            },
        },
        _ => Err(op_mismatch(owned("dimension `trust_tier` expects a string value"))),
    }
}

/// Compares a numeric dimension.
pub fn compare_number(op: FilterOp, actual: u64, expected: &JsonValue, dim: &str) -> (r: Result<
    MatchState,
    FilterError,
>)
    ensures
        yields(r, number_eval(op, actual, *expected, dim@)),
{
    match expected {
        JsonValue::Number(e) => Ok(state(compare_f64(op, actual, e.bits))),
        _ => Err(op_mismatch(cat3("dimension `", dim, "` expects a numeric value"))),
    }
}

/// Compares a boolean dimension; only `eq` and `ne` apply.
pub fn compare_bool(op: FilterOp, actual: bool, expected: &JsonValue, dim: &str) -> (r: Result<
    MatchState,
    FilterError,
>)
    ensures
        yields(r, bool_eval(op, actual, *expected, dim@)),
{
    match expected {
        JsonValue::Bool(e) => match op {
            FilterOp::Eq => Ok(state(actual == *e)),
            FilterOp::Ne => Ok(state(actual != *e)),
            _ => Err(op_mismatch(cat3("dimension `", dim, "` only supports `eq` and `ne`"))),
        },
        _ => Err(op_mismatch(cat3("dimension `", dim, "` expects a boolean value"))),
    }
}

/// Compares a custom dimension: booleans and strings by equality,
/// numbers in order; the two values must be of one type.
pub fn compare_custom_value(dim: &str, op: FilterOp, actual: &JsonValue, expected: &JsonValue) -> (r:
    Result<MatchState, FilterError>)
    ensures
        yields(r, custom_eval(dim@, op, *actual, *expected)),
{
    match (actual, expected) {
        (JsonValue::Bool(a), JsonValue::Bool(e)) => match op {
            FilterOp::Eq => Ok(state(*a == *e)),
            FilterOp::Ne => Ok(state(*a != *e)),
            _ => Err(
                op_mismatch(
                    cat3("custom dimension `", dim, "` only supports `eq` and `ne` for boolean values"),
                ),
            ),
        },
        (JsonValue::Number(a), JsonValue::Number(e)) => Ok(state(compare_f64(op, a.bits, e.bits))),
        (JsonValue::String(a), JsonValue::String(e)) => match op {
            FilterOp::Eq => Ok(state(str_eq(a, e))),
            FilterOp::Ne => Ok(state(!str_eq(a, e))),
            _ => Err(
                op_mismatch(
                    cat3(
                        "custom dimension `",
                        dim,
                        "` only supports ordered comparisons for numeric values",
                    ),
                ),
            ),
        },
        _ => Err(
            op_mismatch(
                cat3("custom dimension `", dim, "` value type mismatch between descriptor and filter"),
            ),
        ),
    }
}

/// Whether some agent declares the custom dimension `dim`.
pub fn is_known_dim(agents: &Vec<FilterAgent>, dim: &str) -> (r: bool)
    ensures
        r == known_dim(agents@, dim@),
{
    let mut i: usize = 0;
    while i < agents.len()
        invariant
            i <= agents@.len(),
            forall|k: int| 0 <= k < i ==> member_index(#[trigger] agents@[k].custom@, dim@) < 0,
        decreases agents@.len() - i,
    {
        if find_member(&agents[i].custom, dim).is_some() {
            return true;
        }
        i += 1;
    }
    false
}

/// Tests one dimension of one agent (see [`leaf_eval`]).
pub fn evaluate_leaf(
    dim: &str,
    op: FilterOp,
    value: &JsonValue,
    agent: &FilterAgent,
    agents: &Vec<FilterAgent>,
) -> (r: Result<MatchState, FilterError>)
    ensures
        yields(r, leaf_eval(dim@, op, *value, *agent, agents@)),
{
    if str_eq(dim, "trust_tier") {
        match &agent.trust_tier {
            Some(t) => compare_tier(op, t, value),
            None => Ok(MatchState::Unspecified),
        }
    } else if str_eq(dim, "cost_bound_usd") {
        match agent.cost_bound_bits {
            Some(c) => compare_number(op, c, value, dim),
            None => Ok(MatchState::Unspecified),
        }
    } else if str_eq(dim, "latency_p99_ms") {
        match agent.latency_p99_bits {
            Some(c) => compare_number(op, c, value, dim),
            None => Ok(MatchState::Unspecified),
        }
    } else if str_eq(dim, "dangerous") {
        compare_bool(op, agent.dangerous, value, dim)
    } else if str_eq(dim, "replayable") {
        compare_bool(op, agent.replayable, value, dim)
    } else if str_eq(dim, "deterministic") {
        compare_bool(op, agent.deterministic, value, dim)
    } else if str_eq(dim, "reversible") {
        match &agent.reversibility {
            Some(r) => if str_eq(r, "reversible") {
                compare_bool(op, true, value, dim)
            } else if str_eq(r, "non_reversible") || str_eq(r, "irreversible") {
                compare_bool(op, false, value, dim)
            } else {
                Err(
                    op_mismatch(
                        cat3("dimension `reversible` saw unsupported reversibility value `", r, "`"),
                    ),
                )
            },
            None => Ok(MatchState::Unspecified),
        }
    } else if is_known_dim(agents, dim) {
        match find_member(&agent.custom, dim) {
            Some(i) => compare_custom_value(dim, op, &agent.custom[i].value, value),
            None => Ok(MatchState::Unspecified),
        }
    } else {
        Err(FilterError::unknown_dimension(cat3("unknown effect dimension `", dim, "`")))
    }
}

/// Evaluates a filter expression on one agent (see [`eval`]).
pub fn evaluate_expr(v: &JsonValue, agent: &FilterAgent, agents: &Vec<FilterAgent>) -> (r: Result<
    MatchState,
    FilterError,
>)
    ensures
        yields(r, eval(*v, *agent, agents@)),
    decreases v,
{
    match v {
        JsonValue::Object(ms) => {
            let a = find_member(ms, "all");
            let y = find_member(ms, "any");
            let n = find_member(ms, "not");
            if let Some(i) = a {
                proof {
                    lemma_member_smaller(*v, i as int);
                }
                match &ms[i].value {
                    JsonValue::Array(items) => {
                        proof {
                            lemma_items_smaller(ms@[i as int].value);
                        }
                        let mut saw = false;
                        let mut k: usize = 0;
                        while k < items.len()
                            invariant
                                k <= items@.len(),
                                decreases_to!(*v => items@),
                                eval(*v, *agent, agents@) == all_eval(items@, 0, false, *agent, agents@),
                                all_eval(items@, 0, false, *agent, agents@) == all_eval(
                                    items@,
                                    k as int,
                                    saw,
                                    *agent,
                                    agents@,
                                ),
                            decreases items@.len() - k,
                        {
                            proof {
                                assert(decreases_to!(items@ => items@[k as int]));
                            }
                            match evaluate_expr(&items[k], agent, agents) {
                                Err(e) => {
                                    return Err(e);
                                },
                                Ok(MatchState::NoMatch) => {
                                    return Ok(MatchState::NoMatch);
                                },
                                Ok(MatchState::Unspecified) => {
                                    saw = true;
                                },
                                Ok(MatchState::Match) => {},
                            }
                            k += 1;
                        }
                        Ok(
                            if saw {
                                MatchState::Unspecified
                            } else {
                                MatchState::Match
                            },
                        )
                    },
                    _ => Ok(MatchState::NoMatch),
                }
            } else if let Some(i) = y {
                proof {
                    lemma_member_smaller(*v, i as int);
                }
                match &ms[i].value {
                    JsonValue::Array(items) => {
                        proof {
                            lemma_items_smaller(ms@[i as int].value);
                        }
                        let mut saw = false;
                        let mut k: usize = 0;
                        while k < items.len()
                            invariant
                                k <= items@.len(),
                                decreases_to!(*v => items@),
                                eval(*v, *agent, agents@) == any_eval(items@, 0, false, *agent, agents@),
                                any_eval(items@, 0, false, *agent, agents@) == any_eval(
                                    items@,
                                    k as int,
                                    saw,
                                    *agent,
                                    agents@,
                                ),
                            decreases items@.len() - k,
                        {
                            proof {
                                assert(decreases_to!(items@ => items@[k as int]));
                            }
                            match evaluate_expr(&items[k], agent, agents) {
                                Err(e) => {
                                    return Err(e);
                                },
                                Ok(MatchState::Match) => {
                                    return Ok(MatchState::Match);
                                },
                                Ok(MatchState::Unspecified) => {
                                    saw = true;
                                },
                                Ok(MatchState::NoMatch) => {},
                            }
                            k += 1;
                        }
                        Ok(
                            if saw {
                                MatchState::Unspecified
                            } else {
                                MatchState::NoMatch
                            },
                        )
                    },
                    _ => Ok(MatchState::NoMatch),
                }
            } else if let Some(i) = n {
                proof {
                    lemma_member_smaller(*v, i as int);
                }
                match evaluate_expr(&ms[i].value, agent, agents) {
                    Err(e) => Err(e),
                    Ok(MatchState::Match) => Ok(MatchState::NoMatch),
                    Ok(MatchState::NoMatch) => Ok(MatchState::Match),
                    Ok(MatchState::Unspecified) => Ok(MatchState::Unspecified),
                }
            } else {
                let vi = find_member(ms, "value");
                let dim = text_member(ms, "dim");
                let op = text_member(ms, "op");
                match (dim, op, vi) {
                    (Some(dim), Some(op), Some(vi)) => match parse_op(op) {
                        Ok(op) => evaluate_leaf(dim, op, &ms[vi].value, agent, agents),
                        Err(_) => Ok(MatchState::NoMatch),
                    },
                    _ => Ok(MatchState::NoMatch),
                }
            }
        },
        _ => Ok(MatchState::NoMatch),
    }
}

/// The indices, among the first `n` agents, that a well-formed filter
/// matches, in order; or the first failure met on the way.
pub open spec fn matched(v: JsonValue, agents: Seq<FilterAgent>, n: int) -> Result<Seq<usize>, Failure>
    decreases n,
{
    if n <= 0 {
        Ok(Seq::empty())
    } else {
        match matched(v, agents, n - 1) {
            Err(f) => Err(f),
            Ok(s) => match eval(v, agents[n - 1], agents) {
                Err(f) => Err(f),
                Ok(MatchState::Match) => Ok(s.push((n - 1) as usize)),
                Ok(_) => Ok(s),
            },
        }
    }
}

/// What a filter query comes to: text that is not JSON is bad JSON; a
/// malformed expression fails before any agent is looked at; otherwise
/// each agent is evaluated in turn.
pub open spec fn filter_outcome(agents: Seq<FilterAgent>, filter: Result<JsonValue, String>) -> Result<
    Seq<usize>,
    Failure,
> {
    match filter {
        Err(e) => Err(bad("filter JSON parse failed: "@ + e@)),
        Ok(v) => match expr_error(v) {
            Some(f) => Err(f),
            None => matched(v, agents, agents.len() as int),
        },
    }
}

/// The agents a filter matches. `filter` is the filter text parsed as
/// JSON, or the parser's complaint.
pub fn find_matching_indices(agents: &Vec<FilterAgent>, filter: &Result<JsonValue, String>) -> (r:
    OwnedFindAgentsResult)
    ensures
        match filter_outcome(agents@, *filter) {
            Ok(s) => r.status == CorvidFindAgentsStatus::Success && r.matched_indices@ == s
                && r.error_message is None,
            Err(f) => r.status == f.0 && r.matched_indices@.len() == 0 && (r.error_message matches Some(
                m,
            ) && m@ == f.1),
        },
{
    let v = match filter {
        Err(e) => {
            return OwnedFindAgentsResult {
                status: CorvidFindAgentsStatus::BadJson,
                matched_indices: Vec::new(),
                error_message: Some(cat("filter JSON parse failed: ", e)),
            };
        },
        Ok(v) => v,
    };
    match check_expr(v) {
        Err(e) => {
            return OwnedFindAgentsResult {
                status: e.status,
                matched_indices: Vec::new(),
                error_message: Some(e.message),
            };
        },
        Ok(()) => {},
    }
    let mut out: Vec<usize> = Vec::new();
    let mut i: usize = 0;
    while i < agents.len()
        invariant
            i <= agents@.len(),
            filter_outcome(agents@, *filter) == matched(*v, agents@, agents@.len() as int),
            matched(*v, agents@, i as int) == Ok::<Seq<usize>, Failure>(out@),
        decreases agents@.len() - i,
    {
        match evaluate_expr(v, &agents[i], agents) {
            Err(e) => {
                proof {
                    lemma_matched_fails_on(*v, agents@, i as int + 1, agents@.len() as int);
                }
                return OwnedFindAgentsResult {
                    status: e.status,
                    matched_indices: Vec::new(),
                    error_message: Some(e.message),
                };
            },
            Ok(MatchState::Match) => {
                out.push(i);
            },
            Ok(_) => {},
        }
        i += 1;
    }
    OwnedFindAgentsResult {
        status: CorvidFindAgentsStatus::Success,
        matched_indices: out,
        error_message: None,
    }
}

/// Once evaluation has failed on one of the first `n` agents, it has
/// failed the same way on all of them.
proof fn lemma_matched_fails_on(v: JsonValue, agents: Seq<FilterAgent>, n: int, total: int)
    requires
        0 <= n <= total,
        matched(v, agents, n) is Err,
    ensures
        matched(v, agents, total) == matched(v, agents, n),
    decreases total - n,
{
    if n < total {
        lemma_matched_fails_on(v, agents, n + 1, total);
    }
}

/// Negating twice gives back the evaluation: `not` swaps a match and a
/// non-match and leaves an unspecified result (or a failure) as it is.
pub proof fn negation_is_an_involution(e: Evaluation)
    ensures
        negated(negated(e)) == e,
        negated(Ok(MatchState::Unspecified)) == Ok::<MatchState, Failure>(MatchState::Unspecified),
{
}

/// A filter reports the agents it matches in ascending order, each once,
/// and only agents on which it evaluates to a match; an agent whose
/// evaluation is unspecified is not among them.
pub proof fn matches_ascend_and_are_matches(v: JsonValue, agents: Seq<FilterAgent>, n: int)
    requires
        0 <= n <= agents.len(),
        agents.len() <= usize::MAX,
        matched(v, agents, n) is Ok,
    ensures
        forall|a: int, b: int|
            0 <= a < b < matched(v, agents, n)->Ok_0.len() ==> (#[trigger] matched(v, agents, n)->Ok_0[a])
                < (#[trigger] matched(v, agents, n)->Ok_0[b]),
        forall|a: int|
            0 <= a < matched(v, agents, n)->Ok_0.len() ==> (#[trigger] matched(v, agents, n)->Ok_0[a])
                < n && eval(v, agents[matched(v, agents, n)->Ok_0[a] as int], agents) == Ok::<
                MatchState,
                Failure,
            >(MatchState::Match),
        forall|i: int|
            0 <= i < n && #[trigger] eval(v, agents[i], agents) == Ok::<MatchState, Failure>(
                MatchState::Match,
            ) ==> matched(v, agents, n)->Ok_0.contains(i as usize),
    decreases n,
{
    if n > 0 {
        matches_ascend_and_are_matches(v, agents, n - 1);
        let prev = matched(v, agents, n - 1)->Ok_0;
        let cur = matched(v, agents, n)->Ok_0;
        assert(((n - 1) as usize) as int == n - 1);
        if eval(v, agents[n - 1], agents) == Ok::<MatchState, Failure>(MatchState::Match) {
            assert(cur == prev.push((n - 1) as usize));
        } else {
            assert(cur == prev);
        }
        assert forall|i: int|
            0 <= i < n && #[trigger] eval(v, agents[i], agents) == Ok::<MatchState, Failure>(
                MatchState::Match,
            ) implies cur.contains(i as usize) by {
            if i < n - 1 {
                assert(prev.contains(i as usize));
                let k = choose|k: int| 0 <= k < prev.len() && prev[k] == i as usize;
                assert(cur[k] == prev[k]);
            } else {
                assert(cur[cur.len() - 1] == (n - 1) as usize);
            }
        }
    }
}

/// The numeric comparisons are the order of `f64` values: `lt` holds
/// exactly when the agent's value is strictly below the filter's (neither
/// being NaN), `gt` is `lt` with the two values swapped, `le` is `lt` or
/// equal, `ge` is `le` swapped, and `ne` is the negation of `eq`. `lt` is
/// strict: it never holds both ways, nor together with `eq`.
pub proof fn numeric_comparisons_follow_the_float_order(a: u64, e: u64)
    ensures
        float_holds(FilterOp::Lt, a, e) <==> lt(a, e),
        float_holds(FilterOp::Gt, a, e) <==> float_holds(FilterOp::Lt, e, a),
        float_holds(FilterOp::Le, a, e) <==> (float_holds(FilterOp::Lt, a, e) || float_holds(
            FilterOp::Eq,
            a,
            e,
        )),
        float_holds(FilterOp::Ge, a, e) <==> float_holds(FilterOp::Le, e, a),
        float_holds(FilterOp::Ne, a, e) <==> !float_holds(FilterOp::Eq, a, e),
        float_holds(FilterOp::Lt, a, e) ==> !float_holds(FilterOp::Lt, e, a) && !float_holds(
            FilterOp::Eq,
            a,
            e,
        ),
        float_holds(FilterOp::Eq, a, e) <==> feq(a, e),
{
}

/// A leaf `{"dim": "cost_bound_usd", "op": op, "value": e}` and nothing
/// else that the evaluator reads (no `all`, `any` or `not` member).
pub open spec fn cost_leaf(v: JsonValue, op: Seq<char>, e: u64) -> bool {
    match v {
        JsonValue::Object(ms) => {
            let vi = member_index(ms@, "value"@);
            &&& member_index(ms@, "all"@) < 0
            &&& member_index(ms@, "any"@) < 0
            &&& member_index(ms@, "not"@) < 0
            &&& member_text(ms@, "dim"@) == Some("cost_bound_usd"@)
            &&& member_text(ms@, "op"@) == Some(op)
            &&& vi >= 0
            &&& ms@[vi].value matches JsonValue::Number(n) && n.bits == e
        },
        _ => false,
    }
}

/// A leaf `cost_bound_usd lt e` matches an agent that declares a cost
/// exactly when that cost is strictly below `e`, and otherwise does not
/// match it; it never fails.
pub proof fn cost_below_matches_lt(v: JsonValue, e: u64, agent: FilterAgent, agents: Seq<FilterAgent>, c: u64)
    requires
        cost_leaf(v, "lt"@, e),
        agent.cost_bound_bits == Some(c),
    ensures
        eval(v, agent, agents) == Ok::<MatchState, Failure>(
            if lt(c, e) {
                MatchState::Match
            } else {
                MatchState::NoMatch
            },
        ),
{
    reveal_strlit("lt");
    reveal_strlit("eq");
    reveal_strlit("ne");
    reveal_strlit("cost_bound_usd");
    reveal_strlit("trust_tier");
    assert("lt"@ != "eq"@) by {
        assert("lt"@[0] != "eq"@[0]);
    }
    assert("lt"@ != "ne"@) by {
        assert("lt"@[1] != "ne"@[1]);
    }
    assert(op_named("lt"@) == Some(FilterOp::Lt));
    assert("cost_bound_usd"@ != "trust_tier"@) by {
        assert("cost_bound_usd"@[0] != "trust_tier"@[0]);
    }
}

/// Every agent counts for the matched list of a leaf; one that declares a
/// cost is listed exactly when its cost is below `e`.
proof fn lemma_cost_leaf_matched(v: JsonValue, e: u64, agents: Seq<FilterAgent>, n: int)
    requires
        cost_leaf(v, "lt"@, e),
        0 <= n <= agents.len(),
        forall|i: int| 0 <= i < agents.len() ==> (#[trigger] agents[i]).cost_bound_bits is Some,
    ensures
        matched(v, agents, n) is Ok,
    decreases n,
{
    if n > 0 {
        lemma_cost_leaf_matched(v, e, agents, n - 1);
        cost_below_matches_lt(v, e, agents[n - 1], agents, agents[n - 1].cost_bound_bits->0);
    }
}

/// Finding agents with `cost_bound_usd lt e`, among agents that all
/// declare a cost, lists exactly those whose cost is strictly below `e`.
pub proof fn lt_filter_lists_the_cheaper_agents(v: JsonValue, e: u64, agents: Seq<FilterAgent>)
    requires
        cost_leaf(v, "lt"@, e),
        agents.len() <= usize::MAX,
        forall|i: int| 0 <= i < agents.len() ==> (#[trigger] agents[i]).cost_bound_bits is Some,
    ensures
        matched(v, agents, agents.len() as int) is Ok,
        forall|i: int|
            0 <= i < agents.len() ==> (matched(v, agents, agents.len() as int)->Ok_0.contains(i as usize)
                <==> lt(#[trigger] agents[i].cost_bound_bits->0, e)),
{
    let n = agents.len() as int;
    lemma_cost_leaf_matched(v, e, agents, n);
    matches_ascend_and_are_matches(v, agents, n);
    let m = matched(v, agents, n)->Ok_0;
    assert forall|i: int| 0 <= i < agents.len() implies (m.contains(i as usize) <==> lt(
        #[trigger] agents[i].cost_bound_bits->0,
        e,
    )) by {
        cost_below_matches_lt(v, e, agents[i], agents, agents[i].cost_bound_bits->0);
        if m.contains(i as usize) {
            let k = choose|k: int| 0 <= k < m.len() && m[k] == i as usize;
            assert(m[k] as int == i);
        }
    }
}

/// A catalog agent as a filter query sees it: its name, and what the
/// filter reads of it.
pub struct CatalogFilterEntry {
    pub name: String,
    pub agent: FilterAgent,
}

/// The runtime's own agents (named `__corvid_...`), in catalog order.
pub open spec fn own_agents(s: Seq<CatalogFilterEntry>) -> Seq<FilterAgent>
    decreases s.len(),
{
    if s.len() == 0 {
        Seq::empty()
    } else if introspection_name(s.last().name@) {
        own_agents(s.drop_last()).push(s.last().agent)
    } else {
        own_agents(s.drop_last())
    }
}

/// The other agents, in catalog order.
pub open spec fn other_agents(s: Seq<CatalogFilterEntry>) -> Seq<FilterAgent>
    decreases s.len(),
{
    if s.len() == 0 {
        Seq::empty()
    } else if !introspection_name(s.last().name@) {
        other_agents(s.drop_last()).push(s.last().agent)
    } else {
        other_agents(s.drop_last())
    }
}

/// The order in which a query sees the agents, which is what its indices
/// count: the runtime's own agents, then the registered approver if there
/// is one, then the others.
pub open spec fn filter_order(s: Seq<CatalogFilterEntry>, overlay: Option<FilterAgent>) -> Seq<FilterAgent> {
    own_agents(s) + match overlay {
        Some(a) => seq![a],
        None => Seq::empty(),
    } + other_agents(s)
}

/// Runs a filter query over the catalog. A catalog that cannot be loaded
/// is reported as bad JSON with its error.
pub fn find_agents_where(
    catalog: Result<Vec<CatalogFilterEntry>, RuntimeError>,
    overlay: Option<FilterAgent>,
    filter: &Result<JsonValue, String>,
) -> (r: OwnedFindAgentsOutcome)
    ensures
        match catalog {
            Err(e) => r.status == CorvidFindAgentsStatus::BadJson && r.matched_indices@.len() == 0
                && (r.error_message matches Some(m) && m@ == message_of(e)),
            Ok(entries) => match filter_outcome(filter_order(entries@, overlay), *filter) {
                Ok(s) => r.status == CorvidFindAgentsStatus::Success && r.matched_indices@ == s
                    && r.error_message is None,
                Err(f) => r.status == f.0 && r.matched_indices@.len() == 0 && (r.error_message matches Some(
                    m,
                ) && m@ == f.1),
            },
        },
{
    let mut entries = match catalog {
        Err(e) => {
            return OwnedFindAgentsOutcome {
                status: CorvidFindAgentsStatus::BadJson,
                matched_indices: Vec::new(),
                error_message: Some(e.message()),
            };
        },
        Ok(entries) => entries,
    };
    let ghost all = entries@;
    let n = entries.len();
    let mut own: Vec<FilterAgent> = Vec::new();
    let mut others: Vec<FilterAgent> = Vec::new();
    let mut k: usize = 0;
    while entries.len() > 0
        invariant
            n == all.len(),
            k <= all.len(),
            entries@ == all.skip(k as int),
            own@ == own_agents(all.take(k as int)),
            others@ == other_agents(all.take(k as int)),
        decreases entries@.len(),
    {
        let e = entries.remove(0);
        proof {
            assert(all.skip(k as int)[0] == e);
            assert(all.take(k as int + 1).drop_last() =~= all.take(k as int));
            assert(all.take(k as int + 1).last() == e);
            assert(all.skip(k as int + 1) =~= all.skip(k as int).remove(0));
        }
        if is_introspection_agent(&e.name) {
            own.push(e.agent);
        } else {
            others.push(e.agent);
        }
        k = k + 1;
    }
    assert(all.take(k as int) =~= all);
    let mut agents = own;
    match overlay {
        Some(a) => {
            agents.push(a);
        },
        None => {},
    }
    agents.append(&mut others);
    assert(agents@ =~= filter_order(all, overlay));
    let result = find_matching_indices(&agents, filter);
    OwnedFindAgentsOutcome {
        status: result.status,
        matched_indices: result.matched_indices,
        error_message: result.error_message,
    }
}

} // verus!
