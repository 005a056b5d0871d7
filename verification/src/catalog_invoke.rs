//! What a catalog agent can be called with, and what a preflight or a call
//! comes to before and after the agent runs.
//!
//! The catalog describes each agent by its ABI entry; the parts the
//! dispatcher reads are held here as plain values: parameter and return
//! types (scalar, or another type by its rendering), whether the agent is
//! exported for C, its approval contract and cost bound. A call's
//! arguments arrive as JSON; each is described by the shape the checks
//! look at.

use vstd::prelude::*;
use crate::cache::{json_error_object, json_escape};
use crate::catalog::{
    introspection_kind, introspection_of, CorvidCallStatus, CorvidPreFlightStatus,
    IntrospectionKind, OwnedApprovalRequired, OwnedCallOutcome,
};
use crate::approval_host::ApprovalRequestOutcome;
use crate::approver_bridge::ApprovalDecisionInfo;
use crate::errors::{message_of, RuntimeError};
use crate::text::{cat, cat3, dec, owned, str_eq, u64_to_decimal};

verus! {

/// A scalar parameter type.
#[derive(Debug, Clone, Copy, PartialEq, Eq, Structural)]
pub enum ScalarAbiType {
    Int,
    Float,
    Bool,
    String,
}

/// A scalar return type.
#[derive(Debug, Clone, Copy, PartialEq, Eq, Structural)]
pub enum ScalarReturnType {
    Int,
    Float,
    Bool,
    String,
    Nothing,
}

/// A parameter's type as the descriptor gives it: a scalar, or any other
/// type by its rendering.
pub enum ParamType {
    Scalar(ScalarAbiType),
    Other(String),
}

/// A return type as the descriptor gives it: a scalar; a grounded scalar;
/// a grounded value of another type, by its rendering; or any other type,
/// by its rendering.
pub enum ReturnType {
    Scalar(ScalarReturnType),
    GroundedScalar,
    GroundedOther(String),
    Other(String),
}

/// How calls to an agent are dispatched.
pub enum InvokerPlan {
    /// The runtime answers the call itself.
    Introspection(IntrospectionKind),
    /// An exported function taking and returning scalars.
    Scalar { params: Vec<ScalarAbiType>, ret: ScalarReturnType },
    /// Calls cannot be dispatched; the message says why.
    Unsupported(String),
}

pub open spec fn param_message(rendered: Seq<char>) -> Seq<char> {
    "non-scalar parameter type `"@ + rendered
        + "` is deferred to Phase 22-F grounded/structured returns"@
}

pub open spec fn grounded_scalar_message() -> Seq<char> {
    "grounded return values are exposed through the direct exported symbol with an attestation handle; generic `corvid_call_agent` JSON dispatch still supports plain scalar returns only"@
}

pub open spec fn return_message(ret: ReturnType) -> Option<Seq<char>> {
    match ret {
        ReturnType::Scalar(_) => None,
        ReturnType::GroundedScalar => Some(grounded_scalar_message()),
        ReturnType::GroundedOther(r) => Some(
            "grounded return type `"@ + r@ + "` is not yet supported by generic host dispatch"@,
        ),
        ReturnType::Other(r) => Some(
            "non-scalar return type `"@ + r@ + "` is not supported by generic host dispatch"@,
        ),
    }
}

pub open spec fn not_exported_message(name: Seq<char>) -> Seq<char> {
    "agent `"@ + name
        + "` is not `pub extern \"c\"`; generic host dispatch is limited to exported scalar agents in Phase 22-C"@
}

/// The message of the first parameter that is not a scalar, if any.
pub open spec fn param_failure(params: Seq<ParamType>) -> Option<Seq<char>>
    decreases params.len(),
{
    if params.len() == 0 {
        None
    } else {
        let earlier = param_failure(params.drop_last());
        if earlier is Some {
            earlier
        } else {
            match params.last() {
                ParamType::Other(r) => Some(param_message(r@)),
                ParamType::Scalar(_) => None,
            }
        }
    }
}

/// Why an agent that the runtime does not answer itself cannot be
/// dispatched: not exported for C, or a type that is not a scalar
/// (parameters first, in order, then the return type).
pub open spec fn unsupported_reason(
    name: Seq<char>,
    pub_extern_c: bool,
    params: Seq<ParamType>,
    ret: ReturnType,
) -> Option<Seq<char>> {
    if !pub_extern_c {
        Some(not_exported_message(name))
    } else if param_failure(params) is Some {
        param_failure(params)
    } else {
        return_message(ret)
    }
}

/// The scalar type a parameter has, or why it cannot be dispatched.
pub fn scalar_param_type(ty: &ParamType) -> (r: Result<ScalarAbiType, String>)
    ensures
        match ty {
            ParamType::Scalar(s) => r == Ok::<ScalarAbiType, String>(*s),
            ParamType::Other(rendered) => r matches Err(m) && m@ == param_message(rendered@),
        },
{
    match ty {
        ParamType::Scalar(s) => Ok(*s),
        ParamType::Other(rendered) => Err(cat3(
            "non-scalar parameter type `",
            rendered,
            "` is deferred to Phase 22-F grounded/structured returns",
        )),
    }
}

/// The scalar type a return value has, or why it cannot be dispatched.
pub fn scalar_return_type(ty: &ReturnType) -> (r: Result<ScalarReturnType, String>)
    ensures
        match return_message(*ty) {
            None => r == Ok::<ScalarReturnType, String>(ty->Scalar_0),
            Some(m) => r matches Err(e) && e@ == m,
        },
{
    match ty {
        ReturnType::Scalar(s) => Ok(*s),
        ReturnType::GroundedScalar => Err(owned(
            "grounded return values are exposed through the direct exported symbol with an attestation handle; generic `corvid_call_agent` JSON dispatch still supports plain scalar returns only",
        )),
        ReturnType::GroundedOther(rendered) => Err(cat3(
            "grounded return type `",
            rendered,
            "` is not yet supported by generic host dispatch",
        )),
        ReturnType::Other(rendered) => Err(cat3(
            "non-scalar return type `",
            rendered,
            "` is not supported by generic host dispatch",
        )),
    }
}

/// How calls to an agent are dispatched: the runtime's own agents by
/// name; an agent not exported for C, or with a type that is not a scalar
/// (parameters first, in order, then the return type), cannot be; the
/// rest through their exported function.
pub fn plan_invoker(name: &str, pub_extern_c: bool, params: &Vec<ParamType>, ret: &ReturnType) -> (r:
    InvokerPlan)
    ensures
        match introspection_of(name@) {
            Some(k) => r == InvokerPlan::Introspection(k),
            None => match unsupported_reason(name@, pub_extern_c, params@, *ret) {
                Some(f) => (r matches InvokerPlan::Unsupported(m) && m@ == f),
                None => (r matches InvokerPlan::Scalar { params: ps, ret: rt } && rt == ret->Scalar_0
                    && ps@.len() == params@.len() && forall|i: int|
                    0 <= i < ps@.len() ==> params@[i] == ParamType::Scalar(#[trigger] ps@[i])),
            },
        },
{
    if let Some(kind) = introspection_kind(name) {
        return InvokerPlan::Introspection(kind);
    }
    if !pub_extern_c {
        let m = cat3(
            "agent `",
            name,
            "` is not `pub extern \"c\"`; generic host dispatch is limited to exported scalar agents in Phase 22-C",
        );
        return InvokerPlan::Unsupported(m);
    }
    let mut scalars: Vec<ScalarAbiType> = Vec::new();
    let mut i: usize = 0;
    while i < params.len()
        invariant
            pub_extern_c,
            introspection_of(name@) is None,
            i <= params@.len(),
            param_failure(params@.take(i as int)) is None,
            scalars@.len() == i,
            forall|k: int| 0 <= k < i ==> params@[k] == ParamType::Scalar(#[trigger] scalars@[k]),
        decreases params@.len() - i,
    {
        assert(params@.take(i as int + 1).drop_last() =~= params@.take(i as int));
        match scalar_param_type(&params[i]) {
            Ok(s) => {
                scalars.push(s);
            },
            Err(m) => {
                proof {
                    lemma_param_failure_extends(params@, i as int);
                }
                return InvokerPlan::Unsupported(m);
            },
        }
        i += 1;
    }
    assert(params@.take(params@.len() as int) =~= params@);
    match scalar_return_type(ret) {
        Ok(rt) => InvokerPlan::Scalar { params: scalars, ret: rt },
        Err(m) => InvokerPlan::Unsupported(m),
    }
}

/// The first non-scalar parameter decides the failure of every longer
/// prefix.
proof fn lemma_param_failure_extends(params: Seq<ParamType>, i: int)
    requires
        0 <= i < params.len(),
        param_failure(params.take(i)) is None,
        params[i] is Other,
    ensures
        param_failure(params) == Some(param_message(params[i]->Other_0@)),
    decreases params.len() - i,
{
    let f = Some(param_message(params[i]->Other_0@));
    assert(params.take(i + 1).drop_last() =~= params.take(i));
    assert(param_failure(params.take(i + 1)) == f);
    lemma_param_failure_keeps(params, i + 1, f);
}

/// Once a prefix has failed, every longer prefix fails the same way.
proof fn lemma_param_failure_keeps(params: Seq<ParamType>, n: int, f: Option<Seq<char>>)
    requires
        0 <= n <= params.len(),
        f is Some,
        param_failure(params.take(n)) == f,
    ensures
        param_failure(params) == f,
    decreases params.len() - n,
{
    if n == params.len() {
        assert(params.take(n) =~= params);
    } else {
        assert(params.take(n + 1).drop_last() =~= params.take(n));
        lemma_param_failure_keeps(params, n + 1, f);
    }
}

/// The shape of one JSON argument, as the checks look at it: a number that
/// fits an `i64`, any other number, a boolean, a string, or anything else.
#[derive(Debug, Clone, Copy, PartialEq, Eq, Structural)]
pub enum JsonArg {
    Integer,
    Number,
    Bool,
    Text,
    Other,
}

/// A call's arguments as sent: text that is not JSON (with the parser's
/// complaint), JSON that is not an array, or an array.
pub enum ArgsJson {
    Invalid(String),
    NotArray,
    Array(Vec<JsonArg>),
}

/// A parameter of a catalog agent.
pub struct CatalogParam {
    pub name: String,
    pub ty: ParamType,
}

pub open spec fn expected_message(ty: ScalarAbiType) -> Seq<char> {
    match ty {
        ScalarAbiType::Int => "expected Int"@,
        ScalarAbiType::Float => "expected Float"@,
        ScalarAbiType::Bool => "expected Bool"@,
        ScalarAbiType::String => "expected String"@,
    }
}

/// Whether an argument can be read as a scalar type: an `Int` takes a
/// number that fits an `i64`, a `Float` any number.
pub open spec fn arg_fits(ty: ScalarAbiType, a: JsonArg) -> bool {
    match ty {
        ScalarAbiType::Int => a == JsonArg::Integer,
        ScalarAbiType::Float => a == JsonArg::Integer || a == JsonArg::Number,
        ScalarAbiType::Bool => a == JsonArg::Bool,
        ScalarAbiType::String => a == JsonArg::Text,
    }
}

/// What is wrong with an argument for a parameter type, if anything.
pub open spec fn arg_problem(ty: ParamType, a: JsonArg) -> Option<Seq<char>> {
    match ty {
        ParamType::Other(r) => Some(param_message(r@)),
        ParamType::Scalar(s) => if arg_fits(s, a) {
            None
        } else {
            Some(expected_message(s))
        },
    }
}

/// The first of the first `n` arguments that does not fit its parameter:
/// its index and what is wrong with it.
pub open spec fn first_bad_arg(params: Seq<CatalogParam>, args: Seq<JsonArg>, n: int) -> Option<
    (int, Seq<char>),
>
    decreases n,
{
    if n <= 0 {
        None
    } else {
        let earlier = first_bad_arg(params, args, n - 1);
        if earlier is Some {
            earlier
        } else {
            match arg_problem(params[n - 1].ty, args[n - 1]) {
                Some(m) => Some((n - 1, m)),
                None => None,
            }
        }
    }
}

/// What is wrong with a call's arguments for an agent, if anything.
pub open spec fn args_problem(agent: Seq<char>, params: Seq<CatalogParam>, args: ArgsJson) -> Option<
    Seq<char>,
> {
    match args {
        ArgsJson::Invalid(e) => Some("args_json must be a JSON array: "@ + e@),
        ArgsJson::NotArray => Some("args_json must be a JSON array"@),
        ArgsJson::Array(v) => if v@.len() != params.len() {
            Some(
                "arity mismatch for `"@ + agent + "`: expected "@ + dec(params.len()) + ", got "@
                    + dec(v@.len()),
            )
        } else {
            match first_bad_arg(params, v@, params.len() as int) {
                Some((i, m)) => Some(
                    "argument "@ + dec((i + 1) as nat) + " (`"@ + params[i].name@ + "`) for `"@
                        + agent + "` is invalid: "@ + m,
                ),
                None => None,
            }
        },
    }
}

/// Checks one argument against its parameter's type.
pub fn validate_scalar_argument(ty: &ParamType, arg: JsonArg) -> (r: Result<(), String>)
    ensures
        match arg_problem(*ty, arg) {
            Some(m) => r matches Err(e) && e@ == m,
            None => r is Ok,
        },
{
    match scalar_param_type(ty) {
        Err(m) => Err(m),
        Ok(ScalarAbiType::Int) => if arg == JsonArg::Integer {
            Ok(())
        } else {
            Err(owned("expected Int"))
        },
        Ok(ScalarAbiType::Float) => if arg == JsonArg::Integer || arg == JsonArg::Number {
            Ok(())
        } else {
            Err(owned("expected Float"))
        },
        Ok(ScalarAbiType::Bool) => if arg == JsonArg::Bool {
            Ok(())
        } else {
            Err(owned("expected Bool"))
        },
        Ok(ScalarAbiType::String) => if arg == JsonArg::Text {
            Ok(())
        } else {
            Err(owned("expected String"))
        },
    }
}

/// Once the first `n` arguments hold a bad one, so do all of them.
proof fn lemma_first_bad_keeps(params: Seq<CatalogParam>, args: Seq<JsonArg>, n: int, total: int)
    requires
        0 <= n <= total,
        first_bad_arg(params, args, n) is Some,
    ensures
        first_bad_arg(params, args, total) == first_bad_arg(params, args, n),
    decreases total - n,
{
    if n < total {
        lemma_first_bad_keeps(params, args, n + 1, total);
    }
}

/// Checks a call's arguments against an agent's parameters: they must be
/// a JSON array of the right length, and each must fit its parameter; the
/// first that does not is reported, numbered from 1.
pub fn validate_args_for_entry(agent_name: &str, params: &Vec<CatalogParam>, args: &ArgsJson) -> (r:
    Result<(), String>)
    ensures
        match args_problem(agent_name@, params@, *args) {
            Some(m) => r matches Err(e) && e@ == m,
            None => r is Ok,
        },
{
    match args {
        ArgsJson::Invalid(e) => Err(cat("args_json must be a JSON array: ", e)),
        ArgsJson::NotArray => Err(owned("args_json must be a JSON array")),
        ArgsJson::Array(v) => {
            if v.len() != params.len() {
                let mut m = cat3("arity mismatch for `", agent_name, "`: expected ");
                let expected = u64_to_decimal(params.len() as u64);
                let got = u64_to_decimal(v.len() as u64);
                let m2 = cat3(&m, &expected, ", got ");
                m = cat(&m2, &got);
                return Err(m);
            }
            let mut i: usize = 0;
            while i < v.len()
                invariant
                    *args == ArgsJson::Array(*v),
                    v@.len() == params@.len(),
                    i <= v@.len(),
                    first_bad_arg(params@, v@, i as int) is None,
                decreases v@.len() - i,
            {
                match validate_scalar_argument(&params[i].ty, v[i]) {
                    Ok(()) => {},
                    Err(problem) => {
                        proof {
                            assert(arg_problem(params@[i as int].ty, v@[i as int]) == Some(problem@));
                            assert(first_bad_arg(params@, v@, i as int + 1) == Some((i as int, problem@)));
                            lemma_first_bad_keeps(params@, v@, i as int + 1, params@.len() as int);
                        }
                        assert(i + 1 <= u64::MAX);
                        let number = u64_to_decimal((i + 1) as u64);
                        let a = cat3("argument ", &number, " (`");
                        let b = cat3(&a, &params[i].name, "`) for `");
                        let c = cat3(&b, agent_name, "` is invalid: ");
                        return Err(cat(&c, &problem));
                    },
                }
                i += 1;
            }
            Ok(())
        },
    }
}

/// The bits of `f64::NAN`, the cost bound when none is known.
pub const NAN_BITS: u64 = 0x7ff8_0000_0000_0000;

pub open spec fn approver_name() -> Seq<char> {
    "__corvid_approver"@
}

pub open spec fn governance_message() -> Seq<char> {
    "`__corvid_approver` is a governance capability and is not directly callable"@
}

/// What the dispatcher reads of a catalog entry.
pub struct CatalogEntry {
    pub name: String,
    pub params: Vec<CatalogParam>,
    pub requires_approval: bool,
    /// The cost bound per call, as `f64` bits (NaN when none is known).
    pub cost_bound_bits: u64,
    pub effect_row_json: String,
    pub grounded_source_set_json: String,
    pub invoker: InvokerPlan,
}

/// What checking a call before making it found.
pub struct OwnedPreFlight {
    pub status: CorvidPreFlightStatus,
    /// As `f64` bits.
    pub cost_bound_usd_bits: u64,
    pub requires_approval: bool,
    pub effect_row_json: String,
    pub grounded_source_set_json: String,
    pub bad_args_message: Option<String>,
}

pub open spec fn opt_text(o: Option<String>) -> Option<Seq<char>> {
    match o {
        Some(s) => Some(s@),
        None => None,
    }
}

/// A preflight answer with the given fields.
pub open spec fn preflight_is(
    r: OwnedPreFlight,
    status: CorvidPreFlightStatus,
    cost_bits: u64,
    requires_approval: bool,
    effect_row: Seq<char>,
    grounded: Seq<char>,
    bad: Option<Seq<char>>,
) -> bool {
    &&& r.status == status
    &&& r.cost_bound_usd_bits == cost_bits
    &&& r.requires_approval == requires_approval
    &&& r.effect_row_json@ == effect_row
    &&& r.grounded_source_set_json@ == grounded
    &&& opt_text(r.bad_args_message) == bad
}

/// A preflight answer for a call that cannot go ahead: no cost bound, no
/// approval, no effect rows.
fn refused_preflight(status: CorvidPreFlightStatus, message: Option<String>) -> (r: OwnedPreFlight)
    ensures
        preflight_is(r, status, NAN_BITS, false, Seq::empty(), Seq::empty(), opt_text(message)),
{
    OwnedPreFlight {
        status,
        cost_bound_usd_bits: NAN_BITS,
        requires_approval: false,
        effect_row_json: String::new(),
        grounded_source_set_json: String::new(),
        bad_args_message: message,
    }
}

/// Checks a call before making it. The approver is a governance
/// capability and is never called directly; a catalog that cannot be
/// loaded makes the arguments bad, with its error; an unknown agent is not
/// found; an agent that cannot be dispatched says why; arguments that do
/// not fit are bad; otherwise the agent's cost bound, approval contract
/// and effect rows come back.
pub fn pre_flight(agent_name: &str, lookup: &Result<Option<CatalogEntry>, RuntimeError>, args: &ArgsJson) -> (r:
    OwnedPreFlight)
    ensures
        agent_name@ == approver_name() ==> preflight_is(
            r,
            CorvidPreFlightStatus::UnsupportedSig,
            NAN_BITS,
            false,
            Seq::empty(),
            Seq::empty(),
            Some(governance_message()),
        ),
        agent_name@ != approver_name() ==> match lookup {
            Err(e) => preflight_is(
                r,
                CorvidPreFlightStatus::BadArgs,
                NAN_BITS,
                false,
                Seq::empty(),
                Seq::empty(),
                Some(message_of(*e)),
            ),
            Ok(None) => preflight_is(
                r,
                CorvidPreFlightStatus::AgentNotFound,
                NAN_BITS,
                false,
                Seq::empty(),
                Seq::empty(),
                None,
            ),
            Ok(Some(entry)) => match entry.invoker {
                InvokerPlan::Unsupported(m) => preflight_is(
                    r,
                    CorvidPreFlightStatus::UnsupportedSig,
                    NAN_BITS,
                    false,
                    entry.effect_row_json@,
                    entry.grounded_source_set_json@,
                    Some(m@),
                ),
                _ => match args_problem(entry.name@, entry.params@, *args) {
                    Some(m) => preflight_is(
                        r,
                        CorvidPreFlightStatus::BadArgs,
                        NAN_BITS,
                        false,
                        Seq::empty(),
                        Seq::empty(),
                        Some(m),
                    ),
                    None => preflight_is(
                        r,
                        CorvidPreFlightStatus::Success,
                        entry.cost_bound_bits,
                        entry.requires_approval,
                        entry.effect_row_json@,
                        entry.grounded_source_set_json@,
                        None,
                    ),
                },
            },
        },
{
    if str_eq(agent_name, "__corvid_approver") {
        return refused_preflight(
            CorvidPreFlightStatus::UnsupportedSig,
            Some(owned("`__corvid_approver` is a governance capability and is not directly callable")),
        );
    }
    match lookup {
        Err(e) => refused_preflight(CorvidPreFlightStatus::BadArgs, Some(e.message())),
        Ok(None) => refused_preflight(CorvidPreFlightStatus::AgentNotFound, None),
        Ok(Some(entry)) => {
            if let InvokerPlan::Unsupported(m) = &entry.invoker {
                return OwnedPreFlight {
                    status: CorvidPreFlightStatus::UnsupportedSig,
                    cost_bound_usd_bits: NAN_BITS,
                    requires_approval: false,
                    effect_row_json: owned(&entry.effect_row_json),
                    grounded_source_set_json: owned(&entry.grounded_source_set_json),
                    bad_args_message: Some(owned(m)),
                };
            }
            match validate_args_for_entry(&entry.name, &entry.params, args) {
                Err(m) => refused_preflight(CorvidPreFlightStatus::BadArgs, Some(m)),
                Ok(()) => OwnedPreFlight {
                    status: CorvidPreFlightStatus::Success,
                    cost_bound_usd_bits: entry.cost_bound_bits,
                    requires_approval: entry.requires_approval,
                    effect_row_json: owned(&entry.effect_row_json),
                    grounded_source_set_json: owned(&entry.grounded_source_set_json),
                    bad_args_message: None,
                },
            }
        },
    }
}

/// A call that ends before the agent runs: its status and, where there is
/// one, the JSON text that explains it.
pub struct CallRefusal {
    pub status: CorvidCallStatus,
    pub result_json: Option<String>,
}

/// Whether a call may go ahead.
pub enum CallGate {
    Refuse(CallRefusal),
    Proceed,
}

/// `{"error": m}` as compact JSON text.
pub open spec fn error_json(m: Seq<char>) -> Seq<char> {
    "{\"error\":\""@ + json_escape(m) + "\"}"@
}

pub open spec fn refuses(g: CallGate, status: CorvidCallStatus, result: Option<Seq<char>>) -> bool {
    g matches CallGate::Refuse(c) && c.status == status && opt_text(c.result_json) == result
}

/// Whether a call may go ahead, checked in the order a call is made. The
/// approver is never called directly; a catalog that cannot be loaded is a
/// runtime error; an unknown agent is not found; an agent that cannot be
/// dispatched is unsupported; arguments that do not fit are bad. The
/// refusals that explain themselves carry `{"error": ...}`.
pub fn call_gate(agent_name: &str, lookup: &Result<Option<CatalogEntry>, RuntimeError>, args: &ArgsJson) -> (r:
    CallGate)
    ensures
        agent_name@ == approver_name() ==> refuses(
            r,
            CorvidCallStatus::UnsupportedSig,
            Some(error_json(governance_message())),
        ),
        agent_name@ != approver_name() ==> match lookup {
            Err(e) => refuses(r, CorvidCallStatus::RuntimeError, Some(error_json(message_of(*e)))),
            Ok(None) => refuses(r, CorvidCallStatus::AgentNotFound, None),
            Ok(Some(entry)) => match entry.invoker {
                InvokerPlan::Unsupported(_) => refuses(r, CorvidCallStatus::UnsupportedSig, None),
                _ => match args_problem(entry.name@, entry.params@, *args) {
                    Some(m) => refuses(r, CorvidCallStatus::BadArgs, Some(error_json(m))),
                    None => r is Proceed,
                },
            },
        },
{
    if str_eq(agent_name, "__corvid_approver") {
        let body = json_error_object(
            "`__corvid_approver` is a governance capability and is not directly callable",
        );
        return CallGate::Refuse(
            CallRefusal { status: CorvidCallStatus::UnsupportedSig, result_json: Some(body) },
        );
    }
    match lookup {
        Err(e) => {
            let m = e.message();
            CallGate::Refuse(
                CallRefusal {
                    status: CorvidCallStatus::RuntimeError,
                    result_json: Some(json_error_object(&m)),
                },
            )
        },
        Ok(None) => CallGate::Refuse(
            CallRefusal { status: CorvidCallStatus::AgentNotFound, result_json: None },
        ),
        Ok(Some(entry)) => {
            if let InvokerPlan::Unsupported(_) = &entry.invoker {
                return CallGate::Refuse(
                    CallRefusal { status: CorvidCallStatus::UnsupportedSig, result_json: None },
                );
            }
            match validate_args_for_entry(&entry.name, &entry.params, args) {
                Err(m) => CallGate::Refuse(
                    CallRefusal {
                        status: CorvidCallStatus::BadArgs,
                        result_json: Some(json_error_object(&m)),
                    },
                ),
                Ok(()) => CallGate::Proceed,
            }
        },
    }
}

/// The outcome of a call that failed once under way: a runtime error,
/// explained as `{"error": ...}`.
pub fn call_failed(err: &RuntimeError, observation_handle: u64) -> (r: OwnedCallOutcome)
    ensures
        r.status == CorvidCallStatus::RuntimeError,
        opt_text(r.result_json) == Some(error_json(message_of(*err))),
        r.approval is None,
        r.observation_handle == observation_handle,
{
    let m = err.message();
    OwnedCallOutcome {
        status: CorvidCallStatus::RuntimeError,
        result_json: Some(json_error_object(&m)),
        approval: None,
        observation_handle,
    }
}

pub open spec fn rationale_prompt(agent: Seq<char>) -> Seq<char> {
    "Agent `"@ + agent + "` requires approval before executing dangerous effects."@
}

/// The approval a call to an agent with an approval contract asks for: at
/// the contract's first label, or, without labels, at the agent's name.
pub fn approval_required_for(
    agent: &str,
    first_label: Option<&str>,
    predicate_json: String,
    args_json: &str,
) -> (r: OwnedApprovalRequired)
    ensures
        r.site_name@ == (match first_label {
            Some(l) => l@,
            None => agent@,
        }),
        r.predicate_json == predicate_json,
        r.args_json@ == args_json@,
        r.rationale_prompt@ == rationale_prompt(agent@),
{
    let site_name = match first_label {
        Some(l) => owned(l),
        None => owned(agent),
    };
    OwnedApprovalRequired {
        site_name,
        predicate_json,
        args_json: owned(args_json),
        rationale_prompt: cat3(
            "Agent `",
            agent,
            "` requires approval before executing dangerous effects.",
        ),
    }
}

/// What a call that needs approval comes to once the host has answered.
pub enum ApprovalGate {
    /// Refused, or no approver: the call stops, asking for approval, and
    /// the agent is not invoked.
    Refused(OwnedCallOutcome),
    /// Approved: the agent is invoked, and the approval is recorded as a
    /// preapproved answer for the request at `site_name`.
    Approved { site_name: String, detail: ApprovalDecisionInfo },
}

/// Where a call that needs `approval` stands after the host's `outcome`.
/// A refused call reports the approval it needs, with no result and the
/// given observation handle.
pub fn after_approval(
    approval: OwnedApprovalRequired,
    outcome: ApprovalRequestOutcome,
    observation_handle: u64,
) -> (r: ApprovalGate)
    ensures
        match outcome {
            ApprovalRequestOutcome::MissingOrRejected => r == ApprovalGate::Refused(
                OwnedCallOutcome {
                    status: CorvidCallStatus::ApprovalRequired,
                    result_json: None,
                    approval: Some(approval),
                    observation_handle,
                },
            ),
            ApprovalRequestOutcome::Accepted(d) => r == ApprovalGate::Approved {
                site_name: approval.site_name,
                detail: d,
            },
        },
{
    match outcome {
        ApprovalRequestOutcome::MissingOrRejected => ApprovalGate::Refused(
            OwnedCallOutcome {
                status: CorvidCallStatus::ApprovalRequired,
                result_json: None,
                approval: Some(approval),
                observation_handle,
            },
        ),
        ApprovalRequestOutcome::Accepted(d) => ApprovalGate::Approved {
            site_name: approval.site_name,
            detail: d,
        },
    }
}

/// The outcome of a call that ran: its result as JSON text, and the
/// observation it was made under.
pub fn call_succeeded(result_json: String, observation_handle: u64) -> (r: OwnedCallOutcome)
    ensures
        r == (OwnedCallOutcome {
            status: CorvidCallStatus::Success,
            result_json: Some(result_json),
            approval: None,
            observation_handle,
        }),
{
    OwnedCallOutcome {
        status: CorvidCallStatus::Success,
        result_json: Some(result_json),
        approval: None,
        observation_handle,
    }
}

/// Why a call is stopped before it runs, if it is: the status and the
/// JSON text that explains it (see [`call_gate`]).
pub open spec fn gate_refusal(
    agent: Seq<char>,
    lookup: Result<Option<CatalogEntry>, RuntimeError>,
    args: ArgsJson,
) -> Option<(CorvidCallStatus, Option<Seq<char>>)> {
    if agent == approver_name() {
        Some((CorvidCallStatus::UnsupportedSig, Some(error_json(governance_message()))))
    } else {
        match lookup {
            Err(e) => Some((CorvidCallStatus::RuntimeError, Some(error_json(message_of(e))))),
            Ok(None) => Some((CorvidCallStatus::AgentNotFound, None)),
            Ok(Some(entry)) => match entry.invoker {
                InvokerPlan::Unsupported(_) => Some((CorvidCallStatus::UnsupportedSig, None)),
                _ => match args_problem(entry.name@, entry.params@, args) {
                    Some(m) => Some((CorvidCallStatus::BadArgs, Some(error_json(m)))),
                    None => None,
                },
            },
        }
    }
}

/// The approval a call to `agent` asks for (see [`approval_required_for`]).
pub open spec fn is_approval_for(
    q: OwnedApprovalRequired,
    agent: Seq<char>,
    first_label: Option<&str>,
    predicate_json: String,
    args_json: Seq<char>,
) -> bool {
    &&& q.site_name@ == (match first_label {
        Some(l) => l@,
        None => agent,
    })
    &&& q.predicate_json == predicate_json
    &&& q.args_json@ == args_json
    &&& q.rationale_prompt@ == rationale_prompt(agent)
}

/// The first step of a catalog call.
pub enum CallStep {
    /// The call stops before the agent runs.
    Refused(OwnedCallOutcome),
    /// The agent needs approval: ask the host with this request, and invoke
    /// only if it is accepted (see [`after_approval`]).
    NeedsApproval(OwnedApprovalRequired),
    /// Invoke the agent.
    Invoke,
}

/// Decides how a catalog call starts: the refusals of [`call_gate`] end it (with no
/// approval and no observation); an agent with an approval contract is
/// never invoked before the host is asked, with the approval at its first
/// label (`first_label`), the contract's `predicate_json` and the call's
/// `args_json`; any other agent is invoked.
pub fn plan_call(
    agent_name: &str,
    lookup: &Result<Option<CatalogEntry>, RuntimeError>,
    args: &ArgsJson,
    first_label: Option<&str>,
    predicate_json: String,
    args_json: &str,
) -> (r: CallStep)
    ensures
        match gate_refusal(agent_name@, *lookup, *args) {
            Some(refusal) => r matches CallStep::Refused(o) && o.status == refusal.0 && opt_text(
                o.result_json,
            ) == refusal.1 && o.approval is None && o.observation_handle == 0,
            None => lookup matches Ok(Some(entry)) && (entry.requires_approval ==> (r matches CallStep::NeedsApproval(q)
                && is_approval_for(q, agent_name@, first_label, predicate_json, args_json@))) && (!entry.requires_approval
                ==> r is Invoke),
        },
{
    match call_gate(agent_name, lookup, args) {
        CallGate::Refuse(c) => CallStep::Refused(
            OwnedCallOutcome {
                status: c.status,
                result_json: c.result_json,
                approval: None,
                observation_handle: 0,
            },
        ),
        CallGate::Proceed => {
            let needs = match lookup {
                Ok(Some(entry)) => entry.requires_approval,
                _ => false,
            };
            if needs {
                CallStep::NeedsApproval(
                    approval_required_for(agent_name, first_label, predicate_json, args_json),
                )
            } else {
                CallStep::Invoke
            }
        },
    }
}

} // verus!
