//! Marshalling between JSON call arguments and the scalar values a native
//! agent is called with: how many arguments a dispatcher takes, what each
//! argument must be, and which `Float` results can be handed back.

use vstd::prelude::*;
use crate::catalog_invoke::ScalarAbiType;
use crate::errors::RuntimeError;
use crate::floatbits::{bits_is_finite, bits_is_nan, is_finite, is_nan, sign_set};
use crate::json::JsonValue;
use crate::prompt_bridge::{parse_i64, parsed_i64};
use crate::text::{cat, cat3, chars_of, dec, owned, u64_to_decimal};

verus! {

/// A scalar argument, ready for a native call. A `Float` holds the bits of
/// its `f64`.
#[derive(Debug, Clone, PartialEq, Eq)]
pub enum ScalarArg {
    Int(i64),
    Float(u64),
    Bool(bool),
    String(String),
}

/// Dispatch is compiled for agents of up to two scalar parameters.
pub open spec fn dispatch_refusal(symbol: Seq<char>, params: nat) -> Option<Seq<char>> {
    if params <= 2 {
        None
    } else {
        Some(
            "catalog host dispatch currently supports up to two scalar parameters; `"@ + symbol
                + "` has "@ + dec(params),
        )
    }
}

/// Checks that a native dispatcher can be built for `params` parameters
/// (see [`dispatch_refusal`]).
pub fn check_dispatch_arity(symbol: &str, params: usize) -> (r: Result<(), RuntimeError>)
    ensures
        match dispatch_refusal(symbol@, params as nat) {
            None => r is Ok,
            Some(m) => r matches Err(RuntimeError::Other(x)) && x@ == m,
        },
{
    if params <= 2 {
        return Ok(());
    }
    let head = cat3(
        "catalog host dispatch currently supports up to two scalar parameters; `",
        symbol,
        "` has ",
    );
    let n = u64_to_decimal(params as u64);
    Err(RuntimeError::Other(cat(head.as_str(), n.as_str())))
}

/// `arg` for one, `args` otherwise.
pub open spec fn arg_word(n: nat) -> Seq<char> {
    if n == 1 {
        "arg"@
    } else {
        "args"@
    }
}

/// A dispatcher for `expected` parameters refuses any other number of
/// arguments.
pub open spec fn call_arity_refusal(symbol: Seq<char>, expected: nat, got: nat) -> Option<Seq<char>> {
    if expected == got {
        None
    } else {
        Some("agent `"@ + symbol + "` expected "@ + dec(expected) + " "@ + arg_word(expected) + ", got "@ + dec(got))
    }
}

/// Checks the number of arguments a call hands a dispatcher for
/// `expected` parameters (see [`call_arity_refusal`]).
pub fn check_call_arity(symbol: &str, expected: usize, got: usize) -> (r: Result<(), RuntimeError>)
    ensures
        match call_arity_refusal(symbol@, expected as nat, got as nat) {
            None => r is Ok,
            Some(m) => r matches Err(RuntimeError::Marshal(x)) && x@ == m,
        },
{
    if expected == got {
        return Ok(());
    }
    let head = cat3("agent `", symbol, "` expected ");
    let e = u64_to_decimal(expected as u64);
    let word = if expected == 1 {
        "arg"
    } else {
        "args"
    };
    let g = u64_to_decimal(got as u64);
    let m1 = cat(head.as_str(), e.as_str());
    let m2 = cat3(m1.as_str(), " ", word);
    let m3 = cat3(m2.as_str(), ", got ", g.as_str());
    proof {
        reveal_strlit("arg");
        reveal_strlit("args");
    }
    Err(RuntimeError::Marshal(m3))
}

/// What `serde_json`'s `as_i64` gives for a value: a number written as an
/// integer (an optional `-` and digits) whose value fits in an `i64`.
pub open spec fn i64_value(v: JsonValue) -> Option<i64> {
    match v {
        JsonValue::Number(n) => if n.text@.len() > 0 && n.text@[0] != '+' {
            parsed_i64(n.text@)
        } else {
            None
        },
        _ => None,
    }
}

/// The name of a scalar type, as argument errors give it.
pub open spec fn type_word(ty: ScalarAbiType) -> Seq<char> {
    match ty {
        ScalarAbiType::Int => "Int"@,
        ScalarAbiType::Float => "Float"@,
        ScalarAbiType::Bool => "Bool"@,
        ScalarAbiType::String => "String"@,
    }
}

/// The scalar a JSON argument stands for, where it is of the type the
/// parameter wants.
pub open spec fn scalar_of(v: JsonValue, ty: ScalarAbiType) -> Option<ScalarArg> {
    match ty {
        ScalarAbiType::Int => match i64_value(v) {
            Some(i) => Some(ScalarArg::Int(i)),
            None => None,
        },
        ScalarAbiType::Float => match v {
            JsonValue::Number(n) => Some(ScalarArg::Float(n.bits)),
            _ => None,
        },
        ScalarAbiType::Bool => match v {
            JsonValue::Bool(b) => Some(ScalarArg::Bool(b)),
            _ => None,
        },
        ScalarAbiType::String => match v {
            JsonValue::String(s) => Some(ScalarArg::String(s)),
            _ => None,
        },
    }
}

pub open spec fn argument_type_message(symbol: Seq<char>, index: nat, ty: ScalarAbiType) -> Seq<char> {
    "agent `"@ + symbol + "` argument "@ + dec(index + 1) + " expected "@ + type_word(ty)
}

/// The scalar for the argument at position `index` (from zero) of a call
/// to `symbol`, or the complaint that it is not of the parameter's type.
pub fn marshal_scalar_arg(value: &JsonValue, symbol: &str, index: usize, ty: ScalarAbiType) -> (r:
    Result<ScalarArg, RuntimeError>)
    requires
        index < u64::MAX,
    ensures
        match scalar_of(*value, ty) {
            Some(a) => r == Ok::<ScalarArg, RuntimeError>(a),
            None => r matches Err(RuntimeError::Marshal(m)) && m@ == argument_type_message(
                symbol@,
                index as nat,
                ty,
            ),
        },
{
    let found = match ty {
        ScalarAbiType::Int => match value {
            JsonValue::Number(n) => {
                let t = chars_of(&n.text);
                if t.len() == 0 || t[0] == '+' {
                    None
                } else {
                    match parse_i64(&t) {
                        Some(i) => Some(ScalarArg::Int(i)),
                        None => None,
                    }
                }
            },
            _ => None,
        },
        ScalarAbiType::Float => match value {
            JsonValue::Number(n) => Some(ScalarArg::Float(n.bits)),
            _ => None,
        },
        ScalarAbiType::Bool => match value {
            JsonValue::Bool(b) => Some(ScalarArg::Bool(*b)),
            _ => None,
        },
        ScalarAbiType::String => match value {
            JsonValue::String(s) => Some(ScalarArg::String(s.clone())),
            _ => None,
        },
    };
    match found {
        Some(a) => Ok(a),
        None => {
            let head = cat3("agent `", symbol, "` argument ");
            let position = u64_to_decimal(index as u64 + 1);
            let word = match ty {
                ScalarAbiType::Int => "Int",
                ScalarAbiType::Float => "Float",
                ScalarAbiType::Bool => "Bool",
                ScalarAbiType::String => "String",
            };
            let m1 = cat(head.as_str(), position.as_str());
            let m2 = cat3(m1.as_str(), " expected ", word);
            proof {
                reveal_strlit("Int");
                reveal_strlit("Float");
                reveal_strlit("Bool");
                reveal_strlit("String");
            }
            Err(RuntimeError::Marshal(m2))
        },
    }
}

/// How `f64`'s `Display` writes a value that is not finite.
pub open spec fn non_finite_text(bits: u64) -> Seq<char> {
    if is_nan(bits) {
        "NaN"@
    } else if sign_set(bits) {
        "-inf"@
    } else {
        "inf"@
    }
}

/// A `Float` an agent returned can be handed back as JSON only when it is
/// finite; otherwise the call fails.
pub fn check_float_result(symbol: &str, bits: u64) -> (r: Result<u64, RuntimeError>)
    ensures
        is_finite(bits) ==> r == Ok::<u64, RuntimeError>(bits),
        !is_finite(bits) ==> (r matches Err(RuntimeError::Marshal(m)) && m@ == "agent `"@ + symbol@
            + "` returned non-finite Float "@ + non_finite_text(bits)),
{
    if bits_is_finite(bits) {
        return Ok(bits);
    }
    let text = if bits_is_nan(bits) {
        "NaN"
    } else if bits >= 0x8000_0000_0000_0000 {
        "-inf"
    } else {
        "inf"
    };
    proof {
        assert(sign_set(bits) == (bits >= 0x8000_0000_0000_0000)) by (bit_vector)
            requires
                sign_set(bits) == ((bits >> 63u64) == 1u64),
        ;
        reveal_strlit("NaN");
        reveal_strlit("-inf");
        reveal_strlit("inf");
    }
    let head = cat3("agent `", symbol, "` returned non-finite Float ");
    Err(RuntimeError::Marshal(cat(head.as_str(), text)))
}

} // verus!
