//! Pieces of the agent filter language: statuses, comparison operators and
//! the ordinal scales that trust tiers are compared on.

use vstd::prelude::*;
use crate::catalog::{trust_tier_code, CorvidTrustTier};
use crate::text::{cat3, str_eq};

verus! {

/// Outcome of a filter query.
#[derive(Debug, Clone, Copy, PartialEq, Eq, Structural)]
pub enum CorvidFindAgentsStatus {
    Success,
    BadJson,
    UnknownDimension,
    OpMismatch,
}

impl CorvidFindAgentsStatus {
    /// The status as the C interface numbers it.
    pub fn code(self) -> (r: i32)
        ensures
            r == find_status_code(self),
    {
        match self {
            CorvidFindAgentsStatus::Success => 0,
            CorvidFindAgentsStatus::BadJson => 1,
            CorvidFindAgentsStatus::UnknownDimension => 2,
            CorvidFindAgentsStatus::OpMismatch => 3,
        }
    }
}

pub open spec fn find_status_code(s: CorvidFindAgentsStatus) -> i32 {
    match s {
        CorvidFindAgentsStatus::Success => 0,
        CorvidFindAgentsStatus::BadJson => 1,
        CorvidFindAgentsStatus::UnknownDimension => 2,
        CorvidFindAgentsStatus::OpMismatch => 3,
    }
}

/// Indices of the agents a filter matched, or why it failed.
pub struct OwnedFindAgentsResult {
    pub status: CorvidFindAgentsStatus,
    pub matched_indices: Vec<usize>,
    pub error_message: Option<String>,
}

/// A comparison operator of the filter language.
#[derive(Debug, Clone, Copy, PartialEq, Eq, Structural)]
pub enum FilterOp {
    Eq,
    Ne,
    Lt,
    Le,
    Gt,
    Ge,
}

/// A failed filter query: the status to report and its message.
pub struct FilterError {
    pub status: CorvidFindAgentsStatus,
    pub message: String,
}

impl FilterError {
    pub fn bad_json(message: String) -> (e: FilterError)
        ensures
            e.status == CorvidFindAgentsStatus::BadJson,
            e.message == message,
    {
        FilterError { status: CorvidFindAgentsStatus::BadJson, message }
    }

    pub fn unknown_dimension(message: String) -> (e: FilterError)
        ensures
            e.status == CorvidFindAgentsStatus::UnknownDimension,
            e.message == message,
    {
        FilterError { status: CorvidFindAgentsStatus::UnknownDimension, message }
    }

    pub fn op_mismatch(message: String) -> (e: FilterError)
        ensures
            e.status == CorvidFindAgentsStatus::OpMismatch,
            e.message == message,
    {
        FilterError { status: CorvidFindAgentsStatus::OpMismatch, message }
    }
}

/// The operator an operator word names, if any.
pub open spec fn op_named(raw: Seq<char>) -> Option<FilterOp> {
    if raw == "eq"@ {
        Some(FilterOp::Eq)
    } else if raw == "ne"@ {
        Some(FilterOp::Ne)
    } else if raw == "lt"@ {
        Some(FilterOp::Lt)
    } else if raw == "le"@ {
        Some(FilterOp::Le)
    } else if raw == "gt"@ {
        Some(FilterOp::Gt)
    } else if raw == "ge"@ {
        Some(FilterOp::Ge)
    } else {
        None
    }
}

/// Parses an operator word; any other word is bad JSON.
pub fn parse_op(raw: &str) -> (r: Result<FilterOp, FilterError>)
    ensures
        op_named(raw@) is Some ==> r == Ok::<FilterOp, FilterError>(op_named(raw@)->Some_0),
        op_named(raw@) is None ==> (r matches Err(e) && e.status == CorvidFindAgentsStatus::BadJson
            && e.message@ == "unsupported operator `"@ + raw@
            + "`; expected one of eq/ne/lt/le/gt/ge"@),
{
    if str_eq(raw, "eq") {
        Ok(FilterOp::Eq)
    } else if str_eq(raw, "ne") {
        Ok(FilterOp::Ne)
    } else if str_eq(raw, "lt") {
        Ok(FilterOp::Lt)
    } else if str_eq(raw, "le") {
        Ok(FilterOp::Le)
    } else if str_eq(raw, "gt") {
        Ok(FilterOp::Gt)
    } else if str_eq(raw, "ge") {
        Ok(FilterOp::Ge)
    } else {
        Err(FilterError::bad_json(cat3("unsupported operator `", raw, "`; expected one of eq/ne/lt/le/gt/ge")))
    }
}

/// `actual op expected` on an ordinal scale.
pub open spec fn ordinal_holds(op: FilterOp, actual: int, expected: int) -> bool {
    match op {
        FilterOp::Eq => actual == expected,
        FilterOp::Ne => actual != expected,
        FilterOp::Lt => actual < expected,
        FilterOp::Le => actual <= expected,
        FilterOp::Gt => actual > expected,
        FilterOp::Ge => actual >= expected,
    }
}

pub fn compare_ordinals(op: FilterOp, actual: u8, expected: u8) -> (r: bool)
    ensures
        r == ordinal_holds(op, actual as int, expected as int),
{
    match op {
        FilterOp::Eq => actual == expected,
        FilterOp::Ne => actual != expected,
        FilterOp::Lt => actual < expected,
        FilterOp::Le => actual <= expected,
        FilterOp::Gt => actual > expected,
        FilterOp::Ge => actual >= expected,
    }
}

/// Position of a trust tier word on the filter's ordinal scale
/// `autonomous < supervisor_required < human_required`.
pub open spec fn tier_rank(value: Seq<char>) -> Option<u8> {
    if value == "autonomous"@ {
        Some(0u8)
    } else if value == "supervisor_required"@ {
        Some(1u8)
    } else if value == "human_required"@ {
        Some(2u8)
    } else {
        None
    }
}

pub fn trust_tier_rank(value: &str) -> (r: Option<u8>)
    ensures
        r == tier_rank(value@),
{
    if str_eq(value, "autonomous") {
        Some(0)
    } else if str_eq(value, "supervisor_required") {
        Some(1)
    } else if str_eq(value, "human_required") {
        Some(2)
    } else {
        None
    }
}

/// The trust tier byte of an agent handle: the tier's code for the
/// three known tier words, 3 for any other word, autonomous when absent.
pub open spec fn tier_handle_value(value: Option<Seq<char>>) -> u8 {
    match value {
        None => trust_tier_code(CorvidTrustTier::Autonomous),
        Some(v) => if v == "autonomous"@ {
            trust_tier_code(CorvidTrustTier::Autonomous)
        } else if v == "human_required"@ {
            trust_tier_code(CorvidTrustTier::HumanRequired)
        } else if v == "security_review"@ {
            trust_tier_code(CorvidTrustTier::SecurityReview)
        } else {
            3
        },
    }
}

pub fn trust_tier_to_handle_value(value: Option<&str>) -> (r: u8)
    ensures
        r == tier_handle_value(
            match value {
                Some(v) => Some(v@),
                None => None,
            },
        ),
{
    match value {
        None => CorvidTrustTier::Autonomous.code(),
        Some(v) => if str_eq(v, "autonomous") {
            CorvidTrustTier::Autonomous.code()
        } else if str_eq(v, "human_required") {
            CorvidTrustTier::HumanRequired.code()
        } else if str_eq(v, "security_review") {
            CorvidTrustTier::SecurityReview.code()
        } else {
            3
        },
    }
}

} // verus!
