//! The agent catalog's interface types, the introspection agents it
//! answers itself, and the descriptor hash it is checked by.

use vstd::prelude::*;
use crate::effect_filter::CorvidFindAgentsStatus;
use crate::errors::RuntimeError;
use crate::json::JsonValue;
use crate::digest::{hex_digit, hex_text, lemma_hex_text_len};
use crate::text::{cat, chars_of, dec, is_ws, owned, starts_with, starts_with_str, str_eq, trim, trim_end, trim_start, u64_to_decimal};
use vstd::utf8::encode_utf8;

verus! {

/// How much oversight an agent needs before it runs.
#[derive(Debug, Clone, Copy, PartialEq, Eq, Structural)]
pub enum CorvidTrustTier {
    Autonomous,
    HumanRequired,
    SecurityReview,
}

pub open spec fn trust_tier_code(t: CorvidTrustTier) -> u8 {
    match t {
        CorvidTrustTier::Autonomous => 0,
        CorvidTrustTier::HumanRequired => 1,
        CorvidTrustTier::SecurityReview => 2,
    }
}

impl CorvidTrustTier {
    /// The tier as the C interface numbers it.
    pub fn code(self) -> (r: u8)
        ensures
            r == trust_tier_code(self),
    {
        match self {
            CorvidTrustTier::Autonomous => 0,
            CorvidTrustTier::HumanRequired => 1,
            CorvidTrustTier::SecurityReview => 2,
        }
    }
}

/// Outcome of calling a catalog agent.
#[derive(Debug, Clone, Copy, PartialEq, Eq, Structural)]
pub enum CorvidCallStatus {
    Success,
    AgentNotFound,
    BadArgs,
    UnsupportedSig,
    ApprovalRequired,
    BudgetExceeded,
    RuntimeError,
}

pub open spec fn call_status_code(s: CorvidCallStatus) -> i32 {
    match s {
        CorvidCallStatus::Success => 0,
        CorvidCallStatus::AgentNotFound => 1,
        CorvidCallStatus::BadArgs => 2,
        CorvidCallStatus::UnsupportedSig => 3,
        CorvidCallStatus::ApprovalRequired => 4,
        CorvidCallStatus::BudgetExceeded => 5,
        CorvidCallStatus::RuntimeError => 6,
    }
}

impl CorvidCallStatus {
    /// The status as the C interface numbers it.
    pub fn code(self) -> (r: i32)
        ensures
            r == call_status_code(self),
    {
        match self {
            CorvidCallStatus::Success => 0,
            CorvidCallStatus::AgentNotFound => 1,
            CorvidCallStatus::BadArgs => 2,
            CorvidCallStatus::UnsupportedSig => 3,
            CorvidCallStatus::ApprovalRequired => 4,
            CorvidCallStatus::BudgetExceeded => 5,
            CorvidCallStatus::RuntimeError => 6,
        }
    }
}

/// Outcome of checking a call before making it.
#[derive(Debug, Clone, Copy, PartialEq, Eq, Structural)]
pub enum CorvidPreFlightStatus {
    Success,
    AgentNotFound,
    BadArgs,
    UnsupportedSig,
}

pub open spec fn pre_flight_code(s: CorvidPreFlightStatus) -> i32 {
    match s {
        CorvidPreFlightStatus::Success => 0,
        CorvidPreFlightStatus::AgentNotFound => 1,
        CorvidPreFlightStatus::BadArgs => 2,
        CorvidPreFlightStatus::UnsupportedSig => 3,
    }
}

impl CorvidPreFlightStatus {
    /// The status as the C interface numbers it.
    pub fn code(self) -> (r: i32)
        ensures
            r == pre_flight_code(self),
    {
        match self {
            CorvidPreFlightStatus::Success => 0,
            CorvidPreFlightStatus::AgentNotFound => 1,
            CorvidPreFlightStatus::BadArgs => 2,
            CorvidPreFlightStatus::UnsupportedSig => 3,
        }
    }
}

/// What recording a host event came to.
#[derive(Debug, Clone, Copy, PartialEq, Eq, Structural)]
pub enum CorvidHostEventStatus {
    Success,
    BadJson,
    TraceDisabled,
    RuntimeError,
}

pub open spec fn host_event_code(s: CorvidHostEventStatus) -> i32 {
    match s {
        CorvidHostEventStatus::Success => 0,
        CorvidHostEventStatus::BadJson => 1,
        CorvidHostEventStatus::TraceDisabled => 2,
        CorvidHostEventStatus::RuntimeError => 3,
    }
}

impl CorvidHostEventStatus {
    /// The status as the C interface numbers it.
    pub fn code(self) -> (r: i32)
        ensures
            r == host_event_code(self),
    {
        match self {
            CorvidHostEventStatus::Success => 0,
            CorvidHostEventStatus::BadJson => 1,
            CorvidHostEventStatus::TraceDisabled => 2,
            CorvidHostEventStatus::RuntimeError => 3,
        }
    }
}

/// The answer to a request to record a host event, from what the caller
/// could find out first: an unreadable event name is a runtime error; with
/// tracing off nothing is recorded; a missing payload, or one that is not
/// JSON, is refused; otherwise the event is recorded.
pub fn host_event_status(
    name_readable: bool,
    tracing_enabled: bool,
    payload_present: bool,
    payload_is_json: bool,
) -> (r: CorvidHostEventStatus)
    ensures
        r == (if !name_readable {
            CorvidHostEventStatus::RuntimeError
        } else if !tracing_enabled {
            CorvidHostEventStatus::TraceDisabled
        } else if !payload_present || !payload_is_json {
            CorvidHostEventStatus::BadJson
        } else {
            CorvidHostEventStatus::Success
        }),
{
    if !name_readable {
        CorvidHostEventStatus::RuntimeError
    } else if !tracing_enabled {
        CorvidHostEventStatus::TraceDisabled
    } else if !payload_present || !payload_is_json {
        CorvidHostEventStatus::BadJson
    } else {
        CorvidHostEventStatus::Success
    }
}

/// A host approver's answer.
#[derive(Debug, Clone, Copy, PartialEq, Eq, Structural)]
pub enum CorvidApprovalDecision {
    Accept,
    Reject,
}

impl CorvidApprovalDecision {
    /// The decision as the C interface numbers it.
    pub fn code(self) -> (r: i32)
        ensures
            r == (if self == CorvidApprovalDecision::Accept { 0i32 } else { 1i32 }),
    {
        match self {
            CorvidApprovalDecision::Accept => 0,
            CorvidApprovalDecision::Reject => 1,
        }
    }

    /// The decision a host approver's return code stands for: 0 accepts,
    /// anything else rejects.
    pub fn from_code(code: i32) -> (d: CorvidApprovalDecision)
        ensures
            d == (if code == 0 { CorvidApprovalDecision::Accept } else { CorvidApprovalDecision::Reject }),
    {
        if code == 0 {
            CorvidApprovalDecision::Accept
        } else {
            CorvidApprovalDecision::Reject
        }
    }
}

/// The approval a call stopped at.
pub struct OwnedApprovalRequired {
    pub site_name: String,
    pub predicate_json: String,
    pub args_json: String,
    pub rationale_prompt: String,
}

/// What calling a catalog agent produced.
pub struct OwnedCallOutcome {
    pub status: CorvidCallStatus,
    pub result_json: Option<String>,
    pub approval: Option<OwnedApprovalRequired>,
    pub observation_handle: u64,
}

/// Indices of the catalog agents a filter matched.
pub struct OwnedFindAgentsOutcome {
    pub status: CorvidFindAgentsStatus,
    pub matched_indices: Vec<usize>,
    pub error_message: Option<String>,
}

/// Agents the runtime answers itself carry this name prefix.
pub open spec fn introspection_name(name: Seq<char>) -> bool {
    starts_with(name, "__corvid_"@)
}

pub fn is_introspection_agent(name: &str) -> (r: bool)
    ensures
        r == introspection_name(name@),
{
    starts_with_str(name, "__corvid_")
}

/// The introspection agents.
#[derive(Debug, Clone, Copy, PartialEq, Eq, Structural)]
pub enum IntrospectionKind {
    DescriptorJson,
    Verify,
    ListAgents,
    AgentSignatureJson,
    PreFlight,
    CallAgent,
    FindAgentsWhere,
}

pub open spec fn introspection_of(name: Seq<char>) -> Option<IntrospectionKind> {
    if name == "__corvid_abi_descriptor_json"@ {
        Some(IntrospectionKind::DescriptorJson)
    } else if name == "__corvid_abi_verify"@ {
        Some(IntrospectionKind::Verify)
    } else if name == "__corvid_list_agents"@ {
        Some(IntrospectionKind::ListAgents)
    } else if name == "__corvid_agent_signature_json"@ {
        Some(IntrospectionKind::AgentSignatureJson)
    } else if name == "__corvid_pre_flight"@ {
        Some(IntrospectionKind::PreFlight)
    } else if name == "__corvid_call_agent"@ {
        Some(IntrospectionKind::CallAgent)
    } else if name == "__corvid_find_agents_where"@ {
        Some(IntrospectionKind::FindAgentsWhere)
    } else {
        None
    }
}

/// How many leading string arguments a built-in agent takes.
pub open spec fn required_args(kind: IntrospectionKind) -> int {
    match kind {
        IntrospectionKind::DescriptorJson | IntrospectionKind::ListAgents => 0,
        IntrospectionKind::Verify | IntrospectionKind::AgentSignatureJson
        | IntrospectionKind::FindAgentsWhere => 1,
        IntrospectionKind::PreFlight | IntrospectionKind::CallAgent => 2,
    }
}

/// What a built-in agent says when its argument at `i` is missing or is
/// not a string.
pub open spec fn missing_arg_message(kind: IntrospectionKind, i: int) -> Seq<char> {
    match kind {
        IntrospectionKind::Verify => "`__corvid_abi_verify` expects one String hash argument"@,
        IntrospectionKind::AgentSignatureJson => "`__corvid_agent_signature_json` expects one String argument"@,
        IntrospectionKind::FindAgentsWhere => "`__corvid_find_agents_where` expects one String filter argument"@,
        IntrospectionKind::PreFlight => if i == 0 {
            "`__corvid_pre_flight` expects agent name"@
        } else {
            "`__corvid_pre_flight` expects args JSON"@
        },
        IntrospectionKind::CallAgent => if i == 0 {
            "`__corvid_call_agent` expects agent name"@
        } else {
            "`__corvid_call_agent` expects args JSON"@
        },
        _ => Seq::empty(),
    }
}

/// The text of the argument at `i`, when there is one and it is a JSON
/// string.
pub open spec fn arg_text(args: Seq<JsonValue>, i: int) -> Option<Seq<char>> {
    if 0 <= i < args.len() && args[i] is String {
        Some(args[i]->String_0@)
    } else {
        None
    }
}

/// The first required argument that is missing or not a string.
pub open spec fn first_missing_arg(kind: IntrospectionKind, args: Seq<JsonValue>) -> Option<int> {
    if required_args(kind) >= 1 && arg_text(args, 0) is None {
        Some(0)
    } else if required_args(kind) >= 2 && arg_text(args, 1) is None {
        Some(1)
    } else {
        None
    }
}

/// The string arguments a built-in agent is called with, checked in order:
/// the first one that is missing or not a string is a marshalling error
/// with the agent's own message.
pub fn introspection_arguments(kind: IntrospectionKind, args: &Vec<JsonValue>) -> (r: Result<
    Vec<String>,
    RuntimeError,
>)
    ensures
        match first_missing_arg(kind, args@) {
            Some(i) => r matches Err(RuntimeError::Marshal(m)) && m@ == missing_arg_message(kind, i),
            None => r matches Ok(v) && v@.len() == required_args(kind) && forall|i: int|
                0 <= i < v@.len() ==> arg_text(args@, i) == Some((#[trigger] v@[i])@),
        },
{
    let needed: usize = match kind {
        IntrospectionKind::DescriptorJson | IntrospectionKind::ListAgents => 0,
        IntrospectionKind::Verify | IntrospectionKind::AgentSignatureJson
        | IntrospectionKind::FindAgentsWhere => 1,
        IntrospectionKind::PreFlight | IntrospectionKind::CallAgent => 2,
    };
    let mut out: Vec<String> = Vec::new();
    let mut i: usize = 0;
    while i < needed
        invariant
            needed == required_args(kind),
            i <= needed,
            out@.len() == i,
            forall|k: int| 0 <= k < i ==> arg_text(args@, k) == Some((#[trigger] out@[k])@),
        decreases needed - i,
    {
        let text = if i < args.len() {
            match &args[i] {
                JsonValue::String(t) => Some(owned(t)),
                _ => None,
            }
        } else {
            None
        };
        match text {
            Some(t) => {
                out.push(t);
            },
            None => {
                proof {
                    if i == 1 {
                        assert(arg_text(args@, 0) == Some(out@[0]@));
                    }
                }
                let message = match kind {
                    IntrospectionKind::Verify => owned("`__corvid_abi_verify` expects one String hash argument"),
                    IntrospectionKind::AgentSignatureJson => owned("`__corvid_agent_signature_json` expects one String argument"),
                    IntrospectionKind::FindAgentsWhere => owned("`__corvid_find_agents_where` expects one String filter argument"),
                    IntrospectionKind::PreFlight => if i == 0 {
                        owned("`__corvid_pre_flight` expects agent name")
                    } else {
                        owned("`__corvid_pre_flight` expects args JSON")
                    },
                    IntrospectionKind::CallAgent => if i == 0 {
                        owned("`__corvid_call_agent` expects agent name")
                    } else {
                        owned("`__corvid_call_agent` expects args JSON")
                    },
                    _ => owned(""),
                };
                return Err(RuntimeError::Marshal(message));
            },
        }
        i += 1;
    }
    proof {
        if needed >= 1 {
            assert(arg_text(args@, 0) == Some(out@[0]@));
        }
        if needed >= 2 {
            assert(arg_text(args@, 1) == Some(out@[1]@));
        }
    }
    Ok(out)
}

pub fn introspection_kind(name: &str) -> (r: Option<IntrospectionKind>)
    ensures
        r == introspection_of(name@),
{
    if str_eq(name, "__corvid_abi_descriptor_json") {
        Some(IntrospectionKind::DescriptorJson)
    } else if str_eq(name, "__corvid_abi_verify") {
        Some(IntrospectionKind::Verify)
    } else if str_eq(name, "__corvid_list_agents") {
        Some(IntrospectionKind::ListAgents)
    } else if str_eq(name, "__corvid_agent_signature_json") {
        Some(IntrospectionKind::AgentSignatureJson)
    } else if str_eq(name, "__corvid_pre_flight") {
        Some(IntrospectionKind::PreFlight)
    } else if str_eq(name, "__corvid_call_agent") {
        Some(IntrospectionKind::CallAgent)
    } else if str_eq(name, "__corvid_find_agents_where") {
        Some(IntrospectionKind::FindAgentsWhere)
    } else {
        None
    }
}

/// The value of a hex digit character, either case.
pub open spec fn nibble_of(c: char) -> Option<u8> {
    if '0' <= c && c <= '9' {
        Some(((c as u32) - ('0' as u32)) as u8)
    } else if 'a' <= c && c <= 'f' {
        Some(((c as u32) - ('a' as u32) + 10) as u8)
    } else if 'A' <= c && c <= 'F' {
        Some(((c as u32) - ('A' as u32) + 10) as u8)
    } else {
        None
    }
}

/// The value of one hex digit byte of a text; anything else is a
/// marshalling error.
pub open spec fn nibble_of_byte(b: u8) -> Option<u8> {
    if 48 <= b <= 57 {
        Some((b - 48) as u8)
    } else if 97 <= b <= 102 {
        Some((b - 87) as u8)
    } else if 65 <= b <= 70 {
        Some((b - 55) as u8)
    } else {
        None
    }
}

pub fn decode_hex_nibble(byte: u8) -> (r: Result<u8, RuntimeError>)
    ensures
        nibble_of_byte(byte) is Some ==> r == Ok::<u8, RuntimeError>(nibble_of_byte(byte)->Some_0),
        nibble_of_byte(byte) is None ==> (r matches Err(RuntimeError::Marshal(m)) && m@
            == "invalid hex hash"@),
{
    if byte >= 48 && byte <= 57 {
        Ok(byte - 48)
    } else if byte >= 97 && byte <= 102 {
        Ok(byte - 97 + 10)
    } else if byte >= 65 && byte <= 70 {
        Ok(byte - 65 + 10)
    } else {
        Err(RuntimeError::Marshal(owned("invalid hex hash")))
    }
}

fn nibble_value(c: char) -> (r: Option<u8>)
    ensures
        r == nibble_of(c),
{
    if '0' <= c && c <= '9' {
        Some(((c as u32) - 48) as u8)
    } else if 'a' <= c && c <= 'f' {
        Some(((c as u32) - 97 + 10) as u8)
    } else if 'A' <= c && c <= 'F' {
        Some(((c as u32) - 65 + 10) as u8)
    } else {
        None
    }
}

/// `str::trim`: the slice without its leading and trailing Unicode
/// white space (the characters [`crate::text::is_ws`] lists). Being a
/// slice in memory, its UTF-8 length fits in `usize`.
#[verifier::external_body]
fn trim_str<'a>(s: &'a str) -> (r: &'a str)
    ensures
        r@ == trim(s@),
        encode_utf8(r@).len() <= usize::MAX,
{
    s.trim()
}

/// Hex digits are ASCII, and an ASCII text has one byte per character.
proof fn lemma_hex_digits_one_byte_each(t: Seq<char>)
    requires
        forall|i: int| 0 <= i < t.len() ==> nibble_of(#[trigger] t[i]) is Some,
    ensures
        encode_utf8(t).len() == t.len(),
    decreases t.len(),
{
    if t.len() > 0 {
        assert(nibble_of(t[0]) is Some);
        assert((t[0] as u32) <= 0x7f);
        assert forall|i: int| 0 <= i < t.drop_first().len() implies nibble_of(
            #[trigger] t.drop_first()[i],
        ) is Some by {
            assert(t.drop_first()[i] == t[i + 1]);
        }
        lemma_hex_digits_one_byte_each(t.drop_first());
    }
}

/// The 32 bytes a 64-digit hex text stands for.
pub open spec fn hex_bytes(t: Seq<char>) -> Seq<u8> {
    Seq::new(32, |i: int| (nibble_of(t[2 * i])->Some_0 * 16 + nibble_of(t[2 * i + 1])->Some_0) as u8)
}

pub open spec fn all_hex_digits(t: Seq<char>) -> bool {
    forall|i: int| 0 <= i < t.len() ==> nibble_of(#[trigger] t[i]) is Some
}

/// Decodes a SHA-256 hash written as 64 hex digits, surrounding
/// whitespace ignored: a text of another length in bytes, or with a
/// character that is no hex digit, is a marshalling error.
pub fn decode_hex_hash(hex: &str) -> (r: Result<Vec<u8>, RuntimeError>)
    ensures
        encode_utf8(trim(hex@)).len() != 64 ==> (r matches Err(RuntimeError::Marshal(m)) && m@
            == "expected 64 hex chars for SHA-256, got "@ + dec(encode_utf8(trim(hex@)).len())),
        encode_utf8(trim(hex@)).len() == 64 && all_hex_digits(trim(hex@)) ==> (r matches Ok(v)
            && v@ == hex_bytes(trim(hex@))),
        encode_utf8(trim(hex@)).len() == 64 && !all_hex_digits(trim(hex@)) ==> (r matches Err(
            RuntimeError::Marshal(m),
        ) && m@ == "invalid hex hash"@),
{
    let t = trim_str(hex);
    let n = t.len();
    if n != 64 {
        let digits = u64_to_decimal(n as u64);
        return Err(RuntimeError::Marshal(cat("expected 64 hex chars for SHA-256, got ", digits.as_str())));
    }
    let cs = chars_of(t);
    if cs.len() != 64 {
        proof {
            if all_hex_digits(cs@) {
                lemma_hex_digits_one_byte_each(cs@);
            }
        }
        return Err(RuntimeError::Marshal(owned("invalid hex hash")));
    }
    let mut out: Vec<u8> = Vec::new();
    let mut k: usize = 0;
    while k < 32
        invariant
            cs@ == trim(hex@),
            encode_utf8(trim(hex@)).len() == 64,
            cs@.len() == 64,
            k <= 32,
            out@.len() == k,
            forall|j: int| 0 <= j < 2 * k ==> nibble_of(#[trigger] cs@[j]) is Some,
            forall|j: int| 0 <= j < k ==> (#[trigger] out@[j]) == hex_bytes(cs@)[j],
        decreases 32 - k,
    {
        let hi = nibble_value(cs[2 * k]);
        let lo = nibble_value(cs[2 * k + 1]);
        if hi.is_none() || lo.is_none() {
            return Err(RuntimeError::Marshal(owned("invalid hex hash")));
        }
        let h = hi.unwrap();
        let l = lo.unwrap();
        out.push(h * 16 + l);
        proof {
            assert forall|j: int| 0 <= j < 2 * (k + 1) implies nibble_of(#[trigger] cs@[j]) is Some by {
                if j >= 2 * k {
                    assert(j == 2 * k || j == 2 * k + 1);
                }
            }
        }
        k = k + 1;
    }
    proof {
        assert forall|i: int| 0 <= i < cs@.len() implies nibble_of(#[trigger] cs@[i]) is Some by {
            assert(i < 2 * k);
        }
    }
    assert(out@ =~= hex_bytes(cs@));
    Ok(out)
}

/// What a built-in agent is asked to do, with its arguments read.
pub enum IntrospectionCall {
    /// Answer the descriptor JSON.
    DescriptorJson,
    /// Compare this hash with the recorded descriptor hash.
    Verify(Vec<u8>),
    /// List the catalog's agents (see [`listing_order`]).
    ListAgents,
    /// Answer the signature JSON of the named agent.
    AgentSignatureJson(String),
    /// Pre-flight a call of `agent` with these JSON arguments.
    PreFlight { agent: String, args_json: String },
    /// Call `agent` with these JSON arguments.
    CallAgent { agent: String, args_json: String },
    /// Find the agents that match this filter JSON.
    FindAgentsWhere(String),
}

/// The text of the argument at `i`, known to be there.
pub open spec fn text_at(args: Seq<JsonValue>, i: int) -> Seq<char> {
    arg_text(args, i)->Some_0
}

/// What a call of a built-in agent asks for, once its string arguments
/// are all there: the hash that `__corvid_abi_verify` gets must decode
/// (see [`decode_hex_hash`]); the other agents take their arguments as
/// they are.
pub open spec fn introspection_call_ok(kind: IntrospectionKind, args: Seq<JsonValue>, r: Result<
    IntrospectionCall,
    RuntimeError,
>) -> bool {
    match kind {
        IntrospectionKind::DescriptorJson => r matches Ok(IntrospectionCall::DescriptorJson),
        IntrospectionKind::ListAgents => r matches Ok(IntrospectionCall::ListAgents),
        IntrospectionKind::Verify => {
            let t = trim(text_at(args, 0));
            if encode_utf8(t).len() != 64 {
                r matches Err(RuntimeError::Marshal(m)) && m@ == "expected 64 hex chars for SHA-256, got "@
                    + dec(encode_utf8(t).len())
            } else if all_hex_digits(t) {
                r matches Ok(IntrospectionCall::Verify(v)) && v@ == hex_bytes(t)
            } else {
                r matches Err(RuntimeError::Marshal(m)) && m@ == "invalid hex hash"@
            }
        },
        IntrospectionKind::AgentSignatureJson => r matches Ok(IntrospectionCall::AgentSignatureJson(n)) && n@
            == text_at(args, 0),
        IntrospectionKind::PreFlight => r matches Ok(IntrospectionCall::PreFlight { agent, args_json })
            && agent@ == text_at(args, 0) && args_json@ == text_at(args, 1),
        IntrospectionKind::CallAgent => r matches Ok(IntrospectionCall::CallAgent { agent, args_json })
            && agent@ == text_at(args, 0) && args_json@ == text_at(args, 1),
        IntrospectionKind::FindAgentsWhere => r matches Ok(IntrospectionCall::FindAgentsWhere(f)) && f@
            == text_at(args, 0),
    }
}

/// Reads the arguments of a call of a built-in agent: a required
/// argument that is missing or not a string is a marshalling error with
/// the agent's own message (see [`introspection_arguments`]); otherwise
/// the call is what [`introspection_call_ok`] says.
pub fn introspection_plan(kind: IntrospectionKind, args: &Vec<JsonValue>) -> (r: Result<
    IntrospectionCall,
    RuntimeError,
>)
    ensures
        match first_missing_arg(kind, args@) {
            Some(i) => r matches Err(RuntimeError::Marshal(m)) && m@ == missing_arg_message(kind, i),
            None => introspection_call_ok(kind, args@, r),
        },
{
    let texts = match introspection_arguments(kind, args) {
        Ok(v) => v,
        Err(e) => {
            return Err(e);
        },
    };
    proof {
        if required_args(kind) >= 1 {
            assert(arg_text(args@, 0) == Some(texts@[0]@));
        }
        if required_args(kind) >= 2 {
            assert(arg_text(args@, 1) == Some(texts@[1]@));
        }
    }
    match kind {
        IntrospectionKind::DescriptorJson => Ok(IntrospectionCall::DescriptorJson),
        IntrospectionKind::ListAgents => Ok(IntrospectionCall::ListAgents),
        IntrospectionKind::Verify => {
            let expected = decode_hex_hash(texts[0].as_str())?;
            Ok(IntrospectionCall::Verify(expected))
        },
        IntrospectionKind::AgentSignatureJson => Ok(IntrospectionCall::AgentSignatureJson(owned(texts[0].as_str()))),
        IntrospectionKind::PreFlight => Ok(
            IntrospectionCall::PreFlight { agent: owned(texts[0].as_str()), args_json: owned(texts[1].as_str()) },
        ),
        IntrospectionKind::CallAgent => Ok(
            IntrospectionCall::CallAgent { agent: owned(texts[0].as_str()), args_json: owned(texts[1].as_str()) },
        ),
        IntrospectionKind::FindAgentsWhere => Ok(IntrospectionCall::FindAgentsWhere(owned(texts[0].as_str()))),
    }
}

/// One place of the agent listing: a catalog agent by its position, or
/// the registered approver.
#[derive(Debug, Clone, Copy, PartialEq, Eq, Structural)]
pub enum ListedAgent {
    Catalog(usize),
    Approver,
}

/// Positions of the runtime's own agents (named `__corvid_...`), in
/// catalog order; with `own == false`, those of the other agents.
pub open spec fn positions_where(names: Seq<Seq<char>>, own: bool) -> Seq<ListedAgent>
    decreases names.len(),
{
    if names.len() == 0 {
        Seq::empty()
    } else if introspection_name(names.last()) == own {
        positions_where(names.drop_last(), own).push(ListedAgent::Catalog((names.len() - 1) as usize))
    } else {
        positions_where(names.drop_last(), own)
    }
}

/// The order of the agent listing: the runtime's own agents, then the
/// registered approver if there is one, then the other agents, each group
/// in catalog order.
pub open spec fn listing_order(names: Seq<Seq<char>>, with_approver: bool) -> Seq<ListedAgent> {
    positions_where(names, true) + if with_approver {
        seq![ListedAgent::Approver]
    } else {
        Seq::empty()
    } + positions_where(names, false)
}

/// The texts of a list of strings.
pub open spec fn name_texts(v: Seq<String>) -> Seq<Seq<char>> {
    v.map_values(|s: String| s@)
}

/// The order in which `__corvid_list_agents` lists a catalog with these
/// agent names (see [`listing_order`]).
pub fn list_agents_order(names: &Vec<String>, with_approver: bool) -> (r: Vec<ListedAgent>)
    ensures
        r@ == listing_order(name_texts(names@), with_approver),
{
    let ghost ns = name_texts(names@);
    let mut own: Vec<ListedAgent> = Vec::new();
    let mut rest: Vec<ListedAgent> = Vec::new();
    let mut i: usize = 0;
    while i < names.len()
        invariant
            i <= names@.len(),
            ns == name_texts(names@),
            own@ == positions_where(ns.take(i as int), true),
            rest@ == positions_where(ns.take(i as int), false),
        decreases names@.len() - i,
    {
        assert(ns.take(i as int + 1).drop_last() =~= ns.take(i as int));
        assert(ns.take(i as int + 1).last() == names@[i as int]@);
        if is_introspection_agent(names[i].as_str()) {
            own.push(ListedAgent::Catalog(i));
        } else {
            rest.push(ListedAgent::Catalog(i));
        }
        i += 1;
    }
    assert(ns.take(names@.len() as int) =~= ns);
    if with_approver {
        own.push(ListedAgent::Approver);
    }
    own.append(&mut rest);
    assert(own@ =~= listing_order(ns, with_approver));
    own
}

/// A loaded descriptor: its JSON text and the SHA-256 hash recorded with
/// it.
pub struct CatalogDescriptor {
    pub json: String,
    pub hash: Vec<u8>,
}

impl CatalogDescriptor {
    /// The descriptor JSON and its length in bytes.
    pub fn descriptor_json(&self) -> (r: (&str, usize))
        ensures
            r.0@ == self.json@,
            r.1 == encode_utf8(self.json@).len() as usize,
    {
        let s = self.json.as_str();
        (s, s.len())
    }

    /// The recorded descriptor hash.
    pub fn descriptor_hash(&self) -> (r: Vec<u8>)
        ensures
            r@ == self.hash@,
    {
        self.hash.clone()
    }

    /// Whether `expected` is the recorded hash: of the same length and
    /// equal at every position, compared without stopping at the first
    /// difference.
    pub fn verify_hash(&self, expected: &[u8]) -> (r: bool)
        ensures
            r == (expected@ == self.hash@),
    {
        let actual = &self.hash;
        if actual.len() != expected.len() {
            return false;
        }
        let mut diff: u8 = 0;
        let mut i: usize = 0;
        while i < actual.len() && i < expected.len()
            invariant
                i <= actual@.len(),
                i <= expected@.len(),
                (diff == 0) == (forall|j: int| 0 <= j < i ==> actual@[j] == expected@[j]),
            decreases actual.len() - i,
        {
            let a = actual[i];
            let b = expected[i];
            let d = diff;
            assert(((d | (a ^ b)) == 0) == (d == 0 && a == b)) by (bit_vector);
            diff = d | (a ^ b);
            i = i + 1;
        }
        assert((diff == 0) ==> expected@ =~= actual@);
        diff == 0
    }
}

/// A hex text with its letters in upper case.
pub open spec fn upper_hex(t: Seq<char>) -> Seq<char> {
    t.map_values(|c: char| if 'a' <= c && c <= 'f' { ((c as u32) - 32) as char } else { c })
}

proof fn lemma_hex_text_digits(b: Seq<u8>, i: int)
    requires
        0 <= i < b.len(),
    ensures
        hex_text(b).len() == 2 * b.len(),
        hex_text(b)[2 * i] == hex_digit((b[i] / 16) as nat),
        hex_text(b)[2 * i + 1] == hex_digit((b[i] % 16) as nat),
    decreases b.len(),
{
    lemma_hex_text_len(b);
    lemma_hex_text_len(b.drop_last());
    if i < b.len() - 1 {
        lemma_hex_text_digits(b.drop_last(), i);
        assert(b.drop_last()[i] == b[i]);
    }
}

proof fn lemma_nibble_of_hex_digit(n: nat)
    requires
        n < 16,
    ensures
        nibble_of(hex_digit(n)) == Some(n as u8),
        nibble_of(if 'a' <= hex_digit(n) && hex_digit(n) <= 'f' {
            ((hex_digit(n) as u32) - 32) as char
        } else {
            hex_digit(n)
        }) == Some(n as u8),
        !is_ws(hex_digit(n)),
{
}

proof fn lemma_trim_around(p: Seq<char>, t: Seq<char>, q: Seq<char>)
    requires
        t.len() > 0,
        !is_ws(t[0]),
        !is_ws(t.last()),
        forall|i: int| 0 <= i < p.len() ==> is_ws(#[trigger] p[i]),
        forall|i: int| 0 <= i < q.len() ==> is_ws(#[trigger] q[i]),
    ensures
        trim(p + t + q) == t,
    decreases p.len() + q.len(),
{
    if p.len() > 0 {
        assert((p + t + q).drop_first() =~= p.drop_first() + t + q);
        assert forall|i: int| 0 <= i < p.drop_first().len() implies is_ws(#[trigger] p.drop_first()[i]) by {
            assert(p.drop_first()[i] == p[i + 1]);
        }
        lemma_trim_around(p.drop_first(), t, q);
    } else if q.len() > 0 {
        assert(p + t + q =~= t + q);
        assert(trim_start(t + q) == t + q);
        assert((t + q).drop_last() =~= t + q.drop_last());
        assert forall|i: int| 0 <= i < q.drop_last().len() implies is_ws(#[trigger] q.drop_last()[i]) by {
            assert(q.drop_last()[i] == q[i]);
        }
        lemma_trim_around(p, t, q.drop_last());
        assert(p + t + q.drop_last() =~= t + q.drop_last());
    } else {
        assert(p + t + q =~= t);
    }
}

/// A 32-byte hash survives being written as hex and read back: the hex
/// text, or its upper-case form, with any whitespace around it, trims to 64
/// one-byte hex digits that stand for the same bytes, so
/// [`decode_hex_hash`] gives them back.
pub proof fn hex_hash_round_trips(b: Seq<u8>, before: Seq<char>, after: Seq<char>, upper: bool)
    requires
        b.len() == 32,
        forall|i: int| 0 <= i < before.len() ==> is_ws(#[trigger] before[i]),
        forall|i: int| 0 <= i < after.len() ==> is_ws(#[trigger] after[i]),
    ensures
        ({
            let t = if upper { upper_hex(hex_text(b)) } else { hex_text(b) };
            let s = before + t + after;
            &&& trim(s) == t
            &&& encode_utf8(trim(s)).len() == 64
            &&& all_hex_digits(trim(s))
            &&& hex_bytes(trim(s)) == b
        }),
{
    let h = hex_text(b);
    lemma_hex_text_len(b);
    let t = if upper { upper_hex(h) } else { h };
    assert forall|k: int| 0 <= k < t.len() implies nibble_of(#[trigger] t[k]) is Some && !is_ws(t[k]) by {
        let i = k / 2;
        lemma_hex_text_digits(b, i);
        lemma_nibble_of_hex_digit((b[i] / 16) as nat);
        lemma_nibble_of_hex_digit((b[i] % 16) as nat);
        assert(k == 2 * i || k == 2 * i + 1);
    }
    assert(!is_ws(t[0]));
    assert(!is_ws(t[t.len() - 1]));
    lemma_trim_around(before, t, after);
    lemma_hex_digits_one_byte_each(t);
    assert forall|i: int| 0 <= i < 32 implies #[trigger] hex_bytes(t)[i] == b[i] by {
        lemma_hex_text_digits(b, i);
        lemma_nibble_of_hex_digit((b[i] / 16) as nat);
        lemma_nibble_of_hex_digit((b[i] % 16) as nat);
        assert((b[i] / 16) * 16 + b[i] % 16 == b[i]);
    }
    assert(hex_bytes(t) =~= b);
}

} // verus!
