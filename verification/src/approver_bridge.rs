//! Loading a host-registered approver program: the checks its compiled
//! agent must pass, and the decisions it reports; and the outcome types of
//! evaluating approval predicates.

use vstd::prelude::*;
use crate::agent_handles::{finite_option, CatalogAgentInfo};
use crate::approval_records::copy_opt;
use crate::filter_eval::FilterAgent;
use crate::floatbits::{bits_lt, is_finite, lt};
use crate::json::{copy_members, members_same, JsonMember};
use crate::text::{cat, cat3, chars_of, dec, owned, str_eq, string_from_chars, u64_to_decimal};

verus! {

/// Outcome of registering an approver program.
#[derive(Debug, Clone, Copy, PartialEq, Eq, Structural)]
pub enum CorvidApproverLoadStatus {
    Loaded,
    IoError,
    CompileError,
    MissingAgent,
    BadSignature,
    Unsafe,
    OverBudget,
}

pub open spec fn load_status_code(s: CorvidApproverLoadStatus) -> i32 {
    match s {
        CorvidApproverLoadStatus::Loaded => 0,
        CorvidApproverLoadStatus::IoError => 1,
        CorvidApproverLoadStatus::CompileError => 2,
        CorvidApproverLoadStatus::MissingAgent => 3,
        CorvidApproverLoadStatus::BadSignature => 4,
        CorvidApproverLoadStatus::Unsafe => 5,
        CorvidApproverLoadStatus::OverBudget => 6,
    }
}

impl CorvidApproverLoadStatus {
    /// The status as the C interface numbers it.
    pub fn code(self) -> (r: i32)
        ensures
            r == load_status_code(self),
    {
        match self {
            CorvidApproverLoadStatus::Loaded => 0,
            CorvidApproverLoadStatus::IoError => 1,
            CorvidApproverLoadStatus::CompileError => 2,
            CorvidApproverLoadStatus::MissingAgent => 3,
            CorvidApproverLoadStatus::BadSignature => 4,
            CorvidApproverLoadStatus::Unsafe => 5,
            CorvidApproverLoadStatus::OverBudget => 6,
        }
    }
}

/// Outcome of evaluating an approval predicate.
#[derive(Debug, Clone, Copy, PartialEq, Eq, Structural)]
pub enum CorvidPredicateStatus {
    Evaluated,
    BadArgs,
    SiteNotFound,
    Unevaluable,
}

pub open spec fn predicate_status_code(s: CorvidPredicateStatus) -> i32 {
    match s {
        CorvidPredicateStatus::Evaluated => 0,
        CorvidPredicateStatus::BadArgs => 1,
        CorvidPredicateStatus::SiteNotFound => 2,
        CorvidPredicateStatus::Unevaluable => 3,
    }
}

impl CorvidPredicateStatus {
    /// The status as the C interface numbers it.
    pub fn code(self) -> (r: i32)
        ensures
            r == predicate_status_code(self),
    {
        match self {
            CorvidPredicateStatus::Evaluated => 0,
            CorvidPredicateStatus::BadArgs => 1,
            CorvidPredicateStatus::SiteNotFound => 2,
            CorvidPredicateStatus::Unevaluable => 3,
        }
    }
}

/// Why an approver could not be registered.
pub struct ApproverLoadError {
    pub status: CorvidApproverLoadStatus,
    pub message: String,
}

impl ApproverLoadError {
    /// The error's message, as `Display` renders it.
    pub fn message(&self) -> (r: String)
        ensures
            r == self.message,
    {
        self.message.clone()
    }
}

/// An approval decision and who made it.
#[derive(Debug, Clone)]
pub struct ApprovalDecisionInfo {
    pub accepted: bool,
    pub decider: String,
    pub rationale: Option<String>,
}

/// An approval site as an approver program sees it. `budget_remaining_usd_bits`
/// holds the bits of an `f64`.
pub struct ApprovalSiteInput {
    pub site_name: String,
    pub agent_context: String,
    pub declared_at_file: String,
    pub declared_at_line: i64,
    pub budget_remaining_usd_bits: u64,
    pub trace_run_id: String,
}

/// The bits of `f64::NAN`.
pub const NAN_BITS: u64 = 0x7ff8_0000_0000_0000;

impl ApprovalSiteInput {
    /// The site input used when nothing is known of the site but its label:
    /// empty context, line 0, an unknown (NaN) budget.
    pub fn fallback(label: &str) -> (r: Self)
        ensures
            r.site_name@ == label@,
            r.agent_context@.len() == 0,
            r.declared_at_file@.len() == 0,
            r.declared_at_line == 0,
            r.budget_remaining_usd_bits == NAN_BITS,
            r.trace_run_id@.len() == 0,
    {
        ApprovalSiteInput {
            site_name: owned(label),
            agent_context: String::new(),
            declared_at_file: String::new(),
            declared_at_line: 0,
            budget_remaining_usd_bits: NAN_BITS,
            trace_run_id: String::new(),
        }
    }
}

/// The name of the agent an approver program must define.
pub open spec fn approver_agent_name() -> Seq<char> {
    "approve_site"@
}

/// A type in an agent's signature, as approver loading reads it: the name
/// of the struct it is, if it is one, and its debug rendering.
pub struct SignatureType {
    pub struct_name: Option<String>,
    pub debug: String,
}

/// What approver loading, listing and filtering read of a compiled agent.
/// Amounts and latencies hold the bits of `f64` values; `custom_effects`
/// are the agent's custom effect dimensions.
pub struct ApproverAbi {
    pub name: String,
    pub symbol: String,
    pub source_line: u32,
    pub params: Vec<SignatureType>,
    pub return_type: SignatureType,
    pub dangerous: bool,
    pub pub_extern_c: bool,
    pub replayable: bool,
    pub deterministic: bool,
    pub approval_required: bool,
    pub approval_labels: Vec<String>,
    pub trust_tier: Option<String>,
    pub reversibility: Option<String>,
    pub latency_p99_ms_bits: Option<u64>,
    pub budget_usd_per_call_bits: Option<u64>,
    pub projected_cost_usd_bits: Option<u64>,
    pub custom_effects: Vec<JsonMember>,
}

/// The name and symbol the registered approver is known by.
pub open spec fn overlay_name() -> Seq<char> {
    "__corvid_approver"@
}

/// `r` is the overlay of `a`: renamed `__corvid_approver` (name and
/// symbol), not exported, not dangerous, needing no approval and with no
/// approval labels; everything else as in `a`.
pub open spec fn is_overlay_of(r: ApproverAbi, a: ApproverAbi) -> bool {
    &&& r.name@ == overlay_name()
    &&& r.symbol@ == overlay_name()
    &&& !r.pub_extern_c
    &&& !r.dangerous
    &&& !r.approval_required
    &&& r.approval_labels@.len() == 0
    &&& r == ApproverAbi {
        name: r.name,
        symbol: r.symbol,
        pub_extern_c: false,
        dangerous: false,
        approval_required: false,
        approval_labels: r.approval_labels,
        ..a
    }
}

/// The agent an approver program is registered as (see [`is_overlay_of`]).
pub fn approver_overlay(a: ApproverAbi) -> (r: ApproverAbi)
    ensures
        is_overlay_of(r, a),
{
    proof {
        reveal_strlit("__corvid_approver");
    }
    ApproverAbi {
        name: owned("__corvid_approver"),
        symbol: owned("__corvid_approver"),
        pub_extern_c: false,
        dangerous: false,
        approval_required: false,
        approval_labels: Vec::new(),
        ..a
    }
}

/// Index of the first agent named `approve_site`, or -1.
pub open spec fn approver_index(agents: Seq<ApproverAbi>) -> int
    decreases agents.len(),
{
    if agents.len() == 0 {
        -1
    } else if approver_index(agents.drop_last()) >= 0 {
        approver_index(agents.drop_last())
    } else if agents.last().name@ == approver_agent_name() {
        agents.len() - 1
    } else {
        -1
    }
}

proof fn lemma_approver_index_bounds(agents: Seq<ApproverAbi>)
    ensures
        -1 <= approver_index(agents) < agents.len(),
    decreases agents.len(),
{
    if agents.len() > 0 {
        lemma_approver_index_bounds(agents.drop_last());
    }
}

proof fn lemma_approver_index_extends(agents: Seq<ApproverAbi>, n: int)
    requires
        0 <= n <= agents.len(),
        approver_index(agents.take(n)) >= 0,
    ensures
        approver_index(agents) == approver_index(agents.take(n)),
    decreases agents.len() - n,
{
    if n == agents.len() {
        assert(agents.take(n) =~= agents);
    } else {
        assert(agents.take(n + 1).drop_last() =~= agents.take(n));
        lemma_approver_index_extends(agents, n + 1);
    }
}

/// Finds the `approve_site` agent among the agents compiled from an
/// approver program.
pub fn find_approver_agent(agents: &Vec<ApproverAbi>) -> (r: Result<usize, ApproverLoadError>)
    ensures
        approver_index(agents@) >= 0 ==> r == Ok::<usize, ApproverLoadError>(
            approver_index(agents@) as usize,
        ),
        approver_index(agents@) < 0 ==> (r matches Err(e) && e.status == CorvidApproverLoadStatus::MissingAgent
            && e.message@ == "no `approve_site` agent found in approver source"@),
{
    let mut i: usize = 0;
    while i < agents.len()
        invariant
            i <= agents@.len(),
            approver_index(agents@.take(i as int)) < 0,
        decreases agents@.len() - i,
    {
        assert(agents@.take(i as int + 1).drop_last() =~= agents@.take(i as int));
        if str_eq(&agents[i].name, "approve_site") {
            proof {
                reveal_strlit("approve_site");
                assert(approver_index(agents@.take(i as int + 1)) == i);
                lemma_approver_index_extends(agents@, i as int + 1);
            }
            return Ok(i);
        }
        i += 1;
    }
    assert(agents@.take(agents@.len() as int) =~= agents@);
    Err(
        ApproverLoadError {
            status: CorvidApproverLoadStatus::MissingAgent,
            message: owned("no `approve_site` agent found in approver source"),
        },
    )
}

/// Why a signature type is not the struct `expected`, if it is not.
pub open spec fn struct_refusal(ty: SignatureType, expected: Seq<char>, place: Seq<char>) -> Option<Seq<char>> {
    match ty.struct_name {
        Some(n) if n@ == expected => None,
        _ => Some("`approve_site` "@ + place + " must be `"@ + expected + "`, got `"@ + ty.debug@ + "`"@),
    }
}

/// Why an approver agent's signature is not `(ApprovalSite, ApprovalArgs,
/// ApprovalContext) -> ApprovalDecision`, if it is not; the first mismatch
/// is reported.
pub open spec fn signature_refusal(abi: ApproverAbi) -> Option<Seq<char>> {
    let ps = abi.params@;
    if ps.len() != 3 {
        Some("`approve_site` must take exactly 3 params, got "@ + dec(ps.len()))
    } else if struct_refusal(ps[0], "ApprovalSite"@, "parameter 1 `site`"@) is Some {
        struct_refusal(ps[0], "ApprovalSite"@, "parameter 1 `site`"@)
    } else if struct_refusal(ps[1], "ApprovalArgs"@, "parameter 2 `args`"@) is Some {
        struct_refusal(ps[1], "ApprovalArgs"@, "parameter 2 `args`"@)
    } else if struct_refusal(ps[2], "ApprovalContext"@, "parameter 3 `ctx`"@) is Some {
        struct_refusal(ps[2], "ApprovalContext"@, "parameter 3 `ctx`"@)
    } else {
        struct_refusal(abi.return_type, "ApprovalDecision"@, "return type"@)
    }
}

/// A load error carrying `status` and message `m`.
pub open spec fn load_error_is(
    r: Result<(), ApproverLoadError>,
    status: CorvidApproverLoadStatus,
    m: Seq<char>,
) -> bool {
    r matches Err(e) && e.status == status && e.message@ == m
}

fn verify_struct(ty: &SignatureType, expected: &str, place: &str) -> (r: Result<(), ApproverLoadError>)
    ensures
        match struct_refusal(*ty, expected@, place@) {
            None => r is Ok,
            Some(m) => load_error_is(r, CorvidApproverLoadStatus::BadSignature, m),
        },
{
    if let Some(n) = &ty.struct_name {
        if str_eq(n, expected) {
            return Ok(());
        }
    }
    let m1 = cat3("`approve_site` ", place, " must be `");
    let m2 = cat3(m1.as_str(), expected, "`, got `");
    let m3 = cat3(m2.as_str(), ty.debug.as_str(), "`");
    Err(ApproverLoadError { status: CorvidApproverLoadStatus::BadSignature, message: m3 })
}

/// Checks that an approver agent has the signature the host calls it with
/// (see [`signature_refusal`]).
pub fn verify_approver_signature(abi: &ApproverAbi) -> (r: Result<(), ApproverLoadError>)
    ensures
        match signature_refusal(*abi) {
            None => r is Ok,
            Some(m) => load_error_is(r, CorvidApproverLoadStatus::BadSignature, m),
        },
{
    if abi.params.len() != 3 {
        let count = u64_to_decimal(abi.params.len() as u64);
        return Err(
            ApproverLoadError {
                status: CorvidApproverLoadStatus::BadSignature,
                message: cat("`approve_site` must take exactly 3 params, got ", count.as_str()),
            },
        );
    }
    verify_struct(&abi.params[0], "ApprovalSite", "parameter 1 `site`")?;
    verify_struct(&abi.params[1], "ApprovalArgs", "parameter 2 `args`")?;
    verify_struct(&abi.params[2], "ApprovalContext", "parameter 3 `ctx`")?;
    verify_struct(&abi.return_type, "ApprovalDecision", "return type")
}

/// Why an approver program may not be registered as safe.
pub enum ApproverSafetyRefusal {
    /// The agent is `@dangerous`.
    Dangerous,
    /// The agent's trust tier is not `autonomous`.
    UntrustedTier,
    /// The agent may spend more per call than the host allows (both
    /// amounts as `f64` bits).
    OverBudget { budget_bits: u64, ceiling_bits: u64 },
}

/// The amount an approver may spend per call: its budget, else its
/// projected cost, else zero.
pub open spec fn approver_spend_bits(abi: ApproverAbi) -> u64 {
    match abi.budget_usd_per_call_bits {
        Some(b) => b,
        None => match abi.projected_cost_usd_bits {
            Some(c) => c,
            None => 0,
        },
    }
}

/// Why the approver may not be registered under a per-call ceiling of
/// `ceiling_bits` (no ceiling unless it is above zero), if it may not.
pub open spec fn safety_refusal(abi: ApproverAbi, ceiling_bits: u64) -> Option<ApproverSafetyRefusal> {
    if abi.dangerous {
        Some(ApproverSafetyRefusal::Dangerous)
    } else if abi.trust_tier matches Some(t) && t@ != "autonomous"@ {
        Some(ApproverSafetyRefusal::UntrustedTier)
    } else if lt(0, ceiling_bits) && lt(ceiling_bits, approver_spend_bits(abi)) {
        Some(
            ApproverSafetyRefusal::OverBudget {
                budget_bits: approver_spend_bits(abi),
                ceiling_bits,
            },
        )
    } else {
        None
    }
}

/// Checks that an approver program is safe to register (see
/// [`safety_refusal`]).
pub fn validate_approver_safety(abi: &ApproverAbi, max_budget_usd_per_call_bits: u64) -> (r: Result<
    (),
    ApproverSafetyRefusal,
>)
    ensures
        match safety_refusal(*abi, max_budget_usd_per_call_bits) {
            None => r is Ok,
            Some(why) => r == Err::<(), ApproverSafetyRefusal>(why),
        },
{
    if abi.dangerous {
        return Err(ApproverSafetyRefusal::Dangerous);
    }
    if let Some(t) = &abi.trust_tier {
        if !str_eq(t, "autonomous") {
            proof {
                reveal_strlit("autonomous");
            }
            return Err(ApproverSafetyRefusal::UntrustedTier);
        }
        proof {
            reveal_strlit("autonomous");
        }
    }
    if bits_lt(0, max_budget_usd_per_call_bits) {
        let spend = match abi.budget_usd_per_call_bits {
            Some(b) => b,
            None => match abi.projected_cost_usd_bits {
                Some(c) => c,
                None => 0,
            },
        };
        if bits_lt(max_budget_usd_per_call_bits, spend) {
            return Err(
                ApproverSafetyRefusal::OverBudget {
                    budget_bits: spend,
                    ceiling_bits: max_budget_usd_per_call_bits,
                },
            );
        }
    }
    Ok(())
}

impl ApproverSafetyRefusal {
    /// The refusal's message, where it states no amount; an over-budget
    /// refusal states both amounts, to three decimals, as
    /// `approver budget $B exceeds host ceiling $C`.
    pub fn plain_message(&self) -> (r: Option<String>)
        ensures
            match self {
                ApproverSafetyRefusal::Dangerous => r matches Some(m) && m@ == "approver may not be `@dangerous`"@,
                ApproverSafetyRefusal::UntrustedTier => r matches Some(m) && m@
                    == "approver trust tier must be `autonomous`"@,
                ApproverSafetyRefusal::OverBudget { .. } => r is None,
            },
    {
        match self {
            ApproverSafetyRefusal::Dangerous => Some(owned("approver may not be `@dangerous`")),
            ApproverSafetyRefusal::UntrustedTier => Some(owned("approver trust tier must be `autonomous`")),
            ApproverSafetyRefusal::OverBudget { .. } => None,
        }
    }

    /// The load status the refusal is reported with.
    pub fn status(&self) -> (r: CorvidApproverLoadStatus)
        ensures
            r == (match self {
                ApproverSafetyRefusal::OverBudget { .. } => CorvidApproverLoadStatus::OverBudget,
                _ => CorvidApproverLoadStatus::Unsafe,
            }),
    {
        match self {
            ApproverSafetyRefusal::OverBudget { .. } => CorvidApproverLoadStatus::OverBudget,
            _ => CorvidApproverLoadStatus::Unsafe,
        }
    }
}

/// The per-call budget shown for a registered approver: its own budget,
/// else the host's ceiling where that is above zero, else NaN.
pub open spec fn display_budget(abi: ApproverAbi, ceiling_bits: u64) -> u64 {
    match abi.budget_usd_per_call_bits {
        Some(b) => b,
        None => if lt(0, ceiling_bits) {
            ceiling_bits
        } else {
            NAN_BITS
        },
    }
}

/// The per-call budget shown for a registered approver (see
/// [`display_budget`]).
pub fn display_budget_bits(abi: &ApproverAbi, max_budget_usd_per_call_bits: u64) -> (r: u64)
    ensures
        r == display_budget(*abi, max_budget_usd_per_call_bits),
{
    match abi.budget_usd_per_call_bits {
        Some(b) => b,
        None => if bits_lt(0, max_budget_usd_per_call_bits) {
            max_budget_usd_per_call_bits
        } else {
            NAN_BITS
        },
    }
}

/// A path with every backslash turned into a slash.
pub open spec fn slashed(p: Seq<char>) -> Seq<char> {
    p.map_values(|c: char| if c == '\\' { '/' } else { c })
}

/// The decision a registered approver program made, attributed to the
/// program's source file.
pub fn registered_decision_info(accepted: bool, rationale: Option<String>, source_path: &str) -> (r:
    ApprovalDecisionInfo)
    ensures
        r.accepted == accepted,
        r.decider@ == "corvid-agent:"@ + slashed(source_path@),
        r.rationale == rationale,
{
    let c = chars_of(source_path);
    let mut out: Vec<char> = chars_of("corvid-agent:");
    let ghost start = out@;
    proof {
        reveal_strlit("corvid-agent:");
    }
    let mut i: usize = 0;
    while i < c.len()
        invariant
            i <= c@.len(),
            c@ == source_path@,
            start == "corvid-agent:"@,
            out@ == start + slashed(c@.take(i as int)),
        decreases c@.len() - i,
    {
        out.push(if c[i] == '\\' { '/' } else { c[i] });
        assert(slashed(c@.take(i as int + 1)) =~= slashed(c@.take(i as int)).push(
            if c@[i as int] == '\\' { '/' } else { c@[i as int] },
        ));
        i += 1;
    }
    assert(c@.take(c@.len() as int) =~= c@);
    ApprovalDecisionInfo { accepted, decider: string_from_chars(&out), rationale }
}

/// An approver program that passed registration: where it came from, its
/// compiled agent, and the budget shown for it.
pub struct RegisteredApprover {
    pub source_path: String,
    pub abi: ApproverAbi,
    pub display_budget_bits: u64,
}

/// Why an approver program could not be registered.
pub enum ApproverRegistrationError {
    /// The program has no usable `approve_site` agent.
    Load(ApproverLoadError),
    /// The agent is not safe to run as an approver.
    Unsafe(ApproverSafetyRefusal),
}

/// A path with every backslash turned into a slash.
pub fn slashed_path(p: &str) -> (r: String)
    ensures
        r@ == slashed(p@),
{
    let c = chars_of(p);
    let mut out: Vec<char> = Vec::new();
    let mut i: usize = 0;
    while i < c.len()
        invariant
            i <= c@.len(),
            c@ == p@,
            out@ == slashed(c@.take(i as int)),
        decreases c@.len() - i,
    {
        out.push(if c[i] == '\\' { '/' } else { c[i] });
        assert(slashed(c@.take(i as int + 1)) =~= slashed(c@.take(i as int)).push(
            if c@[i as int] == '\\' { '/' } else { c@[i as int] },
        ));
        i += 1;
    }
    assert(c@.take(c@.len() as int) =~= c@);
    string_from_chars(&out)
}

/// `info` is how a catalog listing shows the registered approver `reg`.
pub open spec fn listing_of(info: CatalogAgentInfo, reg: RegisteredApprover) -> bool {
    let a = reg.abi;
    &&& info.name == a.name
    &&& info.symbol == a.symbol
    &&& info.source_file@ == slashed(reg.source_path@)
    &&& info.source_line == a.source_line
    &&& info.trust_tier == a.trust_tier
    &&& info.budget_usd_per_call_bits == a.budget_usd_per_call_bits
    &&& info.projected_cost_usd_bits == a.projected_cost_usd_bits
    &&& info.reversibility == a.reversibility
    &&& info.latency_p99_ms_bits == a.latency_p99_ms_bits
    &&& info.replayable == a.replayable
    &&& info.deterministic == a.deterministic
    &&& info.dangerous == a.dangerous
    &&& info.pub_extern_c == a.pub_extern_c
    &&& info.requires_approval == a.approval_required
    &&& info.grounded_source_count == 0
    &&& info.param_count == a.params@.len() as u32
}

/// `f` is how an agent filter sees the registered approver `reg`.
pub open spec fn filter_agent_of(f: FilterAgent, reg: RegisteredApprover) -> bool {
    let a = reg.abi;
    &&& f.trust_tier == a.trust_tier
    &&& f.cost_bound_bits == (if is_finite(reg.display_budget_bits) {
        Some(reg.display_budget_bits)
    } else {
        None::<u64>
    })
    &&& f.latency_p99_bits == a.latency_p99_ms_bits
    &&& f.dangerous == a.dangerous
    &&& f.replayable == a.replayable
    &&& f.deterministic == a.deterministic
    &&& f.reversibility == a.reversibility
    &&& f.custom@.len() == a.custom_effects@.len()
    &&& members_same(f.custom@, a.custom_effects@, a.custom_effects@.len() as int)
}

/// The host's registered approver program, if any.
pub struct ApproverRegistry {
    registered: Option<RegisteredApprover>,
}

impl View for ApproverRegistry {
    type V = Option<RegisteredApprover>;

    closed spec fn view(&self) -> Option<RegisteredApprover> {
        self.registered
    }
}

impl ApproverRegistry {
    /// No approver registered.
    pub fn new() -> (r: Self)
        ensures
            r@ is None,
    {
        ApproverRegistry { registered: None }
    }

    /// Forgets the registered approver.
    pub fn clear_registered_approver(&mut self)
        ensures
            final(self)@ is None,
    {
        self.registered = None;
    }

    /// The registered approver, if any.
    pub fn registered(&self) -> (r: Option<&RegisteredApprover>)
        ensures
            match self@ {
                Some(a) => r == Some(&a),
                None => r is None,
            },
    {
        match &self.registered {
            Some(a) => Some(a),
            None => None,
        }
    }

    /// The registered approver as a catalog listing shows it: its overlay
    /// agent, at its source file (with `/` for `\\`), and its shown budget.
    pub fn overlay_listing(&self) -> (r: Option<(CatalogAgentInfo, u64)>)
        ensures
            match self@ {
                None => r is None,
                Some(reg) => r matches Some(o) && listing_of(o.0, reg) && o.1 == reg.display_budget_bits,
            },
    {
        match &self.registered {
            None => None,
            Some(reg) => {
                let a = &reg.abi;
                let info = CatalogAgentInfo {
                    name: a.name.clone(),
                    symbol: a.symbol.clone(),
                    source_file: slashed_path(&reg.source_path),
                    source_line: a.source_line,
                    trust_tier: copy_opt(&a.trust_tier),
                    budget_usd_per_call_bits: a.budget_usd_per_call_bits,
                    projected_cost_usd_bits: a.projected_cost_usd_bits,
                    reversibility: copy_opt(&a.reversibility),
                    latency_p99_ms_bits: a.latency_p99_ms_bits,
                    replayable: a.replayable,
                    deterministic: a.deterministic,
                    dangerous: a.dangerous,
                    pub_extern_c: a.pub_extern_c,
                    requires_approval: a.approval_required,
                    grounded_source_count: 0,
                    param_count: a.params.len() as u32,
                };
                Some((info, reg.display_budget_bits))
            },
        }
    }

    /// The registered approver as an agent filter sees it: its overlay's
    /// effects, with the shown budget as its cost bound when that is finite.
    pub fn overlay_filter_agent(&self) -> (r: Option<FilterAgent>)
        ensures
            match self@ {
                None => r is None,
                Some(reg) => r matches Some(f) && filter_agent_of(f, reg),
            },
    {
        match &self.registered {
            None => None,
            Some(reg) => {
                let a = &reg.abi;
                Some(
                    FilterAgent {
                        trust_tier: copy_opt(&a.trust_tier),
                        cost_bound_bits: finite_option(reg.display_budget_bits),
                        latency_p99_bits: a.latency_p99_ms_bits,
                        dangerous: a.dangerous,
                        replayable: a.replayable,
                        deterministic: a.deterministic,
                        reversibility: copy_opt(&a.reversibility),
                        custom: copy_members(&a.custom_effects),
                    },
                )
            },
        }
    }

    /// Registers the approver compiled from the program at `source_path`
    /// (its agents, in order) under a per-call ceiling of
    /// `max_budget_usd_per_call_bits`: its `approve_site` agent must exist
    /// (see [`find_approver_agent`]), have the host's signature (see
    /// [`verify_approver_signature`]) and be safe (see
    /// [`validate_approver_safety`]). On success it replaces any earlier
    /// approver, with the budget [`display_budget`] gives; on failure the
    /// registry is as it was.
    pub fn register_compiled_approver(
        &mut self,
        source_path: String,
        agents: Vec<ApproverAbi>,
        max_budget_usd_per_call_bits: u64,
    ) -> (r: Result<(), ApproverRegistrationError>)
        ensures
            approver_index(agents@) < 0 ==> (r matches Err(ApproverRegistrationError::Load(e))
                && e.status == CorvidApproverLoadStatus::MissingAgent),
            approver_index(agents@) >= 0 ==> ({
                let a = agents@[approver_index(agents@)];
                &&& signature_refusal(a) is Some ==> (r matches Err(ApproverRegistrationError::Load(e))
                    && e.status == CorvidApproverLoadStatus::BadSignature && e.message@ == signature_refusal(
                    a,
                )->Some_0)
                &&& signature_refusal(a) is None && safety_refusal(a, max_budget_usd_per_call_bits) is Some
                    ==> r == Err::<(), ApproverRegistrationError>(
                    ApproverRegistrationError::Unsafe(
                        safety_refusal(a, max_budget_usd_per_call_bits)->Some_0,
                    ),
                )
                &&& signature_refusal(a) is None && safety_refusal(a, max_budget_usd_per_call_bits) is None
                    ==> r is Ok && (final(self)@ matches Some(reg) && reg.source_path == source_path
                    && is_overlay_of(reg.abi, a) && reg.display_budget_bits == display_budget(
                    a,
                    max_budget_usd_per_call_bits,
                ))
            }),
            r is Err ==> final(self)@ == old(self)@,
    {
        let mut agents = agents;
        proof {
            lemma_approver_index_bounds(agents@);
        }
        let i = match find_approver_agent(&agents) {
            Ok(i) => i,
            Err(e) => {
                return Err(ApproverRegistrationError::Load(e));
            },
        };
        assert(agents@.len() == agents.len());
        assert(i as int == approver_index(agents@));
        let abi = agents.remove(i);
        if let Err(e) = verify_approver_signature(&abi) {
            return Err(ApproverRegistrationError::Load(e));
        }
        if let Err(why) = validate_approver_safety(&abi, max_budget_usd_per_call_bits) {
            return Err(ApproverRegistrationError::Unsafe(why));
        }
        let display_budget_bits = display_budget_bits(&abi, max_budget_usd_per_call_bits);
        let overlay = approver_overlay(abi);
        self.registered = Some(RegisteredApprover { source_path, abi: overlay, display_budget_bits });
        Ok(())
    }
}

} // verus!
