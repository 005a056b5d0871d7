//! Host approvals: checking arguments against an approval site's predicate,
//! answering from preapproved requests, and turning what the registered
//! approver or the host callback said into a decision.
//!
//! The host work itself (running the registered approver program, calling
//! the host's callback, keeping the last decision detail) happens around
//! these functions; they decide what each answer means.

use vstd::prelude::*;
use crate::approval_card::ApprovalRequest;
use crate::approvals::ApprovalDecision;
use crate::approver_bridge::{ApprovalDecisionInfo, CorvidPredicateStatus};
use crate::cache::put_escaped;
use crate::catalog::OwnedApprovalRequired;
use crate::catalog_invoke::opt_text;
use crate::errors::RuntimeError;
use crate::json::{lemma_lists_same_refl, json_list_eq, lists_same, member_index, find_member, quoted, render, render_items, write_json, JsonValue, lemma_member_index_bounds};
use crate::runtime_config::{parse_unsigned, parsed_unsigned};
use crate::text::{cat, cat3, chars_of, owned, str_eq, string_from_chars, u64_to_decimal, dec};

verus! {

// ---------------------------------------------------------------------
// Approval-site predicates

/// The result of checking call arguments against an approval site's
/// predicate.
pub struct CorvidPredicateResult {
    pub status: CorvidPredicateStatus,
    pub requires_approval: u8,
    pub bad_args_message: Option<String>,
}

/// An approval site as the catalog describes it: its label and, if it has
/// one, its predicate.
pub struct ApprovalSiteEntry {
    pub label: String,
    pub predicate: Option<JsonValue>,
}

/// Index of the first site labelled `name`, or -1.
pub open spec fn site_index(sites: Seq<ApprovalSiteEntry>, name: Seq<char>) -> int
    decreases sites.len(),
{
    if sites.len() == 0 {
        -1
    } else if site_index(sites.drop_last(), name) >= 0 {
        site_index(sites.drop_last(), name)
    } else if sites.last().label@ == name {
        sites.len() - 1
    } else {
        -1
    }
}

proof fn lemma_site_index_bounds(sites: Seq<ApprovalSiteEntry>, name: Seq<char>)
    ensures
        -1 <= site_index(sites, name) < sites.len(),
        site_index(sites, name) >= 0 ==> sites[site_index(sites, name)].label@ == name,
    decreases sites.len(),
{
    if sites.len() > 0 {
        lemma_site_index_bounds(sites.drop_last(), name);
    }
}

/// The JSON text of the predicate of the first site labelled `site_name`;
/// none where the catalog could not be read, no site has that label, or
/// that site has no predicate.
pub open spec fn site_predicate_text(
    sites: Result<Vec<ApprovalSiteEntry>, RuntimeError>,
    site_name: Seq<char>,
) -> Option<Seq<char>> {
    match sites {
        Err(_) => None,
        Ok(v) => {
            let i = site_index(v@, site_name);
            if i < 0 {
                None
            } else {
                match v@[i].predicate {
                    Some(p) => Some(render(p)),
                    None => None,
                }
            }
        },
    }
}

/// The predicate JSON of the approval site labelled `site_name` (see
/// [`site_predicate_text`]).
pub fn approval_predicate_json(
    sites: &Result<Vec<ApprovalSiteEntry>, RuntimeError>,
    site_name: &str,
) -> (r: Option<String>)
    ensures
        opt_text(r) == site_predicate_text(*sites, site_name@),
{
    match sites {
        Err(_) => None,
        Ok(v) => {
            let mut i: usize = 0;
            while i < v.len()
                invariant
                    i <= v@.len(),
                    *sites == Ok::<Vec<ApprovalSiteEntry>, RuntimeError>(*v),
                    site_index(v@.take(i as int), site_name@) < 0,
                decreases v@.len() - i,
            {
                assert(v@.take(i as int + 1).drop_last() =~= v@.take(i as int));
                if str_eq(&v[i].label, site_name) {
                    proof {
                        assert(site_index(v@.take(i as int + 1), site_name@) == i);
                        lemma_site_index_extends(v@, i as int + 1, site_name@);
                    }
                    return match &v[i].predicate {
                        Some(p) => Some(crate::json::json_text(p)),
                        None => None,
                    };
                }
                i += 1;
            }
            assert(v@.take(v@.len() as int) =~= v@);
            None
        },
    }
}

proof fn lemma_site_index_extends(sites: Seq<ApprovalSiteEntry>, n: int, name: Seq<char>)
    requires
        0 <= n <= sites.len(),
        site_index(sites.take(n), name) >= 0,
    ensures
        site_index(sites, name) == site_index(sites.take(n), name),
    decreases sites.len() - n,
{
    if n == sites.len() {
        assert(sites.take(n) =~= sites);
    } else {
        assert(sites.take(n + 1).drop_last() =~= sites.take(n));
        lemma_site_index_extends(sites, n + 1, name);
    }
}

/// What `serde_json`'s `as_u64` gives for a value: a number written as
/// plain digits (as non-negative integers are) whose value fits in a `u64`.
pub open spec fn u64_value(v: JsonValue) -> Option<nat> {
    match v {
        JsonValue::Number(n) => if n.text@.len() > 0 && n.text@[0] != '+' {
            parsed_unsigned(n.text@, u64::MAX as nat)
        } else {
            None
        },
        _ => None,
    }
}

/// The `arity` member of a predicate, as an unsigned number.
pub open spec fn predicate_arity(p: JsonValue) -> Option<nat> {
    match p {
        JsonValue::Object(ms) => {
            let i = member_index(ms@, "arity"@);
            if i < 0 {
                None
            } else {
                u64_value(ms@[i].value)
            }
        },
        _ => None,
    }
}

fn json_u64(v: &JsonValue) -> (r: Option<u64>)
    ensures
        match u64_value(*v) {
            Some(n) => r == Some(n as u64),
            None => r is None,
        },
{
    match v {
        JsonValue::Number(n) => {
            let t = chars_of(&n.text);
            if t.len() == 0 || t[0] == '+' {
                return None;
            }
            parse_unsigned(&t, u64::MAX)
        },
        _ => None,
    }
}

fn arity_of(p: &JsonValue) -> (r: Option<u64>)
    ensures
        match predicate_arity(*p) {
            Some(n) => r == Some(n as u64),
            None => r is None,
        },
{
    match p {
        JsonValue::Object(ms) => {
            proof {
                lemma_member_index_bounds(ms@, "arity"@);
            }
            match find_member(ms, "arity") {
                Some(i) => json_u64(&ms[i].value),
                None => None,
            }
        },
        _ => None,
    }
}

pub open spec fn arity_mismatch(site: Seq<char>, expected: nat, got: nat) -> Seq<char> {
    "arity mismatch for approval site `"@ + site + "`: expected "@ + dec(expected) + ", got "@ + dec(
        got,
    )
}

/// What checking arguments against a site's predicate gives: status,
/// whether approval is required, and the complaint about bad arguments.
/// `predicate` is the site's parsed predicate (none where there is no such
/// site); `args` the parsed arguments, or the parser's complaint.
pub open spec fn predicate_outcome(
    site: Seq<char>,
    predicate: Option<Result<JsonValue, String>>,
    args: Result<JsonValue, String>,
) -> (CorvidPredicateStatus, u8, Option<Seq<char>>) {
    match predicate {
        None => (CorvidPredicateStatus::SiteNotFound, 0, None),
        Some(Err(_)) => (CorvidPredicateStatus::Unevaluable, 0, None),
        Some(Ok(p)) => match args {
            Err(e) => (CorvidPredicateStatus::BadArgs, 0, Some("args_json must be a JSON array: "@ + e@)),
            Ok(JsonValue::Array(items)) => match predicate_arity(p) {
                None => (CorvidPredicateStatus::Unevaluable, 0, None),
                Some(n) => if items@.len() != n {
                    (CorvidPredicateStatus::BadArgs, 0, Some(arity_mismatch(site, n, items@.len())))
                } else {
                    (CorvidPredicateStatus::Evaluated, 1, None)
                },
            },
            Ok(_) => (CorvidPredicateStatus::BadArgs, 0, Some("args_json must be a JSON array"@)),
        },
    }
}

/// Checks call arguments against the predicate of approval site
/// `site_name` (see [`predicate_outcome`]): a site with a predicate whose
/// `arity` matches the number of arguments requires approval.
pub fn evaluate_approval_predicate(
    site_name: &str,
    predicate: &Option<Result<JsonValue, String>>,
    args: &Result<JsonValue, String>,
) -> (r: CorvidPredicateResult)
    ensures
        (r.status, r.requires_approval, opt_text(r.bad_args_message)) == predicate_outcome(
            site_name@,
            *predicate,
            *args,
        ),
{
    let p = match predicate {
        None => {
            return CorvidPredicateResult {
                status: CorvidPredicateStatus::SiteNotFound,
                requires_approval: 0,
                bad_args_message: None,
            };
        },
        Some(Err(_)) => {
            return CorvidPredicateResult {
                status: CorvidPredicateStatus::Unevaluable,
                requires_approval: 0,
                bad_args_message: None,
            };
        },
        Some(Ok(p)) => p,
    };
    let items = match args {
        Err(e) => {
            return CorvidPredicateResult {
                status: CorvidPredicateStatus::BadArgs,
                requires_approval: 0,
                bad_args_message: Some(cat("args_json must be a JSON array: ", e.as_str())),
            };
        },
        Ok(JsonValue::Array(items)) => items,
        Ok(_) => {
            return CorvidPredicateResult {
                status: CorvidPredicateStatus::BadArgs,
                requires_approval: 0,
                bad_args_message: Some(owned("args_json must be a JSON array")),
            };
        },
    };
    let arity = match arity_of(p) {
        None => {
            return CorvidPredicateResult {
                status: CorvidPredicateStatus::Unevaluable,
                requires_approval: 0,
                bad_args_message: None,
            };
        },
        Some(n) => n,
    };
    if items.len() as u64 != arity {
        let head = cat3("arity mismatch for approval site `", site_name, "`: expected ");
        let expected = u64_to_decimal(arity);
        let got = u64_to_decimal(items.len() as u64);
        let m1 = cat(head.as_str(), expected.as_str());
        let m2 = cat3(m1.as_str(), ", got ", got.as_str());
        return CorvidPredicateResult {
            status: CorvidPredicateStatus::BadArgs,
            requires_approval: 0,
            bad_args_message: Some(m2),
        };
    }
    CorvidPredicateResult {
        status: CorvidPredicateStatus::Evaluated,
        requires_approval: 1,
        bad_args_message: None,
    }
}

// ---------------------------------------------------------------------
// Asking the host

/// What asking for a host approval came to.
pub enum ApprovalRequestOutcome {
    Accepted(ApprovalDecisionInfo),
    MissingOrRejected,
}

/// A host approval's outcome, and the detail it leaves as the last
/// approval detail (a refusal leaves its detail; an acceptance leaves the
/// slot as it was).
pub struct HostApproval {
    pub outcome: ApprovalRequestOutcome,
    pub last_detail: Option<ApprovalDecisionInfo>,
}

/// The next step of a host approval once the registered approver program
/// has been consulted.
pub enum HostApprovalStep {
    Decided(HostApproval),
    /// The registered approver gave no decision: ask the host callback.
    AskHostCallback,
}

/// A detail with the given acceptance and decider, and no rationale.
pub open spec fn plain_detail(d: ApprovalDecisionInfo, accepted: bool, decider: Seq<char>) -> bool {
    d.accepted == accepted && d.decider@ == decider && d.rationale is None
}

/// The host approval a decision of the registered approver program comes
/// to: an acceptance is an acceptance; a refusal is recorded as the last
/// detail. Where the program could not run, or none is registered, the host
/// callback is asked.
pub fn host_approval_after_registered(registered: Result<Option<ApprovalDecisionInfo>, String>) -> (r:
    HostApprovalStep)
    ensures
        match registered {
            Ok(Some(d)) => if d.accepted {
                r == HostApprovalStep::Decided(
                    HostApproval { outcome: ApprovalRequestOutcome::Accepted(d), last_detail: None },
                )
            } else {
                r == HostApprovalStep::Decided(
                    HostApproval { outcome: ApprovalRequestOutcome::MissingOrRejected, last_detail: Some(d) },
                )
            },
            _ => r is AskHostCallback,
        },
{
    match registered {
        Ok(Some(d)) => if d.accepted {
            HostApprovalStep::Decided(
                HostApproval { outcome: ApprovalRequestOutcome::Accepted(d), last_detail: None },
            )
        } else {
            HostApprovalStep::Decided(
                HostApproval { outcome: ApprovalRequestOutcome::MissingOrRejected, last_detail: Some(d) },
            )
        },
        _ => HostApprovalStep::AskHostCallback,
    }
}

/// The host approval the host callback's answer comes to. With no callback
/// registered the request fails closed; a callback's return code 0
/// accepts, any other code rejects.
pub fn host_approval_after_callback(callback_decision: Option<i32>) -> (r: HostApproval)
    ensures
        match callback_decision {
            None => r.outcome is MissingOrRejected && (r.last_detail matches Some(d) && plain_detail(
                d,
                false,
                "fail-closed-default"@,
            )),
            Some(code) => if code == 0 {
                r.last_detail is None && (r.outcome matches ApprovalRequestOutcome::Accepted(d)
                    && plain_detail(d, true, "c-callback"@))
            } else {
                r.outcome is MissingOrRejected && (r.last_detail matches Some(d) && plain_detail(
                    d,
                    false,
                    "c-callback"@,
                ))
            },
        },
{
    match callback_decision {
        None => HostApproval {
            outcome: ApprovalRequestOutcome::MissingOrRejected,
            last_detail: Some(
                ApprovalDecisionInfo {
                    accepted: false,
                    decider: owned("fail-closed-default"),
                    rationale: None,
                },
            ),
        },
        Some(code) => {
            let detail = ApprovalDecisionInfo {
                accepted: code == 0,
                decider: owned("c-callback"),
                rationale: None,
            };
            if code == 0 {
                HostApproval { outcome: ApprovalRequestOutcome::Accepted(detail), last_detail: None }
            } else {
                HostApproval {
                    outcome: ApprovalRequestOutcome::MissingOrRejected,
                    last_detail: Some(detail),
                }
            }
        },
    }
}

/// The detail a rejected approval is reported with: the last detail
/// recorded, or, with none, a fail-closed refusal.
pub fn rejected_approval_detail(last: Option<ApprovalDecisionInfo>) -> (r: ApprovalDecisionInfo)
    ensures
        match last {
            Some(d) => r == d,
            None => plain_detail(r, false, "fail-closed-default"@),
        },
{
    match last {
        Some(d) => d,
        None => ApprovalDecisionInfo {
            accepted: false,
            decider: owned("fail-closed-default"),
            rationale: None,
        },
    }
}

// ---------------------------------------------------------------------
// Preapproved requests

/// A request approved (or refused) ahead of time, with its decision.
pub struct PreapprovedRequest {
    pub label: String,
    pub args: Vec<JsonValue>,
    pub detail: ApprovalDecisionInfo,
}

/// Preapproved requests, oldest first. A request is answered from the
/// oldest entry only, and only when label and arguments are the same.
pub struct PreapprovedRequests {
    queue: Vec<PreapprovedRequest>,
}

impl View for PreapprovedRequests {
    type V = Seq<PreapprovedRequest>;

    closed spec fn view(&self) -> Seq<PreapprovedRequest> {
        self.queue@
    }
}

/// The oldest preapproved entry is for this request.
pub open spec fn front_matches(q: Seq<PreapprovedRequest>, req: ApprovalRequest) -> bool {
    q.len() > 0 && q[0].label@ == req.label@ && lists_same(q[0].args@, req.args@)
}

/// The predicate JSON of a request made at an approval site:
/// `{"kind":"approval_request","label":...}`.
pub open spec fn request_predicate_json(label: Seq<char>) -> Seq<char> {
    "{\"kind\":\"approval_request\",\"label\":"@ + quoted(label) + "}"@
}

/// The JSON array of the arguments.
pub open spec fn args_array_json(args: Seq<JsonValue>) -> Seq<char> {
    seq!['['] + render_items(args, args.len() as int) + seq![']']
}

/// The approval the host is asked for a request at an approval site.
pub open spec fn is_site_approval_request(q: OwnedApprovalRequired, req: ApprovalRequest) -> bool {
    &&& q.site_name@ == req.label@
    &&& q.predicate_json@ == request_predicate_json(req.label@)
    &&& q.args_json@ == args_array_json(req.args@)
    &&& q.rationale_prompt@ == "Approval required for `"@ + req.label@ + "`."@
}

/// What deciding a request at an approval site comes to first.
pub enum RegisteredApprovalStep {
    /// The oldest preapproved entry answers it: the decision, and the
    /// detail to keep as the last approval detail.
    Preapproved { decision: ApprovalDecision, detail: ApprovalDecisionInfo },
    /// Ask the host for this approval.
    AskHost(OwnedApprovalRequired),
}

fn request_predicate_text(label: &str) -> (r: String)
    ensures
        r@ == request_predicate_json(label@),
{
    let mut out: Vec<char> = chars_of("{\"kind\":\"approval_request\",\"label\":");
    out.push('"');
    put_escaped(&mut out, label);
    out.push('"');
    out.push('}');
    proof {
        reveal_strlit("{\"kind\":\"approval_request\",\"label\":");
        reveal_strlit("}");
    }
    assert(out@ =~= request_predicate_json(label@));
    string_from_chars(&out)
}

fn args_array_text(args: &Vec<JsonValue>) -> (r: String)
    ensures
        r@ == args_array_json(args@),
{
    let mut out: Vec<char> = Vec::new();
    out.push('[');
    let mut i: usize = 0;
    while i < args.len()
        invariant
            i <= args@.len(),
            out@ == seq!['['] + render_items(args@, i as int),
        decreases args@.len() - i,
    {
        if i > 0 {
            out.push(',');
        }
        write_json(&args[i], &mut out);
        assert(out@ =~= seq!['['] + render_items(args@, i as int + 1));
        i += 1;
    }
    out.push(']');
    assert(out@ =~= args_array_json(args@));
    string_from_chars(&out)
}

impl PreapprovedRequests {
    /// No preapproved requests.
    pub fn new() -> (r: Self)
        ensures
            r@.len() == 0,
    {
        PreapprovedRequests { queue: Vec::new() }
    }

    /// Records an answer for a request that will be made later.
    pub fn mark_preapproved_request(
        &mut self,
        label: String,
        args: Vec<JsonValue>,
        detail: ApprovalDecisionInfo,
    )
        ensures
            final(self)@ == old(self)@.push(PreapprovedRequest { label, args, detail }),
    {
        self.queue.push(PreapprovedRequest { label, args, detail });
    }

    /// Records a host binding's local approval of a request whose
    /// arguments are given as JSON: only a JSON array of arguments is
    /// recorded, as accepted by `host-binding-local-approver`; anything else
    /// is refused and nothing is recorded.
    pub fn mark_host_preapproved(&mut self, site_name: String, args: Result<JsonValue, String>) -> (r: bool)
        ensures
            r == (args matches Ok(JsonValue::Array(_))),
            r ==> final(self)@.len() == old(self)@.len() + 1 && final(self)@.drop_last() == old(self)@
                && final(self)@.last().label == site_name && Ok::<JsonValue, String>(
                JsonValue::Array(final(self)@.last().args),
            ) == args && plain_detail(final(self)@.last().detail, true, "host-binding-local-approver"@),
            !r ==> final(self)@ == old(self)@,
    {
        match args {
            Ok(JsonValue::Array(items)) => {
                let detail = ApprovalDecisionInfo {
                    accepted: true,
                    decider: owned("host-binding-local-approver"),
                    rationale: None,
                };
                self.mark_preapproved_request(site_name, items, detail);
                assert(self@.drop_last() =~= old(self)@);
                true
            },
            _ => false,
        }
    }

    /// Decides a request at an approval site as far as this side can: the
    /// oldest preapproved entry answers it when it is for the same label
    /// and arguments (and is used up); otherwise the host is asked.
    pub fn decide_registered_approval(&mut self, req: &ApprovalRequest) -> (r: RegisteredApprovalStep)
        ensures
            front_matches(old(self)@, *req) ==> {
                &&& final(self)@ == old(self)@.drop_first()
                &&& r == RegisteredApprovalStep::Preapproved {
                    decision: if old(self)@[0].detail.accepted {
                        ApprovalDecision::Approve
                    } else {
                        ApprovalDecision::Deny
                    },
                    detail: old(self)@[0].detail,
                }
            },
            !front_matches(old(self)@, *req) ==> {
                &&& final(self)@ == old(self)@
                &&& r matches RegisteredApprovalStep::AskHost(q) && is_site_approval_request(q, *req)
            },
    {
        let matches = self.queue.len() > 0 && str_eq(&self.queue[0].label, &req.label)
            && json_list_eq(&self.queue[0].args, &req.args);
        if matches {
            let entry = self.queue.remove(0);
            let decision = if entry.detail.accepted {
                ApprovalDecision::Approve
            } else {
                ApprovalDecision::Deny
            };
            return RegisteredApprovalStep::Preapproved { decision, detail: entry.detail };
        }
        let rationale = cat3("Approval required for `", req.label.as_str(), "`.");
        RegisteredApprovalStep::AskHost(
            OwnedApprovalRequired {
                site_name: owned(&req.label),
                predicate_json: request_predicate_text(&req.label),
                args_json: args_array_text(&req.args),
                rationale_prompt: rationale,
            },
        )
    }
}

/// The decision a host approval comes to for a request at an approval
/// site, and the detail to keep as the last one (an acceptance keeps its
/// detail; a refusal has recorded its own already).
pub fn approval_from_host(outcome: ApprovalRequestOutcome) -> (r: (ApprovalDecision, Option<ApprovalDecisionInfo>))
    ensures
        match outcome {
            ApprovalRequestOutcome::Accepted(d) => r == (ApprovalDecision::Approve, Some(d)),
            ApprovalRequestOutcome::MissingOrRejected => r == (ApprovalDecision::Deny, None::<ApprovalDecisionInfo>),
        },
{
    match outcome {
        ApprovalRequestOutcome::Accepted(d) => (ApprovalDecision::Approve, Some(d)),
        ApprovalRequestOutcome::MissingOrRejected => (ApprovalDecision::Deny, None),
    }
}

/// A request marked as preapproved on an empty queue is answered by that
/// entry: the same label and arguments match it, and answering uses it up.
pub proof fn marked_request_answers_itself(
    q: Seq<PreapprovedRequest>,
    e: PreapprovedRequest,
    req: ApprovalRequest,
)
    requires
        q.len() == 0,
        req.label@ == e.label@,
        req.args@ == e.args@,
    ensures
        front_matches(q.push(e), req),
        q.push(e).drop_first() == q,
{
    lemma_lists_same_refl(e.args@);
    assert(q.push(e).drop_first() =~= q);
}

/// Marking a request never lets it jump the queue: behind an earlier entry,
/// whether a request is answered, and what is left, are as they were with
/// the new entry appended behind.
pub proof fn later_marks_wait_their_turn(
    q: Seq<PreapprovedRequest>,
    e: PreapprovedRequest,
    req: ApprovalRequest,
)
    requires
        q.len() > 0,
    ensures
        front_matches(q.push(e), req) == front_matches(q, req),
        q.push(e).drop_first() == q.drop_first().push(e),
{
    assert(q.push(e)[0] == q[0]);
    assert(q.push(e).drop_first() =~= q.drop_first().push(e));
}

} // verus!
