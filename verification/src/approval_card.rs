//! The approval card: what an approver is shown before deciding. It
//! humanizes the label, infers the risk, redacts sensitive arguments and
//! renders the whole as text.
//!
//! Arguments arrive as JSON values.

use vstd::prelude::*;
use crate::approvals::{
    humanize_label, humanized, infer_risk, inferred_risk, is_sensitive_value, json_kind_text,
    json_type_name, risk_preview_label, risk_preview_text, sensitive_text, ApprovalRisk, JsonKind,
};
use crate::errors::{join, join_strings, views};
use crate::json::{json_text, render, JsonValue};
use crate::text::{cat, cat3, dec, owned, push_str, u64_to_decimal};

verus! {

/// What the runtime asks an approver to authorize: the label of the
/// `approve` statement and its arguments.
pub struct ApprovalRequest {
    pub label: String,
    pub args: Vec<JsonValue>,
}

/// One argument as the card shows it.
pub struct ApprovalCardArgument {
    pub index: usize,
    pub json_type: String,
    /// Compact JSON text; `"<redacted>"` for a sensitive argument.
    pub value: String,
    pub redacted: bool,
}

/// The card shown to an approver.
pub struct ApprovalCard {
    pub label: String,
    pub title: String,
    pub risk: ApprovalRisk,
    pub arguments: Vec<ApprovalCardArgument>,
    pub context: Vec<String>,
    pub diff_preview: Option<String>,
}

/// The JSON type of a value.
pub open spec fn kind_of(v: JsonValue) -> JsonKind {
    match v {
        JsonValue::Null => JsonKind::Null,
        JsonValue::Bool(_) => JsonKind::Bool,
        JsonValue::Number(_) => JsonKind::Number,
        JsonValue::String(_) => JsonKind::String,
        JsonValue::Array(_) => JsonKind::Array,
        JsonValue::Object(_) => JsonKind::Object,
    }
}

/// The JSON type of a value.
pub fn json_kind(v: &JsonValue) -> (r: JsonKind)
    ensures
        r == kind_of(*v),
{
    match v {
        JsonValue::Null => JsonKind::Null,
        JsonValue::Bool(_) => JsonKind::Bool,
        JsonValue::Number(_) => JsonKind::Number,
        JsonValue::String(_) => JsonKind::String,
        JsonValue::Array(_) => JsonKind::Array,
        JsonValue::Object(_) => JsonKind::Object,
    }
}

/// A string argument that mentions a secret, token or password, or holds
/// at least twelve digits.
pub open spec fn arg_sensitive(a: JsonValue) -> bool {
    a matches JsonValue::String(t) && sensitive_text(t@)
}

pub open spec fn redacted_json() -> Seq<char> {
    "\"<redacted>\""@
}

/// How the card shows argument `i`.
pub open spec fn shows_arg(c: ApprovalCardArgument, i: int, a: JsonValue) -> bool {
    &&& c.index == i
    &&& c.json_type@ == json_kind_text(kind_of(a))
    &&& c.redacted == arg_sensitive(a)
    &&& c.value@ == (if arg_sensitive(a) {
        redacted_json()
    } else {
        render(a)
    })
}

/// The number an argument is, as `f64` bits, when it is one.
pub open spec fn number_of(a: JsonValue) -> Option<u64> {
    match a {
        JsonValue::Number(n) => Some(n.bits),
        _ => None,
    }
}

pub open spec fn numbers_of(args: Seq<JsonValue>) -> Seq<Option<u64>> {
    args.map_values(|a: JsonValue| number_of(a))
}

pub open spec fn redacted_suffix(redacted: bool) -> Seq<char> {
    if redacted {
        " (redacted)"@
    } else {
        Seq::empty()
    }
}

/// `argN:type` for each argument.
pub open spec fn arg_types(args: Seq<ApprovalCardArgument>) -> Seq<Seq<char>> {
    args.map_values(|a: ApprovalCardArgument| "arg"@ + dec(a.index as nat) + ":"@ + a.json_type@)
}

/// The card's context lines: why it was asked, what one decision covers,
/// and what the arguments are.
pub open spec fn context_lines(label: Seq<char>, args: Seq<ApprovalCardArgument>) -> Seq<Seq<char>> {
    seq![
        "why: program requested approval `"@ + label + "` before a protected action"@,
        "scope: one decision covers this label and exact argument payload"@,
        "argument inspection: "@ + dec(args.len()) + " argument"@ + (if args.len() == 1 {
            Seq::empty()
        } else {
            "s"@
        }) + (if args.len() == 0 {
            Seq::empty()
        } else {
            " ("@ + join(arg_types(args), ", "@) + ")"@
        }),
    ]
}

pub open spec fn preview_line(a: ApprovalCardArgument) -> Seq<char> {
    "      - arg "@ + dec(a.index as nat) + " ["@ + a.json_type@ + "]"@ + redacted_suffix(a.redacted)
        + " = "@ + a.value@ + "\n"@
}

pub open spec fn preview_lines(args: Seq<ApprovalCardArgument>) -> Seq<char>
    decreases args.len(),
{
    if args.len() == 0 {
        Seq::empty()
    } else {
        preview_lines(args.drop_last()) + preview_line(args.last())
    }
}

/// The text without its trailing line breaks.
pub open spec fn without_trailing_newlines(s: Seq<char>) -> Seq<char>
    decreases s.len(),
{
    if s.len() > 0 && s.last() == '\n' {
        without_trailing_newlines(s.drop_last())
    } else {
        s
    }
}

/// What approving changes: the action blocked before, allowed after, and
/// the arguments it will run with.
pub open spec fn diff_preview_text(title: Seq<char>, risk: ApprovalRisk, args: Seq<ApprovalCardArgument>) -> Seq<char> {
    let head = "    before: protected action is blocked\n"@ + "    after: `"@ + title
        + "` may proceed as "@ + risk_preview_text(risk) + "\n"@;
    if args.len() == 0 {
        head + "    arguments: <none>"@
    } else {
        without_trailing_newlines(head + "    arguments:\n"@ + preview_lines(args))
    }
}

/// `{:?}` of a risk.
pub open spec fn risk_debug(risk: ApprovalRisk) -> Seq<char> {
    match risk {
        ApprovalRisk::Review => "Review"@,
        ApprovalRisk::MoneyMovement => "MoneyMovement"@,
        ApprovalRisk::ExternalSideEffect => "ExternalSideEffect"@,
        ApprovalRisk::Irreversible => "Irreversible"@,
    }
}

pub open spec fn render_arg(a: ApprovalCardArgument) -> Seq<char> {
    "  arg "@ + dec(a.index as nat) + " ["@ + a.json_type@ + "]"@ + redacted_suffix(a.redacted)
        + ": "@ + a.value@ + "\n"@
}

pub open spec fn render_args(args: Seq<ApprovalCardArgument>) -> Seq<char>
    decreases args.len(),
{
    if args.len() == 0 {
        Seq::empty()
    } else {
        render_args(args.drop_last()) + render_arg(args.last())
    }
}

pub open spec fn render_context(lines: Seq<Seq<char>>) -> Seq<char>
    decreases lines.len(),
{
    if lines.len() == 0 {
        Seq::empty()
    } else {
        render_context(lines.drop_last()) + "  context: "@ + lines.last() + "\n"@
    }
}

/// The card as text.
pub open spec fn card_text(c: ApprovalCard) -> Seq<char> {
    "corvid approval card\n"@ + "  action: "@ + c.title@ + "\n"@ + "  label: "@ + c.label@ + "\n"@
        + "  risk: "@ + risk_debug(c.risk) + "\n"@ + render_args(c.arguments@) + render_context(
        views(c.context@),
    ) + match c.diff_preview {
        Some(d) => "  preview:\n"@ + d@ + "\n"@,
        None => Seq::empty(),
    }
}

/// How the card shows argument `index`.
pub fn card_argument(index: usize, a: &JsonValue) -> (r: ApprovalCardArgument)
    ensures
        shows_arg(r, index as int, *a),
{
    let redacted = match a {
        JsonValue::String(t) => is_sensitive_value(t),
        _ => false,
    };
    let value = if redacted {
        owned("\"<redacted>\"")
    } else {
        json_text(a)
    };
    ApprovalCardArgument { index, json_type: owned(json_type_name(json_kind(a))), value, redacted }
}

fn index_text(i: usize) -> (r: String)
    ensures
        r@ == dec(i as nat),
{
    u64_to_decimal(i as u64)
}

/// The card's context lines (see [`context_lines`]).
pub fn build_context(label: &str, args: &Vec<ApprovalCardArgument>) -> (r: Vec<String>)
    ensures
        views(r@) == context_lines(label@, args@),
{
    let mut types: Vec<String> = Vec::new();
    let mut i: usize = 0;
    while i < args.len()
        invariant
            i <= args@.len(),
            views(types@) == arg_types(args@.take(i as int)),
        decreases args@.len() - i,
    {
        let a = &args[i];
        let n = index_text(a.index);
        let t = cat3("arg", &n, ":");
        let t2 = cat(&t, &a.json_type);
        let ghost before = views(types@);
        types.push(t2);
        assert(views(types@) =~= before.push(t2@));
        assert(arg_types(args@.take(i as int + 1)) =~= arg_types(args@.take(i as int)).push(
            "arg"@ + dec(a.index as nat) + ":"@ + a.json_type@,
        ));
        i += 1;
    }
    assert(args@.take(args@.len() as int) =~= args@);
    let why = cat3("why: program requested approval `", label, "` before a protected action");
    let scope = owned("scope: one decision covers this label and exact argument payload");
    let count = index_text(args.len());
    let mut inspection = cat3("argument inspection: ", &count, " argument");
    if args.len() != 1 {
        push_str(&mut inspection, "s");
    }
    let ghost plural = inspection@;
    assert(plural =~= "argument inspection: "@ + dec(args@.len()) + " argument"@ + (if args@.len() == 1 {
        Seq::empty()
    } else {
        "s"@
    }));
    if args.len() != 0 {
        let joined = join_strings(&types, ", ");
        push_str(&mut inspection, " (");
        push_str(&mut inspection, &joined);
        push_str(&mut inspection, ")");
        assert(inspection@ =~= plural + (" ("@ + join(arg_types(args@), ", "@) + ")"@));
    } else {
        assert(inspection@ =~= plural + Seq::<char>::empty());
    }
    let out = vec![why, scope, inspection];
    let ghost expected = context_lines(label@, args@);
    assert(views(out@)[0] == expected[0]);
    assert(views(out@)[1] == expected[1]);
    assert(views(out@)[2] == expected[2]);
    assert(views(out@) =~= expected);
    out
}

fn push_chars(v: &mut Vec<char>, s: &str)
    ensures
        final(v)@ == old(v)@ + s@,
{
    let c = crate::text::chars_of(s);
    let mut i: usize = 0;
    while i < c.len()
        invariant
            i <= c@.len(),
            v@ == old(v)@ + c@.take(i as int),
        decreases c@.len() - i,
    {
        v.push(c[i]);
        i += 1;
        assert(v@ =~= old(v)@ + c@.take(i as int));
    }
    assert(c@.take(c@.len() as int) =~= c@);
}

/// What approving changes (see [`diff_preview_text`]).
pub fn build_diff_preview(title: &str, risk: ApprovalRisk, args: &Vec<ApprovalCardArgument>) -> (r: String)
    ensures
        r@ == diff_preview_text(title@, risk, args@),
{
    let mut out: Vec<char> = Vec::new();
    push_chars(&mut out, "    before: protected action is blocked\n");
    push_chars(&mut out, "    after: `");
    push_chars(&mut out, title);
    push_chars(&mut out, "` may proceed as ");
    push_chars(&mut out, risk_preview_label(risk));
    push_chars(&mut out, "\n");
    let ghost head = out@;
    assert(head =~= "    before: protected action is blocked\n"@ + "    after: `"@ + title@
        + "` may proceed as "@ + risk_preview_text(risk) + "\n"@);
    if args.len() == 0 {
        push_chars(&mut out, "    arguments: <none>");
        return crate::text::string_from_chars(&out);
    }
    push_chars(&mut out, "    arguments:\n");
    let ghost lines_start = out@;
    let mut i: usize = 0;
    while i < args.len()
        invariant
            i <= args@.len(),
            out@ == lines_start + preview_lines(args@.take(i as int)),
        decreases args@.len() - i,
    {
        let a = &args[i];
        let n = index_text(a.index);
        push_chars(&mut out, "      - arg ");
        push_chars(&mut out, &n);
        push_chars(&mut out, " [");
        push_chars(&mut out, &a.json_type);
        push_chars(&mut out, "]");
        if a.redacted {
            push_chars(&mut out, " (redacted)");
        }
        push_chars(&mut out, " = ");
        push_chars(&mut out, &a.value);
        push_chars(&mut out, "\n");
        assert(args@.take(i as int + 1).drop_last() =~= args@.take(i as int));
        assert(out@ =~= lines_start + preview_lines(args@.take(i as int + 1)));
        i += 1;
    }
    assert(args@.take(args@.len() as int) =~= args@);
    let ghost full = out@;
    while out.len() > 0 && out[out.len() - 1] == '\n'
        invariant
            without_trailing_newlines(out@) == without_trailing_newlines(full),
        decreases out@.len(),
    {
        out.pop();
    }
    crate::text::string_from_chars(&out)
}

impl ApprovalCard {
    /// The card shown for `req`.
    pub fn from_request(req: &ApprovalRequest) -> (r: ApprovalCard)
        ensures
            r.label@ == req.label@,
            r.title@ == humanized(req.label@),
            r.risk == inferred_risk(req.label@, numbers_of(req.args@)),
            r.arguments@.len() == req.args@.len(),
            forall|i: int| 0 <= i < req.args@.len() ==> shows_arg(#[trigger] r.arguments@[i], i, req.args@[i]),
            views(r.context@) == context_lines(req.label@, r.arguments@),
            r.diff_preview matches Some(d) && d@ == diff_preview_text(r.title@, r.risk, r.arguments@),
    {
        let mut arguments: Vec<ApprovalCardArgument> = Vec::new();
        let mut numbers: Vec<Option<u64>> = Vec::new();
        let mut i: usize = 0;
        while i < req.args.len()
            invariant
                i <= req.args@.len(),
                arguments@.len() == i,
                numbers@ == numbers_of(req.args@.take(i as int)),
                forall|k: int| 0 <= k < i ==> shows_arg(#[trigger] arguments@[k], k, req.args@[k]),
            decreases req.args@.len() - i,
        {
            let a = card_argument(i, &req.args[i]);
            arguments.push(a);
            let n = match &req.args[i] {
                JsonValue::Number(n) => Some(n.bits),
                _ => None,
            };
            numbers.push(n);
            assert(numbers@ =~= numbers_of(req.args@.take(i as int + 1)));
            i += 1;
        }
        assert(req.args@.take(req.args@.len() as int) =~= req.args@);
        let title = humanize_label(&req.label);
        let risk = infer_risk(&req.label, numbers.as_slice());
        let context = build_context(&req.label, &arguments);
        let preview = build_diff_preview(&title, risk, &arguments);
        ApprovalCard {
            label: owned(&req.label),
            title,
            risk,
            arguments,
            context,
            diff_preview: Some(preview),
        }
    }
}

/// `{:?}` of a risk.
pub fn risk_debug_text(risk: ApprovalRisk) -> (r: &'static str)
    ensures
        r@ == risk_debug(risk),
{
    match risk {
        ApprovalRisk::Review => "Review",
        ApprovalRisk::MoneyMovement => "MoneyMovement",
        ApprovalRisk::ExternalSideEffect => "ExternalSideEffect",
        ApprovalRisk::Irreversible => "Irreversible",
    }
}

impl ApprovalCard {
    /// The card as text (see [`card_text`]).
    pub fn render_text(&self) -> (r: String)
        ensures
            r@ == card_text(*self),
    {
        let mut out = owned("corvid approval card\n");
        push_str(&mut out, "  action: ");
        push_str(&mut out, &self.title);
        push_str(&mut out, "\n");
        push_str(&mut out, "  label: ");
        push_str(&mut out, &self.label);
        push_str(&mut out, "\n");
        push_str(&mut out, "  risk: ");
        push_str(&mut out, risk_debug_text(self.risk));
        push_str(&mut out, "\n");
        let ghost head = out@;
        let mut i: usize = 0;
        while i < self.arguments.len()
            invariant
                i <= self.arguments@.len(),
                out@ == head + render_args(self.arguments@.take(i as int)),
            decreases self.arguments@.len() - i,
        {
            let a = &self.arguments[i];
            let n = index_text(a.index);
            push_str(&mut out, "  arg ");
            push_str(&mut out, &n);
            push_str(&mut out, " [");
            push_str(&mut out, &a.json_type);
            push_str(&mut out, "]");
            if a.redacted {
                push_str(&mut out, " (redacted)");
            }
            push_str(&mut out, ": ");
            push_str(&mut out, &a.value);
            push_str(&mut out, "\n");
            assert(self.arguments@.take(i as int + 1).drop_last() =~= self.arguments@.take(i as int));
            assert(out@ =~= head + render_args(self.arguments@.take(i as int + 1)));
            i += 1;
        }
        assert(self.arguments@.take(self.arguments@.len() as int) =~= self.arguments@);
        let ghost mid = out@;
        let mut j: usize = 0;
        while j < self.context.len()
            invariant
                j <= self.context@.len(),
                out@ == mid + render_context(views(self.context@.take(j as int))),
            decreases self.context@.len() - j,
        {
            push_str(&mut out, "  context: ");
            push_str(&mut out, &self.context[j]);
            push_str(&mut out, "\n");
            assert(views(self.context@.take(j as int + 1)).drop_last() =~= views(self.context@.take(j as int)));
            assert(views(self.context@.take(j as int + 1)).last() == self.context@[j as int]@);
            assert(out@ =~= mid + render_context(views(self.context@.take(j as int + 1))));
            j += 1;
        }
        assert(self.context@.take(self.context@.len() as int) =~= self.context@);
        match &self.diff_preview {
            Some(d) => {
                push_str(&mut out, "  preview:\n");
                push_str(&mut out, d);
                push_str(&mut out, "\n");
            },
            None => {},
        }
        out
    }
}

} // verus!
