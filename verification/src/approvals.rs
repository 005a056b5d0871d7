//! The approval flow's vocabulary: risks, decisions, and the wording an
//! approval card is built from.

use vstd::prelude::*;
use crate::floatbits::{abs, bits_abs, bits_le, le};
use crate::text::{ascii_lower, chars_of, contains, contains_chars, lower_chars, string_from_chars, upper_chars, char_upper};

verus! {

/// How risky an approved action is.
#[derive(Debug, Clone, Copy, PartialEq, Eq, Structural)]
pub enum ApprovalRisk {
    Review,
    MoneyMovement,
    ExternalSideEffect,
    Irreversible,
}

/// An approver's answer.
#[derive(Debug, Clone, Copy, PartialEq, Eq, Structural)]
pub enum ApprovalDecision {
    Approve,
    Deny,
}

/// The interactive approver: prints the card and reads a y/n line.
pub struct StdinApprover;

impl StdinApprover {
    pub fn new() -> (r: StdinApprover) {
        StdinApprover
    }
}

/// What an approver typed means: `y` or `yes` (any case, surrounding
/// whitespace ignored) approves, anything else denies.
pub open spec fn answer_decision(trimmed_lower: Seq<char>) -> ApprovalDecision {
    if trimmed_lower == seq!['y'] || trimmed_lower == seq!['y', 'e', 's'] {
        ApprovalDecision::Approve
    } else {
        ApprovalDecision::Deny
    }
}

/// Decides from an answer line (see [`answer_decision`]).
pub fn decision_from_answer(line: &str) -> (r: ApprovalDecision)
    ensures
        r == answer_decision(ascii_lower(crate::text::trim(line@))),
{
    let t = crate::text::trim_chars(&chars_of(line));
    let l = lower_chars(&t);
    let yes1 = l.len() == 1 && l[0] == 'y';
    let yes3 = l.len() == 3 && l[0] == 'y' && l[1] == 'e' && l[2] == 's';
    proof {
        if l@.len() == 1 && l@[0] == 'y' {
            assert(l@ =~= seq!['y']);
        }
        if l@.len() == 3 && l@[0] == 'y' && l@[1] == 'e' && l@[2] == 's' {
            assert(l@ =~= seq!['y', 'e', 's']);
        }
    }
    if yes1 || yes3 {
        ApprovalDecision::Approve
    } else {
        ApprovalDecision::Deny
    }
}

pub open spec fn risk_preview_text(risk: ApprovalRisk) -> Seq<char> {
    match risk {
        ApprovalRisk::Review => "a reviewed operation"@,
        ApprovalRisk::MoneyMovement => "a money-moving operation"@,
        ApprovalRisk::ExternalSideEffect => "an external side effect"@,
        ApprovalRisk::Irreversible => "an irreversible operation"@,
    }
}

/// How a card's preview describes an approved action of this risk.
pub fn risk_preview_label(risk: ApprovalRisk) -> (r: &'static str)
    ensures
        r@ == risk_preview_text(risk),
{
    match risk {
        ApprovalRisk::Review => "a reviewed operation",
        ApprovalRisk::MoneyMovement => "a money-moving operation",
        ApprovalRisk::ExternalSideEffect => "an external side effect",
        ApprovalRisk::Irreversible => "an irreversible operation",
    }
}

pub open spec fn is_ascii_upper(c: char) -> bool {
    'A' <= c && c <= 'Z'
}

/// Characters `1 .. n` of a label, a space put before each ASCII
/// capital.
pub open spec fn spaced_tail(s: Seq<char>, n: int) -> Seq<char>
    decreases n,
{
    if n <= 1 {
        Seq::empty()
    } else {
        spaced_tail(s, n - 1) + if is_ascii_upper(s[n - 1]) {
            seq![' ', s[n - 1]]
        } else {
            seq![s[n - 1]]
        }
    }
}

/// `_` and `-` turned into spaces.
pub open spec fn dashes_to_spaces(t: Seq<char>) -> Seq<char> {
    t.map_values(|c: char| if c == '_' || c == '-' { ' ' } else { c })
}

/// The card title of a label: first character upper-cased, a space
/// before every later ASCII capital, `_` and `-` read as spaces
/// (`ChargeCard` is `Charge Card`).
pub open spec fn humanized(label: Seq<char>) -> Seq<char> {
    if label.len() == 0 {
        Seq::empty()
    } else {
        dashes_to_spaces(char_upper(label[0]) + spaced_tail(label, label.len() as int))
    }
}

pub fn humanize_label(label: &str) -> (r: String)
    ensures
        r@ == humanized(label@),
{
    let v = chars_of(label);
    if v.len() == 0 {
        return String::new();
    }
    let mut out: Vec<char> = upper_chars(v[0]);
    let ghost head = out@;
    let mut i: usize = 1;
    while i < v.len()
        invariant
            1 <= i <= v@.len(),
            out@ == head + spaced_tail(v@, i as int),
        decreases v.len() - i,
    {
        let c = v[i];
        if 'A' <= c && c <= 'Z' {
            out.push(' ');
        }
        out.push(c);
        i = i + 1;
        assert(out@ =~= head + spaced_tail(v@, i as int));
    }
    let mut j: usize = 0;
    let ghost full = out@;
    while j < out.len()
        invariant
            j <= out@.len(),
            out@.len() == full.len(),
            forall|k: int| 0 <= k < j ==> out@[k] == dashes_to_spaces(full)[k],
            forall|k: int| j <= k < out@.len() ==> out@[k] == full[k],
        decreases out.len() - j,
    {
        let c = out[j];
        if c == '_' || c == '-' {
            out.set(j, ' ');
        }
        j = j + 1;
    }
    assert(out@ =~= dashes_to_spaces(full));
    string_from_chars(&out)
}

/// Bits of the `f64` value 100.0.
pub const HUNDRED_BITS: u64 = 0x4059_0000_0000_0000;

pub open spec fn mentions_any(s: Seq<char>, words: Seq<Seq<char>>) -> bool {
    exists|i: int| 0 <= i < words.len() && contains(s, #[trigger] words[i])
}

/// The risk of an approval label and its arguments, given as the `f64`
/// bits of each numeric argument (`None` for others): destructive words
/// first, then money words or an amount of at least 100 in magnitude,
/// then outbound words; anything else is a plain review.
pub open spec fn inferred_risk(label: Seq<char>, numbers: Seq<Option<u64>>) -> ApprovalRisk {
    let lower = ascii_lower(label);
    if contains(lower, "delete"@) || contains(lower, "irreversible"@) || contains(lower, "void"@) {
        ApprovalRisk::Irreversible
    } else if contains(lower, "refund"@) || contains(lower, "charge"@) || contains(lower, "payment"@)
        || (exists|i: int| 0 <= i < numbers.len() && (#[trigger] numbers[i]) is Some && le(
        HUNDRED_BITS,
        abs(numbers[i]->Some_0),
    )) {
        ApprovalRisk::MoneyMovement
    } else if contains(lower, "send"@) || contains(lower, "external"@) || contains(lower, "email"@) {
        ApprovalRisk::ExternalSideEffect
    } else {
        ApprovalRisk::Review
    }
}

fn has(hay: &Vec<char>, word: &str) -> (r: bool)
    ensures
        r == contains(hay@, word@),
{
    let w = chars_of(word);
    contains_chars(hay, &w)
}

pub fn infer_risk(label: &str, numbers: &[Option<u64>]) -> (r: ApprovalRisk)
    ensures
        r == inferred_risk(label@, numbers@),
{
    let lower = lower_chars(&chars_of(label));
    if has(&lower, "delete") || has(&lower, "irreversible") || has(&lower, "void") {
        return ApprovalRisk::Irreversible;
    }
    let mut big = false;
    let mut i: usize = 0;
    while i < numbers.len()
        invariant
            i <= numbers@.len(),
            big == (exists|k: int| 0 <= k < i && (#[trigger] numbers@[k]) is Some && le(
                HUNDRED_BITS,
                abs(numbers@[k]->Some_0),
            )),
        decreases numbers.len() - i,
    {
        match numbers[i] {
            Some(bits) => {
                if bits_le(HUNDRED_BITS, bits_abs(bits)) {
                    big = true;
                }
            },
            None => {},
        }
        i = i + 1;
    }
    if has(&lower, "refund") || has(&lower, "charge") || has(&lower, "payment") || big {
        ApprovalRisk::MoneyMovement
    } else if has(&lower, "send") || has(&lower, "external") || has(&lower, "email") {
        ApprovalRisk::ExternalSideEffect
    } else {
        ApprovalRisk::Review
    }
}

/// The JSON type of an approval argument.
#[derive(Debug, Clone, Copy, PartialEq, Eq, Structural)]
pub enum JsonKind {
    Null,
    Bool,
    Number,
    String,
    Array,
    Object,
}

pub open spec fn json_kind_text(k: JsonKind) -> Seq<char> {
    match k {
        JsonKind::Null => "null"@,
        JsonKind::Bool => "bool"@,
        JsonKind::Number => "number"@,
        JsonKind::String => "string"@,
        JsonKind::Array => "array"@,
        JsonKind::Object => "object"@,
    }
}

pub fn json_type_name(k: JsonKind) -> (r: &'static str)
    ensures
        r@ == json_kind_text(k),
{
    match k {
        JsonKind::Null => "null",
        JsonKind::Bool => "bool",
        JsonKind::Number => "number",
        JsonKind::String => "string",
        JsonKind::Array => "array",
        JsonKind::Object => "object",
    }
}

pub open spec fn is_ascii_digit(c: char) -> bool {
    '0' <= c && c <= '9'
}

/// Number of ASCII digits among the first `n` characters.
pub open spec fn digit_count(s: Seq<char>, n: int) -> nat
    decreases n,
{
    if n <= 0 {
        0
    } else {
        digit_count(s, n - 1) + if is_ascii_digit(s[n - 1]) { 1nat } else { 0nat }
    }
}

/// A string argument is sensitive when it mentions a secret, token or
/// password (any case) or holds at least twelve digits.
pub open spec fn sensitive_text(text: Seq<char>) -> bool {
    let lower = ascii_lower(text);
    contains(lower, "secret"@) || contains(lower, "token"@) || contains(lower, "password"@)
        || digit_count(lower, lower.len() as int) >= 12
}

pub fn is_sensitive_value(text: &str) -> (r: bool)
    ensures
        r == sensitive_text(text@),
{
    let lower = lower_chars(&chars_of(text));
    if has(&lower, "secret") || has(&lower, "token") || has(&lower, "password") {
        return true;
    }
    let mut count: usize = 0;
    let mut i: usize = 0;
    while i < lower.len()
        invariant
            i <= lower@.len(),
            count == digit_count(lower@, i as int),
            count <= i,
        decreases lower.len() - i,
    {
        let c = lower[i];
        if '0' <= c && c <= '9' {
            count = count + 1;
        }
        i = i + 1;
    }
    count >= 12
}

} // verus!
