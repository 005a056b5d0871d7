//! Approval tokens: the receipt an approval grants, checked and spent by
//! the next protected call.
//!
//! Arguments are carried as their JSON text (two arguments are the same
//! exactly when their texts are), with the `f64` bits of the numeric
//! ones.

use vstd::prelude::*;
use crate::floatbits::{abs, bits_abs, bits_lt, lt};
use crate::text::{cat3, owned, str_eq};

verus! {

/// One argument of a protected call.
pub struct ApprovalArg {
    /// The argument's JSON text.
    pub json: String,
    /// The argument as an `f64` (its bits), when it is a number.
    pub number_bits: Option<u64>,
}

/// What a token covers besides its label and arguments.
pub enum ApprovalTokenScope {
    OneTime,
    Session { session_id: String },
    AmountLimited { max_amount_bits: u64 },
    TimeLimited { expires_at_ms: u64 },
    ArgumentBound { args: Vec<String> },
}

/// A granted approval, spendable `uses_remaining` more times.
pub struct ApprovalToken {
    pub token_id: String,
    pub label: String,
    /// The JSON text of each argument the approval was granted for.
    pub args: Vec<String>,
    pub scope: ApprovalTokenScope,
    pub issued_at_ms: u64,
    pub expires_at_ms: u64,
    pub uses_remaining: u32,
}

/// Why a token does not cover a call.
pub enum TokenRefusal {
    NoUsesLeft,
    LabelMismatch { token_label: String, requested_label: String },
    Expired,
    SessionMismatch,
    AmountMissing,
    AmountExceeded { requested_bits: u64, max_amount_bits: u64 },
    ScopeExpired,
    ScopeArgumentsMismatch,
    IssuedArgumentsMismatch,
}

impl TokenRefusal {
    /// The refusal's message; an exceeded amount is reported with its two
    /// numbers, which are formatted by the caller.
    pub fn message(&self) -> (r: Option<String>)
        ensures
            r is None <==> self is AmountExceeded,
            r matches Some(m) ==> m@ == refusal_message(*self),
    {
        match self {
            TokenRefusal::NoUsesLeft => Some(owned("token has no remaining uses")),
            TokenRefusal::LabelMismatch { token_label, requested_label } => {
                let mut m = cat3("token label `", token_label.as_str(), "` does not match requested label `");
                crate::text::push_str(&mut m, requested_label.as_str());
                crate::text::push_str(&mut m, "`");
                Some(m)
            },
            TokenRefusal::Expired => Some(owned("token expired")),
            TokenRefusal::SessionMismatch => Some(owned("token session does not match current session")),
            TokenRefusal::AmountMissing => Some(owned("amount-limited token requires at least one numeric argument")),
            TokenRefusal::AmountExceeded { .. } => None,
            TokenRefusal::ScopeExpired => Some(owned("token time-limited scope expired")),
            TokenRefusal::ScopeArgumentsMismatch => Some(owned("token arguments do not match current arguments")),
            TokenRefusal::IssuedArgumentsMismatch => Some(owned("token arguments do not match issued arguments")),
        }
    }
}

pub open spec fn refusal_message(r: TokenRefusal) -> Seq<char> {
    match r {
        TokenRefusal::NoUsesLeft => "token has no remaining uses"@,
        TokenRefusal::LabelMismatch { token_label, requested_label } => "token label `"@ + token_label@
            + "` does not match requested label `"@ + requested_label@ + "`"@,
        TokenRefusal::Expired => "token expired"@,
        TokenRefusal::SessionMismatch => "token session does not match current session"@,
        TokenRefusal::AmountMissing => "amount-limited token requires at least one numeric argument"@,
        TokenRefusal::AmountExceeded { .. } => Seq::empty(),
        TokenRefusal::ScopeExpired => "token time-limited scope expired"@,
        TokenRefusal::ScopeArgumentsMismatch => "token arguments do not match current arguments"@,
        TokenRefusal::IssuedArgumentsMismatch => "token arguments do not match issued arguments"@,
    }
}

pub open spec fn texts(v: Seq<String>) -> Seq<Seq<char>> {
    v.map_values(|s: String| s@)
}

pub open spec fn arg_texts(args: Seq<ApprovalArg>) -> Seq<Seq<char>> {
    args.map_values(|a: ApprovalArg| a.json@)
}

/// The numeric argument of largest magnitude among the first `n` (the
/// last of equals, and any that does not compare, wins).
pub open spec fn largest_amount(args: Seq<ApprovalArg>, n: int) -> Option<u64>
    decreases n,
{
    if n <= 0 {
        None
    } else {
        let best = largest_amount(args, n - 1);
        match args[n - 1].number_bits {
            None => best,
            Some(v) => match best {
                None => Some(v),
                Some(b) => if lt(abs(v), abs(b)) {
                    Some(b)
                } else {
                    Some(v)
                },
            },
        }
    }
}

/// The reasons a token can refuse a call, in the order they are checked.
#[derive(Debug, Clone, Copy, PartialEq, Eq, Structural)]
pub enum RefusalKind {
    NoUsesLeft,
    LabelMismatch,
    Expired,
    SessionMismatch,
    AmountMissing,
    AmountExceeded,
    ScopeExpired,
    ScopeArgumentsMismatch,
    IssuedArgumentsMismatch,
}

/// Why token `t` does not cover a call of `label` with `args` at `now`
/// in session `session`, if it does not: spent, another label, expired,
/// outside its scope, or other arguments than it was granted for.
pub open spec fn token_refusal(
    t: ApprovalToken,
    label: Seq<char>,
    args: Seq<ApprovalArg>,
    now: u64,
    session: Option<Seq<char>>,
) -> Option<RefusalKind> {
    if t.uses_remaining == 0 {
        Some(RefusalKind::NoUsesLeft)
    } else if t.label@ != label {
        Some(RefusalKind::LabelMismatch)
    } else if now > t.expires_at_ms {
        Some(RefusalKind::Expired)
    } else {
        let scope = match t.scope {
            ApprovalTokenScope::OneTime => None,
            ApprovalTokenScope::Session { session_id } => if session != Some(session_id@) {
                Some(RefusalKind::SessionMismatch)
            } else {
                None
            },
            ApprovalTokenScope::AmountLimited { max_amount_bits } => match largest_amount(
                args,
                args.len() as int,
            ) {
                None => Some(RefusalKind::AmountMissing),
                Some(v) => if lt(max_amount_bits, abs(v)) {
                    Some(RefusalKind::AmountExceeded)
                } else {
                    None
                },
            },
            ApprovalTokenScope::TimeLimited { expires_at_ms } => if now > expires_at_ms {
                Some(RefusalKind::ScopeExpired)
            } else {
                None
            },
            ApprovalTokenScope::ArgumentBound { args: expected } => if texts(expected@) != arg_texts(
                args,
            ) {
                Some(RefusalKind::ScopeArgumentsMismatch)
            } else {
                None
            },
        };
        if scope is Some {
            scope
        } else if !(t.scope is ArgumentBound) && texts(t.args@) != arg_texts(args) {
            Some(RefusalKind::IssuedArgumentsMismatch)
        } else {
            None
        }
    }
}

/// `r` is the refusal of kind `k` for this token and call.
pub open spec fn refusal_is(r: TokenRefusal, k: RefusalKind, t: ApprovalToken, label: Seq<char>, args: Seq<ApprovalArg>) -> bool {
    match k {
        RefusalKind::NoUsesLeft => r is NoUsesLeft,
        RefusalKind::LabelMismatch => r matches TokenRefusal::LabelMismatch { token_label, requested_label }
            && token_label@ == t.label@ && requested_label@ == label,
        RefusalKind::Expired => r is Expired,
        RefusalKind::SessionMismatch => r is SessionMismatch,
        RefusalKind::AmountMissing => r is AmountMissing,
        RefusalKind::AmountExceeded => r matches TokenRefusal::AmountExceeded { requested_bits, max_amount_bits }
            && Some(requested_bits) == largest_amount(args, args.len() as int)
            && t.scope == (ApprovalTokenScope::AmountLimited { max_amount_bits }),
        RefusalKind::ScopeExpired => r is ScopeExpired,
        RefusalKind::ScopeArgumentsMismatch => r is ScopeArgumentsMismatch,
        RefusalKind::IssuedArgumentsMismatch => r is IssuedArgumentsMismatch,
    }
}

fn largest_numeric_arg(args: &[ApprovalArg]) -> (r: Option<u64>)
    ensures
        r == largest_amount(args@, args@.len() as int),
{
    let mut best: Option<u64> = None;
    let mut i: usize = 0;
    while i < args.len()
        invariant
            i <= args@.len(),
            best == largest_amount(args@, i as int),
        decreases args.len() - i,
    {
        match args[i].number_bits {
            None => {},
            Some(v) => {
                best = match best {
                    None => Some(v),
                    Some(b) => if bits_lt(bits_abs(v), bits_abs(b)) {
                        Some(b)
                    } else {
                        Some(v)
                    },
                };
            },
        }
        i = i + 1;
    }
    best
}

fn same_texts(expected: &Vec<String>, args: &[ApprovalArg]) -> (r: bool)
    ensures
        r == (texts(expected@) == arg_texts(args@)),
{
    if expected.len() != args.len() {
        assert(texts(expected@).len() != arg_texts(args@).len());
        return false;
    }
    let mut i: usize = 0;
    while i < expected.len()
        invariant
            expected@.len() == args@.len(),
            i <= expected@.len(),
            forall|k: int| 0 <= k < i ==> texts(expected@)[k] == arg_texts(args@)[k],
        decreases expected.len() - i,
    {
        if !str_eq(expected[i].as_str(), args[i].json.as_str()) {
            assert(texts(expected@)[i as int] != arg_texts(args@)[i as int]);
            return false;
        }
        i = i + 1;
    }
    assert(texts(expected@) =~= arg_texts(args@));
    true
}

impl ApprovalToken {
    /// Checks that the token covers a call of `label` with `args` at
    /// `now_ms` in session `session_id` (see [`token_refusal`]); when it
    /// does, one use is spent, otherwise the token is left as it was.
    pub fn validate(&mut self, label: &str, args: &[ApprovalArg], now_ms: u64, session_id: Option<&str>) -> (r: Result<(), TokenRefusal>)
        ensures
            ({
                let s = match session_id {
                    Some(x) => Some(x@),
                    None => None,
                };
                match token_refusal(*old(self), label@, args@, now_ms, s) {
                    None => r is Ok && *final(self) == (ApprovalToken {
                        uses_remaining: (old(self).uses_remaining - 1) as u32,
                        ..*old(self)
                    }),
                    Some(k) => r matches Err(e) && refusal_is(e, k, *old(self), label@, args@) && *final(self) == *old(self),
                }
            }),
    {
        if self.uses_remaining == 0 {
            return Err(TokenRefusal::NoUsesLeft);
        }
        if !str_eq(self.label.as_str(), label) {
            return Err(TokenRefusal::LabelMismatch { token_label: self.label.clone(), requested_label: owned(label) });
        }
        if now_ms > self.expires_at_ms {
            return Err(TokenRefusal::Expired);
        }
        let bound = match &self.scope {
            ApprovalTokenScope::OneTime => false,
            ApprovalTokenScope::Session { session_id: expected } => {
                let same = match session_id {
                    Some(x) => str_eq(x, expected.as_str()),
                    None => false,
                };
                if !same {
                    return Err(TokenRefusal::SessionMismatch);
                }
                false
            },
            ApprovalTokenScope::AmountLimited { max_amount_bits } => {
                match largest_numeric_arg(args) {
                    None => {
                        return Err(TokenRefusal::AmountMissing);
                    },
                    Some(v) => {
                        if bits_lt(*max_amount_bits, bits_abs(v)) {
                            return Err(TokenRefusal::AmountExceeded { requested_bits: v, max_amount_bits: *max_amount_bits });
                        }
                    },
                }
                false
            },
            ApprovalTokenScope::TimeLimited { expires_at_ms } => {
                if now_ms > *expires_at_ms {
                    return Err(TokenRefusal::ScopeExpired);
                }
                false
            },
            ApprovalTokenScope::ArgumentBound { args: expected } => {
                if !same_texts(expected, args) {
                    return Err(TokenRefusal::ScopeArgumentsMismatch);
                }
                true
            },
        };
        if !bound && !same_texts(&self.args, args) {
            return Err(TokenRefusal::IssuedArgumentsMismatch);
        }
        self.uses_remaining = self.uses_remaining - 1;
        Ok(())
    }
}

/// A token granted for one use covers one call only: once it has been
/// spent, the same call is refused for want of uses.
pub proof fn single_use_token_is_spent_once(
    t: ApprovalToken,
    label: Seq<char>,
    args: Seq<ApprovalArg>,
    now: u64,
    session: Option<Seq<char>>,
    later: u64,
    label2: Seq<char>,
    args2: Seq<ApprovalArg>,
    session2: Option<Seq<char>>,
)
    requires
        t.uses_remaining == 1,
        token_refusal(t, label, args, now, session) is None,
    ensures
        token_refusal(ApprovalToken { uses_remaining: 0, ..t }, label2, args2, later, session2)
            == Some(RefusalKind::NoUsesLeft),
{
}

/// An expired token covers no call.
pub proof fn expired_token_covers_nothing(
    t: ApprovalToken,
    label: Seq<char>,
    args: Seq<ApprovalArg>,
    now: u64,
    session: Option<Seq<char>>,
)
    requires
        now > t.expires_at_ms,
    ensures
        token_refusal(t, label, args, now, session) is Some,
{
}

/// A token covers only calls of its own label.
pub proof fn token_covers_only_its_label(
    t: ApprovalToken,
    label: Seq<char>,
    args: Seq<ApprovalArg>,
    now: u64,
    session: Option<Seq<char>>,
)
    requires
        token_refusal(t, label, args, now, session) is None,
    ensures
        t.label@ == label,
        t.uses_remaining > 0,
        now <= t.expires_at_ms,
{
}

/// A time-limited token covers no call after its scope's own expiry,
/// whatever the token's outer expiry; a call it covers comes at or before
/// that time. Validating such a call refuses it and spends nothing.
pub proof fn time_limited_scope_expires(
    t: ApprovalToken,
    label: Seq<char>,
    args: Seq<ApprovalArg>,
    now: u64,
    session: Option<Seq<char>>,
    scope_expiry: u64,
)
    requires
        t.scope == (ApprovalTokenScope::TimeLimited { expires_at_ms: scope_expiry }),
    ensures
        now > scope_expiry ==> token_refusal(t, label, args, now, session) is Some,
        token_refusal(t, label, args, now, session) is None ==> now <= scope_expiry && now <= t.expires_at_ms,
{
}

/// A token covers a call only within its scope: in its own session, for
/// an amount within its limit, before its scope's expiry, for the
/// arguments it is bound to; and, unless bound to arguments, only for the
/// arguments it was issued for.
pub proof fn covered_calls_lie_within_the_scope(
    t: ApprovalToken,
    label: Seq<char>,
    args: Seq<ApprovalArg>,
    now: u64,
    session: Option<Seq<char>>,
)
    requires
        token_refusal(t, label, args, now, session) is None,
    ensures
        t.scope matches ApprovalTokenScope::Session { session_id } ==> session == Some(session_id@),
        t.scope matches ApprovalTokenScope::AmountLimited { max_amount_bits } ==> largest_amount(
            args,
            args.len() as int,
        ) matches Some(v) && !lt(max_amount_bits, abs(v)),
        t.scope matches ApprovalTokenScope::TimeLimited { expires_at_ms } ==> now <= expires_at_ms,
        t.scope matches ApprovalTokenScope::ArgumentBound { args: bound } ==> texts(bound@) == arg_texts(args),
        !(t.scope is ArgumentBound) ==> texts(t.args@) == arg_texts(args),
{
}

} // verus!
