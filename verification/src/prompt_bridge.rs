//! Typed prompt calls: the system prompt sent to a model, the reading of
//! its reply as a typed value, and the retry rule between attempts.

use vstd::prelude::*;
use crate::text::{ascii_lower, chars_of, lower_chars, owned, push_str, string_from_chars, trim, trim_chars};

verus! {

pub open spec fn int_format() -> Seq<char> {
    "Output only a single integer literal — no quotes, no explanation, no formatting, no thousands separators. Examples: 42, -7, 0."@
}

pub open spec fn bool_format() -> Seq<char> {
    "Output only the word `true` or `false` — lowercase, no quotes, no explanation, no surrounding text."@
}

pub open spec fn float_format() -> Seq<char> {
    "Output only a single decimal number — no quotes, no explanation, no scientific notation prefix beyond what `f64::parse` accepts. Examples: 3.14, -0.5, 42.0."@
}

/// How an `Int` reply must be formatted.
pub fn format_instruction_int() -> (r: &'static str)
    ensures
        r@ == int_format(),
{
    "Output only a single integer literal — no quotes, no explanation, no formatting, no thousands separators. Examples: 42, -7, 0."
}

/// How a `Bool` reply must be formatted.
pub fn format_instruction_bool() -> (r: &'static str)
    ensures
        r@ == bool_format(),
{
    "Output only the word `true` or `false` — lowercase, no quotes, no explanation, no surrounding text."
}

/// How a `Float` reply must be formatted.
pub fn format_instruction_float() -> (r: &'static str)
    ensures
        r@ == float_format(),
{
    "Output only a single decimal number — no quotes, no explanation, no scientific notation prefix beyond what `f64::parse` accepts. Examples: 3.14, -0.5, 42.0."
}

/// The system prompt of attempt `attempt` (from 0): the signature and
/// format; on a retry, the previous unparsable reply; from the third
/// attempt on, a last-attempt warning.
pub open spec fn system_prompt(signature: Seq<char>, format: Seq<char>, attempt: u32, last_failure: Option<Seq<char>>) -> Seq<char> {
    "You are a function with signature `"@ + signature
        + "`. The user message contains the rendered prompt body. Compute and return the appropriate value, formatted as follows.\n\nFormat: "@
        + format + (if attempt > 0 && last_failure is Some {
        "\n\nIMPORTANT: Your previous response `"@ + last_failure->Some_0
            + "` could not be parsed. Respond with ONLY the value in the exact format described above — nothing else, no surrounding text, no explanation."@
    } else {
        Seq::empty()
    }) + (if attempt >= 2 {
        "\n\nThis is your last attempt. The format requirements are absolute."@
    } else {
        Seq::empty()
    })
}

pub fn build_system_prompt(signature: &str, format_instruction: &str, attempt: u32, last_failure: Option<&str>) -> (r: String)
    ensures
        r@ == system_prompt(
            signature@,
            format_instruction@,
            attempt,
            match last_failure {
                Some(p) => Some(p@),
                None => None,
            },
        ),
{
    let mut sys = owned("You are a function with signature `");
    push_str(&mut sys, signature);
    push_str(
        &mut sys,
        "`. The user message contains the rendered prompt body. Compute and return the appropriate value, formatted as follows.\n\nFormat: ",
    );
    push_str(&mut sys, format_instruction);
    let ghost head = sys@;
    if attempt > 0 {
        match last_failure {
            Some(prev) => {
                push_str(&mut sys, "\n\nIMPORTANT: Your previous response `");
                push_str(&mut sys, prev);
                push_str(
                    &mut sys,
                    "` could not be parsed. Respond with ONLY the value in the exact format described above — nothing else, no surrounding text, no explanation.",
                );
            },
            None => {},
        }
    }
    let ghost mid = sys@;
    if attempt >= 2 {
        push_str(&mut sys, "\n\nThis is your last attempt. The format requirements are absolute.");
    }
    proof {
        let lf = match last_failure {
            Some(p) => Some(p@),
            None => None,
        };
        assert(mid =~= head + (if attempt > 0 && lf is Some {
            "\n\nIMPORTANT: Your previous response `"@ + lf->Some_0
                + "` could not be parsed. Respond with ONLY the value in the exact format described above — nothing else, no surrounding text, no explanation."@
        } else {
            Seq::empty()
        }));
        assert(sys@ =~= system_prompt(signature@, format_instruction@, attempt, lf));
    }
    sys
}

// ---------------------------------------------------------------------
// Reading replies

pub open spec fn ends_with(s: Seq<char>, suffix: Seq<char>) -> bool {
    suffix.len() <= s.len() && s.subrange(s.len() - suffix.len(), s.len() as int) == suffix
}

pub open spec fn fence() -> Seq<char> {
    seq!['`', '`', '`']
}

/// Index of the first `c` in `s`, or -1.
pub open spec fn first_index(s: Seq<char>, c: char) -> int
    decreases s.len(),
{
    if s.len() == 0 {
        -1
    } else if s[0] == c {
        0
    } else if first_index(s.drop_first(), c) < 0 {
        -1
    } else {
        first_index(s.drop_first(), c) + 1
    }
}

/// A reply without surrounding whitespace and without one layer of
/// code fence (and the language tag on the fence's first line).
pub open spec fn stripped(s: Seq<char>) -> Seq<char> {
    let t = trim(s);
    if t.len() >= 6 && t.subrange(0, 3) == fence() && ends_with(t, fence()) {
        let inner = t.subrange(3, t.len() - 3);
        let nl = first_index(inner, '\n');
        trim(
            if nl >= 0 {
                inner.subrange(nl + 1, inner.len() as int)
            } else {
                inner
            },
        )
    } else {
        t
    }
}

proof fn lemma_first_index(s: Seq<char>, c: char)
    ensures
        -1 <= first_index(s, c) < s.len(),
        first_index(s, c) >= 0 ==> s[first_index(s, c)] == c,
        forall|k: int| 0 <= k < s.len() && (first_index(s, c) < 0 || k < first_index(s, c)) ==> s[k] != c,
    decreases s.len(),
{
    if s.len() > 0 {
        lemma_first_index(s.drop_first(), c);
        assert forall|k: int| 0 < k < s.len() implies s[k] == s.drop_first()[k - 1] by {}
    }
}

pub(crate) fn slice_of(v: &Vec<char>, lo: usize, hi: usize) -> (r: Vec<char>)
    requires
        lo <= hi <= v@.len(),
    ensures
        r@ == v@.subrange(lo as int, hi as int),
{
    let mut r: Vec<char> = Vec::new();
    let mut i = lo;
    while i < hi
        invariant
            lo <= i <= hi <= v@.len(),
            r@ == v@.subrange(lo as int, i as int),
        decreases hi - i,
    {
        r.push(v[i]);
        i = i + 1;
        assert(r@ =~= v@.subrange(lo as int, i as int));
    }
    r
}

fn stripped_chars(s: &str) -> (r: Vec<char>)
    ensures
        r@ == stripped(s@),
{
    let t = trim_chars(&chars_of(s));
    let n = t.len();
    if n >= 6 && t[0] == '`' && t[1] == '`' && t[2] == '`' && t[n - 3] == '`' && t[n - 2] == '`' && t[n - 1] == '`' {
        proof {
            assert(t@.subrange(0, 3) =~= fence());
            assert(t@.subrange(t@.len() - 3, t@.len() as int) =~= fence());
        }
        let inner = slice_of(&t, 3, n - 3);
        let mut k: usize = 0;
        while k < inner.len() && inner[k] != '\n'
            invariant
                k <= inner@.len(),
                forall|j: int| 0 <= j < k ==> inner@[j] != '\n',
            decreases inner.len() - k,
        {
            k = k + 1;
        }
        proof {
            lemma_first_index(inner@, '\n');
        }
        if k < inner.len() {
            assert(first_index(inner@, '\n') == k);
            let after = slice_of(&inner, k + 1, inner.len());
            trim_chars(&after)
        } else {
            assert(first_index(inner@, '\n') < 0);
            trim_chars(&inner)
        }
    } else {
        proof {
            if n >= 6 && t@.subrange(0, 3) == fence() && ends_with(t@, fence()) {
                assert(t@[0] == t@.subrange(0, 3)[0]);
                assert(t@[1] == t@.subrange(0, 3)[1]);
                assert(t@[2] == t@.subrange(0, 3)[2]);
                assert(t@[n - 3] == t@.subrange(n - 3, n as int)[0]);
                assert(t@[n - 2] == t@.subrange(n - 3, n as int)[1]);
                assert(t@[n - 1] == t@.subrange(n - 3, n as int)[2]);
            }
        }
        t
    }
}

/// A reply without its code fence and surrounding whitespace (see
/// [`stripped`]).
pub fn strip_response(s: &str) -> (r: String)
    ensures
        r@ == stripped(s@),
{
    let v = stripped_chars(s);
    string_from_chars(&v)
}

pub open spec fn is_quote(c: char) -> bool {
    c == '"' || c == '\''
}

pub open spec fn trim_quotes_start(s: Seq<char>) -> Seq<char>
    decreases s.len(),
{
    if s.len() > 0 && is_quote(s[0]) {
        trim_quotes_start(s.drop_first())
    } else {
        s
    }
}

pub open spec fn trim_quotes_end(s: Seq<char>) -> Seq<char>
    decreases s.len(),
{
    if s.len() > 0 && is_quote(s.last()) {
        trim_quotes_end(s.drop_last())
    } else {
        s
    }
}

/// Leading and trailing quote characters removed (`trim_matches`).
pub open spec fn trim_quotes(s: Seq<char>) -> Seq<char> {
    trim_quotes_end(trim_quotes_start(s))
}

fn trim_quote_chars(v: &Vec<char>) -> (r: Vec<char>)
    ensures
        r@ == trim_quotes(v@),
{
    let mut lo: usize = 0;
    assert(v@.subrange(0, v@.len() as int) =~= v@);
    while lo < v.len() && (v[lo] == '"' || v[lo] == '\'')
        invariant
            lo <= v@.len(),
            trim_quotes_start(v@) == trim_quotes_start(v@.subrange(lo as int, v@.len() as int)),
        decreases v.len() - lo,
    {
        assert(v@.subrange(lo as int, v@.len() as int).drop_first() =~= v@.subrange(lo + 1, v@.len() as int));
        lo = lo + 1;
    }
    assert(trim_quotes_start(v@) == v@.subrange(lo as int, v@.len() as int));
    let mut hi: usize = v.len();
    while hi > lo && (v[hi - 1] == '"' || v[hi - 1] == '\'')
        invariant
            lo <= hi <= v@.len(),
            trim_quotes(v@) == trim_quotes_end(v@.subrange(lo as int, hi as int)),
        decreases hi,
    {
        assert(v@.subrange(lo as int, hi as int).drop_last() =~= v@.subrange(lo as int, hi - 1));
        hi = hi - 1;
    }
    assert(trim_quotes(v@) == v@.subrange(lo as int, hi as int));
    slice_of(v, lo, hi)
}

pub open spec fn is_digit(c: char) -> bool {
    '0' <= c && c <= '9'
}

pub open spec fn all_digits(s: Seq<char>) -> bool {
    forall|i: int| 0 <= i < s.len() ==> is_digit(#[trigger] s[i])
}

/// The number a run of decimal digits spells.
pub open spec fn digits_value(s: Seq<char>) -> nat
    decreases s.len(),
{
    if s.len() == 0 {
        0
    } else {
        digits_value(s.drop_last()) * 10 + ((s.last() as u32) - ('0' as u32)) as nat
    }
}

/// What `i64::from_str` accepts: an optional sign and at least one
/// digit, with a value in range.
pub open spec fn parsed_i64(t: Seq<char>) -> Option<i64> {
    let neg = t.len() > 0 && t[0] == '-';
    let signed = t.len() > 0 && (t[0] == '-' || t[0] == '+');
    let body = if signed {
        t.drop_first()
    } else {
        t
    };
    if body.len() == 0 || !all_digits(body) {
        None
    } else {
        let v: int = if neg {
            -(digits_value(body) as int)
        } else {
            digits_value(body) as int
        };
        if i64::MIN <= v <= i64::MAX {
            Some(v as i64)
        } else {
            None
        }
    }
}

pub proof fn lemma_digits_grow(s: Seq<char>, i: int)
    requires
        0 <= i <= s.len(),
        all_digits(s),
    ensures
        digits_value(s.take(i)) <= digits_value(s),
    decreases s.len() - i,
{
    if i < s.len() {
        lemma_digits_grow(s, i + 1);
        assert(s.take(i + 1).drop_last() =~= s.take(i));
        assert(is_digit(s[i]));
    } else {
        assert(s.take(i) =~= s);
    }
}

/// Parses an `i64` as `str::parse` does.
pub(crate) fn parse_i64(t: &Vec<char>) -> (r: Option<i64>)
    ensures
        r == parsed_i64(t@),
{
    let neg = t.len() > 0 && t[0] == '-';
    let signed = t.len() > 0 && (t[0] == '-' || t[0] == '+');
    let body = if signed {
        slice_of(t, 1, t.len())
    } else {
        slice_of(t, 0, t.len())
    };
    proof {
        if signed {
            assert(body@ =~= t@.drop_first());
        } else {
            assert(body@ =~= t@);
        }
    }
    if body.len() == 0 {
        return None;
    }
    let limit: u128 = 9223372036854775808;
    let mut acc: u128 = 0;
    let mut i: usize = 0;
    while i < body.len()
        invariant
            limit == 9223372036854775808u128,
            body@.len() > 0,
            neg == (t@.len() > 0 && t@[0] == '-'),
            signed == (t@.len() > 0 && (t@[0] == '-' || t@[0] == '+')),
            body@ == (if signed { t@.drop_first() } else { t@ }),
            i <= body@.len(),
            all_digits(body@.take(i as int)),
            acc == digits_value(body@.take(i as int)),
            acc <= limit,
        decreases body.len() - i,
    {
        let c = body[i];
        if !('0' <= c && c <= '9') {
            assert(!is_digit(body@[i as int]));
            return None;
        }
        let d = (c as u32 - 48) as u128;
        proof {
            assert(body@.take(i + 1).drop_last() =~= body@.take(i as int));
            assert(body@.take(i + 1).last() == c);
        }
        let next = acc * 10 + d;
        assert(next == digits_value(body@.take(i + 1)));
        if next > limit {
            proof {
                assert(all_digits(body@.take(i + 1)));
                let rest_ok = all_digits(body@);
                if rest_ok {
                    lemma_digits_grow(body@, i + 1);
                }
            }
            return None;
        }
        acc = next;
        i = i + 1;
    }
    assert(body@.take(body@.len() as int) =~= body@);
    if neg {
        if acc == limit {
            Some(i64::MIN)
        } else {
            Some(-(acc as i64))
        }
    } else if acc == limit {
        None
    } else {
        Some(acc as i64)
    }
}

/// The `Int` a reply stands for: the stripped reply, quotes and then
/// whitespace trimmed, parsed as an `i64`.
pub open spec fn reply_int(s: Seq<char>) -> Option<i64> {
    parsed_i64(trim(trim_quotes(stripped(s))))
}

pub fn parse_int(s: &str) -> (r: Option<i64>)
    ensures
        r == reply_int(s@),
{
    let t = stripped_chars(s);
    let q = trim_quote_chars(&t);
    let w = trim_chars(&q);
    parse_i64(&w)
}

/// The `Bool` a reply stands for: the stripped reply, whitespace and then
/// quotes trimmed, in ASCII lowercase: `true`, `1`, `yes` or `false`,
/// `0`, `no`.
pub open spec fn reply_bool(s: Seq<char>) -> Option<bool> {
    let w = ascii_lower(trim_quotes(trim(stripped(s))));
    if w == "true"@ || w == "1"@ || w == "yes"@ {
        Some(true)
    } else if w == "false"@ || w == "0"@ || w == "no"@ {
        Some(false)
    } else {
        None
    }
}

fn is_word(v: &Vec<char>, w: &str) -> (r: bool)
    ensures
        r == (v@ == w@),
{
    let wv = chars_of(w);
    if v.len() != wv.len() {
        return false;
    }
    let mut i: usize = 0;
    while i < v.len()
        invariant
            v@.len() == wv@.len(),
            wv@ == w@,
            i <= v@.len(),
            forall|k: int| 0 <= k < i ==> v@[k] == wv@[k],
        decreases v.len() - i,
    {
        if v[i] != wv[i] {
            return false;
        }
        i = i + 1;
    }
    assert(v@ =~= wv@);
    true
}

pub fn parse_bool(s: &str) -> (r: Option<bool>)
    ensures
        r == reply_bool(s@),
{
    let t = stripped_chars(s);
    let w = trim_chars(&t);
    let q = trim_quote_chars(&w);
    let l = lower_chars(&q);
    if is_word(&l, "true") || is_word(&l, "1") || is_word(&l, "yes") {
        Some(true)
    } else if is_word(&l, "false") || is_word(&l, "0") || is_word(&l, "no") {
        Some(false)
    } else {
        None
    }
}

// ---------------------------------------------------------------------
// Retrying

/// What one attempt at a typed prompt call produced.
#[derive(Debug, Clone, Copy, PartialEq, Eq, Structural)]
pub enum PromptAttempt {
    /// The model adapter failed.
    AdapterFailed,
    /// The reply did not parse as the expected type.
    Unparsed,
    /// The reply parsed.
    Parsed,
}

/// What a typed prompt call does after an attempt.
#[derive(Debug, Clone, Copy, PartialEq, Eq, Structural)]
pub enum PromptStep {
    /// Ask again.
    Retry,
    /// Return the parsed value.
    Finish,
    /// Stop: the adapter failed on the last attempt.
    AdapterExhausted,
    /// Stop: no reply parsed.
    ParseExhausted,
}

/// After attempt `attempt` (from 0) of `max_retries + 1`: a parsed reply
/// finishes; otherwise the call retries while attempts are left and then
/// gives up for the last attempt's reason.
pub open spec fn prompt_step(attempt: u32, max_retries: u32, outcome: PromptAttempt) -> PromptStep {
    match outcome {
        PromptAttempt::Parsed => PromptStep::Finish,
        PromptAttempt::AdapterFailed => if attempt >= max_retries {
            PromptStep::AdapterExhausted
        } else {
            PromptStep::Retry
        },
        PromptAttempt::Unparsed => if attempt >= max_retries {
            PromptStep::ParseExhausted
        } else {
            PromptStep::Retry
        },
    }
}

pub fn next_prompt_step(attempt: u32, max_retries: u32, outcome: PromptAttempt) -> (r: PromptStep)
    ensures
        r == prompt_step(attempt, max_retries, outcome),
{
    match outcome {
        PromptAttempt::Parsed => PromptStep::Finish,
        PromptAttempt::AdapterFailed => if attempt >= max_retries {
            PromptStep::AdapterExhausted
        } else {
            PromptStep::Retry
        },
        PromptAttempt::Unparsed => if attempt >= max_retries {
            PromptStep::ParseExhausted
        } else {
            PromptStep::Retry
        },
    }
}

/// A typed prompt call asks at most `max_retries + 1` times: it never
/// retries after its last attempt.
pub proof fn prompt_calls_stop_after_the_last_attempt(max_retries: u32, outcome: PromptAttempt)
    ensures
        prompt_step(max_retries, max_retries, outcome) != PromptStep::Retry,
{
}

/// How a reply to a `Bool` prompt reads, over every reply: once the code
/// fence, surrounding whitespace and quotes are gone, the word `true`,
/// `1` or `yes` in any ASCII case is `true`, the word `false`, `0` or `no`
/// is `false`, and nothing else is a boolean.
pub proof fn bool_replies_read_as_their_word(s: Seq<char>)
    ensures
        ({
            let w = ascii_lower(trim_quotes(trim(stripped(s))));
            &&& (w == "true"@ || w == "1"@ || w == "yes"@) ==> reply_bool(s) == Some(true)
            &&& (w == "false"@ || w == "0"@ || w == "no"@) ==> reply_bool(s) == Some(false)
            &&& reply_bool(s) is Some ==> (w == "true"@ || w == "1"@ || w == "yes"@ || w == "false"@
                || w == "0"@ || w == "no"@)
        }),
{
    reveal_strlit("true");
    reveal_strlit("1");
    reveal_strlit("yes");
    reveal_strlit("false");
    reveal_strlit("0");
    reveal_strlit("no");
    let w = ascii_lower(trim_quotes(trim(stripped(s))));
    if w == "false"@ {
        assert(w != "true"@ && w != "1"@ && w != "yes"@) by {
            assert(w.len() == 5);
            assert(w[0] == 'f');
        }
    }
    if w == "0"@ {
        assert(w != "true"@ && w != "1"@ && w != "yes"@) by {
            assert(w.len() == 1);
            assert(w[0] == '0');
        }
    }
    if w == "no"@ {
        assert(w != "true"@ && w != "1"@ && w != "yes"@) by {
            assert(w.len() == 2);
        }
    }
}

} // verus!
