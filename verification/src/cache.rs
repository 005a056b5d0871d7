//! Cache keys: a stable fingerprint of everything a cached result
//! depends on, plus the effect and provenance keys it is invalidated by.

use vstd::prelude::*;
use vstd::utf8::encode_utf8;
use crate::digest::{encode_hex, hex_digit, hex_text, sha256_digest, sha256_of_text};
use crate::errors::RuntimeError;

use crate::text::{blank, chars_of, is_blank, owned, push_str, string_from_chars};

verus! {

/// What a cache key is computed from. `args_json` is the compact JSON
/// text of the call's arguments.
pub struct CacheKeyInput {
    pub namespace: String,
    pub subject: String,
    pub model: Option<String>,
    pub effect_key: Option<String>,
    pub provenance_key: Option<String>,
    pub version: Option<String>,
    pub args_json: String,
}

pub struct CacheKey {
    pub namespace: String,
    pub subject: String,
    pub fingerprint: String,
    pub effect_key: Option<String>,
    pub provenance_key: Option<String>,
}

pub struct CacheEntryMetadata {
    pub key: CacheKey,
    pub replay_safe: bool,
    pub invalidation_key: Option<String>,
}

/// Bundles a key with its replay and invalidation settings.
pub fn cache_entry_metadata(key: CacheKey, replay_safe: bool, invalidation_key: Option<String>) -> (r: CacheEntryMetadata)
    ensures
        r.key == key,
        r.replay_safe == replay_safe,
        r.invalidation_key == invalidation_key,
{
    CacheEntryMetadata { key, replay_safe, invalidation_key }
}

/// One character inside a JSON string literal, escaped as `serde_json`
/// writes it.
pub open spec fn json_escape_char(c: char) -> Seq<char> {
    if c == '"' {
        seq!['\\', '"']
    } else if c == '\\' {
        seq!['\\', '\\']
    } else if (c as u32) == 0x08 {
        seq!['\\', 'b']
    } else if (c as u32) == 0x09 {
        seq!['\\', 't']
    } else if (c as u32) == 0x0a {
        seq!['\\', 'n']
    } else if (c as u32) == 0x0c {
        seq!['\\', 'f']
    } else if (c as u32) == 0x0d {
        seq!['\\', 'r']
    } else if (c as u32) < 0x20 {
        seq!['\\', 'u', '0', '0', hex_digit(((c as u32) / 16) as nat), hex_digit(((c as u32) % 16) as nat)]
    } else {
        seq![c]
    }
}

pub open spec fn json_escape(s: Seq<char>) -> Seq<char>
    decreases s.len(),
{
    if s.len() == 0 {
        Seq::empty()
    } else {
        json_escape(s.drop_last()) + json_escape_char(s.last())
    }
}

/// A JSON string literal.
pub open spec fn json_string(s: Seq<char>) -> Seq<char> {
    seq!['"'] + json_escape(s) + seq!['"']
}

/// A JSON string literal, or `null`.
pub open spec fn json_opt(o: Option<String>) -> Seq<char> {
    match o {
        Some(s) => json_string(s@),
        None => seq!['n', 'u', 'l', 'l'],
    }
}

/// The canonical JSON object of a key's inputs, keys in sorted order.
pub open spec fn canonical_key_json(i: CacheKeyInput) -> Seq<char> {
    "{\"args\":"@ + i.args_json@ + ",\"effect_key\":"@ + json_opt(i.effect_key) + ",\"model\":"@
        + json_opt(i.model) + ",\"namespace\":"@ + json_string(i.namespace@)
        + ",\"provenance_key\":"@ + json_opt(i.provenance_key) + ",\"subject\":"@ + json_string(
        i.subject@,
    ) + ",\"version\":"@ + json_opt(i.version) + "}"@
}

fn hex_char_of(n: u32) -> (c: char)
    requires
        n < 16,
    ensures
        c == hex_digit(n as nat),
{
    if n < 10 {
        ((48 + n) as u8) as char
    } else {
        ((87 + n) as u8) as char
    }
}

pub(crate) fn put_escaped(out: &mut Vec<char>, s: &str)
    ensures
        final(out)@ == old(out)@ + json_escape(s@),
{
    let v = chars_of(s);
    let mut i: usize = 0;
    while i < v.len()
        invariant
            i <= v@.len(),
            v@ == s@,
            out@ == old(out)@ + json_escape(v@.take(i as int)),
        decreases v.len() - i,
    {
        let c = v[i];
        let u = c as u32;
        let ghost before = out@;
        if c == '"' {
            out.push('\\');
            out.push('"');
        } else if c == '\\' {
            out.push('\\');
            out.push('\\');
        } else if u == 0x08 {
            out.push('\\');
            out.push('b');
        } else if u == 0x09 {
            out.push('\\');
            out.push('t');
        } else if u == 0x0a {
            out.push('\\');
            out.push('n');
        } else if u == 0x0c {
            out.push('\\');
            out.push('f');
        } else if u == 0x0d {
            out.push('\\');
            out.push('r');
        } else if u < 0x20 {
            out.push('\\');
            out.push('u');
            out.push('0');
            out.push('0');
            out.push(hex_char_of(u / 16));
            out.push(hex_char_of(u % 16));
        } else {
            out.push(c);
        }
        proof {
            assert(v@.take(i + 1).drop_last() =~= v@.take(i as int));
            assert(out@ =~= before + json_escape_char(c));
        }
        i = i + 1;
        assert(out@ =~= old(out)@ + json_escape(v@.take(i as int)));
    }
    assert(v@.take(v@.len() as int) =~= v@);
}

fn put_text(out: &mut Vec<char>, s: &str)
    ensures
        final(out)@ == old(out)@ + s@,
{
    let v = chars_of(s);
    let mut i: usize = 0;
    while i < v.len()
        invariant
            i <= v@.len(),
            v@ == s@,
            out@ == old(out)@ + v@.take(i as int),
        decreases v.len() - i,
    {
        out.push(v[i]);
        i = i + 1;
        assert(out@ =~= old(out)@ + v@.take(i as int));
    }
    assert(v@.take(v@.len() as int) =~= v@);
}

fn put_json_string(out: &mut Vec<char>, s: &str)
    ensures
        final(out)@ == old(out)@ + json_string(s@),
{
    out.push('"');
    put_escaped(out, s);
    out.push('"');
    assert(final(out)@ =~= old(out)@ + json_string(s@));
}

fn put_json_opt(out: &mut Vec<char>, o: &Option<String>)
    ensures
        final(out)@ == old(out)@ + json_opt(*o),
{
    match o {
        Some(s) => put_json_string(out, s.as_str()),
        None => {
            out.push('n');
            out.push('u');
            out.push('l');
            out.push('l');
            assert(final(out)@ =~= old(out)@ + json_opt(*o));
        },
    }
}

/// The canonical JSON text of a key's inputs (see [`canonical_key_json`]).
#[verifier::rlimit(40)]
pub fn canonical_key_text(input: &CacheKeyInput) -> (r: String)
    ensures
        r@ == canonical_key_json(*input),
{
    let mut out: Vec<char> = Vec::new();
    put_text(&mut out, "{\"args\":");
    put_text(&mut out, input.args_json.as_str());
    put_text(&mut out, ",\"effect_key\":");
    put_json_opt(&mut out, &input.effect_key);
    put_text(&mut out, ",\"model\":");
    put_json_opt(&mut out, &input.model);
    put_text(&mut out, ",\"namespace\":");
    put_json_string(&mut out, input.namespace.as_str());
    put_text(&mut out, ",\"provenance_key\":");
    put_json_opt(&mut out, &input.provenance_key);
    put_text(&mut out, ",\"subject\":");
    put_json_string(&mut out, input.subject.as_str());
    put_text(&mut out, ",\"version\":");
    put_json_opt(&mut out, &input.version);
    put_text(&mut out, "}");
    assert(out@ =~= canonical_key_json(*input));
    string_from_chars(&out)
}

/// Builds a cache key: a blank namespace or subject is refused;
/// otherwise the fingerprint is the hex SHA-256 digest of the canonical
/// JSON of the inputs.
pub fn build_cache_key(input: CacheKeyInput) -> (r: Result<CacheKey, RuntimeError>)
    ensures
        blank(input.namespace@) ==> (r matches Err(RuntimeError::Other(m)) && m@
            == "std.cache key namespace must not be empty"@),
        !blank(input.namespace@) && blank(input.subject@) ==> (r matches Err(
            RuntimeError::Other(m),
        ) && m@ == "std.cache key subject must not be empty"@),
        !blank(input.namespace@) && !blank(input.subject@) ==> (r matches Ok(k) && k.namespace
            == input.namespace && k.subject == input.subject && k.effect_key == input.effect_key
            && k.provenance_key == input.provenance_key && k.fingerprint@ == hex_text(
            sha256_digest(encode_utf8(canonical_key_json(input))),
        )),
{
    if is_blank(input.namespace.as_str()) {
        return Err(RuntimeError::Other(owned("std.cache key namespace must not be empty")));
    }
    if is_blank(input.subject.as_str()) {
        return Err(RuntimeError::Other(owned("std.cache key subject must not be empty")));
    }
    let text = canonical_key_text(&input);
    let digest = sha256_of_text(text.as_str());
    let fingerprint = encode_hex(digest.as_slice());
    let CacheKeyInput { namespace, subject, effect_key, provenance_key, .. } = input;
    Ok(CacheKey { namespace, subject, fingerprint, effect_key, provenance_key })
}

/// `{"error": message}` as compact JSON text.
pub fn json_error_object(message: &str) -> (r: String)
    ensures
        r@ == "{\"error\":\""@ + json_escape(message@) + "\"}"@,
{
    let mut out = chars_of("{\"error\":\"");
    put_escaped(&mut out, message);
    let mut r = string_from_chars(&out);
    push_str(&mut r, "\"}");
    r
}

} // verus!
