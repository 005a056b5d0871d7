//! JSON Web Key Sets as identity providers publish them (RFC 7517).

use vstd::prelude::*;
use crate::text::{cat, dec, owned, str_eq, u64_to_decimal};

verus! {

/// One public key. RSA keys carry `n` and `e`; EC keys `crv`, `x`, `y`;
/// OKP (EdDSA) keys `crv` and `x`. `key_use` is the document's `use`.
#[derive(Debug, Clone)]
pub struct JsonWebKey {
    pub kty: String,
    pub alg: Option<String>,
    pub kid: Option<String>,
    pub n: Option<String>,
    pub e: Option<String>,
    pub crv: Option<String>,
    pub x: Option<String>,
    pub y: Option<String>,
    pub key_use: Option<String>,
}

/// The keys a provider rotates through.
#[derive(Debug, Clone)]
pub struct JsonWebKeySet {
    pub keys: Vec<JsonWebKey>,
}

/// Where a host gets a provider's key set from. Production fetches it over
/// HTTP; tests hand over canned keys. On failure the fetcher says why.
pub trait JwksFetcher {
    fn fetch(&self, jwks_url: &str) -> Result<JsonWebKeySet, String>;
}

/// How long a fetched key set is served from the cache: ten minutes.
pub const DEFAULT_JWKS_TTL_MS: u64 = 600_000;

/// A key set as it was fetched from a URL, and when (in milliseconds of a
/// monotonic clock).
pub struct CachedJwks {
    pub url: String,
    pub keys: JsonWebKeySet,
    pub fetched_at_ms: u64,
}

/// The time since `fetched_at`, which is never negative: a clock reading
/// from before the fetch counts as no time at all.
pub open spec fn elapsed_ms(fetched_at: u64, now: u64) -> int {
    if now >= fetched_at {
        now - fetched_at
    } else {
        0
    }
}

/// A cached key set is served while less than the TTL has passed.
pub open spec fn is_fresh(fetched_at: u64, now: u64, ttl: u64) -> bool {
    elapsed_ms(fetched_at, now) < ttl
}

/// Fetched key sets, at most one per URL.
pub struct JwksCache {
    entries: Vec<CachedJwks>,
}

impl View for JwksCache {
    type V = Seq<CachedJwks>;

    closed spec fn view(&self) -> Seq<CachedJwks> {
        self.entries@
    }
}

/// No URL occurs twice.
pub open spec fn urls_unique(entries: Seq<CachedJwks>) -> bool {
    forall|i: int, j: int|
        0 <= i < entries.len() && 0 <= j < entries.len() && i != j ==> (#[trigger] entries[i]).url@
            != (#[trigger] entries[j]).url@
}

/// `new` is the cache `old` after a key set fetched from `url` at `now`
/// is kept: it replaces the entry for that URL, or is added after the
/// others.
pub open spec fn stored(
    old: Seq<CachedJwks>,
    new: Seq<CachedJwks>,
    url: Seq<char>,
    keys: JsonWebKeySet,
    now: u64,
) -> bool {
    let holds = |e: CachedJwks| e.url@ == url && e.keys == keys && e.fetched_at_ms == now;
    if exists|i: int| 0 <= i < old.len() && (#[trigger] old[i]).url@ == url {
        let i = choose|i: int| 0 <= i < old.len() && (#[trigger] old[i]).url@ == url;
        &&& new.len() == old.len()
        &&& holds(new[i])
        &&& forall|j: int| 0 <= j < old.len() && j != i ==> #[trigger] new[j] == old[j]
    } else {
        &&& new.len() == old.len() + 1
        &&& new.drop_last() == old
        &&& holds(new.last())
    }
}

/// The key set a cache serves for `url` at `now`, if it holds a fresh one.
pub open spec fn cached_keys(entries: Seq<CachedJwks>, url: Seq<char>, now: u64, ttl: u64) -> Option<
    JsonWebKeySet,
> {
    if exists|i: int|
        0 <= i < entries.len() && (#[trigger] entries[i]).url@ == url && is_fresh(
            entries[i].fetched_at_ms,
            now,
            ttl,
        ) {
        let i = choose|i: int|
            0 <= i < entries.len() && (#[trigger] entries[i]).url@ == url && is_fresh(
                entries[i].fetched_at_ms,
                now,
                ttl,
            );
        Some(entries[i].keys)
    } else {
        None
    }
}

impl JwksCache {
    pub closed spec fn wf(&self) -> bool {
        urls_unique(self.entries@)
    }

    /// An empty cache.
    pub fn new() -> (r: Self)
        ensures
            r.wf(),
            r@ == Seq::<CachedJwks>::empty(),
    {
        JwksCache { entries: Vec::new() }
    }

    /// The key set kept for `url`, if it was fetched less than `ttl_ms`
    /// before `now_ms`.
    pub fn lookup(&self, url: &str, now_ms: u64, ttl_ms: u64) -> (r: Option<&JsonWebKeySet>)
        requires
            self.wf(),
        ensures
            match r {
                Some(k) => cached_keys(self@, url@, now_ms, ttl_ms) == Some(*k),
                None => cached_keys(self@, url@, now_ms, ttl_ms) is None,
            },
    {
        let mut i: usize = 0;
        while i < self.entries.len()
            invariant
                i <= self.entries@.len(),
                urls_unique(self.entries@),
                forall|k: int| 0 <= k < i ==> (#[trigger] self.entries@[k]).url@ != url@,
            decreases self.entries@.len() - i,
        {
            let e = &self.entries[i];
            if str_eq(&e.url, url) {
                let elapsed = if now_ms >= e.fetched_at_ms {
                    now_ms - e.fetched_at_ms
                } else {
                    0
                };
                proof {
                    assert forall|k: int| 0 <= k < self.entries@.len() && (#[trigger] self.entries@[k]).url@ == url@ implies k == i by {
                        if k != i as int {
                            assert(self.entries@[k].url@ != self.entries@[i as int].url@);
                        }
                    }
                }
                if elapsed < ttl_ms {
                    return Some(&e.keys);
                } else {
                    return None;
                }
            }
            i += 1;
        }
        None
    }

    /// Keeps a key set fetched from `url` at `now_ms`, replacing the one
    /// kept for that URL before.
    pub fn store(&mut self, url: &str, keys: JsonWebKeySet, now_ms: u64)
        requires
            old(self).wf(),
        ensures
            final(self).wf(),
            stored(old(self)@, final(self)@, url@, keys, now_ms),
    {
        let entry = CachedJwks { url: owned(url), keys, fetched_at_ms: now_ms };
        let mut i: usize = 0;
        while i < self.entries.len()
            invariant
                i <= self.entries@.len(),
                self.entries@ == old(self).entries@,
                urls_unique(self.entries@),
                entry.url@ == url@ && entry.keys == keys && entry.fetched_at_ms == now_ms,
                forall|k: int| 0 <= k < i ==> (#[trigger] self.entries@[k]).url@ != url@,
            decreases self.entries@.len() - i,
        {
            if str_eq(&self.entries[i].url, url) {
                let ghost before = self.entries@;
                proof {
                    assert forall|k: int| 0 <= k < before.len() && (#[trigger] before[k]).url@ == url@ implies k == i by {
                        if k != i as int {
                            assert(before[k].url@ != before[i as int].url@);
                        }
                    }
                }
                self.entries.set(i, entry);
                proof {
                    let after = self.entries@;
                    assert forall|a: int, b: int|
                        0 <= a < after.len() && 0 <= b < after.len() && a != b implies (#[trigger] after[a]).url@
                            != (#[trigger] after[b]).url@ by {
                        assert(after[a].url@ == before[a].url@);
                        assert(after[b].url@ == before[b].url@);
                    }
                }
                return;
            }
            i += 1;
        }
        let ghost before = self.entries@;
        self.entries.push(entry);
        proof {
            let after = self.entries@;
            assert(after.drop_last() =~= before);
            assert forall|a: int, b: int|
                0 <= a < after.len() && 0 <= b < after.len() && a != b implies (#[trigger] after[a]).url@
                    != (#[trigger] after[b]).url@ by {
                if a < before.len() && b < before.len() {
                    assert(after[a] == before[a]);
                    assert(after[b] == before[b]);
                } else if a < before.len() {
                    assert(after[a] == before[a]);
                } else {
                    assert(after[b] == before[b]);
                }
            }
        }
    }
}

/// A key set just kept is served for its URL while less than the TTL has
/// passed since it was fetched, and not after.
pub proof fn kept_keys_are_served_until_stale(
    old: Seq<CachedJwks>,
    new: Seq<CachedJwks>,
    url: Seq<char>,
    keys: JsonWebKeySet,
    now: u64,
    later: u64,
    ttl: u64,
)
    requires
        urls_unique(old),
        urls_unique(new),
        stored(old, new, url, keys, now),
    ensures
        is_fresh(now, later, ttl) ==> cached_keys(new, url, later, ttl) == Some(keys),
        !is_fresh(now, later, ttl) ==> cached_keys(new, url, later, ttl) is None,
{
    let i: int = if exists|i: int| 0 <= i < old.len() && (#[trigger] old[i]).url@ == url {
        choose|i: int| 0 <= i < old.len() && (#[trigger] old[i]).url@ == url
    } else {
        old.len() as int
    };
    assert(0 <= i < new.len() && new[i].url@ == url && new[i].keys == keys && new[i].fetched_at_ms == now);
    assert forall|k: int| 0 <= k < new.len() && (#[trigger] new[k]).url@ == url implies k == i by {
        if k != i {
            assert(new[k].url@ != new[i].url@);
        }
    }
}

/// The failure for an answer from a JWKS endpoint: none for a success
/// status (200 to 299), otherwise the status in words.
pub fn jwks_status_error(status: u16) -> (r: Option<String>)
    ensures
        match r {
            None => 200 <= status <= 299,
            Some(m) => !(200 <= status <= 299) && m@ == "JWKS endpoint returned HTTP "@ + dec(
                status as nat,
            ),
        },
{
    if 200 <= status && status <= 299 {
        None
    } else {
        let code = u64_to_decimal(status as u64);
        Some(cat("JWKS endpoint returned HTTP ", &code))
    }
}

} // verus!
