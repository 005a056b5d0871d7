//! Grounded-value attestations and the integer handles under which foreign
//! code holds them.
//!
//! The store owns every attestation that has been handed out: a handle is
//! the 64-bit form of a slot-map key, so a released handle is never
//! confused with a live one. Attestations waiting to be claimed are parked
//! by the address of the string they describe, or, for a scalar result, in
//! a single slot that the caller owns.

use vstd::prelude::*;
use slotmap::{DefaultKey, KeyData, SlotMap};
use std::collections::HashMap;
use crate::floatbits::{bits_is_finite, bits_lt, is_finite, lt, zero};
use crate::text::{owned, str_eq};

verus! {

broadcast use vstd::std_specs::hash::group_hash_axioms;

/// The handle that stands for "no attestation".
pub const NULL_GROUNDED_HANDLE: u64 = 0;

/// The bits of `1.0`.
pub const CONFIDENCE_ONE_BITS: u64 = 0x3ff0_0000_0000_0000;

/// One step of a value's provenance: the name of the source, and whether
/// the value was retrieved from it.
pub struct ProvenanceEntry {
    pub retrieval: bool,
    pub name: String,
}

/// What is known of a grounded value: where it came from and how much it
/// is trusted (an `f64` in `[0, 1]`, carried as its bits).
pub struct GroundedAttestation {
    pub provenance: Vec<ProvenanceEntry>,
    pub confidence_bits: u64,
}

/// The slot map that owns the attestations behind live handles. Its
/// contents are named by [`handle_contents`]; the wrappers below are the
/// only code that reads the field. The map is held in a field of this
/// struct because Verus does not accept a declaration of `SlotMap` itself
/// (its `K: Key` bound fails Verus's trait-conflict check).
#[verifier::external_body]
pub struct HandleMap {
    slots: SlotMap<DefaultKey, GroundedAttestation>,
}

/// What a slot map of attestations holds: each live key, in its 64-bit
/// form, with the attestation stored under it.
pub uninterp spec fn handle_contents(m: HandleMap) -> Map<
    u64,
    GroundedAttestation,
>;

/// The 64-bit form of the key that a handle names. A key's version is
/// always odd, so the key read back from `h` is the one whose 64-bit form
/// is `h` with bit 32 set.
pub open spec fn ffi_key(h: u64) -> u64 {
    h | 0x1_0000_0000u64
}

/// `SlotMap::with_key`: an empty slot map.
#[verifier::external_body]
fn slot_map_new() -> (r: HandleMap)
    ensures
        handle_contents(r).dom() == Set::<u64>::empty(),
{
    HandleMap { slots: SlotMap::with_key() }
}

/// `SlotMap::insert`, with the new key in its 64-bit form
/// (`KeyData::as_ffi`). The key is one that is not live; its version is
/// odd, so bit 32 of the result is set. Which free slot is taken is not
/// said: it depends on what was removed before, not on the contents alone.
/// The map panics only when every slot is taken and it already has
/// `u32::MAX` slots, which a map with fewer than `u32::MAX - 1` entries
/// never has.
#[verifier::external_body]
fn slot_map_insert(m: &mut HandleMap, value: GroundedAttestation) -> (h: u64)
    requires
        handle_contents(*old(m)).dom().finite(),
        handle_contents(*old(m)).len() + 1 < u32::MAX,
    ensures
        !handle_contents(*old(m)).contains_key(h),
        h == ffi_key(h),
        handle_contents(*final(m)) == handle_contents(*old(m)).insert(h, value),
        handle_contents(*final(m)).dom().finite(),
{
    slotmap::Key::data(&m.slots.insert(value)).as_ffi()
}

/// `SlotMap::get` for the key that `KeyData::from_ffi` reads back from `h`:
/// the slot at the low 32 bits answers when its version is the high 32
/// bits with the lowest bit set.
#[verifier::external_body]
fn slot_map_get(m: &HandleMap, h: u64) -> (r: Option<&GroundedAttestation>)
    ensures
        match r {
            Some(a) => handle_contents(*m).contains_key(ffi_key(h)) && *a == handle_contents(
                *m,
            )[ffi_key(h)],
            None => !handle_contents(*m).contains_key(ffi_key(h)),
        },
{
    m.slots.get(DefaultKey::from(KeyData::from_ffi(h)))
}

/// `SlotMap::remove` for the key that `KeyData::from_ffi` reads back from
/// `h`.
#[verifier::external_body]
fn slot_map_remove(m: &mut HandleMap, h: u64) -> (r: Option<GroundedAttestation>)
    ensures
        handle_contents(*final(m)) == handle_contents(*old(m)).remove(ffi_key(h)),
        handle_contents(*final(m)).dom().finite(),
        match r {
            Some(a) => handle_contents(*old(m)).contains_key(ffi_key(h)) && a == handle_contents(
                *old(m),
            )[ffi_key(h)],
            None => !handle_contents(*old(m)).contains_key(ffi_key(h)),
        },
{
    m.slots.remove(DefaultKey::from(KeyData::from_ffi(h)))
}

/// `SlotMap::len`: the number of live keys.
#[verifier::external_body]
fn slot_map_len(m: &HandleMap) -> (r: usize)
    ensures
        r == handle_contents(*m).len(),
{
    m.slots.len()
}

/// The distinct names of the sources that a value was retrieved from, in
/// the order in which they first occur.
pub open spec fn retrieval_names(entries: Seq<ProvenanceEntry>) -> Seq<Seq<char>>
    decreases entries.len(),
{
    if entries.len() == 0 {
        seq![]
    } else {
        let earlier = retrieval_names(entries.drop_last());
        let e = entries.last();
        if e.retrieval && !earlier.contains(e.name@) {
            earlier.push(e.name@)
        } else {
            earlier
        }
    }
}

/// The text of each string in a list.
pub open spec fn texts(v: Seq<String>) -> Seq<Seq<char>> {
    v.map_values(|s: String| s@)
}

/// A confidence brought into `[0, 1]`: a value that is not finite counts as
/// full confidence, and a finite one is clamped (`f64::clamp`, so `-0.0`
/// stays as it is).
pub open spec fn canonical_confidence(bits: u64) -> u64 {
    if !is_finite(bits) {
        CONFIDENCE_ONE_BITS
    } else if lt(bits, zero()) {
        zero()
    } else if lt(CONFIDENCE_ONE_BITS, bits) {
        CONFIDENCE_ONE_BITS
    } else {
        bits
    }
}

/// Brings a confidence into `[0, 1]` (see [`canonical_confidence`]).
pub fn canonicalize_confidence(bits: u64) -> (r: u64)
    ensures
        r == canonical_confidence(bits),
{
    if !bits_is_finite(bits) {
        CONFIDENCE_ONE_BITS
    } else if bits_lt(bits, 0u64) {
        0u64
    } else if bits_lt(CONFIDENCE_ONE_BITS, bits) {
        CONFIDENCE_ONE_BITS
    } else {
        bits
    }
}

/// An attestation for a value with the given provenance, its confidence
/// brought into `[0, 1]`.
pub fn make_attestation(provenance: Vec<ProvenanceEntry>, confidence_bits: u64) -> (r: GroundedAttestation)
    ensures
        r.provenance == provenance,
        r.confidence_bits == canonical_confidence(confidence_bits),
{
    GroundedAttestation { provenance, confidence_bits: canonicalize_confidence(confidence_bits) }
}

impl GroundedAttestation {
    /// The names of the sources the value was retrieved from, each once, in
    /// the order of their first retrieval.
    pub fn source_names(&self) -> (r: Vec<String>)
        ensures
            texts(r@) == retrieval_names(self.provenance@),
    {
        let mut out: Vec<String> = Vec::new();
        let mut i: usize = 0;
        while i < self.provenance.len()
            invariant
                i <= self.provenance@.len(),
                texts(out@) == retrieval_names(self.provenance@.take(i as int)),
            decreases self.provenance@.len() - i,
        {
            let entry = &self.provenance[i];
            assert(self.provenance@.take(i as int + 1).drop_last() =~= self.provenance@.take(
                i as int,
            ));
            assert(self.provenance@.take(i as int + 1).last() == *entry);
            if entry.retrieval {
                let mut seen = false;
                let mut j: usize = 0;
                while j < out.len()
                    invariant
                        j <= out@.len(),
                        seen <==> exists|k: int| 0 <= k < j && (#[trigger] out@[k])@ == entry.name@,
                    decreases out@.len() - j,
                {
                    if str_eq(&out[j], &entry.name) {
                        seen = true;
                    }
                    j += 1;
                }
                proof {
                    let earlier = texts(out@);
                    if seen {
                        let k = choose|k: int| 0 <= k < out@.len() && (#[trigger] out@[k])@ == entry.name@;
                        assert(earlier[k] == entry.name@);
                    } else {
                        assert forall|k: int| 0 <= k < earlier.len() implies earlier[k] != entry.name@ by {
                            assert(earlier[k] == out@[k]@);
                        }
                    }
                }
                if !seen {
                    let name = owned(&entry.name);
                    out.push(name);
                    assert(texts(out@) =~= texts(out@.drop_last()).push(entry.name@));
                }
            }
            i += 1;
        }
        assert(self.provenance@.take(self.provenance@.len() as int) =~= self.provenance@);
        out
    }
}

/// What a store holds: the attestation behind each live handle (by the
/// handle's key in 64-bit form), and the attestations parked by the
/// address of the string they describe.
pub type GroundedState = (Map<u64, GroundedAttestation>, Map<usize, GroundedAttestation>);

/// The attestation a handle stands for, if it is live. The null handle
/// stands for none.
pub open spec fn resolve(s: GroundedState, h: u64) -> Option<GroundedAttestation> {
    if h == NULL_GROUNDED_HANDLE || !s.0.contains_key(ffi_key(h)) {
        None
    } else {
        Some(s.0[ffi_key(h)])
    }
}

/// The store after an attestation is parked under a string's address; the
/// null address parks nothing.
pub open spec fn after_attach(s: GroundedState, string_ptr: usize, a: GroundedAttestation) -> GroundedState {
    if string_ptr == 0 {
        s
    } else {
        (s.0, s.1.insert(string_ptr, a))
    }
}

/// A handle `h` handed out for `a`, taking the store from `s` to `t`: a
/// key that was not live, now holding `a`.
pub open spec fn handed_out(s: GroundedState, a: GroundedAttestation, h: u64, t: GroundedState) -> bool {
    &&& h != NULL_GROUNDED_HANDLE
    &&& h == ffi_key(h)
    &&& !s.0.contains_key(h)
    &&& t.0 == s.0.insert(h, a)
}

/// Registering the attestation parked under `string_ptr`: it leaves the
/// parking place and gets a handle; with nothing parked there (or the
/// null address) the null handle comes back and nothing changes.
pub open spec fn registered_string(s: GroundedState, string_ptr: usize, h: u64, t: GroundedState) -> bool {
    if string_ptr == 0 || !s.1.contains_key(string_ptr) {
        h == NULL_GROUNDED_HANDLE && t == s
    } else {
        handed_out(s, s.1[string_ptr], h, t) && t.1 == s.1.remove(string_ptr)
    }
}

/// Registering the last scalar's attestation, if there is one.
pub open spec fn registered_scalar(
    s: GroundedState,
    last: Option<GroundedAttestation>,
    h: u64,
    t: GroundedState,
) -> bool {
    match last {
        None => h == NULL_GROUNDED_HANDLE && t == s,
        Some(a) => handed_out(s, a, h, t) && t.1 == s.1,
    }
}

/// Whether releasing `h` reports success: the null handle always, any
/// other handle when it was live.
pub open spec fn release_succeeds(s: GroundedState, h: u64) -> bool {
    h == NULL_GROUNDED_HANDLE || s.0.contains_key(ffi_key(h))
}

/// The store after `h` is released.
pub open spec fn after_release(s: GroundedState, h: u64) -> GroundedState {
    if h == NULL_GROUNDED_HANDLE {
        s
    } else {
        (s.0.remove(ffi_key(h)), s.1)
    }
}

/// The owner of grounded handles.
pub struct GroundedHandleStore {
    handles: HandleMap,
    string_attestations: HashMap<usize, GroundedAttestation>,
}

impl View for GroundedHandleStore {
    type V = GroundedState;

    closed spec fn view(&self) -> GroundedState {
        (handle_contents(self.handles), self.string_attestations@)
    }
}

proof fn lemma_tagged_is_not_null(h: u64)
    requires
        h == ffi_key(h),
    ensures
        h != NULL_GROUNDED_HANDLE,
{
    assert(h == (h | 0x1_0000_0000u64) ==> h != 0u64) by (bit_vector);
}

impl GroundedHandleStore {
    /// The store's invariant: finitely many live handles.
    pub open spec fn wf(&self) -> bool {
        self@.0.dom().finite()
    }

    /// An empty store.
    pub fn new() -> (r: Self)
        ensures
            r.wf(),
            r@.0.dom() == Set::<u64>::empty(),
            r@.1.dom() == Set::<usize>::empty(),
    {
        GroundedHandleStore { handles: slot_map_new(), string_attestations: HashMap::new() }
    }

    /// Parks an attestation under the address of the string it describes,
    /// replacing one parked there before. The null address is ignored.
    pub fn attach_string_attestation(&mut self, string_ptr: usize, attestation: GroundedAttestation)
        requires
            old(self).wf(),
        ensures
            final(self).wf(),
            final(self)@ == after_attach(old(self)@, string_ptr, attestation),
    {
        if string_ptr == 0 {
            return;
        }
        self.string_attestations.insert(string_ptr, attestation);
    }

    /// Gives the attestation parked under `string_ptr` a handle. The null
    /// handle comes back for the null address or when nothing is parked
    /// there.
    pub fn register_handle_for_string_ptr(&mut self, string_ptr: usize) -> (h: u64)
        requires
            old(self).wf(),
            old(self)@.0.len() + 1 < u32::MAX,
        ensures
            final(self).wf(),
            registered_string(old(self)@, string_ptr, h, final(self)@),
            final(self)@.0.len() == old(self)@.0.len() + if h == NULL_GROUNDED_HANDLE {
                0int
            } else {
                1int
            },
    {
        if string_ptr == 0 {
            return NULL_GROUNDED_HANDLE;
        }
        let parked = self.string_attestations.remove(&string_ptr);
        match parked {
            None => {
                assert(self@ =~= old(self)@);
                NULL_GROUNDED_HANDLE
            },
            Some(attestation) => {
                let h = slot_map_insert(&mut self.handles, attestation);
                proof {
                    lemma_tagged_is_not_null(h);
                }
                h
            },
        }
    }

    /// Gives the last scalar's attestation a handle, emptying the slot. The
    /// null handle comes back when the slot is empty.
    pub fn register_handle_for_last_scalar(&mut self, last: &mut Option<GroundedAttestation>) -> (h: u64)
        requires
            old(self).wf(),
            old(self)@.0.len() + 1 < u32::MAX,
        ensures
            final(self).wf(),
            final(last).is_none(),
            registered_scalar(old(self)@, *old(last), h, final(self)@),
            final(self)@.0.len() == old(self)@.0.len() + if h == NULL_GROUNDED_HANDLE {
                0int
            } else {
                1int
            },
    {
        match last.take() {
            None => NULL_GROUNDED_HANDLE,
            Some(attestation) => {
                let h = slot_map_insert(&mut self.handles, attestation);
                proof {
                    lemma_tagged_is_not_null(h);
                }
                h
            },
        }
    }

    /// The names of the sources behind a live handle; `None` for the null
    /// handle and for one that is not live.
    pub fn sources_for_handle(&self, handle: u64) -> (r: Option<Vec<String>>)
        ensures
            match r {
                None => resolve(self@, handle) is None,
                Some(names) => resolve(self@, handle) is Some && texts(names@) == retrieval_names(
                    resolve(self@, handle)->0.provenance@,
                ),
            },
    {
        if handle == NULL_GROUNDED_HANDLE {
            return None;
        }
        match slot_map_get(&self.handles, handle) {
            None => None,
            Some(attestation) => Some(attestation.source_names()),
        }
    }

    /// The confidence behind a live handle (as `f64` bits); `None` for the
    /// null handle and for one that is not live.
    pub fn confidence_for_handle(&self, handle: u64) -> (r: Option<u64>)
        ensures
            match r {
                None => resolve(self@, handle) is None,
                Some(bits) => resolve(self@, handle) is Some && bits == resolve(
                    self@,
                    handle,
                )->0.confidence_bits,
            },
    {
        if handle == NULL_GROUNDED_HANDLE {
            return None;
        }
        match slot_map_get(&self.handles, handle) {
            None => None,
            Some(attestation) => Some(attestation.confidence_bits),
        }
    }

    /// Releases a handle. Releasing the null handle does nothing and
    /// succeeds; releasing any other succeeds when it was live.
    pub fn release_handle(&mut self, handle: u64) -> (r: bool)
        requires
            old(self).wf(),
        ensures
            final(self).wf(),
            r == release_succeeds(old(self)@, handle),
            final(self)@ == after_release(old(self)@, handle),
            final(self)@.0.len() == old(self)@.0.len() - if handle != NULL_GROUNDED_HANDLE && r {
                1int
            } else {
                0int
            },
    {
        if handle == NULL_GROUNDED_HANDLE {
            return true;
        }
        let removed = slot_map_remove(&mut self.handles, handle);
        removed.is_some()
    }

    /// How many handles are live (not yet released).
    pub fn unreleased_handle_count(&self) -> (r: usize)
        ensures
            r == self@.0.len(),
    {
        slot_map_len(&self.handles)
    }
}

/// Keeps an attestation for the scalar result just produced, replacing the
/// one kept before.
pub fn set_last_scalar_attestation(last: &mut Option<GroundedAttestation>, attestation: GroundedAttestation)
    ensures
        *final(last) == Some(attestation),
{
    *last = Some(attestation);
}

/// The null handle stands for nothing, and releasing it is a no-op that
/// succeeds.
pub proof fn null_handle_is_inert(s: GroundedState)
    ensures
        resolve(s, NULL_GROUNDED_HANDLE) is None,
        release_succeeds(s, NULL_GROUNDED_HANDLE),
        after_release(s, NULL_GROUNDED_HANDLE) == s,
{
}

/// Once released, a handle no longer resolves, and releasing it again
/// reports failure.
pub proof fn released_handle_never_resolves(s: GroundedState, h: u64)
    requires
        h != NULL_GROUNDED_HANDLE,
    ensures
        resolve(after_release(s, h), h) is None,
        !release_succeeds(after_release(s, h), h),
{
}

/// Releasing one handle leaves every handle for another key as it was.
pub proof fn release_keeps_other_handles(s: GroundedState, h: u64, g: u64)
    requires
        ffi_key(g) != ffi_key(h),
    ensures
        resolve(after_release(s, h), g) == resolve(s, g),
{
}

/// A string's attestation round-trips through its handle: the handle is
/// not null and resolves to that attestation, and the parked attestation
/// is claimed once, so registering the same address again gives the null
/// handle and changes nothing.
pub proof fn string_attestation_is_claimed_once(
    s: GroundedState,
    string_ptr: usize,
    a: GroundedAttestation,
    h: u64,
    t: GroundedState,
    h2: u64,
    t2: GroundedState,
)
    requires
        string_ptr != 0,
        registered_string(after_attach(s, string_ptr, a), string_ptr, h, t),
        registered_string(t, string_ptr, h2, t2),
    ensures
        h != NULL_GROUNDED_HANDLE,
        resolve(t, h) == Some(a),
        h2 == NULL_GROUNDED_HANDLE,
        t2 == t,
{
    assert(after_attach(s, string_ptr, a).1.contains_key(string_ptr));
    assert(!t.1.contains_key(string_ptr));
}

/// The last scalar's attestation round-trips through its handle.
pub proof fn scalar_attestation_roundtrips(s: GroundedState, a: GroundedAttestation, h: u64, t: GroundedState)
    requires
        registered_scalar(s, Some(a), h, t),
    ensures
        h != NULL_GROUNDED_HANDLE,
        resolve(t, h) == Some(a),
{
}

/// A new handle never takes the place of a live one: every handle that
/// resolved before still resolves to the same attestation, and the new one
/// differs from each of them.
pub proof fn new_handle_keeps_live_ones(s: GroundedState, a: GroundedAttestation, h: u64, t: GroundedState, g: u64)
    requires
        handed_out(s, a, h, t),
        resolve(s, g) is Some,
    ensures
        resolve(t, g) == resolve(s, g),
        ffi_key(g) != h,
{
}

} // verus!
