//! The agent handles a catalog lists: what each agent's handle reports of
//! its effects and attributes, and the order in which they are listed.

use vstd::prelude::*;
use crate::approver_bridge::NAN_BITS;
use crate::catalog::{introspection_name, is_introspection_agent};
use crate::effect_filter::{tier_handle_value, trust_tier_to_handle_value};
use crate::errors::RuntimeError;
use crate::floatbits::{bits_is_finite, bits_le, is_finite, le};
use crate::text::str_eq;

verus! {

/// What a catalog agent's handle is made from. Amounts hold the bits of
/// `f64` values.
pub struct CatalogAgentInfo {
    pub name: String,
    pub symbol: String,
    pub source_file: String,
    pub source_line: u32,
    pub trust_tier: Option<String>,
    pub budget_usd_per_call_bits: Option<u64>,
    pub projected_cost_usd_bits: Option<u64>,
    pub reversibility: Option<String>,
    pub latency_p99_ms_bits: Option<u64>,
    pub replayable: bool,
    pub deterministic: bool,
    pub dangerous: bool,
    pub pub_extern_c: bool,
    pub requires_approval: bool,
    pub grounded_source_count: u32,
    pub param_count: u32,
}

/// An agent as a catalog listing reports it. `cost_bound_usd_bits` holds
/// the bits of an `f64`; the flags are 0 or 1.
pub struct CorvidAgentHandle {
    pub name: String,
    pub symbol: String,
    pub source_file: String,
    pub source_line: u32,
    pub trust_tier: u8,
    pub cost_bound_usd_bits: u64,
    pub reversible: u8,
    pub latency_instant: u8,
    pub replayable: u8,
    pub deterministic: u8,
    pub dangerous: u8,
    pub pub_extern_c: u8,
    pub requires_approval: u8,
    pub grounded_source_count: u32,
    pub param_count: u32,
}

/// The bits of `1.0`.
pub open spec fn one_bits() -> u64 {
    0x3ff0_0000_0000_0000
}

/// What an agent may cost per call: its budget, else its projected cost,
/// else NaN.
pub open spec fn cost_bound(a: CatalogAgentInfo) -> u64 {
    match a.budget_usd_per_call_bits {
        Some(b) => b,
        None => match a.projected_cost_usd_bits {
            Some(c) => c,
            None => NAN_BITS,
        },
    }
}

/// An agent answers instantly when its p99 latency estimate is at most one
/// millisecond.
pub open spec fn instant(p99: Option<u64>) -> bool {
    p99 matches Some(p) && le(p, one_bits())
}

pub open spec fn flag(b: bool) -> u8 {
    if b {
        1
    } else {
        0
    }
}

pub open spec fn text_of(o: Option<String>) -> Option<Seq<char>> {
    match o {
        Some(s) => Some(s@),
        None => None,
    }
}

/// The handle of a catalog agent.
pub open spec fn handle_of(a: CatalogAgentInfo) -> CorvidAgentHandle {
    CorvidAgentHandle {
        name: a.name,
        symbol: a.symbol,
        source_file: a.source_file,
        source_line: a.source_line,
        trust_tier: tier_handle_value(text_of(a.trust_tier)),
        cost_bound_usd_bits: cost_bound(a),
        reversible: flag(a.reversibility matches Some(r) && r@ == "reversible"@),
        latency_instant: flag(instant(a.latency_p99_ms_bits)),
        replayable: flag(a.replayable),
        deterministic: flag(a.deterministic),
        dangerous: flag(a.dangerous),
        pub_extern_c: flag(a.pub_extern_c),
        requires_approval: flag(a.requires_approval),
        grounded_source_count: a.grounded_source_count,
        param_count: a.param_count,
    }
}

/// The handle of the registered approver, whose shown budget is
/// `display_budget_bits`: autonomous, reversible, never dangerous, exported
/// or itself gated by approval, with no grounded sources.
pub open spec fn overlay_handle_of(a: CatalogAgentInfo, display_budget_bits: u64) -> CorvidAgentHandle {
    CorvidAgentHandle {
        name: a.name,
        symbol: a.symbol,
        source_file: a.source_file,
        source_line: a.source_line,
        trust_tier: 0,
        cost_bound_usd_bits: display_budget_bits,
        reversible: 1,
        latency_instant: flag(instant(a.latency_p99_ms_bits)),
        replayable: flag(a.replayable),
        deterministic: flag(a.deterministic),
        dangerous: 0,
        pub_extern_c: 0,
        requires_approval: 0,
        grounded_source_count: 0,
        param_count: a.param_count,
    }
}

/// What an agent may cost per call (see [`cost_bound`]).
pub fn cost_bound_for(a: &CatalogAgentInfo) -> (r: u64)
    ensures
        r == cost_bound(*a),
{
    match a.budget_usd_per_call_bits {
        Some(b) => b,
        None => match a.projected_cost_usd_bits {
            Some(c) => c,
            None => NAN_BITS,
        },
    }
}

/// The value if it is finite.
pub fn finite_option(bits: u64) -> (r: Option<u64>)
    ensures
        r == (if is_finite(bits) {
            Some(bits)
        } else {
            None::<u64>
        }),
{
    if bits_is_finite(bits) {
        Some(bits)
    } else {
        None
    }
}

fn instant_flag(p99: Option<u64>) -> (r: u8)
    ensures
        r == flag(instant(p99)),
{
    match p99 {
        Some(p) => if bits_le(p, 0x3ff0_0000_0000_0000) {
            1
        } else {
            0
        },
        None => 0,
    }
}

fn flag_of(b: bool) -> (r: u8)
    ensures
        r == flag(b),
{
    if b {
        1
    } else {
        0
    }
}

/// The handle of a catalog agent (see [`handle_of`]).
pub fn handle_from_entry(a: &CatalogAgentInfo) -> (r: CorvidAgentHandle)
    ensures
        r == handle_of(*a),
{
    let tier = match &a.trust_tier {
        Some(t) => trust_tier_to_handle_value(Some(t.as_str())),
        None => trust_tier_to_handle_value(None),
    };
    let reversible = match &a.reversibility {
        Some(r) => str_eq(r, "reversible"),
        None => false,
    };
    proof {
        reveal_strlit("reversible");
    }
    CorvidAgentHandle {
        name: a.name.clone(),
        symbol: a.symbol.clone(),
        source_file: a.source_file.clone(),
        source_line: a.source_line,
        trust_tier: tier,
        cost_bound_usd_bits: cost_bound_for(a),
        reversible: flag_of(reversible),
        latency_instant: instant_flag(a.latency_p99_ms_bits),
        replayable: flag_of(a.replayable),
        deterministic: flag_of(a.deterministic),
        dangerous: flag_of(a.dangerous),
        pub_extern_c: flag_of(a.pub_extern_c),
        requires_approval: flag_of(a.requires_approval),
        grounded_source_count: a.grounded_source_count,
        param_count: a.param_count,
    }
}

/// The handle of the registered approver (see [`overlay_handle_of`]).
pub fn overlay_handle(a: &CatalogAgentInfo, display_budget_bits: u64) -> (r: CorvidAgentHandle)
    ensures
        r == overlay_handle_of(*a, display_budget_bits),
{
    CorvidAgentHandle {
        name: a.name.clone(),
        symbol: a.symbol.clone(),
        source_file: a.source_file.clone(),
        source_line: a.source_line,
        trust_tier: 0,
        cost_bound_usd_bits: display_budget_bits,
        reversible: 1,
        latency_instant: instant_flag(a.latency_p99_ms_bits),
        replayable: flag_of(a.replayable),
        deterministic: flag_of(a.deterministic),
        dangerous: 0,
        pub_extern_c: 0,
        requires_approval: 0,
        grounded_source_count: 0,
        param_count: a.param_count,
    }
}

/// Handles of the runtime's own agents (named `__corvid_...`), in catalog
/// order.
pub open spec fn own_handles(s: Seq<CatalogAgentInfo>) -> Seq<CorvidAgentHandle>
    decreases s.len(),
{
    if s.len() == 0 {
        Seq::empty()
    } else if introspection_name(s.last().name@) {
        own_handles(s.drop_last()).push(handle_of(s.last()))
    } else {
        own_handles(s.drop_last())
    }
}

/// Handles of the other agents, in catalog order.
pub open spec fn other_handles(s: Seq<CatalogAgentInfo>) -> Seq<CorvidAgentHandle>
    decreases s.len(),
{
    if s.len() == 0 {
        Seq::empty()
    } else if !introspection_name(s.last().name@) {
        other_handles(s.drop_last()).push(handle_of(s.last()))
    } else {
        other_handles(s.drop_last())
    }
}

/// The catalog listing: the runtime's own agents, then the registered
/// approver if there is one, then the other agents.
pub open spec fn listed_handles(
    s: Seq<CatalogAgentInfo>,
    overlay: Option<(CatalogAgentInfo, u64)>,
) -> Seq<CorvidAgentHandle> {
    own_handles(s) + match overlay {
        Some(o) => seq![overlay_handle_of(o.0, o.1)],
        None => Seq::empty(),
    } + other_handles(s)
}

/// Lists the handles of a catalog's agents, with the registered approver
/// (its agent and shown budget) if there is one (see [`listed_handles`]);
/// a catalog that could not be loaded gives its error.
pub fn list_agent_handles_owned(
    catalog: Result<Vec<CatalogAgentInfo>, RuntimeError>,
    overlay: Option<(CatalogAgentInfo, u64)>,
) -> (r: Result<Vec<CorvidAgentHandle>, RuntimeError>)
    ensures
        match catalog {
            Err(e) => r == Err::<Vec<CorvidAgentHandle>, RuntimeError>(e),
            Ok(entries) => r matches Ok(v) && v@ == listed_handles(entries@, overlay),
        },
{
    let entries = match catalog {
        Err(e) => {
            return Err(e);
        },
        Ok(entries) => entries,
    };
    let mut out: Vec<CorvidAgentHandle> = Vec::new();
    let mut i: usize = 0;
    while i < entries.len()
        invariant
            i <= entries@.len(),
            out@ == own_handles(entries@.take(i as int)),
        decreases entries@.len() - i,
    {
        assert(entries@.take(i as int + 1).drop_last() =~= entries@.take(i as int));
        if is_introspection_agent(&entries[i].name) {
            out.push(handle_from_entry(&entries[i]));
        }
        i += 1;
    }
    assert(entries@.take(entries@.len() as int) =~= entries@);
    let ghost own = out@;
    match &overlay {
        Some(o) => out.push(overlay_handle(&o.0, o.1)),
        None => {},
    }
    let ghost middle = out@;
    let mut j: usize = 0;
    let mut others: Vec<CorvidAgentHandle> = Vec::new();
    while j < entries.len()
        invariant
            j <= entries@.len(),
            others@ == other_handles(entries@.take(j as int)),
        decreases entries@.len() - j,
    {
        assert(entries@.take(j as int + 1).drop_last() =~= entries@.take(j as int));
        if !is_introspection_agent(&entries[j].name) {
            others.push(handle_from_entry(&entries[j]));
        }
        j += 1;
    }
    assert(entries@.take(entries@.len() as int) =~= entries@);
    out.append(&mut others);
    assert(out@ =~= listed_handles(entries@, overlay));
    Ok(out)
}

} // verus!
