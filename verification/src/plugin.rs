//! The plugin contract: lifecycle status, identity, and the storage
//! abstraction through which plugins persist their state.

use vstd::prelude::*;

use crate::value::SpecValue;
use crate::value::StructValue;

verus! {

/// Lifecycle state of a plugin.  Only `Enabled` plugins receive dispatched
/// envelopes; the initial state is `Disabled`.
#[derive(Debug, Clone, Copy, PartialEq, Eq, Structural)]
pub enum PluginStatus {
    Enabled,
    Disabled,
}

/// Identity of a plugin, assigned once at construction and immutable; used
/// for diagnostics, never for dispatch.
#[derive(Debug)]
pub struct PluginInfo {
    pub uuid: &'static str,
    pub name: String,
    pub description: String,
    pub version: (usize, usize, usize),
    pub author: &'static str,
}

/// The storage contract: a host-provided store through which a plugin
/// persists its snapshot.  Loading returns the last stored snapshot (or a
/// default value when none was ever stored), so that loading is the dual of
/// storing.
pub trait IPluginStateStorage {
    /// The model of the last stored snapshot.
    spec fn stored(&self) -> SpecValue;

    /// Persists a plugin's full snapshot.
    fn store_state(&mut self, value: StructValue)
        ensures
            final(self).stored() == value@,
    ;

    /// Returns the last persisted snapshot, leaving it in place.
    fn load_state(&mut self) -> (r: StructValue)
        ensures
            r@ == old(self).stored(),
            final(self).stored() == old(self).stored(),
    ;
}

/// An in-memory store: the no-op default a host can use before it wires a
/// real backend, and the store the tests run against.
pub struct MemoryStorage {
    value: StructValue,
}

impl MemoryStorage {
    /// An empty store; loading from it yields the null value.
    pub fn new() -> (r: Self)
        ensures
            r.stored() == SpecValue::Null,
    {
        Self { value: StructValue::Null }
    }
}

impl IPluginStateStorage for MemoryStorage {
    closed spec fn stored(&self) -> SpecValue {
        self.value@
    }

    fn store_state(&mut self, value: StructValue) {
        self.value = value;
    }

    fn load_state(&mut self) -> (r: StructValue) {
        self.value.duplicate()
    }
}

/// Encoding of a lifecycle status as a structured value.
pub open spec fn spec_enc_status(s: PluginStatus) -> SpecValue {
    match s {
        PluginStatus::Enabled => SpecValue::Text("Enabled"@),
        PluginStatus::Disabled => SpecValue::Text("Disabled"@),
    }
}

/// Decoding of a lifecycle status.
pub open spec fn spec_dec_status(v: SpecValue) -> Option<PluginStatus> {
    if v == SpecValue::Text("Enabled"@) {
        Option::Some(PluginStatus::Enabled)
    } else if v == SpecValue::Text("Disabled"@) {
        Option::Some(PluginStatus::Disabled)
    } else {
        Option::None
    }
}

/// Encodes a status; the result models `spec_enc_status`.
pub fn encode_status(s: PluginStatus) -> (r: StructValue)
    ensures
        r@ == spec_enc_status(s),
{
    match s {
        PluginStatus::Enabled => StructValue::text("Enabled"),
        PluginStatus::Disabled => StructValue::text("Disabled"),
    }
}

/// Decodes a status; the result models `spec_dec_status`.
pub fn decode_status(v: &StructValue) -> (r: Option<PluginStatus>)
    ensures
        match r {
            Option::Some(s) => spec_dec_status(v@) == Option::Some(s),
            Option::None => spec_dec_status(v@) is None,
        },
{
    match v.as_text() {
        Option::Some(s) => {
            if crate::value::str_eq(s.as_str(), "Enabled") {
                Option::Some(PluginStatus::Enabled)
            } else if crate::value::str_eq(s.as_str(), "Disabled") {
                Option::Some(PluginStatus::Disabled)
            } else {
                Option::None
            }
        },
        Option::None => Option::None,
    }
}

/// Law: decoding an encoded status restores it, for either status.
pub proof fn lemma_status_round_trip(s: PluginStatus)
    ensures
        spec_dec_status(spec_enc_status(s)) == Option::Some(s),
{
    reveal_strlit("Enabled");
    reveal_strlit("Disabled");
    assert("Enabled"@.len() == 7);
    assert("Disabled"@.len() == 8);
}

} // verus!
