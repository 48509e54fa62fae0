//! Identifiers of hardware displays.

use vstd::prelude::*;

verus! {

/// An opaque identifier for a hardware display.
#[derive(Clone, Copy, Debug, PartialEq, Eq, Hash, Structural)]
pub struct DisplayId(pub u64);

impl DisplayId {
    /// The raw platform identifier.
    pub open spec fn raw(self) -> u64 {
        self.0
    }

    /// Creates a `DisplayId` from a raw platform display identifier.
    pub fn new(id: u64) -> (r: Self)
        ensures
            r.raw() == id,
    {
        Self(id)
    }
}

impl From<u64> for DisplayId {
    fn from(id: u64) -> (r: Self) {
        Self(id)
    }
}

impl vstd::std_specs::convert::FromSpecImpl<u64> for DisplayId {
    open spec fn obeys_from_spec() -> bool {
        true
    }

    open spec fn from_spec(v: u64) -> Self {
        DisplayId(v)
    }
}

impl From<DisplayId> for u64 {
    fn from(id: DisplayId) -> (r: Self) {
        id.0
    }
}

impl vstd::std_specs::convert::FromSpecImpl<DisplayId> for u64 {
    open spec fn obeys_from_spec() -> bool {
        true
    }

    open spec fn from_spec(v: DisplayId) -> Self {
        v.0
    }
}

/// A display id and its raw identifier convert into each other without loss.
pub proof fn law_display_id_round_trip(id: DisplayId, raw: u64)
    ensures
        DisplayId(raw).raw() == raw,
        DisplayId(id.raw()) == id,
{
}

} // verus!
