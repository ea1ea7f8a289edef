//! The slot side of the event model: raw slot lifecycle notifications and
//! their normalization into `SlotData` claims.

use vstd::prelude::*;

verus! {

/// A raw slot lifecycle notification, reduced to the plain values the feed
/// reads: the slot it speaks of, and for a newly created bank its parent.
#[derive(Clone, Copy, PartialEq, Eq, Debug)]
pub enum SlotNotification {
    FirstShredReceived { slot: u64 },
    Completed { slot: u64 },
    CreatedBank { slot: u64, parent: u64 },
    Frozen { slot: u64 },
    Dead { slot: u64 },
    OptimisticConfirmation { slot: u64 },
    Root { slot: u64 },
}

/// Confidence a normalized slot update assigns to its slot.
#[derive(Clone, Copy, PartialEq, Eq, Debug)]
pub enum SlotStatus {
    Processed,
    Confirmed,
    Rooted,
}

/// A normalized claim about one slot's position in the chain.
#[derive(Clone, Copy, PartialEq, Eq, Debug)]
pub struct SlotData {
    pub slot: u64,
    pub parent: Option<u64>,
    pub status: SlotStatus,
}

/// The normalized form of a raw slot notification: `CreatedBank` becomes
/// `Processed` (and carries the parent), `OptimisticConfirmation` becomes
/// `Confirmed`, `Root` becomes `Rooted`; every other subtype yields nothing.
pub open spec fn spec_slot_data(n: SlotNotification) -> Option<SlotData> {
    match n {
        SlotNotification::CreatedBank { slot, parent } => Some(
            SlotData { slot, parent: Some(parent), status: SlotStatus::Processed },
        ),
        SlotNotification::OptimisticConfirmation { slot } => Some(
            SlotData { slot, parent: None, status: SlotStatus::Confirmed },
        ),
        SlotNotification::Root { slot } => Some(
            SlotData { slot, parent: None, status: SlotStatus::Rooted },
        ),
        _ => None,
    }
}

/// An unrecognized slot subtype produces no event at all: only a created
/// bank, an optimistic confirmation or a root maps to a normalized update;
/// everything else is consumed and discarded without error.
pub proof fn lemma_unrecognized_slot_dropped(n: SlotNotification)
    requires
        !(n is CreatedBank),
        !(n is OptimisticConfirmation),
        !(n is Root),
    ensures
        spec_slot_data(n) is None,
{
}

impl SlotNotification {
    /// Normalizes this notification; unrecognized subtypes yield `None` and
    /// are simply discarded, never an error.
    pub fn slot_data(&self) -> (r: Option<SlotData>)
        ensures
            r == spec_slot_data(*self),
    {
        match *self {
            SlotNotification::CreatedBank { slot, parent } => Some(
                SlotData { slot, parent: Some(parent), status: SlotStatus::Processed },
            ),
            SlotNotification::OptimisticConfirmation { slot } => Some(
                SlotData { slot, parent: None, status: SlotStatus::Confirmed },
            ),
            SlotNotification::Root { slot } => Some(
                SlotData { slot, parent: None, status: SlotStatus::Rooted },
            ),
            _ => None,
        }
    }
}

} // verus!
