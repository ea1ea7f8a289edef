//! The consumer-facing event model and its normalization into the two
//! mutation entry points of the downstream chain-state store.

use vstd::prelude::*;
use crate::account::{AccountState, AccountUpdate, Address};
use crate::slot::{SlotData, SlotNotification, spec_slot_data};

verus! {

/// The only artifact crossing the boundary into the downstream store: either
/// one observed account state, or one raw slot notification.
#[derive(Clone, Debug)]
pub enum Message {
    Account(AccountUpdate),
    Slot(SlotNotification),
}

/// A description of the one store mutation a message calls for: apply one
/// account state, or apply one normalized slot update.
#[derive(Clone, Debug)]
pub enum ChainUpdate {
    ApplyAccount { pubkey: Address, slot: u64, account: AccountState },
    ApplySlot { update: SlotData },
}

/// Turns a message into the store mutation it calls for.  An account message
/// always maps to an account mutation carrying the same address, slot and
/// state.  A slot message maps through the slot normalization; unrecognized
/// slot subtypes yield `None` and leave the store untouched.
pub fn update_chain_data(message: Message) -> (r: Option<ChainUpdate>)
    ensures
        message matches Message::Account(u) ==> r == Some(
            ChainUpdate::ApplyAccount { pubkey: u.pubkey, slot: u.slot, account: u.account },
        ),
        message matches Message::Slot(n) ==> r == match spec_slot_data(n) {
            Some(update) => Some(ChainUpdate::ApplySlot { update }),
            None => None,
        },
{
    match message {
        Message::Account(u) => Some(
            ChainUpdate::ApplyAccount { pubkey: u.pubkey, slot: u.slot, account: u.account },
        ),
        Message::Slot(n) => match n.slot_data() {
            Some(update) => Some(ChainUpdate::ApplySlot { update }),
            None => None,
        },
    }
}

} // verus!
