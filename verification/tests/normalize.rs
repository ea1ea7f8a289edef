//! Tests of the event model: account normalization and slot normalization.

use websocket_source::account::{AccountUpdate, Address, DecodeError, RawAccount, RawKeyedAccount};
use websocket_source::chain::{update_chain_data, ChainUpdate, Message};
use websocket_source::slot::{SlotData, SlotNotification, SlotStatus};

const SYSTEM_KEY: &str = "11111111111111111111111111111111";
const VOTE_KEY: &str = "Vote111111111111111111111111111111111111111";

fn valid_raw_account() -> RawAccount {
    RawAccount {
        lamports: 5,
        data: String::from("AQID"),
        owner: String::from(VOTE_KEY),
        executable: false,
        rent_epoch: 7,
    }
}

#[test]
fn account_normalization_round_trips_the_address() {
    let raw = RawKeyedAccount {
        slot: 42,
        pubkey: String::from(SYSTEM_KEY),
        account: valid_raw_account(),
    };
    let update = AccountUpdate::from_rpc(raw).unwrap();
    assert_eq!(update.pubkey.to_base58(), SYSTEM_KEY);
    assert_eq!(update.slot, 42);
    assert_eq!(update.pubkey.to_bytes(), vec![0u8; 32]);
    assert_eq!(update.account.lamports, 5);
    assert_eq!(update.account.data, vec![1u8, 2, 3]);
    assert_eq!(update.account.owner.to_base58(), VOTE_KEY);
    assert!(!update.account.executable);
    assert_eq!(update.account.rent_epoch, 7);
}

#[test]
fn malformed_address_is_rejected() {
    let raw = RawKeyedAccount {
        slot: 1,
        pubkey: String::from("this is not base58!"),
        account: valid_raw_account(),
    };
    assert_eq!(AccountUpdate::from_rpc(raw).unwrap_err(), DecodeError::InvalidAddress);
}

#[test]
fn undecodable_payload_is_rejected() {
    let mut account = valid_raw_account();
    account.data = String::from("&&& not base64 &&&");
    let raw = RawKeyedAccount { slot: 1, pubkey: String::from(SYSTEM_KEY), account };
    assert_eq!(AccountUpdate::from_rpc(raw).unwrap_err(), DecodeError::UndecodableAccount);
}

#[test]
fn undecodable_owner_is_rejected() {
    let mut account = valid_raw_account();
    account.owner = String::from("not an owner");
    let raw = RawKeyedAccount { slot: 1, pubkey: String::from(SYSTEM_KEY), account };
    assert_eq!(AccountUpdate::from_rpc(raw).unwrap_err(), DecodeError::UndecodableAccount);
}

#[test]
fn address_parse_rejects_malformed_text() {
    assert!(Address::from_base58("").is_none());
    assert!(Address::from_base58("0OIl").is_none());
    assert!(Address::from_base58(SYSTEM_KEY).is_some());
}

#[test]
fn created_bank_normalizes_to_processed() {
    let n = SlotNotification::CreatedBank { slot: 6, parent: 5 };
    assert_eq!(
        n.slot_data(),
        Some(SlotData { slot: 6, parent: Some(5), status: SlotStatus::Processed })
    );
}

#[test]
fn optimistic_confirmation_normalizes_to_confirmed() {
    let n = SlotNotification::OptimisticConfirmation { slot: 9 };
    assert_eq!(
        n.slot_data(),
        Some(SlotData { slot: 9, parent: None, status: SlotStatus::Confirmed })
    );
}

#[test]
fn root_normalizes_to_rooted() {
    let n = SlotNotification::Root { slot: 11 };
    assert_eq!(
        n.slot_data(),
        Some(SlotData { slot: 11, parent: None, status: SlotStatus::Rooted })
    );
}

#[test]
fn unrecognized_slot_subtypes_yield_nothing() {
    assert_eq!(SlotNotification::FirstShredReceived { slot: 3 }.slot_data(), None);
    assert_eq!(SlotNotification::Completed { slot: 3 }.slot_data(), None);
    assert_eq!(SlotNotification::Frozen { slot: 3 }.slot_data(), None);
    assert_eq!(SlotNotification::Dead { slot: 3 }.slot_data(), None);
}

#[test]
fn account_message_maps_to_account_mutation() {
    let raw = RawKeyedAccount {
        slot: 8,
        pubkey: String::from(SYSTEM_KEY),
        account: valid_raw_account(),
    };
    let update = AccountUpdate::from_rpc(raw).unwrap();
    let r = update_chain_data(Message::Account(update)).unwrap();
    match r {
        ChainUpdate::ApplyAccount { pubkey, slot, account } => {
            assert_eq!(pubkey.to_base58(), SYSTEM_KEY);
            assert_eq!(slot, 8);
            assert_eq!(account.data, vec![1u8, 2, 3]);
        },
        ChainUpdate::ApplySlot { .. } => panic!("expected an account mutation"),
    }
}

#[test]
fn slot_message_maps_through_normalization() {
    let r = update_chain_data(Message::Slot(SlotNotification::Root { slot: 5 })).unwrap();
    match r {
        ChainUpdate::ApplySlot { update } => {
            assert_eq!(update, SlotData { slot: 5, parent: None, status: SlotStatus::Rooted });
        },
        ChainUpdate::ApplyAccount { .. } => panic!("expected a slot mutation"),
    }
    assert!(update_chain_data(Message::Slot(SlotNotification::Dead { slot: 5 })).is_none());
}
