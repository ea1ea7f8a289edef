//! The account side of the event model: addresses, account state, and the
//! normalization of a raw keyed-account notification into an `AccountUpdate`.

use vstd::prelude::*;
use std::str::FromStr;

verus! {

/// What base58 address parsing returns for a given string: `Some` of the 32
/// decoded bytes when the string is a well-formed address, `None` otherwise.
pub uninterp spec fn address_of(s: Seq<char>) -> Option<Seq<u8>>;

/// The base58 text of a 32-byte address.
pub uninterp spec fn address_text(b: Seq<u8>) -> Seq<char>;

/// What base64 payload decoding returns for a given string: `Some` of the
/// decoded bytes when the string is well-formed base64, `None` otherwise.
pub uninterp spec fn decoded_bytes(s: Seq<char>) -> Option<Seq<u8>>;

/// A 32-byte on-chain account address, held as plain bytes.
#[derive(Clone, Debug)]
pub struct Address {
    bytes: Vec<u8>,
}

impl View for Address {
    type V = Seq<u8>;

    closed spec fn view(&self) -> Seq<u8> {
        self.bytes@
    }
}

/// A raw account payload as it arrives over the subscription: the data still
/// base64-encoded and the owner still in base58 text.
#[derive(Clone, Debug)]
pub struct RawAccount {
    pub lamports: u64,
    pub data: String,
    pub owner: String,
    pub executable: bool,
    pub rent_epoch: u64,
}

/// A raw keyed-account notification: the observed slot, the account's
/// address in base58 text, and the raw account payload.
#[derive(Clone, Debug)]
pub struct RawKeyedAccount {
    pub slot: u64,
    pub pubkey: String,
    pub account: RawAccount,
}

/// Decoded account state: plain bytes and plain values.
#[derive(Clone, Debug)]
pub struct AccountState {
    pub lamports: u64,
    pub data: Vec<u8>,
    pub owner: Address,
    pub executable: bool,
    pub rent_epoch: u64,
}

/// One observed state of one account at one slot.
#[derive(Clone, Debug)]
pub struct AccountUpdate {
    pub pubkey: Address,
    pub slot: u64,
    pub account: AccountState,
}

/// Why a raw keyed-account notification failed to normalize.
#[derive(Clone, Copy, PartialEq, Eq, Debug)]
pub enum DecodeError {
    /// The address field is not a well-formed base58 address.
    InvalidAddress,
    /// The account payload (its data or its owner field) cannot be decoded.
    UndecodableAccount,
}

/// The raw account payload decodes: its data is well-formed base64 and its
/// owner is a well-formed base58 address.
pub open spec fn account_decodes(a: RawAccount) -> bool {
    decoded_bytes(a.data@) is Some && address_of(a.owner@) is Some
}

/// The whole raw notification decodes: address and payload both well-formed.
pub open spec fn raw_decodes(raw: RawKeyedAccount) -> bool {
    address_of(raw.pubkey@) is Some && account_decodes(raw.account)
}

/// `st` is the decoded form of the raw payload `ra`.
pub open spec fn state_matches(ra: RawAccount, st: AccountState) -> bool {
    &&& st.lamports == ra.lamports
    &&& decoded_bytes(ra.data@) == Some(st.data@)
    &&& address_of(ra.owner@) == Some(st.owner@)
    &&& st.executable == ra.executable
    &&& st.rent_epoch == ra.rent_epoch
}

/// `u` is the normalized form of the raw notification `raw`.
pub open spec fn update_matches(raw: RawKeyedAccount, u: AccountUpdate) -> bool {
    &&& address_of(raw.pubkey@) == Some(u.pubkey@)
    &&& u.slot == raw.slot
    &&& state_matches(raw.account, u.account)
}

/// Relies on `solana_pubkey::Pubkey::from_str`: base58-decodes a string
/// into the 32 address bytes, rejecting malformed or wrong-size input.  The
/// round-trip clause relies on `Pubkey`'s `Display` impl being the inverse
/// encoding: every string that decodes is the canonical base58 text of its
/// bytes, so encoding those bytes yields the input string again.
#[verifier::external_body]
fn parse_base58(s: &str) -> (r: Option<Vec<u8>>)
    ensures
        r matches Some(v) ==> address_of(s@) == Some(v@),
        r matches Some(v) ==> v@.len() == 32,
        r matches Some(v) ==> address_text(v@) == s@,
        r is Some <==> address_of(s@) is Some,
{
    solana_pubkey::Pubkey::from_str(s).ok().map(|p| p.to_bytes().to_vec())
}

/// Relies on `Pubkey`'s `Display` impl: base58-encodes the 32 address bytes.
/// Decoding the result yields the same bytes back, because base58 text and
/// 32-byte values correspond one to one.
#[verifier::external_body]
fn format_base58(b: &Vec<u8>) -> (r: String)
    requires
        b@.len() == 32,
    ensures
        r@ == address_text(b@),
        address_of(r@) == Some(b@),
{
    solana_pubkey::Pubkey::try_from(b.as_slice()).unwrap().to_string()
}

/// Relies on `solana_account_decoder_client_types::UiAccount::to_account`: base64-decodes
/// the data payload and base58-decodes the owner, returning `None` exactly
/// when either fails; the remaining fields pass through unchanged.
#[verifier::external_body]
fn decode_ui_account(a: &RawAccount) -> (r: Option<AccountState>)
    ensures
        r matches Some(st) ==> decoded_bytes(a.data@) == Some(st.data@),
        r matches Some(st) ==> address_of(a.owner@) == Some(st.owner@),
        r matches Some(st) ==> st.owner.wf(),
        r matches Some(st) ==> st.lamports == a.lamports,
        r matches Some(st) ==> st.executable == a.executable,
        r matches Some(st) ==> st.rent_epoch == a.rent_epoch,
        r is Some <==> (decoded_bytes(a.data@) is Some && address_of(a.owner@) is Some),
{
    let data = solana_account_decoder_client_types::UiAccountData::Binary(
        a.data.clone(), solana_account_decoder_client_types::UiAccountEncoding::Base64);
    let ui = solana_account_decoder_client_types::UiAccount {
        lamports: a.lamports, data, owner: a.owner.clone(),
        executable: a.executable, rent_epoch: a.rent_epoch, space: None,
    };
    ui.to_account().map(|acc| AccountState {
        lamports: acc.lamports, data: acc.data,
        owner: Address { bytes: acc.owner.to_bytes().to_vec() },
        executable: acc.executable, rent_epoch: acc.rent_epoch,
    })
}

impl Address {
    /// Well-formed: exactly 32 bytes.
    pub open spec fn wf(&self) -> bool {
        self@.len() == 32
    }

    /// Parses a base58 address string; `Some` exactly when it is well-formed.
    pub fn from_base58(s: &str) -> (r: Option<Address>)
        ensures
            r matches Some(a) ==> address_of(s@) == Some(a@) && a.wf() && address_text(a@) == s@,
            r is Some <==> address_of(s@) is Some,
    {
        match parse_base58(s) {
            Some(v) => Some(Address { bytes: v }),
            None => None,
        }
    }

    /// Formats the address as base58 text; parsing the result gives the same
    /// address back.
    pub fn to_base58(&self) -> (r: String)
        requires
            self.wf(),
        ensures
            r@ == address_text(self@),
            address_of(r@) == Some(self@),
    {
        format_base58(&self.bytes)
    }

    /// A copy of this address with the same bytes.
    pub fn duplicate(&self) -> (r: Address)
        ensures
            r@ == self@,
    {
        Address { bytes: self.to_bytes() }
    }

    /// The address bytes, copied out as a plain vector.
    pub fn to_bytes(&self) -> (r: Vec<u8>)
        ensures
            r@ == self@,
    {
        let mut out: Vec<u8> = Vec::new();
        let mut i: usize = 0;
        while i < self.bytes.len()
            invariant
                i <= self.bytes.len(),
                out@ == self@.take(i as int),
            decreases self.bytes.len() - i,
        {
            out.push(self.bytes[i]);
            i = i + 1;
        }
        assert(out@ =~= self@);
        out
    }
}

impl AccountUpdate {
    /// Normalizes a raw keyed-account notification.  Succeeds exactly when
    /// the address and the account payload decode; on success the update's
    /// address formats back to exactly the input address string.
    pub fn from_rpc(raw: RawKeyedAccount) -> (r: Result<AccountUpdate, DecodeError>)
        ensures
            r is Ok <==> raw_decodes(raw),
            r matches Ok(u) ==> update_matches(raw, u) && u.pubkey.wf() && u.account.owner.wf()
                && address_text(u.pubkey@) == raw.pubkey@,
            r matches Err(e) ==> (e == DecodeError::InvalidAddress <==> address_of(raw.pubkey@)
                is None),
    {
        let pubkey = match Address::from_base58(raw.pubkey.as_str()) {
            Some(a) => a,
            None => {
                return Err(DecodeError::InvalidAddress);
            },
        };
        let account = match decode_ui_account(&raw.account) {
            Some(st) => st,
            None => {
                return Err(DecodeError::UndecodableAccount);
            },
        };
        Ok(AccountUpdate { pubkey, slot: raw.slot, account })
    }
}

} // verus!
