//! What one session subscribes to: the feed's configuration and the exact
//! set of subscription requests the multiplexer opens over one transport
//! session, including the byte-level filters of the scoped program group.

use vstd::prelude::*;
use crate::account::Address;

verus! {

/// The byte length of an open-orders account.
pub const OPEN_ORDERS_DATA_SIZE: u64 = 3228;

/// Where the constant open-orders tag sits in the account payload.
pub const OPEN_ORDERS_TAG_OFFSET: u64 = 0;

/// Where the owning authority sits in the account payload: after the header
/// tag, the account-flags word and the market address.
pub const OPEN_ORDERS_AUTHORITY_OFFSET: u64 = 45;

/// The feed's configuration: the transport endpoint, the two program
/// identities to subscribe to, and the authority that scopes the
/// open-orders group.
pub struct Config {
    pub rpc_ws_url: String,
    pub mango_program: Address,
    pub serum_program: Address,
    pub open_orders_authority: Address,
}

/// One constraint of a program-account subscription: an exact payload
/// length, or an equality match on a fixed byte range, given either as
/// base58 text or as plain bytes.
#[derive(Clone, Debug)]
pub enum AccountFilter {
    DataSize(u64),
    MemcmpBase58 { offset: u64, encoded: String },
    MemcmpBytes { offset: u64, bytes: Vec<u8> },
}

/// One server-side subscription the multiplexer opens.
#[derive(Clone, Debug)]
pub enum SubscriptionRequest {
    /// All accounts of a program, narrowed by the given filters (none means
    /// every account).
    Program { program: Address, filters: Vec<AccountFilter> },
    /// One individually-tracked account, under its own identity.
    Account { identity: Address },
    /// Chain-wide slot lifecycle notifications.
    SlotUpdates,
}

/// The filters that scope the open-orders group: an exact size match, the
/// constant header tag at the front of the payload, and the configured
/// authority at its fixed offset.
pub fn open_orders_filters(config: &Config) -> (r: Vec<AccountFilter>)
    ensures
        r@.len() == 3,
        r@[0] == AccountFilter::DataSize(OPEN_ORDERS_DATA_SIZE),
        r@[1] matches AccountFilter::MemcmpBase58 { offset, encoded } && offset
            == OPEN_ORDERS_TAG_OFFSET && encoded@ == "AcUQf4PGf6fCHGwmpB"@,
        r@[2] matches AccountFilter::MemcmpBytes { offset, bytes } && offset
            == OPEN_ORDERS_AUTHORITY_OFFSET && bytes@ == config.open_orders_authority@,
{
    let mut r: Vec<AccountFilter> = Vec::new();
    r.push(AccountFilter::DataSize(OPEN_ORDERS_DATA_SIZE));
    r.push(
        AccountFilter::MemcmpBase58 {
            offset: OPEN_ORDERS_TAG_OFFSET,
            encoded: String::from_str("AcUQf4PGf6fCHGwmpB"),
        },
    );
    r.push(
        AccountFilter::MemcmpBytes {
            offset: OPEN_ORDERS_AUTHORITY_OFFSET,
            bytes: config.open_orders_authority.to_bytes(),
        },
    );
    r
}

/// The complete subscription set of one session, in the order the session
/// opens it: the first program group unfiltered, one account subscription
/// per tracked identity, the scoped open-orders group, and the slot stream.
#[verifier::loop_isolation(false)]
pub fn subscription_plan(config: &Config, oracles: &Vec<Address>) -> (r: Vec<SubscriptionRequest>)
    ensures
        r@.len() == oracles@.len() + 3,
        r@[0] matches SubscriptionRequest::Program { program, filters } && program@
            == config.mango_program@ && filters@.len() == 0,
        forall|i: int|
            0 <= i < oracles@.len() ==> ((#[trigger] r@[1 + i]) matches
                SubscriptionRequest::Account { identity } && identity@ == oracles@[i]@),
        r@[oracles@.len() as int + 1] matches SubscriptionRequest::Program { program, filters }
            && program@ == config.serum_program@ && filters@.len() == 3,
        r@[oracles@.len() as int + 2] == SubscriptionRequest::SlotUpdates,
{
    let mut r: Vec<SubscriptionRequest> = Vec::new();
    r.push(
        SubscriptionRequest::Program {
            program: config.mango_program.duplicate(),
            filters: Vec::new(),
        },
    );
    let mut j: usize = 0;
    while j < oracles.len()
        invariant
            0 <= j <= oracles@.len(),
            r@.len() == j + 1,
            r@[0] matches SubscriptionRequest::Program { program, filters } && program@
                == config.mango_program@ && filters@.len() == 0,
            forall|i: int|
                0 <= i < j ==> ((#[trigger] r@[1 + i]) matches SubscriptionRequest::Account {
                    identity,
                } && identity@ == oracles@[i]@),
        decreases oracles@.len() - j,
    {
        r.push(SubscriptionRequest::Account { identity: oracles[j].duplicate() });
        j = j + 1;
    }
    r.push(
        SubscriptionRequest::Program {
            program: config.serum_program.duplicate(),
            filters: open_orders_filters(config),
        },
    );
    r.push(SubscriptionRequest::SlotUpdates);
    r
}

} // verus!
