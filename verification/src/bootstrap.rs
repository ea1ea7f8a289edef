//! The bootstrap waiter's decision logic: scanning the feed for the first
//! new-bank slot event, and the deadline bookkeeping of the wait loop.

use vstd::prelude::*;
use crate::chain::Message;
use crate::slot::SlotNotification;

verus! {

/// Why the bootstrap waiter gave up.
#[derive(Clone, Copy, PartialEq, Eq, Debug)]
pub enum BootstrapError {
    /// No new-bank slot event arrived within the deadline.
    Timeout,
    /// The channel was drained and closed before such an event arrived.
    ChannelClosed,
}

/// The slot a message announces a newly created bank for, if it does.
pub open spec fn spec_bank_slot(m: Message) -> Option<u64> {
    match m {
        Message::Slot(SlotNotification::CreatedBank { slot, .. }) => Some(slot),
        _ => None,
    }
}

/// The slot of the first new-bank event in a run of messages, if any.
pub open spec fn spec_first_bank_slot(msgs: Seq<Message>) -> Option<u64>
    decreases msgs.len(),
{
    if msgs.len() == 0 {
        None
    } else {
        match spec_bank_slot(msgs[0]) {
            Some(slot) => Some(slot),
            None => spec_first_bank_slot(msgs.drop_first()),
        }
    }
}

/// Examines one message as the waiter does: `Some` of the slot exactly for a
/// new-bank slot event; every other message is discarded.
pub fn bank_slot_of(m: &Message) -> (r: Option<u64>)
    ensures
        r == spec_bank_slot(*m),
{
    match m {
        Message::Slot(SlotNotification::CreatedBank { slot, parent: _ }) => Some(*slot),
        _ => None,
    }
}

/// The time still left before the deadline: `None` once more than the whole
/// timeout has elapsed, the exact difference otherwise.  Discarded messages
/// do not extend the deadline; only elapsed time shrinks it.
pub fn remaining_timeout(timeout_ms: u64, elapsed_ms: u64) -> (r: Option<u64>)
    ensures
        r is None <==> elapsed_ms > timeout_ms,
        r matches Some(left) ==> left == timeout_ms - elapsed_ms,
{
    if elapsed_ms > timeout_ms {
        None
    } else {
        Some(timeout_ms - elapsed_ms)
    }
}

/// Scans a drained run of messages as the waiter would: returns the slot of
/// the first new-bank event, ignoring everything before it.
#[verifier::loop_isolation(false)]
pub fn scan_for_bank_slot(msgs: &Vec<Message>) -> (r: Option<u64>)
    ensures
        r == spec_first_bank_slot(msgs@),
{
    let mut j: usize = 0;
    proof {
        assert(msgs@.skip(0) =~= msgs@);
    }
    while j < msgs.len()
        invariant
            0 <= j <= msgs@.len(),
            spec_first_bank_slot(msgs@) == spec_first_bank_slot(msgs@.skip(j as int)),
        decreases msgs@.len() - j,
    {
        let found = bank_slot_of(&msgs[j]);
        proof {
            assert(msgs@.skip(j as int)[0] == msgs@[j as int]);
            assert(msgs@.skip(j as int).drop_first() =~= msgs@.skip(j as int + 1));
        }
        if let Some(slot) = found {
            return Some(slot);
        }
        j = j + 1;
    }
    proof {
        assert(msgs@.skip(msgs@.len() as int) =~= Seq::<Message>::empty());
    }
    None
}

/// The waiter's verdict over everything the channel delivered: the slot of
/// the first new-bank event if one arrived; otherwise `ChannelClosed` when
/// the channel was drained and closed first, and `Timeout` when the
/// deadline passed first.  Success is owed exactly when such an event is in
/// the run.
pub fn waiter_outcome(msgs: &Vec<Message>, channel_closed: bool) -> (r: Result<
    u64,
    BootstrapError,
>)
    ensures
        spec_first_bank_slot(msgs@) matches Some(slot) ==> r == Ok::<u64, BootstrapError>(slot),
        spec_first_bank_slot(msgs@) is None && channel_closed ==> r == Err::<u64, BootstrapError>(
            BootstrapError::ChannelClosed,
        ),
        spec_first_bank_slot(msgs@) is None && !channel_closed ==> r == Err::<u64, BootstrapError>(
            BootstrapError::Timeout,
        ),
{
    match scan_for_bank_slot(msgs) {
        Some(slot) => Ok(slot),
        None => if channel_closed {
            Err(BootstrapError::ChannelClosed)
        } else {
            Err(BootstrapError::Timeout)
        },
    }
}

/// Waiting skips exactly the non-matching prefix: as long as no message up
/// to `k` announces a new bank, the waiter's answer over the whole run is
/// its answer over the run from `k` on — earlier `Confirmed`, `Rooted` or
/// account messages are consumed and discarded without affecting it.
pub proof fn lemma_waiter_ignores_non_bank(msgs: Seq<Message>, k: int)
    requires
        0 <= k <= msgs.len(),
        forall|i: int| 0 <= i < k ==> spec_bank_slot(#[trigger] msgs[i]) is None,
    ensures
        spec_first_bank_slot(msgs) == spec_first_bank_slot(msgs.skip(k)),
    decreases k,
{
    if k == 0 {
        assert(msgs.skip(0) =~= msgs);
    } else {
        let tail = msgs.drop_first();
        assert(spec_bank_slot(msgs[0]) is None);
        assert(spec_first_bank_slot(msgs) == spec_first_bank_slot(tail));
        assert(forall|i: int| 0 <= i < k - 1 ==> spec_bank_slot(#[trigger] tail[i]) is None);
        lemma_waiter_ignores_non_bank(tail, k - 1);
        assert(tail.skip(k - 1) =~= msgs.skip(k));
    }
}

/// The waiter returns the slot of the first new-bank event: if nothing
/// before `k` matches and the message at `k` announces a bank for `slot`,
/// the answer over the whole run is exactly that slot.
pub proof fn lemma_waiter_first_bank_slot(msgs: Seq<Message>, k: int, slot: u64)
    requires
        0 <= k < msgs.len(),
        forall|i: int| 0 <= i < k ==> spec_bank_slot(#[trigger] msgs[i]) is None,
        spec_bank_slot(msgs[k]) == Some(slot),
    ensures
        spec_first_bank_slot(msgs) == Some(slot),
{
    lemma_waiter_ignores_non_bank(msgs, k);
    assert(msgs.skip(k)[0] == msgs[k]);
}

} // verus!
