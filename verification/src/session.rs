//! One session of the feed as a state machine: the merged stream of the four
//! subscription groups is consumed item by item; forwardable items become
//! messages, a malformed item is fatal, and closure of any group or an idle
//! interval ends the session cleanly.

use vstd::prelude::*;
use crate::account::{
    AccountUpdate, DecodeError, RawAccount, RawKeyedAccount, account_decodes, address_of,
    raw_decodes, state_matches, update_matches, Address,
};
use crate::chain::Message;
use crate::slot::SlotNotification;

verus! {

/// The four subscription groups one session opens over its transport.
#[derive(Clone, Copy, PartialEq, Eq, Debug)]
pub enum Group {
    MangoProgram,
    MangoOracles,
    OpenOrders,
    Slots,
}

/// One item arriving at the merge point of the four groups: a raw payload
/// from one of them, a closure signal, or the idle timer firing.
#[derive(Clone, Debug)]
pub enum StreamItem {
    /// A keyed-account notification from one of the program-level groups.
    ProgramAccount { group: Group, raw: RawKeyedAccount },
    /// An account notification from one individually-tracked subscription,
    /// tagged with the identity the subscription was opened for.
    OracleAccount { identity: Address, slot: u64, account: RawAccount },
    /// A slot lifecycle notification.
    Slot { notification: SlotNotification },
    /// One group's upstream ended.
    Closed { group: Group },
    /// The idle interval elapsed with no event.
    IdleTimeout,
}

/// A clean way for a session to end.
#[derive(Clone, Copy, PartialEq, Eq, Debug)]
pub enum CloseReason {
    /// One subscription group's upstream ended.
    StreamClosed(Group),
    /// No event arrived for the whole idle interval.
    IdleTimeout,
}

/// Why a session failed.
#[derive(Clone, Copy, PartialEq, Eq, Debug)]
pub enum SessionError {
    /// The transport handshake failed.
    Connect,
    /// Opening one of the subscription groups failed.
    Subscribe(Group),
    /// An inbound notification could not be decoded.
    Decode(DecodeError),
}

/// How a session ended: cleanly, or with a failure.
#[derive(Clone, Copy, PartialEq, Eq, Debug)]
pub enum SessionEnd {
    Clean(CloseReason),
    Failed(SessionError),
}

/// What one stream item does to the session: forward a message, or end it.
#[derive(Clone, Copy, PartialEq, Eq, Debug)]
pub enum StepKind {
    Forward,
    End(SessionEnd),
}

/// An oracle item must carry a well-formed identity.
pub open spec fn item_wf(item: StreamItem) -> bool {
    match item {
        StreamItem::OracleAccount { identity, .. } => identity.wf(),
        _ => true,
    }
}

/// What one stream item does to the session.  Account payloads forward when
/// they decode and are fatal otherwise; slot notifications always forward;
/// a closure or the idle timer ends the session cleanly.
pub open spec fn step_of(item: StreamItem) -> StepKind {
    match item {
        StreamItem::ProgramAccount { raw, .. } => if raw_decodes(raw) {
            StepKind::Forward
        } else if address_of(raw.pubkey@) is None {
            StepKind::End(SessionEnd::Failed(SessionError::Decode(DecodeError::InvalidAddress)))
        } else {
            StepKind::End(
                SessionEnd::Failed(SessionError::Decode(DecodeError::UndecodableAccount)),
            )
        },
        StreamItem::OracleAccount { account, .. } => if account_decodes(account) {
            StepKind::Forward
        } else {
            StepKind::End(
                SessionEnd::Failed(SessionError::Decode(DecodeError::UndecodableAccount)),
            )
        },
        StreamItem::Slot { .. } => StepKind::Forward,
        StreamItem::Closed { group } => StepKind::End(
            SessionEnd::Clean(CloseReason::StreamClosed(group)),
        ),
        StreamItem::IdleTimeout => StepKind::End(SessionEnd::Clean(CloseReason::IdleTimeout)),
    }
}

/// `m` is the message a forwardable item turns into.
pub open spec fn emitted_message(item: StreamItem, m: Message) -> bool {
    match item {
        StreamItem::ProgramAccount { raw, .. } => m matches Message::Account(u)
            && update_matches(raw, u),
        StreamItem::OracleAccount { identity, slot, account } => m matches Message::Account(u)
            && u.pubkey@ == identity@ && u.slot == slot && state_matches(account, u.account),
        StreamItem::Slot { notification } => m == Message::Slot(notification),
        _ => false,
    }
}

/// No message is ever built from an undecodable payload: whenever an item
/// emits some message, that item forwards — an account item only does so
/// when its address and its payload both decode, so no partial or garbage
/// state can reach the consumer.
pub proof fn lemma_no_event_from_undecodable(item: StreamItem, m: Message)
    requires
        emitted_message(item, m),
    ensures
        step_of(item) is Forward,
{
}

/// The result of consuming one stream item.
#[derive(Clone, Debug)]
pub enum FeedStep {
    /// Forward this message to the outbound channel.
    Emit(Message),
    /// The session is over.
    End(SessionEnd),
}

/// Consumes one item of the merged stream.  Exactly the forwardable items
/// are emitted, as the message `emitted_message` describes; every other item
/// ends the session with the end `step_of` gives.
pub fn feed_step(item: StreamItem) -> (r: FeedStep)
    requires
        item_wf(item),
    ensures
        r matches FeedStep::Emit(m) ==> step_of(item) == StepKind::Forward && emitted_message(
            item,
            m,
        ),
        r matches FeedStep::End(e) ==> step_of(item) == StepKind::End(e),
        r is Emit <==> step_of(item) is Forward,
{
    match item {
        StreamItem::ProgramAccount { group: _, raw } => match AccountUpdate::from_rpc(raw) {
            Ok(u) => FeedStep::Emit(Message::Account(u)),
            Err(e) => FeedStep::End(SessionEnd::Failed(SessionError::Decode(e))),
        },
        StreamItem::OracleAccount { identity, slot, account } => {
            let pubkey = identity.to_base58();
            match AccountUpdate::from_rpc(RawKeyedAccount { slot, pubkey, account }) {
                Ok(u) => FeedStep::Emit(Message::Account(u)),
                Err(e) => FeedStep::End(SessionEnd::Failed(SessionError::Decode(e))),
            }
        },
        StreamItem::Slot { notification } => FeedStep::Emit(Message::Slot(notification)),
        StreamItem::Closed { group } => FeedStep::End(
            SessionEnd::Clean(CloseReason::StreamClosed(group)),
        ),
        StreamItem::IdleTimeout => FeedStep::End(SessionEnd::Clean(CloseReason::IdleTimeout)),
    }
}

/// Where one session stands in its lifecycle.
#[derive(Clone, Copy, PartialEq, Eq, Debug)]
pub enum SessionPhase {
    /// Opening the transport session.
    Connecting,
    /// Issuing the four subscription groups.
    Subscribing,
    /// Pumping the merged stream.
    Streaming,
    /// The session is over; nothing is reused for the next one.
    Terminated(SessionEnd),
}

/// What the setup of a session reports before streaming begins.
#[derive(Clone, Copy, PartialEq, Eq, Debug)]
pub enum SetupEvent {
    Connected,
    ConnectFailed,
    Subscribed,
    SubscribeFailed(Group),
}

/// The lifecycle transitions before streaming: a connect failure or any
/// subscribe failure terminates the session with that error; success moves
/// it forward.  An event that does not belong to the current phase changes
/// nothing, and a terminated session stays terminated.
pub open spec fn spec_phase_step(phase: SessionPhase, event: SetupEvent) -> SessionPhase {
    match (phase, event) {
        (SessionPhase::Connecting, SetupEvent::Connected) => SessionPhase::Subscribing,
        (SessionPhase::Connecting, SetupEvent::ConnectFailed) => SessionPhase::Terminated(
            SessionEnd::Failed(SessionError::Connect),
        ),
        (SessionPhase::Subscribing, SetupEvent::Subscribed) => SessionPhase::Streaming,
        (SessionPhase::Subscribing, SetupEvent::SubscribeFailed(g)) => SessionPhase::Terminated(
            SessionEnd::Failed(SessionError::Subscribe(g)),
        ),
        _ => phase,
    }
}

/// Advances the session lifecycle by one setup event.
pub fn phase_step(phase: SessionPhase, event: SetupEvent) -> (r: SessionPhase)
    ensures
        r == spec_phase_step(phase, event),
{
    match (phase, event) {
        (SessionPhase::Connecting, SetupEvent::Connected) => SessionPhase::Subscribing,
        (SessionPhase::Connecting, SetupEvent::ConnectFailed) => SessionPhase::Terminated(
            SessionEnd::Failed(SessionError::Connect),
        ),
        (SessionPhase::Subscribing, SetupEvent::Subscribed) => SessionPhase::Streaming,
        (SessionPhase::Subscribing, SetupEvent::SubscribeFailed(g)) => SessionPhase::Terminated(
            SessionEnd::Failed(SessionError::Subscribe(g)),
        ),
        _ => phase,
    }
}

/// How a whole merged stream ends: the end of the first ending item, or
/// `None` while every item so far forwards.
pub open spec fn spec_outcome(items: Seq<StreamItem>) -> Option<SessionEnd>
    decreases items.len(),
{
    if items.len() == 0 {
        None
    } else {
        match step_of(items[0]) {
            StepKind::Forward => spec_outcome(items.drop_first()),
            StepKind::End(e) => Some(e),
        }
    }
}

/// The items a session forwards: every item before the first ending item.
pub open spec fn spec_forwarded(items: Seq<StreamItem>) -> Seq<StreamItem>
    decreases items.len(),
{
    if items.len() == 0 {
        Seq::empty()
    } else {
        match step_of(items[0]) {
            StepKind::Forward => seq![items[0]] + spec_forwarded(items.drop_first()),
            StepKind::End(_) => Seq::empty(),
        }
    }
}

/// Runs one session over a finite merged stream.  Returns how the session
/// ended (`None` if the stream ran out while still live) and the forwarded
/// messages: exactly one message per forwardable item before the first
/// ending item, in arrival order.
#[verifier::loop_isolation(false)]
pub fn run_stream(items: Vec<StreamItem>) -> (r: (Option<SessionEnd>, Vec<Message>))
    requires
        forall|i: int| 0 <= i < items@.len() ==> item_wf(#[trigger] items@[i]),
    ensures
        r.0 == spec_outcome(items@),
        r.1@.len() == spec_forwarded(items@).len(),
        forall|i: int|
            0 <= i < r.1@.len() ==> emitted_message(spec_forwarded(items@)[i], #[trigger] r.1@[i]),
{
    let ghost orig = items@;
    let mut rest = items;
    let mut out: Vec<Message> = Vec::new();
    let ghost mut fwd: Seq<StreamItem> = Seq::empty();
    while rest.len() > 0
        invariant
            spec_outcome(orig) == spec_outcome(rest@),
            spec_forwarded(orig) == fwd + spec_forwarded(rest@),
            out@.len() == fwd.len(),
            forall|i: int| 0 <= i < fwd.len() ==> emitted_message(fwd[i], #[trigger] out@[i]),
            forall|i: int| 0 <= i < rest@.len() ==> item_wf(#[trigger] rest@[i]),
        decreases rest@.len(),
    {
        let ghost before = rest@;
        let item = rest.remove(0);
        proof {
            assert(rest@ =~= before.drop_first());
        }
        match feed_step(item) {
            FeedStep::Emit(m) => {
                out.push(m);
                proof {
                    assert(spec_forwarded(before) == seq![before[0]] + spec_forwarded(rest@));
                    assert(fwd + spec_forwarded(before) =~= fwd.push(before[0]) + spec_forwarded(
                        rest@,
                    ));
                    fwd = fwd.push(before[0]);
                }
            },
            FeedStep::End(e) => {
                proof {
                    assert(spec_outcome(orig) == Some(e));
                    assert(spec_forwarded(before) =~= Seq::<StreamItem>::empty());
                    assert(fwd + spec_forwarded(before) =~= fwd);
                }
                return (Some(e), out);
            },
        }
    }
    proof {
        assert(spec_outcome(rest@) is None);
        assert(spec_forwarded(rest@) =~= Seq::<StreamItem>::empty());
        assert(fwd + spec_forwarded(rest@) =~= fwd);
    }
    (None, out)
}

/// Every run reaching the first ending item takes its end and forwards
/// nothing from that item on.
proof fn lemma_run_to_first_end(items: Seq<StreamItem>, k: int, e: SessionEnd)
    requires
        0 <= k < items.len(),
        forall|i: int| 0 <= i < k ==> step_of(#[trigger] items[i]) is Forward,
        step_of(items[k]) == StepKind::End(e),
    ensures
        spec_outcome(items) == Some(e),
        spec_forwarded(items) == spec_forwarded(items.take(k)),
        spec_forwarded(items).len() <= k,
    decreases k,
{
    if k == 0 {
        assert(spec_forwarded(items) =~= Seq::<StreamItem>::empty());
        assert(spec_forwarded(items.take(0)) =~= Seq::<StreamItem>::empty());
    } else {
        let tail = items.drop_first();
        assert(step_of(items[0]) is Forward);
        assert(forall|i: int| 0 <= i < k - 1 ==> step_of(#[trigger] tail[i]) is Forward);
        assert(tail[k - 1] == items[k]);
        lemma_run_to_first_end(tail, k - 1, e);
        assert(items.take(k)[0] == items[0]);
        assert(items.take(k).drop_first() =~= tail.take(k - 1));
        assert(spec_forwarded(items.take(k)) == seq![items[0]] + spec_forwarded(tail.take(k - 1)));
        assert(spec_forwarded(items) == seq![items[0]] + spec_forwarded(tail));
    }
}

/// Closure of any one subscription group is fatal for the whole session, but
/// clean: if every item before the closure forwards, the session ends with
/// that group's closure — not an error — and forwards nothing at or after
/// the closing item, only what preceded it.
pub proof fn lemma_group_close_ends_session(items: Seq<StreamItem>, k: int, g: Group)
    requires
        0 <= k < items.len(),
        forall|i: int| 0 <= i < k ==> step_of(#[trigger] items[i]) is Forward,
        items[k] == (StreamItem::Closed { group: g }),
    ensures
        spec_outcome(items) == Some(SessionEnd::Clean(CloseReason::StreamClosed(g))),
        spec_forwarded(items) == spec_forwarded(items.take(k)),
        spec_forwarded(items).len() <= k,
{
    lemma_run_to_first_end(items, k, SessionEnd::Clean(CloseReason::StreamClosed(g)));
}

/// The idle timer firing ends the session cleanly even though no group
/// reported closure: the outcome is the idle timeout, and nothing at or
/// after the timeout item is forwarded.
pub proof fn lemma_idle_timeout_ends_session(items: Seq<StreamItem>, k: int)
    requires
        0 <= k < items.len(),
        forall|i: int| 0 <= i < k ==> step_of(#[trigger] items[i]) is Forward,
        items[k] == StreamItem::IdleTimeout,
    ensures
        spec_outcome(items) == Some(SessionEnd::Clean(CloseReason::IdleTimeout)),
        spec_forwarded(items) == spec_forwarded(items.take(k)),
        spec_forwarded(items).len() <= k,
{
    lemma_run_to_first_end(items, k, SessionEnd::Clean(CloseReason::IdleTimeout));
}

} // verus!
