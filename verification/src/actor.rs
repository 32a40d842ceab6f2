//! The gateway actor's control state.
//!
//! The actor owns at most one HTLC subscription task at a time; the
//! shutdown-signal sender for that task exists exactly while a subscription
//! is active. [`GatewayActor`] models that control state and decides what
//! the driver does when subscribing, when stopping, and when the
//! subscription stream yields: process the HTLC, terminate quietly, or
//! disconnect the node and request a reconnect from the control plane.

use vstd::prelude::*;

use crate::htlc::InterceptedHtlc;
use crate::outgoing::{BuyPreimage, FinalizeStep, PayCall, PayCallModel, PayState, PayStateModel};
use crate::outgoing::{finalize_buy_preimage, start_pay_invoice};
use crate::values::ContractId;

verus! {

/// The out-of-band request sent to the supervising process when the node
/// connection must be re-established. An absent node type means: reconnect
/// to the same node with the stored credentials.
#[derive(Debug, Clone, PartialEq, Eq)]
pub struct LightningReconnectPayload {
    pub node_type: Option<String>,
}

/// What the subscription loop does with one yield of the HTLC stream.
#[derive(Debug, Clone, PartialEq, Eq)]
pub enum StreamDecision {
    /// A message arrived: process the intercepted HTLC, stay subscribed.
    Process { htlc: InterceptedHtlc },
    /// The stream failed: disconnect the Lightning node, send this reconnect
    /// request to the supervising process, and terminate the task.
    DisconnectAndReconnect { payload: LightningReconnectPayload },
    /// The stream closed or a shutdown signal arrived: terminate the task.
    Terminate,
}

/// One yield of the subscription's wait: the next stream message, a stream
/// error, the stream's end, or the shutdown signal.
#[derive(Debug, Clone, PartialEq, Eq)]
pub enum StreamEvent {
    Htlc { htlc: InterceptedHtlc },
    StreamError { message: String },
    StreamClosed,
    ShutdownSignal,
}

/// What stopping the subscription amounts to.
#[derive(Debug, Clone, PartialEq, Eq)]
pub enum StopAction {
    /// A subscription was active: send the shutdown signal to its task.
    SendShutdown,
    /// No subscription was active: there is nothing to stop.
    NoActiveSubscription,
}

/// Decides what the subscription loop does with one yield of the stream: an
/// HTLC is processed; a stream error disconnects the node and requests a
/// reconnect with no node type (so the stored credentials are reused); the
/// stream's end and the shutdown signal terminate the task quietly.
pub fn on_stream_event(event: StreamEvent) -> (d: StreamDecision)
    ensures
        event matches StreamEvent::Htlc { htlc } ==> d == (StreamDecision::Process { htlc }),
        event is StreamError ==> (d matches StreamDecision::DisconnectAndReconnect { payload }
            && payload.node_type is None),
        event is StreamClosed ==> d is Terminate,
        event is ShutdownSignal ==> d is Terminate,
{
    match event {
        StreamEvent::Htlc { htlc } => StreamDecision::Process { htlc },
        StreamEvent::StreamError { message: _ } => StreamDecision::DisconnectAndReconnect {
            payload: LightningReconnectPayload { node_type: None },
        },
        StreamEvent::StreamClosed => StreamDecision::Terminate,
        StreamEvent::ShutdownSignal => StreamDecision::Terminate,
    }
}

/// The subscription task's state: consuming the stream, or terminated.
#[derive(Debug, Clone, PartialEq, Eq)]
pub enum SubscriptionState {
    Active,
    Terminated,
}

/// The subscription task's transition relation: while active, one stream
/// message is processed and the task stays active; a stream error, the
/// stream's end and the shutdown signal terminate it. A terminated task
/// consumes nothing further.
pub open spec fn subscription_transition(s: SubscriptionState, event: StreamEvent) -> (
    SubscriptionState,
    StreamDecision,
) {
    match s {
        SubscriptionState::Active => match event {
            StreamEvent::Htlc { htlc } => (
                SubscriptionState::Active,
                StreamDecision::Process { htlc },
            ),
            StreamEvent::StreamError { message } => (
                SubscriptionState::Terminated,
                StreamDecision::DisconnectAndReconnect {
                    payload: LightningReconnectPayload { node_type: None },
                },
            ),
            StreamEvent::StreamClosed => (
                SubscriptionState::Terminated,
                StreamDecision::Terminate,
            ),
            StreamEvent::ShutdownSignal => (
                SubscriptionState::Terminated,
                StreamDecision::Terminate,
            ),
        },
        SubscriptionState::Terminated => (SubscriptionState::Terminated, StreamDecision::Terminate),
    }
}

/// Advances the subscription task by one stream yield, following
/// [`subscription_transition`] exactly.
pub fn subscription_step(s: SubscriptionState, event: StreamEvent) -> (r: (
    SubscriptionState,
    StreamDecision,
))
    ensures
        r.0 == subscription_transition(s, event).0,
        r.1 == subscription_transition(s, event).1,
{
    match s {
        SubscriptionState::Active => {
            let decision = on_stream_event(event);
            let next = match &decision {
                StreamDecision::Process { .. } => SubscriptionState::Active,
                StreamDecision::DisconnectAndReconnect { .. } => SubscriptionState::Terminated,
                StreamDecision::Terminate => SubscriptionState::Terminated,
            };
            (next, decision)
        },
        SubscriptionState::Terminated => (SubscriptionState::Terminated, StreamDecision::Terminate),
    }
}

/// The state the subscription task reaches when driven from `s` by the
/// stream yields `events`.
pub open spec fn subscription_final(s: SubscriptionState, events: Seq<StreamEvent>) -> SubscriptionState
    decreases events.len(),
{
    if events.len() == 0 {
        s
    } else {
        subscription_final(subscription_transition(s, events[0]).0, events.drop_first())
    }
}

/// The decisions the subscription task takes, in order, when driven from `s`
/// by the stream yields `events`.
pub open spec fn subscription_decisions(s: SubscriptionState, events: Seq<StreamEvent>) -> Seq<
    StreamDecision,
>
    decreases events.len(),
{
    if events.len() == 0 {
        Seq::empty()
    } else {
        let (s2, d) = subscription_transition(s, events[0]);
        seq![d] + subscription_decisions(s2, events.drop_first())
    }
}

/// A terminated subscription consumes nothing further: it never becomes
/// active again, and every later decision is to terminate — no HTLC is
/// processed, no reconnect is requested.
pub proof fn lemma_terminated_stays(s: SubscriptionState, events: Seq<StreamEvent>)
    requires
        s is Terminated,
    ensures
        subscription_final(s, events) is Terminated,
        forall|i: int|
            0 <= i < subscription_decisions(s, events).len() ==> (subscription_decisions(
                s,
                events,
            )[i] is Terminate),
    decreases events.len(),
{
    if events.len() > 0 {
        let (s2, d) = subscription_transition(s, events[0]);
        lemma_terminated_stays(s2, events.drop_first());
        assert forall|i: int| 0 <= i < subscription_decisions(s, events).len() implies (
        subscription_decisions(s, events)[i] is Terminate) by {
            if i > 0 {
                assert(subscription_decisions(s, events)[i] == subscription_decisions(
                    s2,
                    events.drop_first(),
                )[i - 1]);
            }
        }
    }
}

/// A stream error ends the subscription: the task disconnects the node and
/// requests one reconnect with no node type, terminates, and processes no
/// further stream yield.
pub proof fn lemma_stream_error_terminates(events: Seq<StreamEvent>)
    requires
        events.len() >= 1,
        events[0] is StreamError,
    ensures
        ({
            let ds = subscription_decisions(SubscriptionState::Active, events);
            &&& ds[0] matches StreamDecision::DisconnectAndReconnect { payload }
                && payload.node_type is None
            &&& forall|i: int| 1 <= i < ds.len() ==> (ds[i] is Terminate)
            &&& subscription_final(SubscriptionState::Active, events) is Terminated
        }),
{
    let s0 = SubscriptionState::Active;
    let (s2, d) = subscription_transition(s0, events[0]);
    let ds = subscription_decisions(s0, events);
    let tail = subscription_decisions(s2, events.drop_first());
    assert(ds =~= seq![d] + tail);
    lemma_terminated_stays(s2, events.drop_first());
    assert forall|i: int| 1 <= i < ds.len() implies (ds[i] is Terminate) by {
        assert(ds[i] == tail[i - 1]);
    }
}

/// The actor's control state: whether an HTLC subscription task — and with
/// it the shutdown-signal sender — is active.
#[derive(Debug, Clone, PartialEq, Eq)]
pub struct GatewayActor {
    pub subscription_active: bool,
}

impl GatewayActor {
    /// A freshly constructed actor has already subscribed to intercepted
    /// HTLCs; its registration heartbeat runs alongside.
    pub fn new() -> (a: GatewayActor)
        ensures
            a.subscription_active,
    {
        let mut a = GatewayActor { subscription_active: false };
        a.subscribe_htlcs();
        a
    }

    /// Opens a subscription: a fresh shutdown-signal channel replaces any
    /// prior one, and a subscription task is active afterwards.
    pub fn subscribe_htlcs(&mut self)
        ensures
            final (self).subscription_active,
    {
        self.subscription_active = true;
    }

    /// Stops the active subscription, if any: with one active, the shutdown
    /// signal is to be sent to its task; with none, this is a no-op — it
    /// neither panics nor blocks. No subscription is active afterwards.
    pub fn stop_subscribing_htlcs(&mut self) -> (r: StopAction)
        ensures
            old(self).subscription_active <==> r is SendShutdown,
            !final (self).subscription_active,
    {
        let r = if self.subscription_active {
            StopAction::SendShutdown
        } else {
            StopAction::NoActiveSubscription
        };
        self.subscription_active = false;
        r
    }

    /// Opens the outbound payment orchestrator for an outgoing contract; the
    /// first call fetches the contract account.
    pub fn pay_invoice(&self, contract_id: &ContractId) -> (r: (PayState, PayCall))
        ensures
            r.0@ == (PayStateModel::FetchingContract { contract_id: contract_id@ }),
            r.1@ == (PayCallModel::FetchContract { contract_id: contract_id@ }),
    {
        start_pay_invoice(contract_id)
    }

    /// Finalizes an acquired preimage: an external preimage is returned
    /// unchanged, an internal escrow still needs threshold decryption.
    pub fn pay_invoice_buy_preimage_finalize(&self, buy_preimage: BuyPreimage) -> (r: FinalizeStep)
        ensures
            buy_preimage matches BuyPreimage::External { preimage } ==> (r matches
                FinalizeStep::Ready { preimage: p } && p == preimage),
            buy_preimage matches BuyPreimage::Internal { outpoint, contract_id } ==> (r matches
                FinalizeStep::AwaitDecryption { outpoint: o, contract_id: c } && o == outpoint
                && c == contract_id),
    {
        finalize_buy_preimage(buy_preimage)
    }
}

} // verus!
