//! The HTLC interception pipeline.
//!
//! For every intercepted HTLC the gateway must issue exactly one completion
//! action back to the Lightning node: `Settle` with the acquired preimage, or
//! `Cancel` with a reason. Acquiring the preimage takes two federation calls
//! (buy an escrow offer, await its threshold decryption), each of which can
//! fail, and a failed decryption must be followed by a refund request before
//! the cancellation is sent.
//!
//! The pipeline is a state machine. [`begin_htlc`] starts it from an
//! intercepted HTLC; [`htlc_step`] consumes the outcome of the previous
//! collaborator call and returns the next state together with the next call
//! the driver must make. The proof functions at the end state the pipeline's
//! laws: exactly one completion per HTLC, cancellation on parse or purchase
//! failure without further federation work, and refund-before-cancel on
//! decryption failure.

use vstd::prelude::*;

use crate::values::{ContractId, OutPoint, OutPointModel, PaymentHash, Preimage};

verus! {

/// An intercepted HTLC as the node reports it: a node-assigned identifier,
/// the raw (not yet validated) payment hash, the outgoing amount and the
/// channel it arrived on.
#[derive(Debug, Clone, PartialEq, Eq)]
pub struct InterceptedHtlc {
    pub htlc_id: u64,
    pub payment_hash: Vec<u8>,
    pub outgoing_amount_msat: u64,
    pub short_channel_id: u64,
}

/// The completion action sent back to the node for one intercepted HTLC.
#[derive(Debug, Clone, PartialEq, Eq)]
pub enum HtlcCompletion {
    Settle { preimage: Preimage },
    Cancel { reason: String },
}

/// Mathematical value of a completion action.
pub enum HtlcCompletionModel {
    Settle { preimage: Seq<u8> },
    Cancel { reason: Seq<char> },
}

impl View for HtlcCompletion {
    type V = HtlcCompletionModel;

    open spec fn view(&self) -> HtlcCompletionModel {
        match self {
            HtlcCompletion::Settle { preimage } => HtlcCompletionModel::Settle {
                preimage: preimage@,
            },
            HtlcCompletion::Cancel { reason } => HtlcCompletionModel::Cancel { reason: reason@ },
        }
    }
}

/// A call the driver must make next on behalf of the pipeline.
#[derive(Debug, Clone, PartialEq, Eq)]
pub enum HtlcCall {
    /// Buy a preimage escrow offer from the federation.
    BuyOffer { payment_hash: PaymentHash, amount_msat: u64 },
    /// Await the federation's threshold decryption of the escrow.
    AwaitDecryption { outpoint: OutPoint },
    /// Request a refund of the incoming escrow contract.
    RefundIncoming { contract_id: ContractId },
    /// Send the completion action for the HTLC to the node.
    Complete { htlc_id: u64, action: HtlcCompletion },
}

/// Mathematical value of a pipeline call.
pub enum HtlcCallModel {
    BuyOffer { payment_hash: Seq<u8>, amount_msat: u64 },
    AwaitDecryption { outpoint: OutPointModel },
    RefundIncoming { contract_id: Seq<u8> },
    Complete { htlc_id: u64, action: HtlcCompletionModel },
}

impl View for HtlcCall {
    type V = HtlcCallModel;

    open spec fn view(&self) -> HtlcCallModel {
        match self {
            HtlcCall::BuyOffer { payment_hash, amount_msat } => HtlcCallModel::BuyOffer {
                payment_hash: payment_hash@,
                amount_msat: *amount_msat,
            },
            HtlcCall::AwaitDecryption { outpoint } => HtlcCallModel::AwaitDecryption {
                outpoint: outpoint@,
            },
            HtlcCall::RefundIncoming { contract_id } => HtlcCallModel::RefundIncoming {
                contract_id: contract_id@,
            },
            HtlcCall::Complete { htlc_id, action } => HtlcCallModel::Complete {
                htlc_id: *htlc_id,
                action: action@,
            },
        }
    }
}

/// The view of an optional pipeline call.
pub open spec fn call_view(c: Option<HtlcCall>) -> Option<HtlcCallModel> {
    match c {
        Option::None => Option::None,
        Option::Some(call) => Option::Some(call@),
    }
}

/// The pipeline's state between collaborator calls.
#[derive(Debug, Clone, PartialEq, Eq)]
pub enum HtlcState {
    /// Waiting for the federation's answer to the escrow offer purchase.
    BuyingOffer { htlc_id: u64 },
    /// Waiting for the threshold decryption of the escrow.
    AwaitingDecryption { htlc_id: u64, contract_id: ContractId },
    /// Decryption failed; waiting for the refund request's outcome. The
    /// stored reason is the decryption error, to be sent with the
    /// cancellation.
    RequestingRefund { htlc_id: u64, reason: String },
    /// Waiting for the completion action to reach the node.
    Completing { htlc_id: u64 },
    /// The HTLC has received its one completion action.
    Done,
}

/// Mathematical value of a pipeline state.
pub enum HtlcStateModel {
    BuyingOffer { htlc_id: u64 },
    AwaitingDecryption { htlc_id: u64, contract_id: Seq<u8> },
    RequestingRefund { htlc_id: u64, reason: Seq<char> },
    Completing { htlc_id: u64 },
    Done,
}

impl View for HtlcState {
    type V = HtlcStateModel;

    open spec fn view(&self) -> HtlcStateModel {
        match self {
            HtlcState::BuyingOffer { htlc_id } => HtlcStateModel::BuyingOffer {
                htlc_id: *htlc_id,
            },
            HtlcState::AwaitingDecryption { htlc_id, contract_id } => {
                HtlcStateModel::AwaitingDecryption {
                    htlc_id: *htlc_id,
                    contract_id: contract_id@,
                }
            },
            HtlcState::RequestingRefund { htlc_id, reason } => HtlcStateModel::RequestingRefund {
                htlc_id: *htlc_id,
                reason: reason@,
            },
            HtlcState::Completing { htlc_id } => HtlcStateModel::Completing { htlc_id: *htlc_id },
            HtlcState::Done => HtlcStateModel::Done,
        }
    }
}

/// The outcome of the collaborator call the pipeline asked for last.
#[derive(Debug, Clone, PartialEq, Eq)]
pub enum HtlcEvent {
    BuyOfferOk { outpoint: OutPoint, contract_id: ContractId },
    BuyOfferErr { reason: String },
    DecryptionOk { preimage: Preimage },
    DecryptionErr { reason: String },
    RefundOk,
    RefundErr { reason: String },
    CompletionSent,
}

/// Mathematical value of a pipeline event.
pub enum HtlcEventModel {
    BuyOfferOk { outpoint: OutPointModel, contract_id: Seq<u8> },
    BuyOfferErr { reason: Seq<char> },
    DecryptionOk { preimage: Seq<u8> },
    DecryptionErr { reason: Seq<char> },
    RefundOk,
    RefundErr { reason: Seq<char> },
    CompletionSent,
}

impl View for HtlcEvent {
    type V = HtlcEventModel;

    open spec fn view(&self) -> HtlcEventModel {
        match self {
            HtlcEvent::BuyOfferOk { outpoint, contract_id } => HtlcEventModel::BuyOfferOk {
                outpoint: outpoint@,
                contract_id: contract_id@,
            },
            HtlcEvent::BuyOfferErr { reason } => HtlcEventModel::BuyOfferErr { reason: reason@ },
            HtlcEvent::DecryptionOk { preimage } => HtlcEventModel::DecryptionOk {
                preimage: preimage@,
            },
            HtlcEvent::DecryptionErr { reason } => HtlcEventModel::DecryptionErr {
                reason: reason@,
            },
            HtlcEvent::RefundOk => HtlcEventModel::RefundOk,
            HtlcEvent::RefundErr { reason } => HtlcEventModel::RefundErr { reason: reason@ },
            HtlcEvent::CompletionSent => HtlcEventModel::CompletionSent,
        }
    }
}

/// The pipeline's transition relation: from a state and the outcome of the
/// pending call, the next state and the next call to make. An event that does
/// not answer the pending call leaves the state unchanged and asks for
/// nothing.
pub open spec fn htlc_transition(s: HtlcStateModel, e: HtlcEventModel) -> (
    HtlcStateModel,
    Option<HtlcCallModel>,
) {
    match (s, e) {
        (
            HtlcStateModel::BuyingOffer { htlc_id },
            HtlcEventModel::BuyOfferOk { outpoint, contract_id },
        ) => (
            HtlcStateModel::AwaitingDecryption { htlc_id, contract_id },
            Option::Some(HtlcCallModel::AwaitDecryption { outpoint }),
        ),
        (HtlcStateModel::BuyingOffer { htlc_id }, HtlcEventModel::BuyOfferErr { reason }) => (
            HtlcStateModel::Completing { htlc_id },
            Option::Some(
                HtlcCallModel::Complete {
                    htlc_id,
                    action: HtlcCompletionModel::Cancel { reason },
                },
            ),
        ),
        (
            HtlcStateModel::AwaitingDecryption { htlc_id, contract_id },
            HtlcEventModel::DecryptionOk { preimage },
        ) => (
            HtlcStateModel::Completing { htlc_id },
            Option::Some(
                HtlcCallModel::Complete {
                    htlc_id,
                    action: HtlcCompletionModel::Settle { preimage },
                },
            ),
        ),
        (
            HtlcStateModel::AwaitingDecryption { htlc_id, contract_id },
            HtlcEventModel::DecryptionErr { reason },
        ) => (
            HtlcStateModel::RequestingRefund { htlc_id, reason },
            Option::Some(HtlcCallModel::RefundIncoming { contract_id }),
        ),
        (HtlcStateModel::RequestingRefund { htlc_id, reason }, HtlcEventModel::RefundOk) => (
            HtlcStateModel::Completing { htlc_id },
            Option::Some(
                HtlcCallModel::Complete {
                    htlc_id,
                    action: HtlcCompletionModel::Cancel { reason },
                },
            ),
        ),
        (
            HtlcStateModel::RequestingRefund { htlc_id, reason },
            HtlcEventModel::RefundErr { reason: _ },
        ) => (
            HtlcStateModel::Completing { htlc_id },
            Option::Some(
                HtlcCallModel::Complete {
                    htlc_id,
                    action: HtlcCompletionModel::Cancel { reason },
                },
            ),
        ),
        (HtlcStateModel::Completing { htlc_id }, HtlcEventModel::CompletionSent) => (
            HtlcStateModel::Done,
            Option::None,
        ),
        (other, _) => (other, Option::None),
    }
}

/// The reason sent with the cancellation when the payment hash cannot be
/// parsed.
pub open spec fn parse_failure_reason() -> Seq<char> {
    "Failed to parse payment hash"@
}

/// How [`begin_htlc`] relates an intercepted HTLC to the pipeline's first
/// state and first call: a 32-byte payment hash starts the escrow purchase,
/// anything else goes straight to cancellation.
pub open spec fn begin_rel(htlc: InterceptedHtlc, s: HtlcStateModel, c: HtlcCallModel) -> bool {
    if htlc.payment_hash@.len() == 32 {
        &&& s == HtlcStateModel::BuyingOffer { htlc_id: htlc.htlc_id }
        &&& c == HtlcCallModel::BuyOffer {
            payment_hash: htlc.payment_hash@,
            amount_msat: htlc.outgoing_amount_msat,
        }
    } else {
        &&& s == HtlcStateModel::Completing { htlc_id: htlc.htlc_id }
        &&& c == HtlcCallModel::Complete {
            htlc_id: htlc.htlc_id,
            action: HtlcCompletionModel::Cancel { reason: parse_failure_reason() },
        }
    }
}

/// Starts the pipeline for one intercepted HTLC. If the payment hash parses
/// (exactly 32 bytes), the first call buys an escrow offer for that hash and
/// amount; otherwise the first call already cancels the HTLC with a parse
/// failure reason, and no federation call is ever asked for.
pub fn begin_htlc(htlc: &InterceptedHtlc) -> (r: (HtlcState, HtlcCall))
    ensures
        begin_rel(*htlc, r.0@, r.1@),
{
    match PaymentHash::parse(&htlc.payment_hash) {
        Some(hash) => (
            HtlcState::BuyingOffer { htlc_id: htlc.htlc_id },
            HtlcCall::BuyOffer { payment_hash: hash, amount_msat: htlc.outgoing_amount_msat },
        ),
        None => (
            HtlcState::Completing { htlc_id: htlc.htlc_id },
            HtlcCall::Complete {
                htlc_id: htlc.htlc_id,
                action: HtlcCompletion::Cancel {
                    reason: String::from_str("Failed to parse payment hash"),
                },
            },
        ),
    }
}

/// Advances the pipeline by one collaborator outcome, following
/// [`htlc_transition`] exactly.
pub fn htlc_step(s: HtlcState, e: HtlcEvent) -> (r: (HtlcState, Option<HtlcCall>))
    ensures
        r.0@ == htlc_transition(s@, e@).0,
        call_view(r.1) == htlc_transition(s@, e@).1,
{
    match (s, e) {
        (
            HtlcState::BuyingOffer { htlc_id },
            HtlcEvent::BuyOfferOk { outpoint, contract_id },
        ) => (
            HtlcState::AwaitingDecryption { htlc_id, contract_id },
            Some(HtlcCall::AwaitDecryption { outpoint }),
        ),
        (HtlcState::BuyingOffer { htlc_id }, HtlcEvent::BuyOfferErr { reason }) => (
            HtlcState::Completing { htlc_id },
            Some(
                HtlcCall::Complete { htlc_id, action: HtlcCompletion::Cancel { reason } },
            ),
        ),
        (
            HtlcState::AwaitingDecryption { htlc_id, contract_id: _ },
            HtlcEvent::DecryptionOk { preimage },
        ) => (
            HtlcState::Completing { htlc_id },
            Some(
                HtlcCall::Complete { htlc_id, action: HtlcCompletion::Settle { preimage } },
            ),
        ),
        (
            HtlcState::AwaitingDecryption { htlc_id, contract_id },
            HtlcEvent::DecryptionErr { reason },
        ) => (
            HtlcState::RequestingRefund { htlc_id, reason },
            Some(HtlcCall::RefundIncoming { contract_id }),
        ),
        (HtlcState::RequestingRefund { htlc_id, reason }, HtlcEvent::RefundOk) => (
            HtlcState::Completing { htlc_id },
            Some(
                HtlcCall::Complete { htlc_id, action: HtlcCompletion::Cancel { reason } },
            ),
        ),
        (HtlcState::RequestingRefund { htlc_id, reason }, HtlcEvent::RefundErr { reason: _ }) => (
            HtlcState::Completing { htlc_id },
            Some(
                HtlcCall::Complete { htlc_id, action: HtlcCompletion::Cancel { reason } },
            ),
        ),
        (HtlcState::Completing { htlc_id: _ }, HtlcEvent::CompletionSent) => (
            HtlcState::Done,
            None,
        ),
        (other, _) => (other, None),
    }
}

/// The calls the pipeline asks for, in order, when driven from state `s` by
/// the outcomes `events` (one entry per outcome; `None` where an outcome
/// demands nothing further).
pub open spec fn htlc_outputs(s: HtlcStateModel, events: Seq<HtlcEventModel>) -> Seq<
    Option<HtlcCallModel>,
>
    decreases events.len(),
{
    if events.len() == 0 {
        Seq::empty()
    } else {
        let (s2, out) = htlc_transition(s, events[0]);
        seq![out] + htlc_outputs(s2, events.drop_first())
    }
}

/// The state the pipeline reaches when driven from `s` by `events`.
pub open spec fn htlc_final(s: HtlcStateModel, events: Seq<HtlcEventModel>) -> HtlcStateModel
    decreases events.len(),
{
    if events.len() == 0 {
        s
    } else {
        htlc_final(htlc_transition(s, events[0]).0, events.drop_first())
    }
}

/// Whether an output is a completion action sent to the node.
pub open spec fn is_completion(c: Option<HtlcCallModel>) -> bool {
    c matches Option::Some(HtlcCallModel::Complete { .. })
}

/// How many completion actions a call sequence holds.
pub open spec fn count_completions(outs: Seq<Option<HtlcCallModel>>) -> nat
    decreases outs.len(),
{
    if outs.len() == 0 {
        0
    } else {
        (if is_completion(outs[0]) {
            1nat
        } else {
            0nat
        }) + count_completions(outs.drop_first())
    }
}

/// A state whose HTLC still awaits its completion action.
pub open spec fn live(s: HtlcStateModel) -> bool {
    ||| s is BuyingOffer
    ||| s is AwaitingDecryption
    ||| s is RequestingRefund
}

/// Once the completion action is out, the pipeline never returns to a live
/// state.
pub proof fn lemma_not_live_stays(s: HtlcStateModel, events: Seq<HtlcEventModel>)
    requires
        !live(s),
    ensures
        !live(htlc_final(s, events)),
    decreases events.len(),
{
    if events.len() > 0 {
        lemma_not_live_stays(htlc_transition(s, events[0]).0, events.drop_first());
    }
}

/// Once the HTLC is completing or done, the pipeline asks for no federation
/// call and no further completion: every later output is `None` but for the
/// transition out of `Completing`, which asks for nothing either.
pub proof fn lemma_quiescent_after_completion(s: HtlcStateModel, events: Seq<HtlcEventModel>)
    requires
        !live(s),
    ensures
        forall|i: int|
            0 <= i < htlc_outputs(s, events).len() ==> htlc_outputs(s, events)[i] is None,
    decreases events.len(),
{
    if events.len() > 0 {
        let (s2, out) = htlc_transition(s, events[0]);
        lemma_quiescent_after_completion(s2, events.drop_first());
        assert forall|i: int| 0 <= i < htlc_outputs(s, events).len() implies htlc_outputs(
            s,
            events,
        )[i] is None by {
            if i > 0 {
                assert(htlc_outputs(s, events)[i] == htlc_outputs(s2, events.drop_first())[i - 1]);
            }
        }
    }
}

/// The completion count of a run: one exactly when the run starts live and
/// ends not live; a completion action is emitted on the one transition that
/// leaves the live states.
pub proof fn lemma_completion_count(s: HtlcStateModel, events: Seq<HtlcEventModel>)
    ensures
        count_completions(htlc_outputs(s, events)) == if live(s) && !live(
            htlc_final(s, events),
        ) {
            1nat
        } else {
            0nat
        },
    decreases events.len(),
{
    if events.len() > 0 {
        let (s2, out) = htlc_transition(s, events[0]);
        lemma_completion_count(s2, events.drop_first());
        if !live(s2) {
            lemma_not_live_stays(s2, events.drop_first());
        }
        assert(htlc_outputs(s, events).drop_first() =~= htlc_outputs(s2, events.drop_first()));
    }
}

/// Exactly one completion action per intercepted HTLC: however the
/// collaborators answer, a pipeline started by [`begin_htlc`] and driven
/// until its HTLC no longer awaits completion has issued exactly one
/// completion action, the initial call included.
pub proof fn lemma_exactly_one_completion(
    htlc: InterceptedHtlc,
    s0: HtlcStateModel,
    c0: HtlcCallModel,
    events: Seq<HtlcEventModel>,
)
    requires
        begin_rel(htlc, s0, c0),
        !live(htlc_final(s0, events)),
    ensures
        count_completions(seq![Option::Some(c0)] + htlc_outputs(s0, events)) == 1,
{
    let outs = htlc_outputs(s0, events);
    let whole = seq![Option::Some(c0)] + outs;
    assert(whole.drop_first() =~= outs);
    lemma_completion_count(s0, events);
}

/// Never two completion actions, whether or not the run finishes: the count
/// over any prefix of the pipeline's life is at most one.
pub proof fn lemma_at_most_one_completion(
    htlc: InterceptedHtlc,
    s0: HtlcStateModel,
    c0: HtlcCallModel,
    events: Seq<HtlcEventModel>,
)
    requires
        begin_rel(htlc, s0, c0),
    ensures
        count_completions(seq![Option::Some(c0)] + htlc_outputs(s0, events)) <= 1,
{
    let outs = htlc_outputs(s0, events);
    let whole = seq![Option::Some(c0)] + outs;
    assert(whole.drop_first() =~= outs);
    lemma_completion_count(s0, events);
}

/// A malformed payment hash is cancelled outright: the initial call is the
/// cancellation, with the parse failure reason, and no federation call (no
/// offer purchase, no decryption, no refund) is ever asked for afterwards.
pub proof fn lemma_parse_failure_cancels(
    htlc: InterceptedHtlc,
    s0: HtlcStateModel,
    c0: HtlcCallModel,
    events: Seq<HtlcEventModel>,
)
    requires
        begin_rel(htlc, s0, c0),
        htlc.payment_hash@.len() != 32,
    ensures
        c0 == (HtlcCallModel::Complete {
            htlc_id: htlc.htlc_id,
            action: HtlcCompletionModel::Cancel { reason: parse_failure_reason() },
        }),
        forall|i: int|
            0 <= i < htlc_outputs(s0, events).len() ==> (htlc_outputs(s0, events)[i] is None),
{
    lemma_quiescent_after_completion(s0, events);
}

/// A failed offer purchase is cancelled with the federation error's message
/// as the reason, and no decryption is ever attempted afterwards.
pub proof fn lemma_buy_failure_cancels(
    htlc_id: u64,
    reason: Seq<char>,
    events: Seq<HtlcEventModel>,
)
    requires
        events.len() >= 1,
        events[0] == (HtlcEventModel::BuyOfferErr { reason }),
    ensures
        ({
            let outs = htlc_outputs(HtlcStateModel::BuyingOffer { htlc_id }, events);
            &&& outs[0] == Option::Some(
                HtlcCallModel::Complete {
                    htlc_id,
                    action: HtlcCompletionModel::Cancel { reason },
                },
            )
            &&& forall|i: int| 1 <= i < outs.len() ==> outs[i] is None
        }),
{
    let s0 = HtlcStateModel::BuyingOffer { htlc_id };
    let (s2, out) = htlc_transition(s0, events[0]);
    let outs = htlc_outputs(s0, events);
    let tail = htlc_outputs(s2, events.drop_first());
    assert(outs =~= seq![out] + tail);
    lemma_quiescent_after_completion(s2, events.drop_first());
    assert forall|i: int| 1 <= i < outs.len() implies outs[i] is None by {
        assert(outs[i] == tail[i - 1]);
    }
}

/// On decryption failure the refund request comes first: it is the very next
/// call, for the escrow contract the pipeline created, and the cancellation
/// can only follow it — carrying the decryption error whatever the refund's
/// outcome.
pub proof fn lemma_decryption_failure_refunds_first(
    htlc_id: u64,
    contract_id: Seq<u8>,
    reason: Seq<char>,
    events: Seq<HtlcEventModel>,
)
    requires
        events.len() >= 1,
        events[0] == (HtlcEventModel::DecryptionErr { reason }),
    ensures
        ({
            let outs = htlc_outputs(
                HtlcStateModel::AwaitingDecryption { htlc_id, contract_id },
                events,
            );
            &&& outs[0] == Option::Some(HtlcCallModel::RefundIncoming { contract_id })
            &&& forall|i: int| 0 <= i < outs.len() && is_completion(outs[i]) ==> i >= 1
            &&& events.len() >= 2 && (events[1] is RefundOk || events[1] is RefundErr)
                ==> outs[1] == Option::Some(
                HtlcCallModel::Complete {
                    htlc_id,
                    action: HtlcCompletionModel::Cancel { reason },
                },
            )
        }),
{
    let s0 = HtlcStateModel::AwaitingDecryption { htlc_id, contract_id };
    let (s2, out) = htlc_transition(s0, events[0]);
    let outs = htlc_outputs(s0, events);
    let tail = htlc_outputs(s2, events.drop_first());
    assert(outs =~= seq![out] + tail);
    if events.len() >= 2 {
        assert(tail[0] == htlc_transition(s2, events.drop_first()[0]).1);
        assert(events.drop_first()[0] == events[1]);
    }
}

} // verus!
