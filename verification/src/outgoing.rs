//! The outbound payment orchestrator.
//!
//! Paying an invoice funded by an outgoing federation contract runs through
//! fetch, validation, a persisted payment record, one of two preimage
//! acquisition paths (an internal federation escrow when the federation
//! already holds an offer for the payment hash, an external Lightning
//! payment otherwise), and finally a claim of the contract with the
//! preimage. Validation failure cancels the contract before the error is
//! surfaced; a failed internal finalization refunds the escrow and then
//! aborts the contract, so federation-side value is never left in limbo.
//!
//! Like the HTLC pipeline, the orchestrator is a state machine driven by the
//! outcomes of collaborator calls: [`start_pay_invoice`] opens it,
//! [`pay_step`] consumes one outcome and names the next call to make. The
//! proof functions at the end state its laws.

use vstd::prelude::*;

use crate::values::{ContractId, OutPoint, OutPointModel, PaymentHash, Preimage};

verus! {

/// What contract validation established: the bounds under which the invoice
/// may be paid, and whether the payment could be settled internally. The fee
/// ceiling is carried in parts per million of the amount.
#[derive(Debug, Clone, PartialEq, Eq)]
pub struct PaymentParameters {
    pub payment_hash: PaymentHash,
    pub invoice_amount_msat: u64,
    pub max_delay: u64,
    pub max_fee_ppm: u64,
    pub maybe_internal: bool,
}

/// Mathematical value of validated payment parameters.
pub struct PaymentParametersModel {
    pub payment_hash: Seq<u8>,
    pub invoice_amount_msat: u64,
    pub max_delay: u64,
    pub max_fee_ppm: u64,
    pub maybe_internal: bool,
}

impl View for PaymentParameters {
    type V = PaymentParametersModel;

    open spec fn view(&self) -> PaymentParametersModel {
        PaymentParametersModel {
            payment_hash: self.payment_hash@,
            invoice_amount_msat: self.invoice_amount_msat,
            max_delay: self.max_delay,
            max_fee_ppm: self.max_fee_ppm,
            maybe_internal: self.maybe_internal,
        }
    }
}

/// The intermediate result of preimage acquisition: an internal escrow still
/// pending threshold decryption, or a preimage already obtained by paying
/// over Lightning.
#[derive(Debug, Clone, PartialEq, Eq)]
pub enum BuyPreimage {
    Internal { outpoint: OutPoint, contract_id: ContractId },
    External { preimage: Preimage },
}

/// What finalizing a [`BuyPreimage`] requires next: nothing (the preimage is
/// already final), or awaiting the federation's threshold decryption.
#[derive(Debug, Clone, PartialEq, Eq)]
pub enum FinalizeStep {
    Ready { preimage: Preimage },
    AwaitDecryption { outpoint: OutPoint, contract_id: ContractId },
}

/// An error surfaced by the orchestrator, tagged with the failing
/// collaborator.
#[derive(Debug, Clone, PartialEq, Eq)]
pub enum PayError {
    Federation { message: String },
    Node { message: String },
}

/// Mathematical value of an orchestrator error.
pub enum PayErrorModel {
    Federation { message: Seq<char> },
    Node { message: Seq<char> },
}

impl View for PayError {
    type V = PayErrorModel;

    open spec fn view(&self) -> PayErrorModel {
        match self {
            PayError::Federation { message } => PayErrorModel::Federation { message: message@ },
            PayError::Node { message } => PayErrorModel::Node { message: message@ },
        }
    }
}

impl PayError {
    /// The failing collaborator's message.
    pub fn message(&self) -> (r: &String)
        ensures
            self matches PayError::Federation { message } ==> r@ == message@,
            self matches PayError::Node { message } ==> r@ == message@,
    {
        match self {
            PayError::Federation { message } => message,
            PayError::Node { message } => message,
        }
    }
}

/// A call the driver must make next on behalf of the orchestrator.
#[derive(Debug, Clone, PartialEq, Eq)]
pub enum PayCall {
    /// Fetch the outgoing contract account from the federation.
    FetchContract { contract_id: ContractId },
    /// Have the federation client validate the fetched account.
    ValidateContract,
    /// Cancel the outgoing contract after a validation failure.
    CancelContract { contract_id: ContractId },
    /// Persist the outgoing payment record for crash recovery.
    SavePayment,
    /// Ask whether the federation already holds an offer for the hash.
    CheckOfferExists { payment_hash: PaymentHash },
    /// Buy a preimage escrow offer from the federation.
    BuyOffer { payment_hash: PaymentHash, amount_msat: u64 },
    /// Await the federation's threshold decryption of the escrow.
    AwaitDecryption { outpoint: OutPoint },
    /// Request a refund of the incoming escrow contract.
    RefundIncoming { contract_id: ContractId },
    /// Pay the invoice over Lightning within the validated bounds.
    PayInvoice { invoice: String, max_delay: u64, max_fee_ppm: u64 },
    /// Claim the outgoing contract with the confirmed preimage.
    ClaimContract { contract_id: ContractId, preimage: Preimage },
    /// Abort the outgoing contract so its value becomes refundable.
    AbortContract { contract_id: ContractId },
}

/// Mathematical value of an orchestrator call.
pub enum PayCallModel {
    FetchContract { contract_id: Seq<u8> },
    ValidateContract,
    CancelContract { contract_id: Seq<u8> },
    SavePayment,
    CheckOfferExists { payment_hash: Seq<u8> },
    BuyOffer { payment_hash: Seq<u8>, amount_msat: u64 },
    AwaitDecryption { outpoint: OutPointModel },
    RefundIncoming { contract_id: Seq<u8> },
    PayInvoice { invoice: Seq<char>, max_delay: u64, max_fee_ppm: u64 },
    ClaimContract { contract_id: Seq<u8>, preimage: Seq<u8> },
    AbortContract { contract_id: Seq<u8> },
}

impl View for PayCall {
    type V = PayCallModel;

    open spec fn view(&self) -> PayCallModel {
        match self {
            PayCall::FetchContract { contract_id } => PayCallModel::FetchContract {
                contract_id: contract_id@,
            },
            PayCall::ValidateContract => PayCallModel::ValidateContract,
            PayCall::CancelContract { contract_id } => PayCallModel::CancelContract {
                contract_id: contract_id@,
            },
            PayCall::SavePayment => PayCallModel::SavePayment,
            PayCall::CheckOfferExists { payment_hash } => PayCallModel::CheckOfferExists {
                payment_hash: payment_hash@,
            },
            PayCall::BuyOffer { payment_hash, amount_msat } => PayCallModel::BuyOffer {
                payment_hash: payment_hash@,
                amount_msat: *amount_msat,
            },
            PayCall::AwaitDecryption { outpoint } => PayCallModel::AwaitDecryption {
                outpoint: outpoint@,
            },
            PayCall::RefundIncoming { contract_id } => PayCallModel::RefundIncoming {
                contract_id: contract_id@,
            },
            PayCall::PayInvoice { invoice, max_delay, max_fee_ppm } => PayCallModel::PayInvoice {
                invoice: invoice@,
                max_delay: *max_delay,
                max_fee_ppm: *max_fee_ppm,
            },
            PayCall::ClaimContract { contract_id, preimage } => PayCallModel::ClaimContract {
                contract_id: contract_id@,
                preimage: preimage@,
            },
            PayCall::AbortContract { contract_id } => PayCallModel::AbortContract {
                contract_id: contract_id@,
            },
        }
    }
}

/// The view of an optional orchestrator call.
pub open spec fn pay_call_view(c: Option<PayCall>) -> Option<PayCallModel> {
    match c {
        Option::None => Option::None,
        Option::Some(call) => Option::Some(call@),
    }
}

/// The orchestrator's state between collaborator calls.
#[derive(Debug, PartialEq, Eq)]
pub enum PayState {
    /// Waiting for the outgoing contract account.
    FetchingContract { contract_id: ContractId },
    /// Waiting for the validation verdict on the fetched account.
    Validating { contract_id: ContractId, invoice: String },
    /// Validation failed; waiting for the contract cancellation. The stored
    /// message is the validation error, surfaced once the cancel went
    /// through.
    CancellingContract { message: String },
    /// Waiting for the payment record to be persisted.
    SavingPayment { contract_id: ContractId, invoice: String, params: PaymentParameters },
    /// Waiting to hear whether the federation holds an offer for the hash.
    CheckingOffer { contract_id: ContractId, invoice: String, params: PaymentParameters },
    /// Internal path: waiting for the escrow offer purchase.
    BuyingOffer { contract_id: ContractId },
    /// Internal path: waiting for the threshold decryption.
    AwaitingDecryption { contract_id: ContractId, incoming_contract_id: ContractId },
    /// Decryption failed; waiting for the escrow refund before aborting the
    /// outgoing contract. The stored message is the decryption error, carried
    /// onward whatever the refund's outcome.
    RefundingIncoming { contract_id: ContractId, message: String },
    /// External path: waiting for the Lightning payment's preimage.
    PayingInvoice { contract_id: ContractId },
    /// Waiting for the contract claim's settlement outpoint.
    Claiming,
    /// Waiting for the contract abort; the stored error is surfaced whatever
    /// the abort's outcome.
    Aborting { error: PayError },
    /// The payment has finished, successfully or not.
    Finished { result: Result<OutPoint, PayError> },
}

/// Mathematical value of an orchestrator state.
pub enum PayStateModel {
    FetchingContract { contract_id: Seq<u8> },
    Validating { contract_id: Seq<u8>, invoice: Seq<char> },
    CancellingContract { message: Seq<char> },
    SavingPayment { contract_id: Seq<u8>, invoice: Seq<char>, params: PaymentParametersModel },
    CheckingOffer { contract_id: Seq<u8>, invoice: Seq<char>, params: PaymentParametersModel },
    BuyingOffer { contract_id: Seq<u8> },
    AwaitingDecryption { contract_id: Seq<u8>, incoming_contract_id: Seq<u8> },
    RefundingIncoming { contract_id: Seq<u8>, message: Seq<char> },
    PayingInvoice { contract_id: Seq<u8> },
    Claiming,
    Aborting { error: PayErrorModel },
    Finished { result: Result<OutPointModel, PayErrorModel> },
}

impl View for PayState {
    type V = PayStateModel;

    open spec fn view(&self) -> PayStateModel {
        match self {
            PayState::FetchingContract { contract_id } => PayStateModel::FetchingContract {
                contract_id: contract_id@,
            },
            PayState::Validating { contract_id, invoice } => PayStateModel::Validating {
                contract_id: contract_id@,
                invoice: invoice@,
            },
            PayState::CancellingContract { message } => PayStateModel::CancellingContract {
                message: message@,
            },
            PayState::SavingPayment { contract_id, invoice, params } => {
                PayStateModel::SavingPayment {
                    contract_id: contract_id@,
                    invoice: invoice@,
                    params: params@,
                }
            },
            PayState::CheckingOffer { contract_id, invoice, params } => {
                PayStateModel::CheckingOffer {
                    contract_id: contract_id@,
                    invoice: invoice@,
                    params: params@,
                }
            },
            PayState::BuyingOffer { contract_id } => PayStateModel::BuyingOffer {
                contract_id: contract_id@,
            },
            PayState::AwaitingDecryption { contract_id, incoming_contract_id } => {
                PayStateModel::AwaitingDecryption {
                    contract_id: contract_id@,
                    incoming_contract_id: incoming_contract_id@,
                }
            },
            PayState::RefundingIncoming { contract_id, message } => {
                PayStateModel::RefundingIncoming {
                    contract_id: contract_id@,
                    message: message@,
                }
            },
            PayState::PayingInvoice { contract_id } => PayStateModel::PayingInvoice {
                contract_id: contract_id@,
            },
            PayState::Claiming => PayStateModel::Claiming,
            PayState::Aborting { error } => PayStateModel::Aborting { error: error@ },
            PayState::Finished { result } => PayStateModel::Finished {
                result: match result {
                    Ok(outpoint) => Ok(outpoint@),
                    Err(error) => Err(error@),
                },
            },
        }
    }
}

/// The outcome of the collaborator call the orchestrator asked for last.
#[derive(Debug, Clone, PartialEq, Eq)]
pub enum PayEvent {
    FetchOk { invoice: String },
    FetchErr { message: String },
    ValidateOk { params: PaymentParameters },
    ValidateErr { message: String },
    SaveDone,
    OfferCheckOk { exists: bool },
    OfferCheckErr { message: String },
    BuyOfferOk { outpoint: OutPoint, contract_id: ContractId },
    BuyOfferErr { message: String },
    DecryptionOk { preimage: Preimage },
    DecryptionErr { message: String },
    RefundOk,
    RefundErr { message: String },
    PayOk { preimage: Preimage },
    PayErr { message: String },
    ClaimOk { outpoint: OutPoint },
    ClaimErr { message: String },
    CancelOk,
    CancelErr { message: String },
    AbortOk,
    AbortErr { message: String },
}

/// Mathematical value of an orchestrator event.
pub enum PayEventModel {
    FetchOk { invoice: Seq<char> },
    FetchErr { message: Seq<char> },
    ValidateOk { params: PaymentParametersModel },
    ValidateErr { message: Seq<char> },
    SaveDone,
    OfferCheckOk { exists: bool },
    OfferCheckErr { message: Seq<char> },
    BuyOfferOk { outpoint: OutPointModel, contract_id: Seq<u8> },
    BuyOfferErr { message: Seq<char> },
    DecryptionOk { preimage: Seq<u8> },
    DecryptionErr { message: Seq<char> },
    RefundOk,
    RefundErr { message: Seq<char> },
    PayOk { preimage: Seq<u8> },
    PayErr { message: Seq<char> },
    ClaimOk { outpoint: OutPointModel },
    ClaimErr { message: Seq<char> },
    CancelOk,
    CancelErr { message: Seq<char> },
    AbortOk,
    AbortErr { message: Seq<char> },
}

impl View for PayEvent {
    type V = PayEventModel;

    open spec fn view(&self) -> PayEventModel {
        match self {
            PayEvent::FetchOk { invoice } => PayEventModel::FetchOk { invoice: invoice@ },
            PayEvent::FetchErr { message } => PayEventModel::FetchErr { message: message@ },
            PayEvent::ValidateOk { params } => PayEventModel::ValidateOk { params: params@ },
            PayEvent::ValidateErr { message } => PayEventModel::ValidateErr { message: message@ },
            PayEvent::SaveDone => PayEventModel::SaveDone,
            PayEvent::OfferCheckOk { exists } => PayEventModel::OfferCheckOk { exists: *exists },
            PayEvent::OfferCheckErr { message } => PayEventModel::OfferCheckErr {
                message: message@,
            },
            PayEvent::BuyOfferOk { outpoint, contract_id } => PayEventModel::BuyOfferOk {
                outpoint: outpoint@,
                contract_id: contract_id@,
            },
            PayEvent::BuyOfferErr { message } => PayEventModel::BuyOfferErr { message: message@ },
            PayEvent::DecryptionOk { preimage } => PayEventModel::DecryptionOk {
                preimage: preimage@,
            },
            PayEvent::DecryptionErr { message } => PayEventModel::DecryptionErr {
                message: message@,
            },
            PayEvent::RefundOk => PayEventModel::RefundOk,
            PayEvent::RefundErr { message } => PayEventModel::RefundErr { message: message@ },
            PayEvent::PayOk { preimage } => PayEventModel::PayOk { preimage: preimage@ },
            PayEvent::PayErr { message } => PayEventModel::PayErr { message: message@ },
            PayEvent::ClaimOk { outpoint } => PayEventModel::ClaimOk { outpoint: outpoint@ },
            PayEvent::ClaimErr { message } => PayEventModel::ClaimErr { message: message@ },
            PayEvent::CancelOk => PayEventModel::CancelOk,
            PayEvent::CancelErr { message } => PayEventModel::CancelErr { message: message@ },
            PayEvent::AbortOk => PayEventModel::AbortOk,
            PayEvent::AbortErr { message } => PayEventModel::AbortErr { message: message@ },
        }
    }
}

/// The orchestrator's transition relation: from a state and the outcome of
/// the pending call, the next state and the next call to make. An event that
/// does not answer the pending call leaves the state unchanged and asks for
/// nothing.
pub open spec fn pay_transition(s: PayStateModel, e: PayEventModel) -> (
    PayStateModel,
    Option<PayCallModel>,
) {
    match (s, e) {
        (PayStateModel::FetchingContract { contract_id }, PayEventModel::FetchOk { invoice }) => (
            PayStateModel::Validating { contract_id, invoice },
            Option::Some(PayCallModel::ValidateContract),
        ),
        (PayStateModel::FetchingContract { contract_id }, PayEventModel::FetchErr { message }) => (
            PayStateModel::Finished { result: Err(PayErrorModel::Federation { message }) },
            Option::None,
        ),
        (
            PayStateModel::Validating { contract_id, invoice },
            PayEventModel::ValidateOk { params },
        ) => (
            PayStateModel::SavingPayment { contract_id, invoice, params },
            Option::Some(PayCallModel::SavePayment),
        ),
        (
            PayStateModel::Validating { contract_id, invoice },
            PayEventModel::ValidateErr { message },
        ) => (
            PayStateModel::CancellingContract { message },
            Option::Some(PayCallModel::CancelContract { contract_id }),
        ),
        (
            PayStateModel::SavingPayment { contract_id, invoice, params },
            PayEventModel::SaveDone,
        ) => if params.maybe_internal {
            (
                PayStateModel::CheckingOffer { contract_id, invoice, params },
                Option::Some(
                    PayCallModel::CheckOfferExists { payment_hash: params.payment_hash },
                ),
            )
        } else {
            (
                PayStateModel::PayingInvoice { contract_id },
                Option::Some(
                    PayCallModel::PayInvoice {
                        invoice,
                        max_delay: params.max_delay,
                        max_fee_ppm: params.max_fee_ppm,
                    },
                ),
            )
        },
        (
            PayStateModel::CheckingOffer { contract_id, invoice, params },
            PayEventModel::OfferCheckOk { exists },
        ) => if exists {
            (
                PayStateModel::BuyingOffer { contract_id },
                Option::Some(
                    PayCallModel::BuyOffer {
                        payment_hash: params.payment_hash,
                        amount_msat: params.invoice_amount_msat,
                    },
                ),
            )
        } else {
            (
                PayStateModel::PayingInvoice { contract_id },
                Option::Some(
                    PayCallModel::PayInvoice {
                        invoice,
                        max_delay: params.max_delay,
                        max_fee_ppm: params.max_fee_ppm,
                    },
                ),
            )
        },
        (
            PayStateModel::CheckingOffer { contract_id, invoice, params },
            PayEventModel::OfferCheckErr { message },
        ) => (
            PayStateModel::PayingInvoice { contract_id },
            Option::Some(
                PayCallModel::PayInvoice {
                    invoice,
                    max_delay: params.max_delay,
                    max_fee_ppm: params.max_fee_ppm,
                },
            ),
        ),
        (
            PayStateModel::BuyingOffer { contract_id },
            PayEventModel::BuyOfferOk { outpoint, contract_id: incoming_contract_id },
        ) => (
            PayStateModel::AwaitingDecryption { contract_id, incoming_contract_id },
            Option::Some(PayCallModel::AwaitDecryption { outpoint }),
        ),
        (PayStateModel::BuyingOffer { contract_id }, PayEventModel::BuyOfferErr { message }) => (
            PayStateModel::Finished { result: Err(PayErrorModel::Federation { message }) },
            Option::None,
        ),
        (
            PayStateModel::AwaitingDecryption { contract_id, incoming_contract_id },
            PayEventModel::DecryptionOk { preimage },
        ) => (
            PayStateModel::Claiming,
            Option::Some(PayCallModel::ClaimContract { contract_id, preimage }),
        ),
        (
            PayStateModel::AwaitingDecryption { contract_id, incoming_contract_id },
            PayEventModel::DecryptionErr { message },
        ) => (
            PayStateModel::RefundingIncoming { contract_id, message },
            Option::Some(
                PayCallModel::RefundIncoming { contract_id: incoming_contract_id },
            ),
        ),
        (
            PayStateModel::RefundingIncoming { contract_id, message },
            PayEventModel::RefundOk,
        ) => (
            PayStateModel::Aborting { error: PayErrorModel::Federation { message } },
            Option::Some(PayCallModel::AbortContract { contract_id }),
        ),
        (
            PayStateModel::RefundingIncoming { contract_id, message },
            PayEventModel::RefundErr { message: _ },
        ) => (
            PayStateModel::Aborting { error: PayErrorModel::Federation { message } },
            Option::Some(PayCallModel::AbortContract { contract_id }),
        ),
        (PayStateModel::PayingInvoice { contract_id }, PayEventModel::PayOk { preimage }) => (
            PayStateModel::Claiming,
            Option::Some(PayCallModel::ClaimContract { contract_id, preimage }),
        ),
        (PayStateModel::PayingInvoice { contract_id }, PayEventModel::PayErr { message }) => (
            PayStateModel::Finished { result: Err(PayErrorModel::Node { message }) },
            Option::None,
        ),
        (PayStateModel::Claiming, PayEventModel::ClaimOk { outpoint }) => (
            PayStateModel::Finished { result: Ok(outpoint) },
            Option::None,
        ),
        (PayStateModel::Claiming, PayEventModel::ClaimErr { message }) => (
            PayStateModel::Finished { result: Err(PayErrorModel::Federation { message }) },
            Option::None,
        ),
        (PayStateModel::CancellingContract { message }, PayEventModel::CancelOk) => (
            PayStateModel::Finished { result: Err(PayErrorModel::Federation { message }) },
            Option::None,
        ),
        (
            PayStateModel::CancellingContract { message: _ },
            PayEventModel::CancelErr { message },
        ) => (
            PayStateModel::Finished { result: Err(PayErrorModel::Federation { message }) },
            Option::None,
        ),
        (PayStateModel::Aborting { error }, PayEventModel::AbortOk) => (
            PayStateModel::Finished { result: Err(error) },
            Option::None,
        ),
        (PayStateModel::Aborting { error }, PayEventModel::AbortErr { message: _ }) => (
            PayStateModel::Finished { result: Err(error) },
            Option::None,
        ),
        (other, _) => (other, Option::None),
    }
}

/// Opens the orchestrator for one outgoing contract: the first call fetches
/// the contract account from the federation.
pub fn start_pay_invoice(contract_id: &ContractId) -> (r: (PayState, PayCall))
    ensures
        r.0@ == (PayStateModel::FetchingContract { contract_id: contract_id@ }),
        r.1@ == (PayCallModel::FetchContract { contract_id: contract_id@ }),
{
    (
        PayState::FetchingContract { contract_id: contract_id.duplicate() },
        PayCall::FetchContract { contract_id: contract_id.duplicate() },
    )
}

/// Advances the orchestrator by one collaborator outcome, following
/// [`pay_transition`] exactly.
pub fn pay_step(s: PayState, e: PayEvent) -> (r: (PayState, Option<PayCall>))
    ensures
        r.0@ == pay_transition(s@, e@).0,
        pay_call_view(r.1) == pay_transition(s@, e@).1,
{
    match (s, e) {
        (PayState::FetchingContract { contract_id }, PayEvent::FetchOk { invoice }) => (
            PayState::Validating { contract_id, invoice },
            Some(PayCall::ValidateContract),
        ),
        (PayState::FetchingContract { contract_id: _ }, PayEvent::FetchErr { message }) => (
            PayState::Finished { result: Err(PayError::Federation { message }) },
            None,
        ),
        (PayState::Validating { contract_id, invoice }, PayEvent::ValidateOk { params }) => (
            PayState::SavingPayment { contract_id, invoice, params },
            Some(PayCall::SavePayment),
        ),
        (PayState::Validating { contract_id, invoice: _ }, PayEvent::ValidateErr { message }) => (
            PayState::CancellingContract { message },
            Some(PayCall::CancelContract { contract_id }),
        ),
        (PayState::SavingPayment { contract_id, invoice, params }, PayEvent::SaveDone) => {
            if params.maybe_internal {
                let payment_hash = params.payment_hash.duplicate();
                (
                    PayState::CheckingOffer { contract_id, invoice, params },
                    Some(PayCall::CheckOfferExists { payment_hash }),
                )
            } else {
                (
                    PayState::PayingInvoice { contract_id },
                    Some(
                        PayCall::PayInvoice {
                            invoice,
                            max_delay: params.max_delay,
                            max_fee_ppm: params.max_fee_ppm,
                        },
                    ),
                )
            }
        },
        (
            PayState::CheckingOffer { contract_id, invoice, params },
            PayEvent::OfferCheckOk { exists },
        ) => {
            if exists {
                (
                    PayState::BuyingOffer { contract_id },
                    Some(
                        PayCall::BuyOffer {
                            payment_hash: params.payment_hash,
                            amount_msat: params.invoice_amount_msat,
                        },
                    ),
                )
            } else {
                (
                    PayState::PayingInvoice { contract_id },
                    Some(
                        PayCall::PayInvoice {
                            invoice,
                            max_delay: params.max_delay,
                            max_fee_ppm: params.max_fee_ppm,
                        },
                    ),
                )
            }
        },
        (
            PayState::CheckingOffer { contract_id, invoice, params },
            PayEvent::OfferCheckErr { message: _ },
        ) => (
            PayState::PayingInvoice { contract_id },
            Some(
                PayCall::PayInvoice {
                    invoice,
                    max_delay: params.max_delay,
                    max_fee_ppm: params.max_fee_ppm,
                },
            ),
        ),
        (
            PayState::BuyingOffer { contract_id },
            PayEvent::BuyOfferOk { outpoint, contract_id: incoming_contract_id },
        ) => (
            PayState::AwaitingDecryption { contract_id, incoming_contract_id },
            Some(PayCall::AwaitDecryption { outpoint }),
        ),
        (PayState::BuyingOffer { contract_id: _ }, PayEvent::BuyOfferErr { message }) => (
            PayState::Finished { result: Err(PayError::Federation { message }) },
            None,
        ),
        (
            PayState::AwaitingDecryption { contract_id, incoming_contract_id: _ },
            PayEvent::DecryptionOk { preimage },
        ) => (
            PayState::Claiming,
            Some(PayCall::ClaimContract { contract_id, preimage }),
        ),
        (
            PayState::AwaitingDecryption { contract_id, incoming_contract_id },
            PayEvent::DecryptionErr { message },
        ) => (
            PayState::RefundingIncoming { contract_id, message },
            Some(PayCall::RefundIncoming { contract_id: incoming_contract_id }),
        ),
        (PayState::RefundingIncoming { contract_id, message }, PayEvent::RefundOk) => (
            PayState::Aborting { error: PayError::Federation { message } },
            Some(PayCall::AbortContract { contract_id }),
        ),
        (
            PayState::RefundingIncoming { contract_id, message },
            PayEvent::RefundErr { message: _ },
        ) => (
            PayState::Aborting { error: PayError::Federation { message } },
            Some(PayCall::AbortContract { contract_id }),
        ),
        (PayState::PayingInvoice { contract_id }, PayEvent::PayOk { preimage }) => (
            PayState::Claiming,
            Some(PayCall::ClaimContract { contract_id, preimage }),
        ),
        (PayState::PayingInvoice { contract_id: _ }, PayEvent::PayErr { message }) => (
            PayState::Finished { result: Err(PayError::Node { message }) },
            None,
        ),
        (PayState::Claiming, PayEvent::ClaimOk { outpoint }) => (
            PayState::Finished { result: Ok(outpoint) },
            None,
        ),
        (PayState::Claiming, PayEvent::ClaimErr { message }) => (
            PayState::Finished { result: Err(PayError::Federation { message }) },
            None,
        ),
        (PayState::CancellingContract { message }, PayEvent::CancelOk) => (
            PayState::Finished { result: Err(PayError::Federation { message }) },
            None,
        ),
        (PayState::CancellingContract { message: _ }, PayEvent::CancelErr { message }) => (
            PayState::Finished { result: Err(PayError::Federation { message }) },
            None,
        ),
        (PayState::Aborting { error }, PayEvent::AbortOk) => (
            PayState::Finished { result: Err(error) },
            None,
        ),
        (PayState::Aborting { error }, PayEvent::AbortErr { message: _ }) => (
            PayState::Finished { result: Err(error) },
            None,
        ),
        (other, _) => (other, None),
    }
}

/// What follows a threshold-decryption outcome for an internal escrow.
#[derive(Debug, PartialEq, Eq)]
pub enum DecryptionFollowUp {
    /// Decryption succeeded: the preimage is final, nothing follows.
    Finalized { preimage: Preimage },
    /// Decryption failed: request a refund of the escrow contract, and only
    /// then surface the stored error.
    RefundThenFail { contract_id: ContractId, error: PayError },
}

/// Decides what follows the federation's threshold decryption of an internal
/// escrow: a decrypted preimage is final; on failure the escrow contract is
/// refunded before the decryption error surfaces.
pub fn on_decryption_result(contract_id: ContractId, result: Result<Preimage, String>) -> (r:
    DecryptionFollowUp)
    ensures
        result matches Ok(preimage) ==> r == (DecryptionFollowUp::Finalized { preimage }),
        result matches Err(message) ==> r == (DecryptionFollowUp::RefundThenFail {
            contract_id,
            error: PayError::Federation { message },
        }),
{
    match result {
        Ok(preimage) => DecryptionFollowUp::Finalized { preimage },
        Err(message) => DecryptionFollowUp::RefundThenFail {
            contract_id,
            error: PayError::Federation { message },
        },
    }
}

/// The calls the orchestrator asks for, in order, when driven from state `s`
/// by the outcomes `events`.
pub open spec fn pay_outputs(s: PayStateModel, events: Seq<PayEventModel>) -> Seq<
    Option<PayCallModel>,
>
    decreases events.len(),
{
    if events.len() == 0 {
        Seq::empty()
    } else {
        let (s2, out) = pay_transition(s, events[0]);
        seq![out] + pay_outputs(s2, events.drop_first())
    }
}

/// The state the orchestrator reaches when driven from `s` by `events`.
pub open spec fn pay_final(s: PayStateModel, events: Seq<PayEventModel>) -> PayStateModel
    decreases events.len(),
{
    if events.len() == 0 {
        s
    } else {
        pay_final(pay_transition(s, events[0]).0, events.drop_first())
    }
}

/// A state from which the payment can only fail: the contract is being
/// cancelled or aborted, the escrow is being refunded, or the run already
/// finished with an error.
pub open spec fn failing(s: PayStateModel) -> bool {
    ||| s is CancellingContract
    ||| s is RefundingIncoming
    ||| s is Aborting
    ||| (s matches PayStateModel::Finished { result } && result is Err)
}

/// Once the orchestrator is in a failing state it stays failing: whatever
/// the remaining outcomes, a reached result is an error.
pub proof fn lemma_failing_stays(s: PayStateModel, events: Seq<PayEventModel>)
    requires
        failing(s),
    ensures
        failing(pay_final(s, events)),
    decreases events.len(),
{
    if events.len() > 0 {
        lemma_failing_stays(pay_transition(s, events[0]).0, events.drop_first());
    }
}

/// From the contract-cancellation state the orchestrator asks for nothing
/// further: in particular no offer purchase, no Lightning payment and no
/// claim can follow a validation failure.
pub proof fn lemma_cancelling_quiescent(s: PayStateModel, events: Seq<PayEventModel>)
    requires
        s is CancellingContract || (s is Finished),
    ensures
        forall|i: int|
            0 <= i < pay_outputs(s, events).len() ==> (pay_outputs(s, events)[i] is None),
    decreases events.len(),
{
    if events.len() > 0 {
        let (s2, out) = pay_transition(s, events[0]);
        lemma_cancelling_quiescent(s2, events.drop_first());
        assert forall|i: int| 0 <= i < pay_outputs(s, events).len() implies (pay_outputs(
            s,
            events,
        )[i] is None) by {
            if i > 0 {
                assert(pay_outputs(s, events)[i] == pay_outputs(s2, events.drop_first())[i - 1]);
            }
        }
    }
}

/// Validation failure cancels and propagates: the very next call cancels the
/// outgoing contract, no offer purchase, Lightning payment or claim is ever
/// asked for afterwards, and if the run reaches a result it is an error —
/// the validation error itself when the cancellation went through.
pub proof fn lemma_validation_failure_cancels(
    contract_id: Seq<u8>,
    invoice: Seq<char>,
    message: Seq<char>,
    events: Seq<PayEventModel>,
)
    requires
        events.len() >= 1,
        events[0] == (PayEventModel::ValidateErr { message }),
    ensures
        ({
            let s0 = PayStateModel::Validating { contract_id, invoice };
            let outs = pay_outputs(s0, events);
            &&& outs[0] == Option::Some(PayCallModel::CancelContract { contract_id })
            &&& forall|i: int| 1 <= i < outs.len() ==> (outs[i] is None)
            &&& failing(pay_final(s0, events))
            &&& events.len() >= 2 && events[1] is CancelOk ==> pay_final(s0, events.take(2)) == (
            PayStateModel::Finished {
                result: Err(PayErrorModel::Federation { message }),
            })
        }),
{
    let s0 = PayStateModel::Validating { contract_id, invoice };
    let (s2, out) = pay_transition(s0, events[0]);
    let outs = pay_outputs(s0, events);
    let tail = pay_outputs(s2, events.drop_first());
    assert(outs =~= seq![out] + tail);
    lemma_cancelling_quiescent(s2, events.drop_first());
    assert forall|i: int| 1 <= i < outs.len() implies (outs[i] is None) by {
        assert(outs[i] == tail[i - 1]);
    }
    lemma_failing_stays(s2, events.drop_first());
    if events.len() >= 2 && events[1] is CancelOk {
        let two = events.take(2);
        assert(two[0] == events[0]);
        assert(pay_final(s0, two) == pay_final(s2, two.drop_first()));
        let rest = two.drop_first();
        assert(rest[0] == events[1]);
        let done = pay_transition(s2, rest[0]).0;
        assert(pay_final(s2, rest) == pay_final(done, rest.drop_first()));
        assert(rest.drop_first() =~= Seq::<PayEventModel>::empty());
        assert(pay_final(done, rest.drop_first()) == done);
    }
}

/// A failed internal finalization refunds, then aborts, then surfaces the
/// decryption error: on decryption failure the next call refunds the escrow
/// contract, the call after the refund's outcome aborts the same outgoing
/// contract the orchestrator was started for, no result is reached before
/// the abort was asked for, a reached result is an error, and once the abort
/// was answered the result carries the decryption error — whatever the
/// refund's and the abort's own outcomes.
pub proof fn lemma_finalize_failure_aborts(
    contract_id: Seq<u8>,
    incoming_contract_id: Seq<u8>,
    message: Seq<char>,
    events: Seq<PayEventModel>,
)
    requires
        events.len() >= 1,
        events[0] == (PayEventModel::DecryptionErr { message }),
    ensures
        ({
            let s0 = PayStateModel::AwaitingDecryption { contract_id, incoming_contract_id };
            let outs = pay_outputs(s0, events);
            &&& outs[0] == Option::Some(
                PayCallModel::RefundIncoming { contract_id: incoming_contract_id },
            )
            &&& !(pay_final(s0, events.take(1)) is Finished)
            &&& events.len() >= 2 && (events[1] is RefundOk || events[1] is RefundErr) ==> outs[1]
                == Option::Some(PayCallModel::AbortContract { contract_id })
            &&& failing(pay_final(s0, events))
            &&& events.len() >= 3 && (events[1] is RefundOk || events[1] is RefundErr) && (
            events[2] is AbortOk || events[2] is AbortErr) ==> pay_final(s0, events.take(3)) == (
            PayStateModel::Finished {
                result: Err(PayErrorModel::Federation { message }),
            })
        }),
{
    let s0 = PayStateModel::AwaitingDecryption { contract_id, incoming_contract_id };
    let (s2, out) = pay_transition(s0, events[0]);
    let outs = pay_outputs(s0, events);
    let tail = pay_outputs(s2, events.drop_first());
    assert(outs =~= seq![out] + tail);
    let one = events.take(1);
    assert(one[0] == events[0]);
    assert(pay_final(s0, one) == pay_final(s2, one.drop_first()));
    assert(one.drop_first() =~= Seq::<PayEventModel>::empty());
    assert(pay_final(s2, one.drop_first()) == s2);
    if events.len() >= 2 {
        assert(tail[0] == pay_transition(s2, events.drop_first()[0]).1);
        assert(events.drop_first()[0] == events[1]);
    }
    lemma_failing_stays(s2, events.drop_first());
    if events.len() >= 3 && (events[1] is RefundOk || events[1] is RefundErr) && (
    events[2] is AbortOk || events[2] is AbortErr) {
        let three = events.take(3);
        assert(three[0] == events[0]);
        assert(pay_final(s0, three) == pay_final(s2, three.drop_first()));
        let rest1 = three.drop_first();
        assert(rest1[0] == three[1]);
        assert(three[1] == events[1]);
        let s3 = pay_transition(s2, rest1[0]).0;
        assert(pay_final(s2, rest1) == pay_final(s3, rest1.drop_first()));
        let rest2 = rest1.drop_first();
        assert(rest2[0] == rest1[1]);
        assert(rest1[1] == three[2]);
        assert(three[2] == events[2]);
        let s4 = pay_transition(s3, rest2[0]).0;
        assert(pay_final(s3, rest2) == pay_final(s4, rest2.drop_first()));
        assert(rest2.drop_first() =~= Seq::<PayEventModel>::empty());
        assert(pay_final(s4, rest2.drop_first()) == s4);
    }
}

/// Finalizing an acquired preimage: an external preimage is already final
/// and is returned unchanged; an internal escrow still needs the
/// federation's threshold decryption.
pub fn finalize_buy_preimage(buy_preimage: BuyPreimage) -> (r: FinalizeStep)
    ensures
        buy_preimage matches BuyPreimage::External { preimage } ==> (r matches
            FinalizeStep::Ready { preimage: p } && p == preimage),
        buy_preimage matches BuyPreimage::Internal { outpoint, contract_id } ==> (r matches
            FinalizeStep::AwaitDecryption { outpoint: o, contract_id: c } && o == outpoint && c
            == contract_id),
{
    match buy_preimage {
        BuyPreimage::External { preimage } => FinalizeStep::Ready { preimage },
        BuyPreimage::Internal { outpoint, contract_id } => FinalizeStep::AwaitDecryption {
            outpoint,
            contract_id,
        },
    }
}

} // verus!
