//! Tests for the HTLC interception pipeline.

use ln_gateway::htlc::{
    begin_htlc, htlc_step, HtlcCall, HtlcCompletion, HtlcEvent, HtlcState, InterceptedHtlc,
};
use ln_gateway::values::{ContractId, OutPoint, Preimage};

fn htlc_with_hash(payment_hash: Vec<u8>) -> InterceptedHtlc {
    InterceptedHtlc {
        htlc_id: 1,
        payment_hash,
        outgoing_amount_msat: 50_000,
        short_channel_id: 42,
    }
}

fn outpoint() -> OutPoint {
    OutPoint { txid: vec![0xaa; 32], out_idx: 0 }
}

fn contract_id() -> ContractId {
    ContractId { bytes: vec![0xcc; 32] }
}

fn preimage() -> Preimage {
    Preimage { bytes: vec![0x11; 32] }
}

fn is_completion(call: &Option<HtlcCall>) -> bool {
    matches!(call, Some(HtlcCall::Complete { .. }))
}

#[test]
fn internal_payment_happy_path_settles_once() {
    let hash = vec![0x07u8; 32];
    let htlc = htlc_with_hash(hash.clone());
    let (state, call) = begin_htlc(&htlc);

    assert_eq!(state, HtlcState::BuyingOffer { htlc_id: 1 });
    match call {
        HtlcCall::BuyOffer { payment_hash, amount_msat } => {
            assert_eq!(payment_hash.bytes, hash);
            assert_eq!(amount_msat, 50_000);
        }
        other => panic!("expected an offer purchase, got {:?}", other),
    }

    let (state, call) = htlc_step(
        state,
        HtlcEvent::BuyOfferOk { outpoint: outpoint(), contract_id: contract_id() },
    );
    assert_eq!(
        state,
        HtlcState::AwaitingDecryption { htlc_id: 1, contract_id: contract_id() }
    );
    assert_eq!(call, Some(HtlcCall::AwaitDecryption { outpoint: outpoint() }));

    let mut completions = 0;
    let (state, call) = htlc_step(state, HtlcEvent::DecryptionOk { preimage: preimage() });
    if is_completion(&call) {
        completions += 1;
    }
    assert_eq!(state, HtlcState::Completing { htlc_id: 1 });
    assert_eq!(
        call,
        Some(HtlcCall::Complete {
            htlc_id: 1,
            action: HtlcCompletion::Settle { preimage: preimage() },
        })
    );

    let (state, call) = htlc_step(state, HtlcEvent::CompletionSent);
    if is_completion(&call) {
        completions += 1;
    }
    assert_eq!(state, HtlcState::Done);
    assert_eq!(call, None);
    assert_eq!(completions, 1);
}

#[test]
fn malformed_hash_cancels_without_federation_calls() {
    let htlc = htlc_with_hash(vec![0x07u8; 10]);
    let (state, call) = begin_htlc(&htlc);

    assert_eq!(state, HtlcState::Completing { htlc_id: 1 });
    match call {
        HtlcCall::Complete { htlc_id, action: HtlcCompletion::Cancel { reason } } => {
            assert_eq!(htlc_id, 1);
            assert!(reason.contains("parse"));
        }
        other => panic!("expected a cancellation, got {:?}", other),
    }

    // Whatever arrives once the HTLC is completing, no federation call and
    // no second completion is asked for.
    let (state, call) = htlc_step(
        state,
        HtlcEvent::BuyOfferOk { outpoint: outpoint(), contract_id: contract_id() },
    );
    assert_eq!(state, HtlcState::Completing { htlc_id: 1 });
    assert_eq!(call, None);

    let (state, call) = htlc_step(state, HtlcEvent::CompletionSent);
    assert_eq!(state, HtlcState::Done);
    assert_eq!(call, None);
}

#[test]
fn empty_hash_is_rejected_like_any_wrong_length() {
    let (state, _) = begin_htlc(&htlc_with_hash(Vec::new()));
    assert_eq!(state, HtlcState::Completing { htlc_id: 1 });
    let (state, _) = begin_htlc(&htlc_with_hash(vec![0u8; 33]));
    assert_eq!(state, HtlcState::Completing { htlc_id: 1 });
    let (state, _) = begin_htlc(&htlc_with_hash(vec![0u8; 32]));
    assert_eq!(state, HtlcState::BuyingOffer { htlc_id: 1 });
}

#[test]
fn buy_offer_failure_cancels_with_error_message() {
    let state = HtlcState::BuyingOffer { htlc_id: 9 };
    let (state, call) = htlc_step(
        state,
        HtlcEvent::BuyOfferErr { reason: String::from("note sync failed") },
    );
    assert_eq!(state, HtlcState::Completing { htlc_id: 9 });
    assert_eq!(
        call,
        Some(HtlcCall::Complete {
            htlc_id: 9,
            action: HtlcCompletion::Cancel { reason: String::from("note sync failed") },
        })
    );

    // No decryption is attempted afterwards.
    let (_, call) = htlc_step(state, HtlcEvent::DecryptionOk { preimage: preimage() });
    assert_eq!(call, None);
}

#[test]
fn decryption_failure_refunds_before_cancelling() {
    let state = HtlcState::AwaitingDecryption { htlc_id: 3, contract_id: contract_id() };
    let (state, call) = htlc_step(
        state,
        HtlcEvent::DecryptionErr { reason: String::from("decryption failed") },
    );
    // The refund request comes first, for the escrow contract.
    assert_eq!(call, Some(HtlcCall::RefundIncoming { contract_id: contract_id() }));
    assert!(matches!(state, HtlcState::RequestingRefund { htlc_id: 3, .. }));

    // Only after the refund's outcome does the cancellation go out, carrying
    // the decryption error.
    let (state, call) = htlc_step(state, HtlcEvent::RefundOk);
    assert_eq!(state, HtlcState::Completing { htlc_id: 3 });
    assert_eq!(
        call,
        Some(HtlcCall::Complete {
            htlc_id: 3,
            action: HtlcCompletion::Cancel { reason: String::from("decryption failed") },
        })
    );
}

#[test]
fn refund_failure_still_cancels_with_the_decryption_error() {
    // The refund is best-effort: its own failure changes nothing about the
    // cancellation, which carries the decryption error either way.
    let state = HtlcState::RequestingRefund {
        htlc_id: 3,
        reason: String::from("decryption failed"),
    };
    let (state, call) = htlc_step(
        state,
        HtlcEvent::RefundErr { reason: String::from("refund rejected") },
    );
    assert_eq!(state, HtlcState::Completing { htlc_id: 3 });
    assert_eq!(
        call,
        Some(HtlcCall::Complete {
            htlc_id: 3,
            action: HtlcCompletion::Cancel { reason: String::from("decryption failed") },
        })
    );
}

#[test]
fn done_state_is_absorbing() {
    let (state, call) = htlc_step(HtlcState::Done, HtlcEvent::RefundOk);
    assert_eq!(state, HtlcState::Done);
    assert_eq!(call, None);
    let (state, call) = htlc_step(state, HtlcEvent::CompletionSent);
    assert_eq!(state, HtlcState::Done);
    assert_eq!(call, None);
}

#[test]
fn mismatched_event_changes_nothing() {
    let state = HtlcState::BuyingOffer { htlc_id: 5 };
    let (state, call) = htlc_step(state, HtlcEvent::RefundOk);
    assert_eq!(state, HtlcState::BuyingOffer { htlc_id: 5 });
    assert_eq!(call, None);
}
