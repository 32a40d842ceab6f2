//! Tests for the actor's control state and the subscription stream
//! decisions.

use ln_gateway::actor::{
    on_stream_event, subscription_step, GatewayActor, StopAction, StreamDecision, StreamEvent,
    SubscriptionState,
};
use ln_gateway::htlc::InterceptedHtlc;

fn htlc() -> InterceptedHtlc {
    InterceptedHtlc {
        htlc_id: 7,
        payment_hash: vec![0x01; 32],
        outgoing_amount_msat: 1_000,
        short_channel_id: 5,
    }
}

#[test]
fn new_actor_is_subscribed() {
    let actor = GatewayActor::new();
    assert!(actor.subscription_active);
}

#[test]
fn stop_with_active_subscription_sends_shutdown() {
    let mut actor = GatewayActor::new();
    assert_eq!(actor.stop_subscribing_htlcs(), StopAction::SendShutdown);
    assert!(!actor.subscription_active);
}

#[test]
fn stop_without_subscription_is_a_quiet_no_op() {
    let mut actor = GatewayActor { subscription_active: false };
    // Stopping with no active subscription neither panics nor blocks, and
    // stays a no-op however often it is repeated.
    assert_eq!(actor.stop_subscribing_htlcs(), StopAction::NoActiveSubscription);
    assert_eq!(actor.stop_subscribing_htlcs(), StopAction::NoActiveSubscription);
    assert_eq!(actor.stop_subscribing_htlcs(), StopAction::NoActiveSubscription);
}

#[test]
fn resubscribing_after_stop_activates_again() {
    let mut actor = GatewayActor::new();
    actor.stop_subscribing_htlcs();
    actor.subscribe_htlcs();
    assert!(actor.subscription_active);
    assert_eq!(actor.stop_subscribing_htlcs(), StopAction::SendShutdown);
}

#[test]
fn stream_message_is_processed() {
    let d = on_stream_event(StreamEvent::Htlc { htlc: htlc() });
    assert_eq!(d, StreamDecision::Process { htlc: htlc() });
}

#[test]
fn stream_error_disconnects_and_requests_reconnect_with_no_node_type() {
    let d = on_stream_event(StreamEvent::StreamError {
        message: String::from("transport broken"),
    });
    match d {
        StreamDecision::DisconnectAndReconnect { payload } => {
            // An absent node type reuses the stored credentials.
            assert_eq!(payload.node_type, None);
        }
        other => panic!("expected disconnect-and-reconnect, got {:?}", other),
    }
}

#[test]
fn stream_close_and_shutdown_signal_terminate_quietly() {
    assert_eq!(on_stream_event(StreamEvent::StreamClosed), StreamDecision::Terminate);
    assert_eq!(on_stream_event(StreamEvent::ShutdownSignal), StreamDecision::Terminate);
}

#[test]
fn subscription_stays_active_while_messages_arrive() {
    let (session, decision) =
        subscription_step(SubscriptionState::Active, StreamEvent::Htlc { htlc: htlc() });
    assert_eq!(session, SubscriptionState::Active);
    assert_eq!(decision, StreamDecision::Process { htlc: htlc() });
}

#[test]
fn stream_error_terminates_the_subscription() {
    let (session, decision) = subscription_step(
        SubscriptionState::Active,
        StreamEvent::StreamError { message: String::from("transport broken") },
    );
    assert_eq!(session, SubscriptionState::Terminated);
    match decision {
        StreamDecision::DisconnectAndReconnect { payload } => {
            assert_eq!(payload.node_type, None);
        }
        other => panic!("expected disconnect-and-reconnect, got {:?}", other),
    }
}

#[test]
fn terminated_subscription_processes_nothing_further() {
    // After termination no stream yield is processed and no second
    // reconnect is requested, whatever arrives.
    let (session, decision) =
        subscription_step(SubscriptionState::Terminated, StreamEvent::Htlc { htlc: htlc() });
    assert_eq!(session, SubscriptionState::Terminated);
    assert_eq!(decision, StreamDecision::Terminate);

    let (session, decision) = subscription_step(
        SubscriptionState::Terminated,
        StreamEvent::StreamError { message: String::from("still broken") },
    );
    assert_eq!(session, SubscriptionState::Terminated);
    assert_eq!(decision, StreamDecision::Terminate);
}
