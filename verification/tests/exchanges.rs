use shack::amqp::{
    next_delivery_step, DeliveryAction, DeliveryEvent, DeliveryState, ExchangeParameters,
};

#[test]
fn exchange_parameters() {
    assert_eq!(ExchangeParameters::ShackInput.name(), "shack.input");
    assert_eq!(ExchangeParameters::ShackMQTT.name(), "shack.mqtt");
    assert_eq!(ExchangeParameters::Logging.name(), "logging");
    assert_eq!(ExchangeParameters::ShackInput.message_ttl(), "10000");
    assert_eq!(ExchangeParameters::ShackMQTT.message_ttl(), "60000");
    assert_eq!(ExchangeParameters::Logging.message_ttl(), "60000");
    assert!(!ExchangeParameters::ShackInput.durable());
    assert!(!ExchangeParameters::ShackMQTT.durable());
    assert!(ExchangeParameters::Logging.durable());
    assert_eq!(ExchangeParameters::ShackInput.delivery_mode(), 1);
    assert_eq!(ExchangeParameters::ShackMQTT.delivery_mode(), 1);
    assert_eq!(ExchangeParameters::Logging.delivery_mode(), 2);
    assert_eq!(
        ExchangeParameters::all(),
        vec![
            ExchangeParameters::Logging,
            ExchangeParameters::ShackInput,
            ExchangeParameters::ShackMQTT
        ]
    );
}

#[test]
fn delivery_happy_path() {
    let mut state = DeliveryState::Receiving;
    for _ in 0..3 {
        let (s, a) = next_delivery_step(state, DeliveryEvent::Delivered);
        assert_eq!((s, a), (DeliveryState::Forwarding, DeliveryAction::Forward));
        let (s, a) = next_delivery_step(s, DeliveryEvent::Forwarded);
        assert_eq!((s, a), (DeliveryState::Acknowledging, DeliveryAction::Acknowledge));
        let (s, a) = next_delivery_step(s, DeliveryEvent::Acknowledged);
        assert_eq!((s, a), (DeliveryState::Receiving, DeliveryAction::Receive));
        state = s;
    }
    assert_eq!(
        next_delivery_step(state, DeliveryEvent::StreamEnded),
        (DeliveryState::Stopped, DeliveryAction::Stop)
    );
}

#[test]
fn delivery_failures() {
    assert_eq!(
        next_delivery_step(DeliveryState::Receiving, DeliveryEvent::ReceiveFailed),
        (DeliveryState::Stopped, DeliveryAction::ReportErrorAndStop)
    );
    assert_eq!(
        next_delivery_step(DeliveryState::Forwarding, DeliveryEvent::ForwardFailed),
        (DeliveryState::Stopped, DeliveryAction::Stop)
    );
    assert_eq!(
        next_delivery_step(DeliveryState::Acknowledging, DeliveryEvent::AcknowledgeFailed),
        (DeliveryState::Stopped, DeliveryAction::ReportErrorAndStop)
    );
    assert_eq!(
        next_delivery_step(DeliveryState::Stopped, DeliveryEvent::Delivered),
        (DeliveryState::Stopped, DeliveryAction::Stop)
    );
    assert_eq!(
        next_delivery_step(DeliveryState::Receiving, DeliveryEvent::Acknowledged),
        (DeliveryState::Stopped, DeliveryAction::Stop)
    );
}
