//! The exchanges of the message bus, and the steps of passing deliveries on.

use crate::amqp::{EXCHANGE_NAME_LOGGING, EXCHANGE_NAME_SHACK_INPUT, EXCHANGE_NAME_SHACK_MQTT};
use vstd::prelude::*;

verus! {

/// The topic exchanges of the message bus.
#[derive(Debug, Clone, Copy, PartialEq, Eq)]
pub enum ExchangeParameters {
    ShackInput,
    ShackMQTT,
    Logging,
}

/// The name under which an exchange is declared.
pub open spec fn exchange_name(e: ExchangeParameters) -> Seq<char> {
    match e {
        ExchangeParameters::ShackInput => EXCHANGE_NAME_SHACK_INPUT@,
        ExchangeParameters::ShackMQTT => EXCHANGE_NAME_SHACK_MQTT@,
        ExchangeParameters::Logging => EXCHANGE_NAME_LOGGING@,
    }
}

/// How long a message lives on an exchange, in milliseconds, as text.
pub open spec fn exchange_message_ttl(e: ExchangeParameters) -> Seq<char> {
    match e {
        ExchangeParameters::ShackInput => "10000"@,
        ExchangeParameters::ShackMQTT => "60000"@,
        ExchangeParameters::Logging => "60000"@,
    }
}

/// Whether an exchange survives a restart of the broker.
pub open spec fn exchange_durable(e: ExchangeParameters) -> bool {
    match e {
        ExchangeParameters::ShackInput => false,
        ExchangeParameters::ShackMQTT => false,
        ExchangeParameters::Logging => true,
    }
}

impl ExchangeParameters {
    /// The name under which the exchange is declared.
    pub fn name(&self) -> (n: &str)
        ensures
            n@ == exchange_name(*self),
    {
        match self {
            ExchangeParameters::ShackInput => EXCHANGE_NAME_SHACK_INPUT,
            ExchangeParameters::ShackMQTT => EXCHANGE_NAME_SHACK_MQTT,
            ExchangeParameters::Logging => EXCHANGE_NAME_LOGGING,
        }
    }

    /// The expiration of messages published on the exchange, in milliseconds:
    /// ten seconds for input events, a minute otherwise.
    pub fn message_ttl(&self) -> (ttl: &str)
        ensures
            ttl@ == exchange_message_ttl(*self),
    {
        match self {
            ExchangeParameters::ShackInput => "10000",
            ExchangeParameters::Logging => "60000",
            ExchangeParameters::ShackMQTT => "60000",
        }
    }

    /// Whether the exchange is durable: only the logging exchange is.
    pub fn durable(&self) -> (d: bool)
        ensures
            d == exchange_durable(*self),
    {
        match self {
            ExchangeParameters::ShackInput => false,
            ExchangeParameters::Logging => true,
            ExchangeParameters::ShackMQTT => false,
        }
    }

    /// The AMQP delivery mode of messages published on the exchange:
    /// persistent (2) on a durable exchange, transient (1) otherwise.
    pub fn delivery_mode(&self) -> (mode: u8)
        ensures
            mode == (if exchange_durable(*self) { 2u8 } else { 1u8 }),
    {
        if self.durable() {
            2
        } else {
            1
        }
    }

    /// The exchanges that a client declares, in the order it declares them.
    pub fn all() -> (exchanges: Vec<ExchangeParameters>)
        ensures
            exchanges@ == seq![
                ExchangeParameters::Logging,
                ExchangeParameters::ShackInput,
                ExchangeParameters::ShackMQTT,
            ],
    {
        let mut exchanges = Vec::new();
        exchanges.push(ExchangeParameters::Logging);
        exchanges.push(ExchangeParameters::ShackInput);
        exchanges.push(ExchangeParameters::ShackMQTT);
        exchanges
    }
}

/// What the task that passes deliveries on to the application learns.
#[derive(Debug, Clone, Copy, PartialEq, Eq)]
pub enum DeliveryEvent {
    /// The consumer has no more deliveries.
    StreamEnded,
    /// Receiving the next delivery failed.
    ReceiveFailed,
    /// A delivery arrived.
    Delivered,
    /// The delivery was handed to the application.
    Forwarded,
    /// The application no longer takes messages.
    ForwardFailed,
    /// The delivery was acknowledged to the broker.
    Acknowledged,
    /// Acknowledging the delivery failed.
    AcknowledgeFailed,
}

/// Where the task stands.
#[derive(Debug, Clone, Copy, PartialEq, Eq)]
pub enum DeliveryState {
    /// Waiting for the next delivery.
    Receiving,
    /// Handing a delivery to the application.
    Forwarding,
    /// Acknowledging a delivery that the application took.
    Acknowledging,
    /// Done: nothing more is received.
    Stopped,
}

/// What the task does next.
#[derive(Debug, Clone, Copy, PartialEq, Eq)]
pub enum DeliveryAction {
    /// Wait for the next delivery.
    Receive,
    /// Hand the routing key and payload of the delivery to the application.
    Forward,
    /// Acknowledge the delivery.
    Acknowledge,
    /// Hand the error to the application, whether it takes it or not, then stop.
    ReportErrorAndStop,
    /// Stop.
    Stop,
}

/// The step that the task takes on an event in a state.
pub open spec fn delivery_step(state: DeliveryState, event: DeliveryEvent) -> (
    DeliveryState,
    DeliveryAction,
) {
    match (state, event) {
        (DeliveryState::Receiving, DeliveryEvent::Delivered) => (
            DeliveryState::Forwarding,
            DeliveryAction::Forward,
        ),
        (DeliveryState::Receiving, DeliveryEvent::ReceiveFailed) => (
            DeliveryState::Stopped,
            DeliveryAction::ReportErrorAndStop,
        ),
        (DeliveryState::Forwarding, DeliveryEvent::Forwarded) => (
            DeliveryState::Acknowledging,
            DeliveryAction::Acknowledge,
        ),
        (DeliveryState::Acknowledging, DeliveryEvent::Acknowledged) => (
            DeliveryState::Receiving,
            DeliveryAction::Receive,
        ),
        (DeliveryState::Acknowledging, DeliveryEvent::AcknowledgeFailed) => (
            DeliveryState::Stopped,
            DeliveryAction::ReportErrorAndStop,
        ),
        _ => (DeliveryState::Stopped, DeliveryAction::Stop),
    }
}

/// The next state and action of the task that passes deliveries on: a
/// delivery is handed on, then acknowledged, then the next one is awaited;
/// a failed receive or acknowledgement is reported and ends the task, and
/// so does an application that no longer takes messages, or the end of the
/// deliveries.
pub fn next_delivery_step(state: DeliveryState, event: DeliveryEvent) -> (next: (
    DeliveryState,
    DeliveryAction,
))
    ensures
        next == delivery_step(state, event),
        state == DeliveryState::Stopped ==> next == (DeliveryState::Stopped, DeliveryAction::Stop),
        next.1 == DeliveryAction::Acknowledge ==> state == DeliveryState::Forwarding && event
            == DeliveryEvent::Forwarded,
        next.1 == DeliveryAction::Forward ==> state == DeliveryState::Receiving && event
            == DeliveryEvent::Delivered,
        (next.1 == DeliveryAction::Stop || next.1 == DeliveryAction::ReportErrorAndStop) <==> next.0
            == DeliveryState::Stopped,
        state == DeliveryState::Receiving && event == DeliveryEvent::Delivered ==> next == (
            DeliveryState::Forwarding,
            DeliveryAction::Forward,
        ),
        state == DeliveryState::Forwarding && event == DeliveryEvent::Forwarded ==> next == (
            DeliveryState::Acknowledging,
            DeliveryAction::Acknowledge,
        ),
        state == DeliveryState::Acknowledging && event == DeliveryEvent::Acknowledged ==> next == (
            DeliveryState::Receiving,
            DeliveryAction::Receive,
        ),
        event == DeliveryEvent::ReceiveFailed || event == DeliveryEvent::AcknowledgeFailed ==> (
        next.1 == DeliveryAction::ReportErrorAndStop <==> (state == DeliveryState::Receiving
            && event == DeliveryEvent::ReceiveFailed) || (state == DeliveryState::Acknowledging
            && event == DeliveryEvent::AcknowledgeFailed)),
        event == DeliveryEvent::StreamEnded || event == DeliveryEvent::ForwardFailed ==> next == (
            DeliveryState::Stopped,
            DeliveryAction::Stop,
        ),
{
    match (state, event) {
        (DeliveryState::Receiving, DeliveryEvent::Delivered) => (
            DeliveryState::Forwarding,
            DeliveryAction::Forward,
        ),
        (DeliveryState::Receiving, DeliveryEvent::ReceiveFailed) => (
            DeliveryState::Stopped,
            DeliveryAction::ReportErrorAndStop,
        ),
        (DeliveryState::Forwarding, DeliveryEvent::Forwarded) => (
            DeliveryState::Acknowledging,
            DeliveryAction::Acknowledge,
        ),
        (DeliveryState::Acknowledging, DeliveryEvent::Acknowledged) => (
            DeliveryState::Receiving,
            DeliveryAction::Receive,
        ),
        (DeliveryState::Acknowledging, DeliveryEvent::AcknowledgeFailed) => (
            DeliveryState::Stopped,
            DeliveryAction::ReportErrorAndStop,
        ),
        _ => (DeliveryState::Stopped, DeliveryAction::Stop),
    }
}

/// The exchanges: `shack.input` keeps messages ten seconds and is transient;
/// `shack.mqtt` keeps them a minute and is transient; `logging` keeps them a
/// minute and is the only durable one.
pub proof fn lemma_exchange_parameters()
    ensures
        exchange_name(ExchangeParameters::ShackInput) == "shack.input"@,
        exchange_name(ExchangeParameters::ShackMQTT) == "shack.mqtt"@,
        exchange_name(ExchangeParameters::Logging) == "logging"@,
        exchange_message_ttl(ExchangeParameters::ShackInput) == "10000"@,
        exchange_message_ttl(ExchangeParameters::ShackMQTT) == "60000"@,
        exchange_message_ttl(ExchangeParameters::Logging) == "60000"@,
        forall|e: ExchangeParameters| exchange_durable(e) <==> e == ExchangeParameters::Logging,
{
}

} // verus!
