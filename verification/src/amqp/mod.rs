//! Routing keys and exchange parameters of the AMQP message bus.

pub mod exchange;
pub mod logging;
pub mod shack_input;
pub mod shack_mqtt;

pub use exchange::{
    next_delivery_step, DeliveryAction, DeliveryEvent, DeliveryState, ExchangeParameters,
};
pub use logging::{LogLevel, LoggingRoutingKey, LoggingRoutingKeyView};
pub use shack_input::{ShackInputRoutingKey, ShackInputRoutingKeyView};
pub use shack_mqtt::{ShackMQTTRoutingKey, ShackMQTTRoutingKeyView, TasmotaRoutingKey};


use crate::text::{join_with, owned};
use vstd::prelude::*;

verus! {

pub const EXCHANGE_NAME_SHACK_INPUT: &'static str = "shack.input";

pub const EXCHANGE_NAME_SHACK_MQTT: &'static str = "shack.mqtt";

pub const EXCHANGE_NAME_LOGGING: &'static str = "logging";

pub const ROUTING_PREFIX_ALIAS: &'static str = "alias";

pub const ROUTING_PREFIX_TYPE: &'static str = "type";

pub const ROUTING_PREFIX_APPLICATION: &'static str = "application";

/// Prefix of Tasmota status routing keys.
pub const ROUTING_PREFIX_TASMOTA_STAT: &'static str = "stat";

/// Prefix of Tasmota telemetry routing keys.
pub const ROUTING_PREFIX_TASMOTA_TELE: &'static str = "tele";

pub const ROUTING_KEY_TASMOTA_SENSOR: &'static str = "SENSOR";

pub const ROUTING_KEY_TASMOTA_STATE: &'static str = "STATE";

pub const ROUTING_KEY_TASMOTA_RESULT: &'static str = "RESULT";

pub const ROUTING_KEY_TASMOTA_LWT: &'static str = "LWT";

pub const ROUTING_KEY_TASMOTA_INFO1: &'static str = "INFO1";

pub const ROUTING_KEY_TASMOTA_INFO2: &'static str = "INFO2";

pub const ROUTING_KEY_TASMOTA_INFO3: &'static str = "INFO3";

pub const ROUTING_KEY_TEMPERATURE: &'static str = "temperature";

pub const ROUTING_KEY_HUMIDITY: &'static str = "humidity";

pub const ROUTING_KEY_BINARY: &'static str = "binary";

pub const ROUTING_KEY_PRESSURE: &'static str = "pressure";

pub const ROUTING_KEY_GAS: &'static str = "gas";

pub const ROUTING_KEY_CONTINUOUS: &'static str = "continuous";

/// The segment that matches any word of a topic routing key.
pub const ROUTING_KEY_ANY_WORD: &'static str = "*";

/// The binding key that matches every routing key.
pub const ROUTING_KEY_ALL: &'static str = "#";

/// The word of a key part: the value, or the word matching anything.
pub open spec fn word_or_any(w: Option<Seq<char>>) -> Seq<char> {
    match w {
        Some(x) => x,
        None => ROUTING_KEY_ANY_WORD@,
    }
}

/// Why a routing key could not be decoded.
#[derive(Debug, Clone, PartialEq, Eq)]
pub enum RoutingKeyError {
    /// The key is not one of the supported shapes.
    Unsupported,
    /// The device segment does not start with `tasmota_`.
    InvalidDeviceId,
    /// The key has `found` dot-separated parts where `expected` are needed.
    PartCount { expected: usize, found: usize },
    /// The part at `position` is `found` where `expected` must stand.
    UnexpectedElement { position: usize, expected: String, found: String },
    /// The first part is `found` where the prefix `expected` must stand.
    UnexpectedPrefix { expected: String, found: String },
    /// The value-type part names no known input value type.
    UnknownInputValueType { found: String },
    /// The level part names no log level.
    InvalidLogLevel { found: String },
}

/// A `RoutingKeyError` with its texts as character sequences.
#[allow(inconsistent_fields)]
pub enum RoutingKeyErrorView {
    Unsupported,
    InvalidDeviceId,
    PartCount { expected: nat, found: nat },
    UnexpectedElement { position: nat, expected: Seq<char>, found: Seq<char> },
    UnexpectedPrefix { expected: Seq<char>, found: Seq<char> },
    UnknownInputValueType { found: Seq<char> },
    InvalidLogLevel { found: Seq<char> },
}

impl View for RoutingKeyError {
    type V = RoutingKeyErrorView;

    open spec fn view(&self) -> RoutingKeyErrorView {
        match self {
            RoutingKeyError::Unsupported => RoutingKeyErrorView::Unsupported,
            RoutingKeyError::InvalidDeviceId => RoutingKeyErrorView::InvalidDeviceId,
            RoutingKeyError::PartCount { expected, found } => RoutingKeyErrorView::PartCount {
                expected: *expected as nat,
                found: *found as nat,
            },
            RoutingKeyError::UnexpectedElement { position, expected, found } =>
                RoutingKeyErrorView::UnexpectedElement {
                position: *position as nat,
                expected: expected@,
                found: found@,
            },
            RoutingKeyError::UnexpectedPrefix { expected, found } =>
                RoutingKeyErrorView::UnexpectedPrefix { expected: expected@, found: found@ },
            RoutingKeyError::UnknownInputValueType { found } =>
                RoutingKeyErrorView::UnknownInputValueType { found: found@ },
            RoutingKeyError::InvalidLogLevel { found } => RoutingKeyErrorView::InvalidLogLevel {
                found: found@,
            },
        }
    }
}

/// A key under which messages are routed on an exchange: it prints to the
/// dot-separated text form and decodes from it.
pub trait RoutingKey: Sized + View {
    /// The text form of a key.
    spec fn routing_key_text(key: Self::V) -> Seq<char>;

    /// What decoding a text gives.
    spec fn parse_routing_key(text: Seq<char>) -> Result<Self::V, RoutingKeyErrorView>;

    fn to_routing_key(&self) -> (text: String)
        ensures
            text@ == Self::routing_key_text(self@),
    ;

    fn from_str(key: &str) -> (res: Result<Self, RoutingKeyError>)
        ensures
            Self::parse_routing_key(key@) == match res {
                Ok(k) => Ok::<Self::V, RoutingKeyErrorView>(k@),
                Err(e) => Err::<Self::V, RoutingKeyErrorView>(e@),
            },
    ;
}

/// A subscription to one routing key, or to all of them.
#[derive(Debug, Clone)]
pub enum RoutingKeySubscription<T> {
    Selective(T),
    All,
}

/// The binding key of a subscription.
pub open spec fn subscription_text<T: RoutingKey>(s: RoutingKeySubscription<T>) -> Seq<char> {
    match s {
        RoutingKeySubscription::Selective(k) => T::routing_key_text(k@),
        RoutingKeySubscription::All => ROUTING_KEY_ALL@,
    }
}

impl<T: RoutingKey> RoutingKeySubscription<T> {
    /// The binding key with which a queue subscribes: the key's text, or `#`.
    pub fn to_routing_key(&self) -> (text: String)
        ensures
            text@ == subscription_text(*self),
            match self {
                RoutingKeySubscription::Selective(k) => text@ == T::routing_key_text(k@),
                RoutingKeySubscription::All => text@ == "#"@,
            },
    {
        match self {
            RoutingKeySubscription::Selective(s) => s.to_routing_key(),
            RoutingKeySubscription::All => owned(ROUTING_KEY_ALL),
        }
    }
}

/// The binding keys of the subscriptions, in order.
pub fn subscription_routing_keys<T: RoutingKey>(subscriptions: &[RoutingKeySubscription<T>]) -> (keys: Vec<String>)
    ensures
        keys@.len() == subscriptions@.len(),
        forall|i: int|
            0 <= i < keys@.len() ==> (#[trigger] keys@[i])@ == subscription_text(subscriptions@[i]),
{
    let mut keys: Vec<String> = Vec::new();
    let mut i: usize = 0;
    while i < subscriptions.len()
        invariant
            i <= subscriptions@.len(),
            keys@.len() == i,
            forall|j: int|
                0 <= j < keys@.len() ==> (#[trigger] keys@[j])@ == subscription_text(subscriptions@[j]),
        decreases subscriptions@.len() - i,
    {
        keys.push(subscriptions[i].to_routing_key());
        i = i + 1;
    }
    keys
}

/// Joins three texts with dots.
pub fn join3_dot(a: &str, b: &str, c: &str) -> (r: String)
    ensures
        r@ == join_with(seq![a@, b@, c@], '.'),
{
    let mut r = owned(a);
    r.append(".");
    r.append(b);
    r.append(".");
    r.append(c);
    proof {
        reveal_strlit(".");
        let p = seq![a@, b@, c@];
        assert(p.drop_last() =~= seq![a@, b@]);
        assert(p.drop_last().drop_last() =~= seq![a@]);
        assert(join_with(p.drop_last(), '.') == join_with(seq![a@], '.').push('.') + b@);
        assert(r@ =~= join_with(p, '.'));
    }
    r
}

/// Joins four texts with dots.
pub fn join4_dot(a: &str, b: &str, c: &str, d: &str) -> (r: String)
    ensures
        r@ == join_with(seq![a@, b@, c@, d@], '.'),
{
    let mut r = join3_dot(a, b, c);
    r.append(".");
    r.append(d);
    proof {
        reveal_strlit(".");
        let p = seq![a@, b@, c@, d@];
        assert(p.drop_last() =~= seq![a@, b@, c@]);
        assert(r@ =~= join_with(p, '.'));
    }
    r
}

/// The binding key of a selective subscription is exactly the text of its
/// key, whatever the key; only the subscription to everything binds `#`.
pub proof fn lemma_subscription_binding_key<T: RoutingKey>(k: T)
    ensures
        subscription_text(RoutingKeySubscription::Selective(k)) == T::routing_key_text(k@),
        subscription_text(RoutingKeySubscription::<T>::All) == "#"@,
{
}

} // verus!
