use shack::amqp::{
    subscription_routing_keys, LogLevel, LoggingRoutingKey, RoutingKey, RoutingKeyError,
    RoutingKeySubscription, ShackInputRoutingKey, ShackMQTTRoutingKey, TasmotaRoutingKey,
};
use shack::config::InputValueType;

fn input_key(t: Option<InputValueType>, alias: Option<&str>) -> ShackInputRoutingKey {
    ShackInputRoutingKey { input_value_type: t, alias: alias.map(|a| a.to_string()) }
}

#[test]
fn shack_input_key_text() {
    let k = ShackInputRoutingKey::from_value_type_and_alias(
        InputValueType::Temperature,
        "kitchen".to_string(),
    );
    assert_eq!(k.to_routing_key(), "type.temperature.alias.kitchen");
    let k = ShackInputRoutingKey::from_alias("door".to_string());
    assert_eq!(k.input_value_type, None);
    assert_eq!(k.alias.as_deref(), Some("door"));
    assert_eq!(k.to_routing_key(), "type.*.alias.door");
    assert_eq!(input_key(None, None).to_routing_key(), "type.*.alias.*");
    assert_eq!(input_key(Some(InputValueType::Gas), None).to_routing_key(), "type.gas.alias.*");
}

#[test]
fn shack_input_key_words() {
    let words = [
        (InputValueType::Binary, "binary"),
        (InputValueType::Temperature, "temperature"),
        (InputValueType::Humidity, "humidity"),
        (InputValueType::Pressure, "pressure"),
        (InputValueType::Continuous, "continuous"),
        (InputValueType::Gas, "gas"),
    ];
    for (t, w) in words {
        let k = input_key(Some(t), Some("a"));
        assert_eq!(k.to_routing_key(), format!("type.{}.alias.a", w));
        let back = ShackInputRoutingKey::from_str(&k.to_routing_key()).unwrap();
        assert_eq!(back.input_value_type, Some(t));
        assert_eq!(back.alias.as_deref(), Some("a"));
    }
}

#[test]
fn shack_input_key_decodes() {
    let k = ShackInputRoutingKey::from_str("type.gas.alias.sensor1").unwrap();
    assert_eq!(k.input_value_type, Some(InputValueType::Gas));
    assert_eq!(k.alias.as_deref(), Some("sensor1"));
    let k = ShackInputRoutingKey::from_str("type.binary.alias.").unwrap();
    assert_eq!(k.input_value_type, Some(InputValueType::Binary));
    assert_eq!(k.alias.as_deref(), Some(""));
}

#[test]
fn shack_input_key_errors() {
    assert_eq!(
        ShackInputRoutingKey::from_str("type.gas.alias").unwrap_err(),
        RoutingKeyError::PartCount { expected: 4, found: 3 }
    );
    assert_eq!(
        ShackInputRoutingKey::from_str("type.gas.alias.a.b").unwrap_err(),
        RoutingKeyError::PartCount { expected: 4, found: 5 }
    );
    assert_eq!(
        ShackInputRoutingKey::from_str("").unwrap_err(),
        RoutingKeyError::PartCount { expected: 4, found: 1 }
    );
    assert_eq!(
        ShackInputRoutingKey::from_str("kind.gas.alias.a").unwrap_err(),
        RoutingKeyError::UnexpectedElement {
            position: 0,
            expected: "type".to_string(),
            found: "kind".to_string()
        }
    );
    assert_eq!(
        ShackInputRoutingKey::from_str("type.gas.name.a").unwrap_err(),
        RoutingKeyError::UnexpectedElement {
            position: 2,
            expected: "alias".to_string(),
            found: "name".to_string()
        }
    );
    assert_eq!(
        ShackInputRoutingKey::from_str("type.*.alias.a").unwrap_err(),
        RoutingKeyError::UnknownInputValueType { found: "*".to_string() }
    );
    assert_eq!(
        ShackInputRoutingKey::from_str("type.Gas.alias.a").unwrap_err(),
        RoutingKeyError::UnknownInputValueType { found: "Gas".to_string() }
    );
}

#[test]
fn shack_input_key_canonical() {
    for text in ["type.pressure.alias.x", "type.humidity.alias.", "type.continuous.alias.äöü"] {
        let k = ShackInputRoutingKey::from_str(text).unwrap();
        assert_eq!(k.to_routing_key(), text);
    }
}

#[test]
fn shack_input_alias_with_dot_does_not_round_trip() {
    let k = input_key(Some(InputValueType::Binary), Some("a.b"));
    assert_eq!(
        ShackInputRoutingKey::from_str(&k.to_routing_key()).unwrap_err(),
        RoutingKeyError::PartCount { expected: 4, found: 5 }
    );
}

fn tasmota(t: Option<TasmotaRoutingKey>, id: Option<&str>) -> ShackMQTTRoutingKey {
    ShackMQTTRoutingKey::Tasmota { message_type: t, device_id: id.map(|s| s.to_string()) }
}

fn parts(k: &ShackMQTTRoutingKey) -> (Option<&str>, Option<&str>) {
    match k {
        ShackMQTTRoutingKey::Tasmota { message_type, device_id } => {
            (message_type.as_ref().map(|t| t.to_str()), device_id.as_deref())
        }
        _ => unreachable!(),
    }
}

#[test]
fn tasmota_labels() {
    assert_eq!(TasmotaRoutingKey::StatResult.to_str(), "stat_result");
    assert_eq!(TasmotaRoutingKey::TeleState.to_str(), "tele_state");
    assert_eq!(TasmotaRoutingKey::TeleSensor.to_str(), "tele_sensor");
    assert_eq!(TasmotaRoutingKey::TeleLwt.to_str(), "tele_lwt");
    assert_eq!(TasmotaRoutingKey::TeleInfo1.to_str(), "tele_info1");
    assert_eq!(TasmotaRoutingKey::TeleInfo2.to_str(), "tele_info2");
    assert_eq!(TasmotaRoutingKey::TeleInfo3.to_str(), "tele_info3");
}

#[test]
fn shack_mqtt_key_text() {
    assert_eq!(
        tasmota(Some(TasmotaRoutingKey::TeleSensor), Some("abc")).to_routing_key(),
        "tele.tasmota_abc.SENSOR"
    );
    assert_eq!(
        tasmota(Some(TasmotaRoutingKey::StatResult), None).to_routing_key(),
        "stat.*.RESULT"
    );
    assert_eq!(tasmota(None, Some("x1")).to_routing_key(), "*.tasmota_x1.*");
    assert_eq!(tasmota(None, None).to_routing_key(), "*.*.*");
}

#[test]
fn shack_mqtt_key_round_trip() {
    let kinds = [
        TasmotaRoutingKey::StatResult,
        TasmotaRoutingKey::TeleState,
        TasmotaRoutingKey::TeleSensor,
        TasmotaRoutingKey::TeleLwt,
        TasmotaRoutingKey::TeleInfo1,
        TasmotaRoutingKey::TeleInfo2,
        TasmotaRoutingKey::TeleInfo3,
    ];
    for kind in kinds {
        let label = kind.to_str().to_string();
        let k = tasmota(Some(kind), Some("dev_7"));
        let text = k.to_routing_key();
        let back = ShackMQTTRoutingKey::from_str(&text).unwrap();
        assert_eq!(parts(&back), (Some(label.as_str()), Some("dev_7")));
        assert_eq!(back.to_routing_key(), text);
    }
}

#[test]
fn shack_mqtt_key_decodes() {
    let k = ShackMQTTRoutingKey::from_str("stat.tasmota_x.RESULT").unwrap();
    assert_eq!(parts(&k), (Some("stat_result"), Some("x")));
    let k = ShackMQTTRoutingKey::from_str("tele.tasmota_.LWT").unwrap();
    assert_eq!(parts(&k), (Some("tele_lwt"), Some("")));
    let k = ShackMQTTRoutingKey::from_str("tele.tasmota_tasmota_1.INFO3").unwrap();
    assert_eq!(parts(&k), (Some("tele_info3"), Some("tasmota_1")));
}

#[test]
fn shack_mqtt_key_errors() {
    let unsupported = [
        "tele.tasmota_x",
        "tele.tasmota_x.STATE.more",
        "stat.tasmota_x.STATE",
        "tele.tasmota_x.RESULT",
        "tele.tasmota_x.state",
        "info.tasmota_x.STATE",
        "*.tasmota_x.*",
    ];
    for text in unsupported {
        assert_eq!(ShackMQTTRoutingKey::from_str(text).unwrap_err(), RoutingKeyError::Unsupported);
    }
    assert_eq!(
        ShackMQTTRoutingKey::from_str("tele.device_x.STATE").unwrap_err(),
        RoutingKeyError::InvalidDeviceId
    );
    assert_eq!(
        ShackMQTTRoutingKey::from_str("info.tasmot.STATE").unwrap_err(),
        RoutingKeyError::InvalidDeviceId
    );
}

#[test]
fn log_levels() {
    let levels = [
        (LogLevel::Error, "ERROR"),
        (LogLevel::Warn, "WARN"),
        (LogLevel::Info, "INFO"),
        (LogLevel::Debug, "DEBUG"),
        (LogLevel::Trace, "TRACE"),
    ];
    for (level, name) in levels {
        assert_eq!(level.as_str(), name);
        assert_eq!(LogLevel::parse(name), Some(level));
        assert_eq!(LogLevel::parse(&name.to_lowercase()), Some(level));
    }
    assert_eq!(LogLevel::parse("eRrOr"), Some(LogLevel::Error));
    assert_eq!(LogLevel::parse("OFF"), None);
    assert_eq!(LogLevel::parse("verbose"), None);
    assert_eq!(LogLevel::parse(""), None);
}

#[test]
fn logging_key_text() {
    let k = LoggingRoutingKey {
        application: "shack".to_string(),
        module: "input".to_string(),
        level: LogLevel::Info,
    };
    assert_eq!(k.to_routing_key(), "application.shack.input.INFO");
    let back = LoggingRoutingKey::from_str(&k.to_routing_key()).unwrap();
    assert_eq!(back.application, "shack");
    assert_eq!(back.module, "input");
    assert_eq!(back.level, LogLevel::Info);
}

#[test]
fn logging_key_decodes_any_case() {
    let k = LoggingRoutingKey::from_str("application.a.b.warn").unwrap();
    assert_eq!(k.level, LogLevel::Warn);
    assert_eq!(k.to_routing_key(), "application.a.b.WARN");
}

#[test]
fn logging_key_errors() {
    assert_eq!(
        LoggingRoutingKey::from_str("application.a.b").unwrap_err(),
        RoutingKeyError::PartCount { expected: 4, found: 3 }
    );
    assert_eq!(
        LoggingRoutingKey::from_str("app.a.b.INFO").unwrap_err(),
        RoutingKeyError::UnexpectedPrefix {
            expected: "application".to_string(),
            found: "app".to_string()
        }
    );
    assert_eq!(
        LoggingRoutingKey::from_str("application.a.b.verbose").unwrap_err(),
        RoutingKeyError::InvalidLogLevel { found: "verbose".to_string() }
    );
}

#[test]
fn subscriptions() {
    let all: RoutingKeySubscription<ShackInputRoutingKey> = RoutingKeySubscription::All;
    assert_eq!(all.to_routing_key(), "#");
    let one = RoutingKeySubscription::Selective(ShackInputRoutingKey::from_alias("x".to_string()));
    assert_eq!(one.to_routing_key(), "type.*.alias.x");
    let keys = subscription_routing_keys(&[all, one]);
    assert_eq!(keys, vec!["#".to_string(), "type.*.alias.x".to_string()]);
    let mqtt = subscription_routing_keys(&[RoutingKeySubscription::Selective(tasmota(
        Some(TasmotaRoutingKey::TeleState),
        None,
    ))]);
    assert_eq!(mqtt, vec!["tele.*.STATE".to_string()]);
    let none: Vec<String> = subscription_routing_keys::<LoggingRoutingKey>(&[]);
    assert!(none.is_empty());
}
