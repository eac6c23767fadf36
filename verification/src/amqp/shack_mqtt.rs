//! Routing keys of the exchange that carries the MQTT messages of Tasmota devices.

use crate::amqp::{
    join3_dot, word_or_any, RoutingKey, RoutingKeyError, RoutingKeyErrorView,
    ROUTING_KEY_ANY_WORD, ROUTING_KEY_TASMOTA_INFO1, ROUTING_KEY_TASMOTA_INFO2,
    ROUTING_KEY_TASMOTA_INFO3, ROUTING_KEY_TASMOTA_LWT, ROUTING_KEY_TASMOTA_RESULT,
    ROUTING_KEY_TASMOTA_SENSOR, ROUTING_KEY_TASMOTA_STATE, ROUTING_PREFIX_TASMOTA_STAT,
    ROUTING_PREFIX_TASMOTA_TELE,
};
use crate::text::{
    has_prefix, join_with, lacks, lemma_join3, lemma_join_split, lemma_split_join, owned, split_on,
    split_text, strip_prefix_text, text_eq,
};
use vstd::prelude::*;

verus! {

/// The prefix of the device segment of a Tasmota routing key.
pub const TASMOTA_DEVICE_PREFIX: &'static str = "tasmota_";

/// The kinds of messages a Tasmota device publishes.
#[derive(Debug, Clone)]
pub enum TasmotaRoutingKey {
    StatResult,
    TeleState,
    TeleSensor,
    TeleLwt,
    TeleInfo1,
    TeleInfo2,
    TeleInfo3,
}

/// The label of a Tasmota message kind.
pub open spec fn tasmota_label(k: TasmotaRoutingKey) -> Seq<char> {
    match k {
        TasmotaRoutingKey::StatResult => "stat_result"@,
        TasmotaRoutingKey::TeleState => "tele_state"@,
        TasmotaRoutingKey::TeleSensor => "tele_sensor"@,
        TasmotaRoutingKey::TeleLwt => "tele_lwt"@,
        TasmotaRoutingKey::TeleInfo1 => "tele_info1"@,
        TasmotaRoutingKey::TeleInfo2 => "tele_info2"@,
        TasmotaRoutingKey::TeleInfo3 => "tele_info3"@,
    }
}

/// The first routing-key word of a Tasmota message kind.
pub open spec fn tasmota_prefix(k: TasmotaRoutingKey) -> Seq<char> {
    match k {
        TasmotaRoutingKey::StatResult => ROUTING_PREFIX_TASMOTA_STAT@,
        _ => ROUTING_PREFIX_TASMOTA_TELE@,
    }
}

/// The last routing-key word of a Tasmota message kind.
pub open spec fn tasmota_suffix(k: TasmotaRoutingKey) -> Seq<char> {
    match k {
        TasmotaRoutingKey::StatResult => ROUTING_KEY_TASMOTA_RESULT@,
        TasmotaRoutingKey::TeleState => ROUTING_KEY_TASMOTA_STATE@,
        TasmotaRoutingKey::TeleSensor => ROUTING_KEY_TASMOTA_SENSOR@,
        TasmotaRoutingKey::TeleLwt => ROUTING_KEY_TASMOTA_LWT@,
        TasmotaRoutingKey::TeleInfo1 => ROUTING_KEY_TASMOTA_INFO1@,
        TasmotaRoutingKey::TeleInfo2 => ROUTING_KEY_TASMOTA_INFO2@,
        TasmotaRoutingKey::TeleInfo3 => ROUTING_KEY_TASMOTA_INFO3@,
    }
}

/// The telemetry kind that a last routing-key word names, if any.
pub open spec fn tele_kind_of_word(w: Seq<char>) -> Option<TasmotaRoutingKey> {
    if w == ROUTING_KEY_TASMOTA_STATE@ {
        Some(TasmotaRoutingKey::TeleState)
    } else if w == ROUTING_KEY_TASMOTA_SENSOR@ {
        Some(TasmotaRoutingKey::TeleSensor)
    } else if w == ROUTING_KEY_TASMOTA_LWT@ {
        Some(TasmotaRoutingKey::TeleLwt)
    } else if w == ROUTING_KEY_TASMOTA_INFO1@ {
        Some(TasmotaRoutingKey::TeleInfo1)
    } else if w == ROUTING_KEY_TASMOTA_INFO2@ {
        Some(TasmotaRoutingKey::TeleInfo2)
    } else if w == ROUTING_KEY_TASMOTA_INFO3@ {
        Some(TasmotaRoutingKey::TeleInfo3)
    } else {
        None
    }
}

impl TasmotaRoutingKey {
    /// A label of the message kind.
    pub fn to_str(&self) -> (s: &str)
        ensures
            s@ == tasmota_label(*self),
    {
        match self {
            TasmotaRoutingKey::StatResult => "stat_result",
            TasmotaRoutingKey::TeleState => "tele_state",
            TasmotaRoutingKey::TeleSensor => "tele_sensor",
            TasmotaRoutingKey::TeleLwt => "tele_lwt",
            TasmotaRoutingKey::TeleInfo1 => "tele_info1",
            TasmotaRoutingKey::TeleInfo2 => "tele_info2",
            TasmotaRoutingKey::TeleInfo3 => "tele_info3",
        }
    }
}

/// A routing key of the MQTT exchange: `<stat|tele>.tasmota_<id>.<KIND>`,
/// where an absent part matches any word.
#[derive(Debug, Clone)]
#[non_exhaustive]
pub enum ShackMQTTRoutingKey {
    Tasmota { message_type: Option<TasmotaRoutingKey>, device_id: Option<String> },
}

/// A `ShackMQTTRoutingKey` with its device id as a character sequence.
pub enum ShackMQTTRoutingKeyView {
    Tasmota { message_type: Option<TasmotaRoutingKey>, device_id: Option<Seq<char>> },
}

impl View for ShackMQTTRoutingKey {
    type V = ShackMQTTRoutingKeyView;

    open spec fn view(&self) -> ShackMQTTRoutingKeyView {
        match self {
            ShackMQTTRoutingKey::Tasmota { message_type, device_id } =>
                ShackMQTTRoutingKeyView::Tasmota {
                message_type: *message_type,
                device_id: match device_id {
                    Some(d) => Some(d@),
                    None => None,
                },
            },
        }
    }
}

/// The dot-separated parts of an MQTT routing key.
pub open spec fn shack_mqtt_key_parts(k: ShackMQTTRoutingKeyView) -> Seq<Seq<char>> {
    match k {
        ShackMQTTRoutingKeyView::Tasmota { message_type, device_id } => seq![
            word_or_any(
                match message_type {
                    Some(t) => Some(tasmota_prefix(t)),
                    None => None,
                },
            ),
            word_or_any(
                match device_id {
                    Some(d) => Some(TASMOTA_DEVICE_PREFIX@ + d),
                    None => None,
                },
            ),
            word_or_any(
                match message_type {
                    Some(t) => Some(tasmota_suffix(t)),
                    None => None,
                },
            ),
        ],
    }
}

/// The text form of an MQTT routing key.
pub open spec fn shack_mqtt_key_text(k: ShackMQTTRoutingKeyView) -> Seq<char> {
    join_with(shack_mqtt_key_parts(k), '.')
}

/// What decoding a text as an MQTT routing key gives.
pub open spec fn parse_shack_mqtt_key(text: Seq<char>) -> Result<
    ShackMQTTRoutingKeyView,
    RoutingKeyErrorView,
> {
    let p = split_on(text, '.');
    if p.len() != 3 {
        Err(RoutingKeyErrorView::Unsupported)
    } else if !has_prefix(p[1], TASMOTA_DEVICE_PREFIX@) {
        Err(RoutingKeyErrorView::InvalidDeviceId)
    } else {
        let id = p[1].skip(TASMOTA_DEVICE_PREFIX@.len() as int);
        if p[0] == ROUTING_PREFIX_TASMOTA_STAT@ {
            if p[2] == ROUTING_KEY_TASMOTA_RESULT@ {
                Ok(
                    ShackMQTTRoutingKeyView::Tasmota {
                        message_type: Some(TasmotaRoutingKey::StatResult),
                        device_id: Some(id),
                    },
                )
            } else {
                Err(RoutingKeyErrorView::Unsupported)
            }
        } else if p[0] == ROUTING_PREFIX_TASMOTA_TELE@ {
            match tele_kind_of_word(p[2]) {
                Some(kind) => Ok(
                    ShackMQTTRoutingKeyView::Tasmota {
                        message_type: Some(kind),
                        device_id: Some(id),
                    },
                ),
                None => Err(RoutingKeyErrorView::Unsupported),
            }
        } else {
            Err(RoutingKeyErrorView::Unsupported)
        }
    }
}

/// The first routing-key word of a Tasmota message kind.
fn tasmota_prefix_key(k: &TasmotaRoutingKey) -> (w: &'static str)
    ensures
        w@ == tasmota_prefix(*k),
{
    match k {
        TasmotaRoutingKey::StatResult => ROUTING_PREFIX_TASMOTA_STAT,
        TasmotaRoutingKey::TeleState => ROUTING_PREFIX_TASMOTA_TELE,
        TasmotaRoutingKey::TeleSensor => ROUTING_PREFIX_TASMOTA_TELE,
        TasmotaRoutingKey::TeleLwt => ROUTING_PREFIX_TASMOTA_TELE,
        TasmotaRoutingKey::TeleInfo1 => ROUTING_PREFIX_TASMOTA_TELE,
        TasmotaRoutingKey::TeleInfo2 => ROUTING_PREFIX_TASMOTA_TELE,
        TasmotaRoutingKey::TeleInfo3 => ROUTING_PREFIX_TASMOTA_TELE,
    }
}

/// The last routing-key word of a Tasmota message kind.
fn tasmota_suffix_key(k: &TasmotaRoutingKey) -> (w: &'static str)
    ensures
        w@ == tasmota_suffix(*k),
{
    match k {
        TasmotaRoutingKey::StatResult => ROUTING_KEY_TASMOTA_RESULT,
        TasmotaRoutingKey::TeleState => ROUTING_KEY_TASMOTA_STATE,
        TasmotaRoutingKey::TeleSensor => ROUTING_KEY_TASMOTA_SENSOR,
        TasmotaRoutingKey::TeleLwt => ROUTING_KEY_TASMOTA_LWT,
        TasmotaRoutingKey::TeleInfo1 => ROUTING_KEY_TASMOTA_INFO1,
        TasmotaRoutingKey::TeleInfo2 => ROUTING_KEY_TASMOTA_INFO2,
        TasmotaRoutingKey::TeleInfo3 => ROUTING_KEY_TASMOTA_INFO3,
    }
}

/// The telemetry kind that a last routing-key word names, if any.
fn tele_kind_from_key(w: &str) -> (k: Option<TasmotaRoutingKey>)
    ensures
        k == tele_kind_of_word(w@),
{
    if text_eq(w, ROUTING_KEY_TASMOTA_STATE) {
        Some(TasmotaRoutingKey::TeleState)
    } else if text_eq(w, ROUTING_KEY_TASMOTA_SENSOR) {
        Some(TasmotaRoutingKey::TeleSensor)
    } else if text_eq(w, ROUTING_KEY_TASMOTA_LWT) {
        Some(TasmotaRoutingKey::TeleLwt)
    } else if text_eq(w, ROUTING_KEY_TASMOTA_INFO1) {
        Some(TasmotaRoutingKey::TeleInfo1)
    } else if text_eq(w, ROUTING_KEY_TASMOTA_INFO2) {
        Some(TasmotaRoutingKey::TeleInfo2)
    } else if text_eq(w, ROUTING_KEY_TASMOTA_INFO3) {
        Some(TasmotaRoutingKey::TeleInfo3)
    } else {
        None
    }
}

impl RoutingKey for ShackMQTTRoutingKey {
    open spec fn routing_key_text(key: ShackMQTTRoutingKeyView) -> Seq<char> {
        shack_mqtt_key_text(key)
    }

    open spec fn parse_routing_key(text: Seq<char>) -> Result<
        ShackMQTTRoutingKeyView,
        RoutingKeyErrorView,
    > {
        parse_shack_mqtt_key(text)
    }

    fn to_routing_key(&self) -> (text: String) {
        match self {
            ShackMQTTRoutingKey::Tasmota { message_type, device_id } => {
                let prefix = match message_type {
                    Some(t) => tasmota_prefix_key(t),
                    None => ROUTING_KEY_ANY_WORD,
                };
                let device = match device_id {
                    Some(id) => {
                        let mut d = owned(TASMOTA_DEVICE_PREFIX);
                        d.append(id.as_str());
                        d
                    },
                    None => owned(ROUTING_KEY_ANY_WORD),
                };
                let suffix = match message_type {
                    Some(t) => tasmota_suffix_key(t),
                    None => ROUTING_KEY_ANY_WORD,
                };
                let text = join3_dot(prefix, device.as_str(), suffix);
                assert(seq![prefix@, device@, suffix@] =~= shack_mqtt_key_parts(self@));
                text
            },
        }
    }

    fn from_str(routing_key: &str) -> (res: Result<ShackMQTTRoutingKey, RoutingKeyError>) {
        let parts = split_text(routing_key, '.');
        let ghost p = split_on(routing_key@, '.');
        assert(parts@.map_values(|s: String| s@) == p);
        assert(parts@.len() == p.len());
        if parts.len() != 3 {
            return Err(RoutingKeyError::Unsupported);
        }
        assert(parts@[0]@ == p[0] && parts@[1]@ == p[1] && parts@[2]@ == p[2]);
        let device_id = match strip_prefix_text(parts[1].as_str(), TASMOTA_DEVICE_PREFIX) {
            None => {
                return Err(RoutingKeyError::InvalidDeviceId);
            },
            Some(id) => id,
        };
        if text_eq(parts[0].as_str(), ROUTING_PREFIX_TASMOTA_STAT) {
            if !text_eq(parts[2].as_str(), ROUTING_KEY_TASMOTA_RESULT) {
                return Err(RoutingKeyError::Unsupported);
            }
            Ok(
                ShackMQTTRoutingKey::Tasmota {
                    message_type: Some(TasmotaRoutingKey::StatResult),
                    device_id: Some(device_id),
                },
            )
        } else if text_eq(parts[0].as_str(), ROUTING_PREFIX_TASMOTA_TELE) {
            match tele_kind_from_key(parts[2].as_str()) {
                Some(kind) => Ok(
                    ShackMQTTRoutingKey::Tasmota {
                        message_type: Some(kind),
                        device_id: Some(device_id),
                    },
                ),
                None => Err(RoutingKeyError::Unsupported),
            }
        } else {
            Err(RoutingKeyError::Unsupported)
        }
    }
}

/// The words of the Tasmota routing keys hold no dot, and each telemetry
/// word names its kind.
proof fn lemma_tasmota_words(t: TasmotaRoutingKey)
    ensures
        lacks(tasmota_prefix(t), '.'),
        lacks(tasmota_suffix(t), '.'),
        lacks(TASMOTA_DEVICE_PREFIX@, '.'),
        lacks(ROUTING_KEY_ANY_WORD@, '.'),
        ROUTING_PREFIX_TASMOTA_STAT@ != ROUTING_PREFIX_TASMOTA_TELE@,
        t != TasmotaRoutingKey::StatResult ==> tele_kind_of_word(tasmota_suffix(t)) == Some(t),
{
    reveal_strlit("stat");
    reveal_strlit("tele");
    reveal_strlit("tasmota_");
    reveal_strlit("*");
    reveal_strlit("SENSOR");
    reveal_strlit("STATE");
    reveal_strlit("RESULT");
    reveal_strlit("LWT");
    reveal_strlit("INFO1");
    reveal_strlit("INFO2");
    reveal_strlit("INFO3");
    assert(ROUTING_PREFIX_TASMOTA_STAT@[1] != ROUTING_PREFIX_TASMOTA_TELE@[1]);
    let w = seq![
        ROUTING_KEY_TASMOTA_STATE@,
        ROUTING_KEY_TASMOTA_SENSOR@,
        ROUTING_KEY_TASMOTA_LWT@,
        ROUTING_KEY_TASMOTA_INFO1@,
        ROUTING_KEY_TASMOTA_INFO2@,
        ROUTING_KEY_TASMOTA_INFO3@,
    ];
    assert(w[0].len() == 5 && w[1].len() == 6 && w[2].len() == 3 && w[3].len() == 5 && w[4].len()
        == 5 && w[5].len() == 5);
    assert(w[0][0] != w[3][0] && w[0][0] != w[4][0] && w[0][0] != w[5][0]);
    assert(w[3][4] != w[4][4] && w[3][4] != w[5][4] && w[4][4] != w[5][4]);
    assert(w[0] != w[3] && w[0] != w[4] && w[0] != w[5]);
    assert(w[3] != w[4] && w[3] != w[5] && w[4] != w[5]);
}

/// Decoding the text of a key that names a message kind and a device id
/// without a dot gives the key back.
pub proof fn lemma_shack_mqtt_key_roundtrip(k: ShackMQTTRoutingKeyView)
    requires
        k->message_type is Some,
        k->device_id is Some,
        lacks(k->device_id->0, '.'),
    ensures
        parse_shack_mqtt_key(shack_mqtt_key_text(k)) == Ok::<
            ShackMQTTRoutingKeyView,
            RoutingKeyErrorView,
        >(k),
{
    let t = k->message_type->0;
    let d = k->device_id->0;
    lemma_tasmota_words(t);
    let dev = TASMOTA_DEVICE_PREFIX@ + d;
    assert(lacks(dev, '.'));
    assert(dev.take(TASMOTA_DEVICE_PREFIX@.len() as int) =~= TASMOTA_DEVICE_PREFIX@);
    assert(dev.skip(TASMOTA_DEVICE_PREFIX@.len() as int) =~= d);
    let parts = shack_mqtt_key_parts(k);
    assert forall|i: int| 0 <= i < parts.len() implies lacks(#[trigger] parts[i], '.') by {}
    lemma_split_join(parts, '.');
}

/// A text that decodes as an MQTT key is the text of the key it decodes to.
pub proof fn lemma_shack_mqtt_key_canonical(text: Seq<char>)
    requires
        parse_shack_mqtt_key(text) is Ok,
    ensures
        shack_mqtt_key_text(parse_shack_mqtt_key(text)->Ok_0) == text,
{
    let p = split_on(text, '.');
    lemma_join_split(text, '.');
    let k = parse_shack_mqtt_key(text)->Ok_0;
    let n = TASMOTA_DEVICE_PREFIX@.len() as int;
    assert(p[1] =~= p[1].take(n) + p[1].skip(n));
    assert(shack_mqtt_key_parts(k) =~= p);
}

/// The text of every Tasmota key: the kind's first word (`stat` for a
/// result, `tele` for telemetry, `*` without a kind), then the device word
/// (`tasmota_` and the id, or `*` without an id), then the kind's own word
/// (`RESULT`, `STATE`, `SENSOR`, `LWT`, `INFO1`, `INFO2`, `INFO3`, or `*`
/// without a kind), joined with dots. The device id decides the middle word only.
pub proof fn lemma_shack_mqtt_key_words(t: Option<TasmotaRoutingKey>, d: Option<Seq<char>>)
    ensures
        ({
            let text = shack_mqtt_key_text(
                ShackMQTTRoutingKeyView::Tasmota { message_type: t, device_id: d },
            );
            let mid = match d {
                Some(x) => "tasmota_"@ + x,
                None => "*"@,
            };
            let dot = seq!['.'];
            &&& t is None ==> text == "*"@ + dot + mid + dot + "*"@
            &&& t == Some(TasmotaRoutingKey::StatResult) ==> text == "stat"@ + dot + mid + dot
                + "RESULT"@
            &&& t == Some(TasmotaRoutingKey::TeleState) ==> text == "tele"@ + dot + mid + dot
                + "STATE"@
            &&& t == Some(TasmotaRoutingKey::TeleSensor) ==> text == "tele"@ + dot + mid + dot
                + "SENSOR"@
            &&& t == Some(TasmotaRoutingKey::TeleLwt) ==> text == "tele"@ + dot + mid + dot
                + "LWT"@
            &&& t == Some(TasmotaRoutingKey::TeleInfo1) ==> text == "tele"@ + dot + mid + dot
                + "INFO1"@
            &&& t == Some(TasmotaRoutingKey::TeleInfo2) ==> text == "tele"@ + dot + mid + dot
                + "INFO2"@
            &&& t == Some(TasmotaRoutingKey::TeleInfo3) ==> text == "tele"@ + dot + mid + dot
                + "INFO3"@
        }),
{
    let k = ShackMQTTRoutingKeyView::Tasmota { message_type: t, device_id: d };
    let p = shack_mqtt_key_parts(k);
    lemma_join3(p[0], p[1], p[2], '.');
    assert(p =~= seq![p[0], p[1], p[2]]);
}

/// Decoding `<stat|tele>.tasmota_<id>.<KIND>` with an id without a dot gives
/// the kind that the last word names and the id: `RESULT` after `stat`, and
/// `STATE`, `SENSOR`, `LWT`, `INFO1`, `INFO2`, `INFO3` after `tele`.
pub proof fn lemma_shack_mqtt_key_decodes_words(d: Seq<char>)
    requires
        lacks(d, '.'),
    ensures
        ({
            let dot = seq!['.'];
            let mid = "tasmota_"@ + d;
            let dec = |k: TasmotaRoutingKey|
                Ok::<ShackMQTTRoutingKeyView, RoutingKeyErrorView>(
                    ShackMQTTRoutingKeyView::Tasmota { message_type: Some(k), device_id: Some(d) },
                );
            &&& parse_shack_mqtt_key("stat"@ + dot + mid + dot + "RESULT"@) == dec(
                TasmotaRoutingKey::StatResult,
            )
            &&& parse_shack_mqtt_key("tele"@ + dot + mid + dot + "STATE"@) == dec(
                TasmotaRoutingKey::TeleState,
            )
            &&& parse_shack_mqtt_key("tele"@ + dot + mid + dot + "SENSOR"@) == dec(
                TasmotaRoutingKey::TeleSensor,
            )
            &&& parse_shack_mqtt_key("tele"@ + dot + mid + dot + "LWT"@) == dec(
                TasmotaRoutingKey::TeleLwt,
            )
            &&& parse_shack_mqtt_key("tele"@ + dot + mid + dot + "INFO1"@) == dec(
                TasmotaRoutingKey::TeleInfo1,
            )
            &&& parse_shack_mqtt_key("tele"@ + dot + mid + dot + "INFO2"@) == dec(
                TasmotaRoutingKey::TeleInfo2,
            )
            &&& parse_shack_mqtt_key("tele"@ + dot + mid + dot + "INFO3"@) == dec(
                TasmotaRoutingKey::TeleInfo3,
            )
        }),
{
    let kinds = seq![
        TasmotaRoutingKey::StatResult,
        TasmotaRoutingKey::TeleState,
        TasmotaRoutingKey::TeleSensor,
        TasmotaRoutingKey::TeleLwt,
        TasmotaRoutingKey::TeleInfo1,
        TasmotaRoutingKey::TeleInfo2,
        TasmotaRoutingKey::TeleInfo3,
    ];
    assert forall|i: int| 0 <= i < kinds.len() implies {
        let k = ShackMQTTRoutingKeyView::Tasmota { message_type: Some(#[trigger] kinds[i]), device_id: Some(d) };
        parse_shack_mqtt_key(shack_mqtt_key_text(k)) == Ok::<
            ShackMQTTRoutingKeyView,
            RoutingKeyErrorView,
        >(k)
    } by {
        let k = ShackMQTTRoutingKeyView::Tasmota { message_type: Some(kinds[i]), device_id: Some(d) };
        lemma_shack_mqtt_key_roundtrip(k);
    }
    lemma_shack_mqtt_key_words(Some(TasmotaRoutingKey::StatResult), Some(d));
    lemma_shack_mqtt_key_words(Some(TasmotaRoutingKey::TeleState), Some(d));
    lemma_shack_mqtt_key_words(Some(TasmotaRoutingKey::TeleSensor), Some(d));
    lemma_shack_mqtt_key_words(Some(TasmotaRoutingKey::TeleLwt), Some(d));
    lemma_shack_mqtt_key_words(Some(TasmotaRoutingKey::TeleInfo1), Some(d));
    lemma_shack_mqtt_key_words(Some(TasmotaRoutingKey::TeleInfo2), Some(d));
    lemma_shack_mqtt_key_words(Some(TasmotaRoutingKey::TeleInfo3), Some(d));
    assert(kinds[0] == TasmotaRoutingKey::StatResult);
    assert(kinds[1] == TasmotaRoutingKey::TeleState);
    assert(kinds[2] == TasmotaRoutingKey::TeleSensor);
    assert(kinds[3] == TasmotaRoutingKey::TeleLwt);
    assert(kinds[4] == TasmotaRoutingKey::TeleInfo1);
    assert(kinds[5] == TasmotaRoutingKey::TeleInfo2);
    assert(kinds[6] == TasmotaRoutingKey::TeleInfo3);
}

/// Decoding refuses a text of dot-free parts that is not a Tasmota key: as
/// unsupported where there are not three parts, as an invalid device where
/// the middle part does not start with `tasmota_`, and as unsupported where
/// the first part is neither `stat` nor `tele`, where `stat` is not followed
/// by `RESULT`, or where `tele` is followed by no telemetry word.
pub proof fn lemma_shack_mqtt_key_rejects(parts: Seq<Seq<char>>)
    requires
        parts.len() >= 1,
        forall|i: int| 0 <= i < parts.len() ==> lacks(#[trigger] parts[i], '.'),
    ensures
        ({
            let r = parse_shack_mqtt_key(join_with(parts, '.'));
            let err = |e: RoutingKeyErrorView| Err::<ShackMQTTRoutingKeyView, RoutingKeyErrorView>(e);
            let device_ok = parts.len() == 3 && has_prefix(parts[1], "tasmota_"@);
            &&& parts.len() != 3 ==> r == err(RoutingKeyErrorView::Unsupported)
            &&& parts.len() == 3 && !has_prefix(parts[1], "tasmota_"@) ==> r == err(
                RoutingKeyErrorView::InvalidDeviceId,
            )
            &&& device_ok && parts[0] != "stat"@ && parts[0] != "tele"@ ==> r == err(
                RoutingKeyErrorView::Unsupported,
            )
            &&& device_ok && parts[0] == "stat"@ && parts[2] != "RESULT"@ ==> r == err(
                RoutingKeyErrorView::Unsupported,
            )
            &&& device_ok && parts[0] == "tele"@ && parts[2] != "STATE"@ && parts[2] != "SENSOR"@
                && parts[2] != "LWT"@ && parts[2] != "INFO1"@ && parts[2] != "INFO2"@ && parts[2]
                != "INFO3"@ ==> r == err(RoutingKeyErrorView::Unsupported)
        }),
{
    lemma_split_join(parts, '.');
    reveal_strlit("stat");
    reveal_strlit("tele");
    assert("stat"@[1] != "tele"@[1]);
}

/// The ASCII lower-case form of a text.
pub open spec fn ascii_lowercase(s: Seq<char>) -> Seq<char> {
    s.map_values(|c: char| if 'A' <= c <= 'Z' { ((c as u32) + 32) as char } else { c })
}

/// The label of every message kind is its first routing-key word, an
/// underscore, and its last routing-key word in lower case.
pub proof fn lemma_tasmota_label_words(t: TasmotaRoutingKey)
    ensures
        tasmota_label(t) == tasmota_prefix(t) + "_"@ + ascii_lowercase(tasmota_suffix(t)),
{
    reveal_strlit("_");
    reveal_strlit("stat");
    reveal_strlit("tele");
    reveal_strlit("SENSOR");
    reveal_strlit("STATE");
    reveal_strlit("RESULT");
    reveal_strlit("LWT");
    reveal_strlit("INFO1");
    reveal_strlit("INFO2");
    reveal_strlit("INFO3");
    reveal_strlit("stat_result");
    reveal_strlit("tele_state");
    reveal_strlit("tele_sensor");
    reveal_strlit("tele_lwt");
    reveal_strlit("tele_info1");
    reveal_strlit("tele_info2");
    reveal_strlit("tele_info3");
    assert(tasmota_label(t) =~= tasmota_prefix(t) + "_"@ + ascii_lowercase(tasmota_suffix(t)));
}

} // verus!
