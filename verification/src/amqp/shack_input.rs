//! Routing keys of the exchange that carries input events.

use crate::amqp::{
    join4_dot, word_or_any, RoutingKey, RoutingKeyError, RoutingKeyErrorView, ROUTING_KEY_ANY_WORD,
    ROUTING_KEY_BINARY, ROUTING_KEY_CONTINUOUS, ROUTING_KEY_GAS, ROUTING_KEY_HUMIDITY,
    ROUTING_KEY_PRESSURE, ROUTING_KEY_TEMPERATURE, ROUTING_PREFIX_ALIAS, ROUTING_PREFIX_TYPE,
};
use crate::config::InputValueType;
use crate::text::{
    join_with, lacks, lemma_join4, lemma_join_split, lemma_split_join, owned, split_on, split_text, text_eq,
};
use vstd::prelude::*;

verus! {

/// The routing key of an input event: `type.<value type>.alias.<alias>`,
/// where an absent part matches any word.
#[derive(Debug, Clone)]
pub struct ShackInputRoutingKey {
    pub input_value_type: Option<InputValueType>,
    pub alias: Option<String>,
}

/// A `ShackInputRoutingKey` with its alias as a character sequence.
pub struct ShackInputRoutingKeyView {
    pub input_value_type: Option<InputValueType>,
    pub alias: Option<Seq<char>>,
}

impl View for ShackInputRoutingKey {
    type V = ShackInputRoutingKeyView;

    open spec fn view(&self) -> ShackInputRoutingKeyView {
        ShackInputRoutingKeyView {
            input_value_type: self.input_value_type,
            alias: match self.alias {
                Some(a) => Some(a@),
                None => None,
            },
        }
    }
}

/// The routing-key word of an input value type.
pub open spec fn input_value_type_word(t: InputValueType) -> Seq<char> {
    match t {
        InputValueType::Binary => ROUTING_KEY_BINARY@,
        InputValueType::Temperature => ROUTING_KEY_TEMPERATURE@,
        InputValueType::Humidity => ROUTING_KEY_HUMIDITY@,
        InputValueType::Pressure => ROUTING_KEY_PRESSURE@,
        InputValueType::Continuous => ROUTING_KEY_CONTINUOUS@,
        InputValueType::Gas => ROUTING_KEY_GAS@,
    }
}

/// The input value type that a routing-key word names, if any.
pub open spec fn input_value_type_of_word(w: Seq<char>) -> Option<InputValueType> {
    if w == ROUTING_KEY_GAS@ {
        Some(InputValueType::Gas)
    } else if w == ROUTING_KEY_TEMPERATURE@ {
        Some(InputValueType::Temperature)
    } else if w == ROUTING_KEY_BINARY@ {
        Some(InputValueType::Binary)
    } else if w == ROUTING_KEY_PRESSURE@ {
        Some(InputValueType::Pressure)
    } else if w == ROUTING_KEY_HUMIDITY@ {
        Some(InputValueType::Humidity)
    } else if w == ROUTING_KEY_CONTINUOUS@ {
        Some(InputValueType::Continuous)
    } else {
        None
    }
}

/// The dot-separated parts of an input routing key.
pub open spec fn shack_input_key_parts(k: ShackInputRoutingKeyView) -> Seq<Seq<char>> {
    seq![
        ROUTING_PREFIX_TYPE@,
        word_or_any(
            match k.input_value_type {
                Some(t) => Some(input_value_type_word(t)),
                None => None,
            },
        ),
        ROUTING_PREFIX_ALIAS@,
        word_or_any(k.alias),
    ]
}

/// The text form of an input routing key.
pub open spec fn shack_input_key_text(k: ShackInputRoutingKeyView) -> Seq<char> {
    join_with(shack_input_key_parts(k), '.')
}

/// What decoding a text as an input routing key gives.
pub open spec fn parse_shack_input_key(text: Seq<char>) -> Result<
    ShackInputRoutingKeyView,
    RoutingKeyErrorView,
> {
    let p = split_on(text, '.');
    if p.len() != 4 {
        Err(RoutingKeyErrorView::PartCount { expected: 4, found: p.len() })
    } else if p[0] != ROUTING_PREFIX_TYPE@ {
        Err(
            RoutingKeyErrorView::UnexpectedElement {
                position: 0,
                expected: ROUTING_PREFIX_TYPE@,
                found: p[0],
            },
        )
    } else if p[2] != ROUTING_PREFIX_ALIAS@ {
        Err(
            RoutingKeyErrorView::UnexpectedElement {
                position: 2,
                expected: ROUTING_PREFIX_ALIAS@,
                found: p[2],
            },
        )
    } else {
        match input_value_type_of_word(p[1]) {
            None => Err(RoutingKeyErrorView::UnknownInputValueType { found: p[1] }),
            Some(t) => Ok(ShackInputRoutingKeyView { input_value_type: Some(t), alias: Some(p[3]) }),
        }
    }
}

/// The routing-key word of an input value type.
pub fn input_value_type_key(t: InputValueType) -> (w: &'static str)
    ensures
        w@ == input_value_type_word(t),
{
    match t {
        InputValueType::Binary => ROUTING_KEY_BINARY,
        InputValueType::Temperature => ROUTING_KEY_TEMPERATURE,
        InputValueType::Humidity => ROUTING_KEY_HUMIDITY,
        InputValueType::Pressure => ROUTING_KEY_PRESSURE,
        InputValueType::Continuous => ROUTING_KEY_CONTINUOUS,
        InputValueType::Gas => ROUTING_KEY_GAS,
    }
}

/// The input value type that a routing-key word names, if any.
pub fn input_value_type_from_key(w: &str) -> (t: Option<InputValueType>)
    ensures
        t == input_value_type_of_word(w@),
{
    if text_eq(w, ROUTING_KEY_GAS) {
        Some(InputValueType::Gas)
    } else if text_eq(w, ROUTING_KEY_TEMPERATURE) {
        Some(InputValueType::Temperature)
    } else if text_eq(w, ROUTING_KEY_BINARY) {
        Some(InputValueType::Binary)
    } else if text_eq(w, ROUTING_KEY_PRESSURE) {
        Some(InputValueType::Pressure)
    } else if text_eq(w, ROUTING_KEY_HUMIDITY) {
        Some(InputValueType::Humidity)
    } else if text_eq(w, ROUTING_KEY_CONTINUOUS) {
        Some(InputValueType::Continuous)
    } else {
        None
    }
}

impl ShackInputRoutingKey {
    /// The key of every value type for one alias.
    pub fn from_alias(alias: String) -> (k: ShackInputRoutingKey)
        ensures
            k@ == (ShackInputRoutingKeyView { input_value_type: None, alias: Some(alias@) }),
    {
        ShackInputRoutingKey { alias: Some(alias), input_value_type: None }
    }

    /// The key of one value type of one alias.
    pub fn from_value_type_and_alias(value_type: InputValueType, alias: String) -> (k:
        ShackInputRoutingKey)
        ensures
            k@ == (ShackInputRoutingKeyView { input_value_type: Some(value_type), alias: Some(alias@) }),
    {
        ShackInputRoutingKey { alias: Some(alias), input_value_type: Some(value_type) }
    }
}

impl RoutingKey for ShackInputRoutingKey {
    open spec fn routing_key_text(key: ShackInputRoutingKeyView) -> Seq<char> {
        shack_input_key_text(key)
    }

    open spec fn parse_routing_key(text: Seq<char>) -> Result<
        ShackInputRoutingKeyView,
        RoutingKeyErrorView,
    > {
        parse_shack_input_key(text)
    }

    fn to_routing_key(&self) -> (text: String) {
        let value_type = match self.input_value_type {
            Some(t) => input_value_type_key(t),
            None => ROUTING_KEY_ANY_WORD,
        };
        let alias = match &self.alias {
            Some(a) => a.as_str(),
            None => ROUTING_KEY_ANY_WORD,
        };
        let text = join4_dot(ROUTING_PREFIX_TYPE, value_type, ROUTING_PREFIX_ALIAS, alias);
        assert(seq![ROUTING_PREFIX_TYPE@, value_type@, ROUTING_PREFIX_ALIAS@, alias@]
            =~= shack_input_key_parts(self@));
        text
    }

    fn from_str(key: &str) -> (res: Result<ShackInputRoutingKey, RoutingKeyError>) {
        let parts = split_text(key, '.');
        let ghost p = split_on(key@, '.');
        assert(parts@.map_values(|s: String| s@) == p);
        assert(parts@.len() == p.len());
        if parts.len() != 4 {
            return Err(RoutingKeyError::PartCount { expected: 4, found: parts.len() });
        }
        assert(parts@[0]@ == p[0] && parts@[1]@ == p[1] && parts@[2]@ == p[2] && parts@[3]@
            == p[3]);
        if !text_eq(parts[0].as_str(), ROUTING_PREFIX_TYPE) {
            return Err(
                RoutingKeyError::UnexpectedElement {
                    position: 0,
                    expected: owned(ROUTING_PREFIX_TYPE),
                    found: parts[0].clone(),
                },
            );
        }
        if !text_eq(parts[2].as_str(), ROUTING_PREFIX_ALIAS) {
            return Err(
                RoutingKeyError::UnexpectedElement {
                    position: 2,
                    expected: owned(ROUTING_PREFIX_ALIAS),
                    found: parts[2].clone(),
                },
            );
        }
        match input_value_type_from_key(parts[1].as_str()) {
            None => Err(RoutingKeyError::UnknownInputValueType { found: parts[1].clone() }),
            Some(t) => Ok(
                ShackInputRoutingKey { input_value_type: Some(t), alias: Some(parts[3].clone()) },
            ),
        }
    }
}

} // verus!

verus! {

/// Each value-type word names its value type, and holds no dot.
pub proof fn lemma_input_value_type_word(t: InputValueType)
    ensures
        input_value_type_of_word(input_value_type_word(t)) == Some(t),
        lacks(input_value_type_word(t), '.'),
{
    reveal_strlit("gas");
    reveal_strlit("temperature");
    reveal_strlit("binary");
    reveal_strlit("pressure");
    reveal_strlit("humidity");
    reveal_strlit("continuous");
    let w = seq![
        ROUTING_KEY_GAS@,
        ROUTING_KEY_TEMPERATURE@,
        ROUTING_KEY_BINARY@,
        ROUTING_KEY_PRESSURE@,
        ROUTING_KEY_HUMIDITY@,
        ROUTING_KEY_CONTINUOUS@,
    ];
    assert(w[0].len() == 3 && w[1].len() == 11 && w[2].len() == 6 && w[3].len() == 8 && w[4].len()
        == 8 && w[5].len() == 10);
    assert(w[3][0] != w[4][0]);
    assert(w[3] != w[4]);
}

/// The input-key prefixes hold no dot.
proof fn lemma_input_prefixes_lack_dot()
    ensures
        lacks(ROUTING_PREFIX_TYPE@, '.'),
        lacks(ROUTING_PREFIX_ALIAS@, '.'),
        lacks(ROUTING_KEY_ANY_WORD@, '.'),
{
    reveal_strlit("type");
    reveal_strlit("alias");
    reveal_strlit("*");
}

/// Decoding the text of a key that names a value type and an alias without
/// a dot gives the key back.
pub proof fn lemma_shack_input_key_roundtrip(k: ShackInputRoutingKeyView)
    requires
        k.input_value_type is Some,
        k.alias is Some,
        lacks(k.alias->0, '.'),
    ensures
        parse_shack_input_key(shack_input_key_text(k)) == Ok::<
            ShackInputRoutingKeyView,
            RoutingKeyErrorView,
        >(k),
{
    let t = k.input_value_type->0;
    lemma_input_value_type_word(t);
    lemma_input_prefixes_lack_dot();
    let parts = shack_input_key_parts(k);
    assert forall|i: int| 0 <= i < parts.len() implies lacks(#[trigger] parts[i], '.') by {}
    lemma_split_join(parts, '.');
}

/// A text that decodes as an input key is the text of the key it decodes to.
pub proof fn lemma_shack_input_key_canonical(text: Seq<char>)
    requires
        parse_shack_input_key(text) is Ok,
    ensures
        shack_input_key_text(parse_shack_input_key(text)->Ok_0) == text,
{
    let p = split_on(text, '.');
    lemma_join_split(text, '.');
    let k = parse_shack_input_key(text)->Ok_0;
    assert(shack_input_key_parts(k) =~= p);
}

/// The text of every input key: `type`, the value type's word (`binary`,
/// `temperature`, `humidity`, `pressure`, `continuous`, `gas`, or `*`
/// without a type), `alias`, and the alias (or `*` without one), joined with
/// dots. The alias decides the last word only, the value type the second only.
pub proof fn lemma_shack_input_key_words(t: Option<InputValueType>, a: Option<Seq<char>>)
    ensures
        ({
            let text = shack_input_key_text(
                ShackInputRoutingKeyView { input_value_type: t, alias: a },
            );
            let last = match a {
                Some(x) => x,
                None => "*"@,
            };
            let dot = seq!['.'];
            let with = |w: Seq<char>| "type"@ + dot + w + dot + "alias"@ + dot + last;
            &&& t is None ==> text == with("*"@)
            &&& t == Some(InputValueType::Binary) ==> text == with("binary"@)
            &&& t == Some(InputValueType::Temperature) ==> text == with("temperature"@)
            &&& t == Some(InputValueType::Humidity) ==> text == with("humidity"@)
            &&& t == Some(InputValueType::Pressure) ==> text == with("pressure"@)
            &&& t == Some(InputValueType::Continuous) ==> text == with("continuous"@)
            &&& t == Some(InputValueType::Gas) ==> text == with("gas"@)
        }),
{
    let k = ShackInputRoutingKeyView { input_value_type: t, alias: a };
    let p = shack_input_key_parts(k);
    lemma_join4(p[0], p[1], p[2], p[3], '.');
    assert(p =~= seq![p[0], p[1], p[2], p[3]]);
}

/// Decoding `type.<word>.alias.<alias>` with an alias without a dot gives the
/// value type that the word names, and the alias.
pub proof fn lemma_shack_input_key_decodes_words(a: Seq<char>)
    requires
        lacks(a, '.'),
    ensures
        ({
            let dot = seq!['.'];
            let text = |w: Seq<char>| "type"@ + dot + w + dot + "alias"@ + dot + a;
            let dec = |t: InputValueType|
                Ok::<ShackInputRoutingKeyView, RoutingKeyErrorView>(
                    ShackInputRoutingKeyView { input_value_type: Some(t), alias: Some(a) },
                );
            &&& parse_shack_input_key(text("binary"@)) == dec(InputValueType::Binary)
            &&& parse_shack_input_key(text("temperature"@)) == dec(InputValueType::Temperature)
            &&& parse_shack_input_key(text("humidity"@)) == dec(InputValueType::Humidity)
            &&& parse_shack_input_key(text("pressure"@)) == dec(InputValueType::Pressure)
            &&& parse_shack_input_key(text("continuous"@)) == dec(InputValueType::Continuous)
            &&& parse_shack_input_key(text("gas"@)) == dec(InputValueType::Gas)
        }),
{
    let types = seq![
        InputValueType::Binary,
        InputValueType::Temperature,
        InputValueType::Humidity,
        InputValueType::Pressure,
        InputValueType::Continuous,
        InputValueType::Gas,
    ];
    assert forall|i: int| 0 <= i < types.len() implies {
        let k = ShackInputRoutingKeyView { input_value_type: Some(#[trigger] types[i]), alias: Some(a) };
        parse_shack_input_key(shack_input_key_text(k)) == Ok::<
            ShackInputRoutingKeyView,
            RoutingKeyErrorView,
        >(k)
    } by {
        let k = ShackInputRoutingKeyView { input_value_type: Some(types[i]), alias: Some(a) };
        lemma_shack_input_key_roundtrip(k);
    }
    lemma_shack_input_key_words(Some(InputValueType::Binary), Some(a));
    lemma_shack_input_key_words(Some(InputValueType::Temperature), Some(a));
    lemma_shack_input_key_words(Some(InputValueType::Humidity), Some(a));
    lemma_shack_input_key_words(Some(InputValueType::Pressure), Some(a));
    lemma_shack_input_key_words(Some(InputValueType::Continuous), Some(a));
    lemma_shack_input_key_words(Some(InputValueType::Gas), Some(a));
    assert(types[0] == InputValueType::Binary);
    assert(types[1] == InputValueType::Temperature);
    assert(types[2] == InputValueType::Humidity);
    assert(types[3] == InputValueType::Pressure);
    assert(types[4] == InputValueType::Continuous);
    assert(types[5] == InputValueType::Gas);
}

/// Decoding refuses a text of dot-free parts that is not
/// `type.<value type>.alias.<alias>`: with the count of parts where there are
/// not four, with the first part where it is not `type`, with the third where
/// it is not `alias`, and with the second where it names no value type.
pub proof fn lemma_shack_input_key_rejects(parts: Seq<Seq<char>>)
    requires
        parts.len() >= 1,
        forall|i: int| 0 <= i < parts.len() ==> lacks(#[trigger] parts[i], '.'),
    ensures
        ({
            let r = parse_shack_input_key(join_with(parts, '.'));
            let err = |e: RoutingKeyErrorView| Err::<ShackInputRoutingKeyView, RoutingKeyErrorView>(e);
            &&& parts.len() != 4 ==> r == err(
                RoutingKeyErrorView::PartCount { expected: 4, found: parts.len() },
            )
            &&& parts.len() == 4 && parts[0] != "type"@ ==> r == err(
                RoutingKeyErrorView::UnexpectedElement {
                    position: 0,
                    expected: "type"@,
                    found: parts[0],
                },
            )
            &&& parts.len() == 4 && parts[0] == "type"@ && parts[2] != "alias"@ ==> r == err(
                RoutingKeyErrorView::UnexpectedElement {
                    position: 2,
                    expected: "alias"@,
                    found: parts[2],
                },
            )
            &&& parts.len() == 4 && parts[0] == "type"@ && parts[2] == "alias"@ && parts[1]
                != "binary"@ && parts[1] != "temperature"@ && parts[1] != "humidity"@ && parts[1]
                != "pressure"@ && parts[1] != "continuous"@ && parts[1] != "gas"@ ==> r == err(
                RoutingKeyErrorView::UnknownInputValueType { found: parts[1] },
            )
        }),
{
    lemma_split_join(parts, '.');
}

} // verus!
