//! Routing keys of the logging exchange.

use crate::amqp::{
    join4_dot, RoutingKey, RoutingKeyError, RoutingKeyErrorView, ROUTING_PREFIX_APPLICATION,
};
use crate::text::{
    join_with, lacks, lemma_join4, lemma_join_split, lemma_split_join, owned, split_on, split_text,
    text_eq,
};
use std::str::FromStr;
use vstd::prelude::*;

verus! {

/// The verbosity levels of log records, from the most severe to the least.
#[derive(Debug, Clone, Copy, PartialEq, Eq)]
pub enum LogLevel {
    Error,
    Warn,
    Info,
    Debug,
    Trace,
}

/// The name of a level, as the `log` crate writes it.
pub open spec fn log_level_name(level: LogLevel) -> Seq<char> {
    match level {
        LogLevel::Error => "ERROR"@,
        LogLevel::Warn => "WARN"@,
        LogLevel::Info => "INFO"@,
        LogLevel::Debug => "DEBUG"@,
        LogLevel::Trace => "TRACE"@,
    }
}

/// `c` with an ASCII upper-case letter turned to lower case.
pub open spec fn ascii_lower(c: char) -> char {
    if 'A' <= c <= 'Z' {
        ((c as u32) + 32) as char
    } else {
        c
    }
}

/// `a` and `b` are equal when ASCII letters are compared without their case.
pub open spec fn eq_ignore_ascii_case(a: Seq<char>, b: Seq<char>) -> bool {
    a.len() == b.len() && forall|i: int| 0 <= i < a.len() ==> ascii_lower(a[i]) == ascii_lower(b[i])
}

/// The level that a text names, its case aside, if any.
pub open spec fn log_level_named(text: Seq<char>) -> Option<LogLevel> {
    if eq_ignore_ascii_case(text, "ERROR"@) {
        Some(LogLevel::Error)
    } else if eq_ignore_ascii_case(text, "WARN"@) {
        Some(LogLevel::Warn)
    } else if eq_ignore_ascii_case(text, "INFO"@) {
        Some(LogLevel::Info)
    } else if eq_ignore_ascii_case(text, "DEBUG"@) {
        Some(LogLevel::Debug)
    } else if eq_ignore_ascii_case(text, "TRACE"@) {
        Some(LogLevel::Trace)
    } else {
        None
    }
}

/// `log::Level::as_str`: the upper-case name of the level.
#[verifier::external_body]
fn log_level_as_str(level: LogLevel) -> (name: &'static str)
    ensures
        name@ == log_level_name(level),
{
    let outside = match level {
        LogLevel::Error => log::Level::Error,
        LogLevel::Warn => log::Level::Warn,
        LogLevel::Info => log::Level::Info,
        LogLevel::Debug => log::Level::Debug,
        LogLevel::Trace => log::Level::Trace,
    };
    outside.as_str()
}

/// `log::Level::from_str`: the level whose name equals the text with ASCII
/// case ignored, or `None`.
#[verifier::external_body]
fn log_level_from_str(text: &str) -> (level: Option<LogLevel>)
    ensures
        level == log_level_named(text@),
{
    match log::Level::from_str(text) {
        Ok(log::Level::Error) => Some(LogLevel::Error),
        Ok(log::Level::Warn) => Some(LogLevel::Warn),
        Ok(log::Level::Info) => Some(LogLevel::Info),
        Ok(log::Level::Debug) => Some(LogLevel::Debug),
        Ok(log::Level::Trace) => Some(LogLevel::Trace),
        Err(_) => None,
    }
}

impl LogLevel {
    /// The upper-case name of the level.
    pub fn as_str(&self) -> (name: &'static str)
        ensures
            name@ == log_level_name(*self),
    {
        log_level_as_str(*self)
    }

    /// The level that a text names, its ASCII case aside.
    pub fn parse(text: &str) -> (level: Option<LogLevel>)
        ensures
            level == log_level_named(text@),
    {
        log_level_from_str(text)
    }
}

/// The routing key of a log record: `application.<application>.<module>.<LEVEL>`.
#[derive(Debug, Clone)]
pub struct LoggingRoutingKey {
    pub application: String,
    pub module: String,
    pub level: LogLevel,
}

/// A `LoggingRoutingKey` with its texts as character sequences.
pub struct LoggingRoutingKeyView {
    pub application: Seq<char>,
    pub module: Seq<char>,
    pub level: LogLevel,
}

impl View for LoggingRoutingKey {
    type V = LoggingRoutingKeyView;

    open spec fn view(&self) -> LoggingRoutingKeyView {
        LoggingRoutingKeyView {
            application: self.application@,
            module: self.module@,
            level: self.level,
        }
    }
}

/// The dot-separated parts of a logging routing key.
pub open spec fn logging_key_parts(k: LoggingRoutingKeyView) -> Seq<Seq<char>> {
    seq![ROUTING_PREFIX_APPLICATION@, k.application, k.module, log_level_name(k.level)]
}

/// The text form of a logging routing key.
pub open spec fn logging_key_text(k: LoggingRoutingKeyView) -> Seq<char> {
    join_with(logging_key_parts(k), '.')
}

/// What decoding a text as a logging routing key gives.
pub open spec fn parse_logging_key(text: Seq<char>) -> Result<
    LoggingRoutingKeyView,
    RoutingKeyErrorView,
> {
    let p = split_on(text, '.');
    if p.len() != 4 {
        Err(RoutingKeyErrorView::PartCount { expected: 4, found: p.len() })
    } else if p[0] != ROUTING_PREFIX_APPLICATION@ {
        Err(
            RoutingKeyErrorView::UnexpectedPrefix {
                expected: ROUTING_PREFIX_APPLICATION@,
                found: p[0],
            },
        )
    } else {
        match log_level_named(p[3]) {
            None => Err(RoutingKeyErrorView::InvalidLogLevel { found: p[3] }),
            Some(level) => Ok(
                LoggingRoutingKeyView { application: p[1], module: p[2], level },
            ),
        }
    }
}

impl RoutingKey for LoggingRoutingKey {
    open spec fn routing_key_text(key: LoggingRoutingKeyView) -> Seq<char> {
        logging_key_text(key)
    }

    open spec fn parse_routing_key(text: Seq<char>) -> Result<
        LoggingRoutingKeyView,
        RoutingKeyErrorView,
    > {
        parse_logging_key(text)
    }

    fn to_routing_key(&self) -> (text: String) {
        let level = self.level.as_str();
        let text = join4_dot(
            ROUTING_PREFIX_APPLICATION,
            self.application.as_str(),
            self.module.as_str(),
            level,
        );
        assert(seq![ROUTING_PREFIX_APPLICATION@, self.application@, self.module@, level@]
            =~= logging_key_parts(self@));
        text
    }

    fn from_str(key: &str) -> (res: Result<LoggingRoutingKey, RoutingKeyError>) {
        let parts = split_text(key, '.');
        let ghost p = split_on(key@, '.');
        assert(parts@.map_values(|s: String| s@) == p);
        assert(parts@.len() == p.len());
        if parts.len() != 4 {
            return Err(RoutingKeyError::PartCount { expected: 4, found: parts.len() });
        }
        assert(parts@[0]@ == p[0] && parts@[1]@ == p[1] && parts@[2]@ == p[2] && parts@[3]@
            == p[3]);
        if !text_eq(parts[0].as_str(), ROUTING_PREFIX_APPLICATION) {
            return Err(
                RoutingKeyError::UnexpectedPrefix {
                    expected: owned(ROUTING_PREFIX_APPLICATION),
                    found: parts[0].clone(),
                },
            );
        }
        match LogLevel::parse(parts[3].as_str()) {
            None => Err(RoutingKeyError::InvalidLogLevel { found: parts[3].clone() }),
            Some(level) => Ok(
                LoggingRoutingKey {
                    level,
                    application: parts[1].clone(),
                    module: parts[2].clone(),
                },
            ),
        }
    }
}

/// The name of every level names that level, and holds no dot.
pub proof fn lemma_log_level_name(level: LogLevel)
    ensures
        log_level_named(log_level_name(level)) == Some(level),
        lacks(log_level_name(level), '.'),
{
    reveal_strlit("ERROR");
    reveal_strlit("WARN");
    reveal_strlit("INFO");
    reveal_strlit("DEBUG");
    reveal_strlit("TRACE");
    let n = log_level_name(level);
    assert(eq_ignore_ascii_case(n, n));
    let e = "ERROR"@;
    let d = "DEBUG"@;
    let t = "TRACE"@;
    let w = "WARN"@;
    let i = "INFO"@;
    assert(ascii_lower(e[0]) != ascii_lower(d[0]));
    assert(ascii_lower(e[0]) != ascii_lower(t[0]));
    assert(ascii_lower(d[0]) != ascii_lower(t[0]));
    assert(ascii_lower(w[0]) != ascii_lower(i[0]));
    assert(!eq_ignore_ascii_case(d, e));
    assert(!eq_ignore_ascii_case(t, e));
    assert(!eq_ignore_ascii_case(t, d));
    assert(!eq_ignore_ascii_case(i, w));
}

/// Decoding the text of a logging key whose application and module hold no
/// dot gives the key back.
pub proof fn lemma_logging_key_roundtrip(k: LoggingRoutingKeyView)
    requires
        lacks(k.application, '.'),
        lacks(k.module, '.'),
    ensures
        parse_logging_key(logging_key_text(k)) == Ok::<LoggingRoutingKeyView, RoutingKeyErrorView>(k),
{
    reveal_strlit("application");
    lemma_log_level_name(k.level);
    let parts = logging_key_parts(k);
    assert forall|i: int| 0 <= i < parts.len() implies lacks(#[trigger] parts[i], '.') by {}
    lemma_split_join(parts, '.');
}

/// A text that decodes as a logging key whose level is written in upper case
/// is the text of the key it decodes to.
pub proof fn lemma_logging_key_canonical(text: Seq<char>)
    requires
        parse_logging_key(text) is Ok,
        split_on(text, '.')[3] == log_level_name(parse_logging_key(text)->Ok_0.level),
    ensures
        logging_key_text(parse_logging_key(text)->Ok_0) == text,
{
    let p = split_on(text, '.');
    lemma_join_split(text, '.');
    let k = parse_logging_key(text)->Ok_0;
    assert(logging_key_parts(k) =~= p);
}

/// Two texts that both equal a third with ASCII case ignored equal each other
/// with ASCII case ignored.
proof fn lemma_eq_ignore_ascii_case_through(w: Seq<char>, x: Seq<char>, y: Seq<char>)
    requires
        eq_ignore_ascii_case(w, x),
    ensures
        eq_ignore_ascii_case(w, y) <==> eq_ignore_ascii_case(x, y),
{
    if eq_ignore_ascii_case(w, y) {
        assert forall|i: int| 0 <= i < x.len() implies ascii_lower(x[i]) == ascii_lower(y[i]) by {
            assert(ascii_lower(w[i]) == ascii_lower(x[i]));
        }
    }
    if eq_ignore_ascii_case(x, y) {
        assert forall|i: int| 0 <= i < w.len() implies ascii_lower(w[i]) == ascii_lower(y[i]) by {
            assert(ascii_lower(w[i]) == ascii_lower(x[i]));
        }
    }
}

/// A text that equals a level's name with ASCII case ignored names that level.
pub proof fn lemma_log_level_named_any_case(w: Seq<char>, level: LogLevel)
    requires
        eq_ignore_ascii_case(w, log_level_name(level)),
    ensures
        log_level_named(w) == Some(level),
{
    lemma_log_level_name(level);
    let n = log_level_name(level);
    lemma_eq_ignore_ascii_case_through(w, n, "ERROR"@);
    lemma_eq_ignore_ascii_case_through(w, n, "WARN"@);
    lemma_eq_ignore_ascii_case_through(w, n, "INFO"@);
    lemma_eq_ignore_ascii_case_through(w, n, "DEBUG"@);
    lemma_eq_ignore_ascii_case_through(w, n, "TRACE"@);
}

/// The text of every logging key: `application`, the application, the
/// module and the upper-case level name, joined with dots.
pub proof fn lemma_logging_key_words(k: LoggingRoutingKeyView)
    ensures
        ({
            let dot = seq!['.'];
            let text = logging_key_text(k);
            let with = |n: Seq<char>|
                "application"@ + dot + k.application + dot + k.module + dot + n;
            &&& k.level == LogLevel::Error ==> text == with("ERROR"@)
            &&& k.level == LogLevel::Warn ==> text == with("WARN"@)
            &&& k.level == LogLevel::Info ==> text == with("INFO"@)
            &&& k.level == LogLevel::Debug ==> text == with("DEBUG"@)
            &&& k.level == LogLevel::Trace ==> text == with("TRACE"@)
        }),
{
    let p = logging_key_parts(k);
    lemma_join4(p[0], p[1], p[2], p[3], '.');
    assert(p =~= seq![p[0], p[1], p[2], p[3]]);
}

/// Decoding `application.<app>.<module>.<word>` with parts without a dot
/// gives the application, the module and the level whose name the word is,
/// in any ASCII case; a word that names no level is refused as such.
pub proof fn lemma_logging_key_decodes_levels(a: Seq<char>, m: Seq<char>, w: Seq<char>)
    requires
        lacks(a, '.'),
        lacks(m, '.'),
        lacks(w, '.'),
    ensures
        ({
            let dot = seq!['.'];
            let text = "application"@ + dot + a + dot + m + dot + w;
            let dec = |l: LogLevel|
                Ok::<LoggingRoutingKeyView, RoutingKeyErrorView>(
                    LoggingRoutingKeyView { application: a, module: m, level: l },
                );
            &&& eq_ignore_ascii_case(w, "ERROR"@) ==> parse_logging_key(text) == dec(LogLevel::Error)
            &&& eq_ignore_ascii_case(w, "WARN"@) ==> parse_logging_key(text) == dec(LogLevel::Warn)
            &&& eq_ignore_ascii_case(w, "INFO"@) ==> parse_logging_key(text) == dec(LogLevel::Info)
            &&& eq_ignore_ascii_case(w, "DEBUG"@) ==> parse_logging_key(text) == dec(LogLevel::Debug)
            &&& eq_ignore_ascii_case(w, "TRACE"@) ==> parse_logging_key(text) == dec(LogLevel::Trace)
            &&& (!eq_ignore_ascii_case(w, "ERROR"@) && !eq_ignore_ascii_case(w, "WARN"@)
                && !eq_ignore_ascii_case(w, "INFO"@) && !eq_ignore_ascii_case(w, "DEBUG"@)
                && !eq_ignore_ascii_case(w, "TRACE"@)) ==> parse_logging_key(text) == Err::<
                LoggingRoutingKeyView,
                RoutingKeyErrorView,
            >(RoutingKeyErrorView::InvalidLogLevel { found: w })
        }),
{
    reveal_strlit("application");
    let parts = seq!["application"@, a, m, w];
    assert forall|i: int| 0 <= i < parts.len() implies lacks(#[trigger] parts[i], '.') by {}
    lemma_split_join(parts, '.');
    lemma_join4("application"@, a, m, w, '.');
    let dot = seq!['.'];
    let text = "application"@ + dot + a + dot + m + dot + w;
    assert(split_on(text, '.') == parts);
    if eq_ignore_ascii_case(w, "ERROR"@) {
        lemma_log_level_named_any_case(w, LogLevel::Error);
    }
    if eq_ignore_ascii_case(w, "WARN"@) {
        lemma_log_level_named_any_case(w, LogLevel::Warn);
    }
    if eq_ignore_ascii_case(w, "INFO"@) {
        lemma_log_level_named_any_case(w, LogLevel::Info);
    }
    if eq_ignore_ascii_case(w, "DEBUG"@) {
        lemma_log_level_named_any_case(w, LogLevel::Debug);
    }
    if eq_ignore_ascii_case(w, "TRACE"@) {
        lemma_log_level_named_any_case(w, LogLevel::Trace);
    }
}

/// Decoding refuses a text of dot-free parts with the count of parts where
/// there are not four, and with the first part where it is not `application`.
pub proof fn lemma_logging_key_rejects(parts: Seq<Seq<char>>)
    requires
        parts.len() >= 1,
        forall|i: int| 0 <= i < parts.len() ==> lacks(#[trigger] parts[i], '.'),
    ensures
        ({
            let r = parse_logging_key(join_with(parts, '.'));
            let err = |e: RoutingKeyErrorView| Err::<LoggingRoutingKeyView, RoutingKeyErrorView>(e);
            &&& parts.len() != 4 ==> r == err(
                RoutingKeyErrorView::PartCount { expected: 4, found: parts.len() },
            )
            &&& parts.len() == 4 && parts[0] != "application"@ ==> r == err(
                RoutingKeyErrorView::UnexpectedPrefix { expected: "application"@, found: parts[0] },
            )
        }),
{
    lemma_split_join(parts, '.');
}

} // verus!
