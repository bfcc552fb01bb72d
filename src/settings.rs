use vstd::prelude::*;

verus! {

/// Verbosity of the log output of the single-listener program, with the
/// five levels of the logging library.
#[derive(Debug, Clone, Copy, PartialEq, Eq, Structural)]
pub enum Verbosity {
    Trace,
    Debug,
    Info,
    Warn,
    Error,
}

/// Settings of the single-listener program.
#[derive(Debug, Clone)]
pub struct UserSettings {
    pub log_level: Verbosity,
    /// The Application Entity title of this node.
    pub calling_ae_title: String,
    /// Enforce the maximum PDU length.
    pub strict: bool,
    /// Accept only native (uncompressed) transfer syntaxes.
    pub uncompressed_only: bool,
    pub max_pdu_length: u32,
    /// Directory where received instances are written.
    pub out_dir: String,
    /// Port to listen on.
    pub port: u16,
}

/// The text of each setting as the environment gives it, where it is set.
#[derive(Debug, Clone)]
pub struct RawSettings {
    pub log_level: Option<String>,
    pub ae_title: Option<String>,
    pub enforce_max_pdu_length: Option<String>,
    pub uncompressed_only: Option<String>,
    pub max_pdu_length: Option<String>,
    pub out_dir: Option<String>,
    pub port: Option<String>,
}

pub const DEFAULT_AE_TITLE: &'static str = "PACS";

pub const DEFAULT_MAX_PDU_LENGTH: u32 = 16352;

pub const DEFAULT_OUT_DIR: &'static str = ".";

pub const DEFAULT_PORT: u16 = 11112;

pub open spec fn is_digit(c: char) -> bool {
    '0' <= c && c <= '9'
}

/// The value of a string of decimal digits.
pub open spec fn digits_value(d: Seq<char>) -> nat
    decreases d.len(),
{
    if d.len() == 0 {
        0
    } else {
        digits_value(d.drop_last()) * 10 + (d.last() as nat - '0' as nat) as nat
    }
}

/// The text of an unsigned integer: an optional `+`, then one or more
/// decimal digits.
pub open spec fn unsigned_decimal(s: Seq<char>) -> Option<nat> {
    let d = if s.len() > 0 && s[0] == '+' {
        s.drop_first()
    } else {
        s
    };
    if d.len() > 0 && (forall|i: int| 0 <= i < d.len() ==> is_digit(#[trigger] d[i])) {
        Some(digits_value(d))
    } else {
        None
    }
}

pub open spec fn unsigned_within(s: Seq<char>, max: nat) -> Option<nat> {
    match unsigned_decimal(s) {
        Some(n) => if n <= max {
            Some(n)
        } else {
            None
        },
        None => None,
    }
}

/// `s` equals the lower-case word `w` when ASCII letters are compared
/// without regard to case.
pub open spec fn eq_ignore_ascii_case(s: Seq<char>, w: Seq<char>) -> bool {
    &&& s.len() == w.len()
    &&& forall|i: int|
        0 <= i < s.len() ==> (#[trigger] s[i] == w[i] || ('A' <= s[i] && s[i] <= 'Z' && s[i] as u32
            + 32 == w[i] as u32))
}

/// The level that a text names: a number from 1 (error) to 5 (trace), or
/// the level's name in any case.
pub open spec fn level_from_text(s: Seq<char>) -> Option<Verbosity> {
    let n = unsigned_decimal(s);
    if n == Some(1nat) {
        Some(Verbosity::Error)
    } else if n == Some(2nat) {
        Some(Verbosity::Warn)
    } else if n == Some(3nat) {
        Some(Verbosity::Info)
    } else if n == Some(4nat) {
        Some(Verbosity::Debug)
    } else if n == Some(5nat) {
        Some(Verbosity::Trace)
    } else if eq_ignore_ascii_case(s, "error"@) {
        Some(Verbosity::Error)
    } else if eq_ignore_ascii_case(s, "warn"@) {
        Some(Verbosity::Warn)
    } else if eq_ignore_ascii_case(s, "info"@) {
        Some(Verbosity::Info)
    } else if eq_ignore_ascii_case(s, "debug"@) {
        Some(Verbosity::Debug)
    } else if eq_ignore_ascii_case(s, "trace"@) {
        Some(Verbosity::Trace)
    } else {
        None
    }
}

pub open spec fn bool_from_text(s: Seq<char>) -> Option<bool> {
    if s == "true"@ {
        Some(true)
    } else if s == "false"@ {
        Some(false)
    } else {
        None
    }
}

/// Relies on `tracing::Level`'s `FromStr`: a number from 1 to 5, or a
/// level name in any case.
#[verifier::external_body]
fn parse_level(s: &str) -> (r: Option<Verbosity>)
    ensures
        r == level_from_text(s@),
{
    match s.parse::<tracing::Level>() {
        Ok(l) if l == tracing::Level::TRACE => Some(Verbosity::Trace),
        Ok(l) if l == tracing::Level::DEBUG => Some(Verbosity::Debug),
        Ok(l) if l == tracing::Level::INFO => Some(Verbosity::Info),
        Ok(l) if l == tracing::Level::WARN => Some(Verbosity::Warn),
        Ok(_) => Some(Verbosity::Error),
        Err(_) => None,
    }
}

/// Relies on `bool`'s `FromStr`: exactly `true` or `false`.
#[verifier::external_body]
fn parse_bool(s: &str) -> (r: Option<bool>)
    ensures
        r == bool_from_text(s@),
{
    s.parse::<bool>().ok()
}

/// Relies on `u32`'s `FromStr`: an optional `+` and decimal digits, within
/// range.
#[verifier::external_body]
fn parse_u32(s: &str) -> (r: Option<u32>)
    ensures
        r matches Some(n) ==> unsigned_within(s@, u32::MAX as nat) == Some(n as nat),
        r is None ==> unsigned_within(s@, u32::MAX as nat) is None,
{
    s.parse::<u32>().ok()
}

/// Relies on `u16`'s `FromStr`: an optional `+` and decimal digits, within
/// range.
#[verifier::external_body]
fn parse_u16(s: &str) -> (r: Option<u16>)
    ensures
        r matches Some(n) ==> unsigned_within(s@, u16::MAX as nat) == Some(n as nat),
        r is None ==> unsigned_within(s@, u16::MAX as nat) is None,
{
    s.parse::<u16>().ok()
}

/// The setting read from `raw`, or `default` where it is unset or does not
/// parse.
pub open spec fn or_default<T>(raw: Option<String>, parse: spec_fn(Seq<char>) -> Option<T>, default: T) -> T {
    match raw {
        Some(s) => match parse(s@) {
            Some(v) => v,
            None => default,
        },
        None => default,
    }
}

pub open spec fn u32_from_text(s: Seq<char>) -> Option<u32> {
    match unsigned_within(s, u32::MAX as nat) {
        Some(n) => Some(n as u32),
        None => None,
    }
}

pub open spec fn u16_from_text(s: Seq<char>) -> Option<u16> {
    match unsigned_within(s, u16::MAX as nat) {
        Some(n) => Some(n as u16),
        None => None,
    }
}

pub open spec fn text_as_is(s: Seq<char>) -> Option<Seq<char>> {
    Some(s)
}

impl UserSettings {
    /// The default settings: warnings only, AE title `PACS`, no strict mode,
    /// every transfer syntax, a maximum PDU length of 16352 bytes, the
    /// current directory, port 11112.
    pub fn new() -> (r: UserSettings)
        ensures
            r.log_level == Verbosity::Warn,
            r.calling_ae_title@ == DEFAULT_AE_TITLE@,
            !r.strict,
            !r.uncompressed_only,
            r.max_pdu_length == DEFAULT_MAX_PDU_LENGTH,
            r.out_dir@ == DEFAULT_OUT_DIR@,
            r.port == DEFAULT_PORT,
    {
        UserSettings {
            log_level: Verbosity::Warn,
            calling_ae_title: DEFAULT_AE_TITLE.to_owned(),
            strict: false,
            uncompressed_only: false,
            max_pdu_length: DEFAULT_MAX_PDU_LENGTH,
            out_dir: DEFAULT_OUT_DIR.to_owned(),
            port: DEFAULT_PORT,
        }
    }
}

/// The settings given by the raw values: each one that is set and parses
/// replaces the default.
pub fn load_settings(raw: &RawSettings) -> (r: UserSettings)
    ensures
        r.log_level == or_default(raw.log_level, |s| level_from_text(s), Verbosity::Warn),
        r.calling_ae_title@ == or_default(raw.ae_title, |s| text_as_is(s), DEFAULT_AE_TITLE@),
        r.strict == or_default(raw.enforce_max_pdu_length, |s| bool_from_text(s), false),
        r.uncompressed_only == or_default(raw.uncompressed_only, |s| bool_from_text(s), false),
        r.max_pdu_length == or_default(
            raw.max_pdu_length,
            |s| u32_from_text(s),
            DEFAULT_MAX_PDU_LENGTH,
        ),
        r.out_dir@ == or_default(raw.out_dir, |s| text_as_is(s), DEFAULT_OUT_DIR@),
        r.port == or_default(raw.port, |s| u16_from_text(s), DEFAULT_PORT),
{
    let mut r = UserSettings::new();
    if let Some(s) = &raw.log_level {
        if let Some(l) = parse_level(s.as_str()) {
            r.log_level = l;
        }
    }
    if let Some(s) = &raw.ae_title {
        r.calling_ae_title = s.clone();
    }
    if let Some(s) = &raw.enforce_max_pdu_length {
        if let Some(b) = parse_bool(s.as_str()) {
            r.strict = b;
        }
    }
    if let Some(s) = &raw.uncompressed_only {
        if let Some(b) = parse_bool(s.as_str()) {
            r.uncompressed_only = b;
        }
    }
    if let Some(s) = &raw.max_pdu_length {
        if let Some(n) = parse_u32(s.as_str()) {
            r.max_pdu_length = n;
        }
    }
    if let Some(s) = &raw.out_dir {
        r.out_dir = s.clone();
    }
    if let Some(s) = &raw.port {
        if let Some(n) = parse_u16(s.as_str()) {
            r.port = n;
        }
    }
    r
}

} // verus!
