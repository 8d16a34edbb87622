//! The configuration of the bot and the overrides that the environment may
//! put on it.

use vstd::prelude::*;
use crate::digest::{hash_value, hash_value_spec};

verus! {

/// How the web front end asks for authentication: a header and the SHA-256
/// digest, in hexadecimal, of the value that it has to carry.
#[derive(Debug, Clone)]
pub struct AuthConfig {
    pub header_name: String,
    pub header_value_hash: String,
}

/// Where the web front end listens.
#[derive(Debug, Clone)]
pub struct WebConfig {
    pub host: String,
    pub port: u16,
    pub auth: Option<AuthConfig>,
}

/// How much history a backfill takes over.
#[derive(Debug, Clone)]
pub struct MessageHistoryConfig {
    pub limit: usize,
}

/// Where the engine keeps its state, and the passphrase that protects it.
#[derive(Debug, Clone)]
pub struct StoreConfig {
    pub path: String,
    pub passphrase: String,
}

/// Where the credential record is kept.
#[derive(Debug, Clone)]
pub struct DatabaseConfig {
    pub path: String,
}

/// The whole configuration.
#[derive(Debug, Clone)]
pub struct Config {
    pub homeserver: String,
    pub username: String,
    pub password: String,
    pub room_id: String,
    pub web: WebConfig,
    pub message_history: MessageHistoryConfig,
    pub store: StoreConfig,
    pub database: DatabaseConfig,
}

/// The values that the environment sets, each absent where its variable is
/// not set.
#[derive(Debug, Clone)]
pub struct EnvOverrides {
    pub homeserver: Option<String>,
    pub username: Option<String>,
    pub room_id: Option<String>,
    pub web_host: Option<String>,
    pub web_port: Option<String>,
    pub auth_header_name: Option<String>,
    pub auth_header_value: Option<String>,
    pub history_limit: Option<String>,
    pub store_path: Option<String>,
    pub store_passphrase: Option<String>,
    pub database_path: Option<String>,
}

/// The history limit of a configuration that names none.
pub fn default_history_limit() -> (out: usize)
    ensures
        out == 50,
{
    50
}

/// The store path of a configuration that names none.
pub fn default_store_path() -> (out: String)
    ensures
        out@ == "./matrix_store"@,
{
    "./matrix_store".to_owned()
}

/// The database path of a configuration that names none.
pub fn default_database_path() -> (out: String)
    ensures
        out@ == "./matrix.db"@,
{
    "./matrix.db".to_owned()
}

/// The store passphrase of a configuration that names none: empty.
pub fn default_store_passphrase() -> (out: String)
    ensures
        out@ == Seq::<char>::empty(),
{
    String::new()
}

impl Default for MessageHistoryConfig {
    fn default() -> (out: Self)
        ensures
            out.limit == 50,
    {
        MessageHistoryConfig { limit: default_history_limit() }
    }
}

impl Default for StoreConfig {
    fn default() -> (out: Self)
        ensures
            out.path@ == "./matrix_store"@,
            out.passphrase@ == Seq::<char>::empty(),
    {
        StoreConfig { path: default_store_path(), passphrase: default_store_passphrase() }
    }
}

impl Default for DatabaseConfig {
    fn default() -> (out: Self)
        ensures
            out.path@ == "./matrix.db"@,
    {
        DatabaseConfig { path: default_database_path() }
    }
}

/// The character is a decimal digit.
pub open spec fn is_digit(c: char) -> bool {
    '0' <= c <= '9'
}

/// The number that a sequence of decimal digits spells.
pub open spec fn digits_value(digits: Seq<char>) -> nat
    decreases digits.len(),
{
    if digits.len() == 0 {
        0
    } else {
        digits_value(digits.drop_last()) * 10 + (digits.last() as nat - 48) as nat
    }
}

/// The digits of a number text: the text without a plus sign at its start.
pub open spec fn unsigned_digits(text: Seq<char>) -> Seq<char> {
    if text.len() > 0 && text[0] == '+' {
        text.skip(1)
    } else {
        text
    }
}

/// The number that a text spells, if it is one up to `max`: an optional plus
/// sign, then one decimal digit or more, and nothing else.
pub open spec fn parsed_unsigned(text: Seq<char>, max: nat) -> Option<nat> {
    let digits = unsigned_digits(text);
    if digits.len() > 0 && (forall|i: int| 0 <= i < digits.len() ==> is_digit(#[trigger] digits[i]))
        && digits_value(digits) <= max {
        Some(digits_value(digits))
    } else {
        None
    }
}

/// The number that a longer sequence of digits spells is not smaller.
proof fn lemma_digits_value_grows(digits: Seq<char>, k: int)
    requires
        0 <= k <= digits.len(),
    ensures
        digits_value(digits.take(k)) <= digits_value(digits),
    decreases digits.len(),
{
    if k == digits.len() {
        assert(digits.take(k) =~= digits);
    } else {
        lemma_digits_value_grows(digits.drop_last(), k);
        assert(digits.drop_last().take(k) =~= digits.take(k));
    }
}

/// Reads a number up to `max` from a text: an optional plus sign, then one
/// decimal digit or more, and nothing else.
pub fn parse_unsigned(text: &str, max: u64) -> (out: Option<u64>)
    ensures
        match parsed_unsigned(text@, max as nat) {
            Some(value) => out == Some(value as u64),
            None => out is None,
        },
{
    let ghost digits = unsigned_digits(text@);
    if !text.is_ascii() {
        proof {
            let i = choose|i: int|
                0 <= i < text@.len() && !('\0' <= #[trigger] text@[i] <= '\u{7f}');
            if text@[0] == '+' {
                assert(i >= 1);
                assert(digits[i - 1] == text@[i]);
            } else {
                assert(digits[i] == text@[i]);
            }
        }
        return None;
    }
    proof {
        vstd::utf8::is_ascii_chars_encode_utf8(text@);
    }
    let bytes = text.as_bytes();
    let n = bytes.len();
    let start: usize = if n > 0 && bytes[0] == 43u8 {
        1
    } else {
        0
    };
    assert(start == 1 <==> (text@.len() > 0 && text@[0] == '+')) by {
        if n > 0 {
            assert(text@[0] as u8 == bytes@[0]);
        }
    }
    if start == n {
        return None;
    }
    let mut value: u64 = 0;
    let mut i: usize = start;
    assert(digits.take(0) =~= Seq::<char>::empty());
    while i < n
        invariant
            start <= i <= n,
            n == text@.len(),
            n == bytes@.len(),
            digits == unsigned_digits(text@),
            digits.len() == n - start,
            forall|k: int| 0 <= k < n ==> #[trigger] text@[k] as u8 == bytes@[k],
            forall|k: int| 0 <= k < n ==> '\0' <= #[trigger] text@[k] <= '\u{7f}',
            forall|k: int| 0 <= k < n - start ==> digits[k] == text@[k + start],
            forall|k: int| 0 <= k < i - start ==> is_digit(#[trigger] digits[k]),
            value == digits_value(digits.take(i - start)),
            value <= max,
        decreases n - i,
    {
        let b = bytes[i];
        let ghost c = text@[i as int];
        assert(c as u8 == b);
        assert(digits[i - start] == c);
        if b < 48 || b > 57 {
            assert(!is_digit(digits[i - start]));
            return None;
        }
        assert(is_digit(c));
        let d: u64 = (b - 48) as u64;
        proof {
            let longer = digits.take(i - start + 1);
            assert(longer.drop_last() =~= digits.take(i - start));
            assert(longer.last() == c);
            assert(digits_value(longer) == value * 10 + d);
            lemma_digits_value_grows(digits, i - start + 1);
        }
        if d > max || value > (max - d) / 10 {
            assert(value * 10 + d > max);
            return None;
        }
        value = value * 10 + d;
        i += 1;
    }
    assert(digits.take(n - start) =~= digits);
    Some(value)
}

/// A port number read from a text.
pub fn parse_port(text: &str) -> (out: Option<u16>)
    ensures
        match parsed_unsigned(text@, 65535) {
            Some(value) => out == Some(value as u16),
            None => out is None,
        },
{
    match parse_unsigned(text, 65535) {
        Some(value) => Some(value as u16),
        None => None,
    }
}

/// A count read from a text.
pub fn parse_count(text: &str) -> (out: Option<usize>)
    ensures
        match parsed_unsigned(text@, usize::MAX as nat) {
            Some(value) => out == Some(value as usize),
            None => out is None,
        },
{
    match parse_unsigned(text, usize::MAX as u64) {
        Some(value) => Some(value as usize),
        None => None,
    }
}

/// The text that an override leaves: its own where it is set, else the one
/// configured.
pub open spec fn overridden(configured: Seq<char>, value: Option<String>) -> Seq<char> {
    match value {
        Some(v) => v@,
        None => configured,
    }
}

/// The port that an override leaves: its own where it is set and is a port
/// number, else the one configured.
pub open spec fn overridden_port(configured: u16, value: Option<String>) -> u16 {
    match value {
        Some(v) => match parsed_unsigned(v@, 65535) {
            Some(port) => port as u16,
            None => configured,
        },
        None => configured,
    }
}

/// The limit that an override leaves: its own where it is set and is a
/// count, else the one configured.
pub open spec fn overridden_limit(configured: usize, value: Option<String>) -> usize {
    match value {
        Some(v) => match parsed_unsigned(v@, usize::MAX as nat) {
            Some(limit) => limit as usize,
            None => configured,
        },
        None => configured,
    }
}

/// The header name and the digest of the header value that the overrides
/// ask for. Authentication is overridden only where both are set.
pub open spec fn overridden_auth(env: EnvOverrides) -> Option<(Seq<char>, Seq<char>)> {
    match (env.auth_header_name, env.auth_header_value) {
        (Some(name), Some(value)) => Some((name@, hash_value_spec(value@))),
        _ => None,
    }
}

/// The header name and the digest that an authentication asks for.
pub open spec fn auth_view(auth: Option<AuthConfig>) -> Option<(Seq<char>, Seq<char>)> {
    match auth {
        Some(a) => Some((a.header_name@, a.header_value_hash@)),
        None => None,
    }
}

/// An override of a text, applied.
fn override_text(configured: &mut String, value: &Option<String>)
    ensures
        final(configured)@ == overridden(old(configured)@, *value),
{
    match value {
        Some(v) => {
            *configured = v.clone();
        },
        None => {},
    }
}

impl AuthConfig {
    /// Whether a request may pass: it must carry the header, and the
    /// SHA-256 digest of the header's value must be the configured one.
    pub fn permits(&self, header_value: Option<&str>) -> (out: bool)
        ensures
            out == match header_value {
                Some(value) => hash_value_spec(value@) == self.header_value_hash@,
                None => false,
            },
    {
        match header_value {
            Some(value) => {
                let incoming = hash_value(value);
                incoming == self.header_value_hash
            },
            None => false,
        }
    }
}

impl Config {
    /// Puts the overrides of the environment on the configuration. A text
    /// that is set replaces the configured one. A port or a limit that is
    /// set replaces the configured one only where it reads as a number of
    /// its range. Authentication is replaced only where both the header
    /// name and the header value are set; the value is kept as its digest.
    /// The password is never overridden.
    pub fn apply_env_overrides(&mut self, env: &EnvOverrides)
        ensures
            final(self).homeserver@ == overridden(old(self).homeserver@, env.homeserver),
            final(self).username@ == overridden(old(self).username@, env.username),
            final(self).password@ == old(self).password@,
            final(self).room_id@ == overridden(old(self).room_id@, env.room_id),
            final(self).web.host@ == overridden(old(self).web.host@, env.web_host),
            final(self).web.port == overridden_port(old(self).web.port, env.web_port),
            auth_view(final(self).web.auth) == match overridden_auth(*env) {
                Some(auth) => Some(auth),
                None => auth_view(old(self).web.auth),
            },
            final(self).message_history.limit == overridden_limit(
                old(self).message_history.limit,
                env.history_limit,
            ),
            final(self).store.path@ == overridden(old(self).store.path@, env.store_path),
            final(self).store.passphrase@ == overridden(
                old(self).store.passphrase@,
                env.store_passphrase,
            ),
            final(self).database.path@ == overridden(old(self).database.path@, env.database_path),
    {
        override_text(&mut self.homeserver, &env.homeserver);
        override_text(&mut self.username, &env.username);
        override_text(&mut self.room_id, &env.room_id);
        override_text(&mut self.web.host, &env.web_host);
        match &env.web_port {
            Some(text) => match parse_port(text.as_str()) {
                Some(port) => {
                    self.web.port = port;
                },
                None => {},
            },
            None => {},
        }
        match (&env.auth_header_name, &env.auth_header_value) {
            (Some(name), Some(value)) => {
                self.web.auth = Some(
                    AuthConfig {
                        header_name: name.clone(),
                        header_value_hash: hash_value(value.as_str()),
                    },
                );
            },
            _ => {},
        }
        match &env.history_limit {
            Some(text) => match parse_count(text.as_str()) {
                Some(limit) => {
                    self.message_history.limit = limit;
                },
                None => {},
            },
            None => {},
        }
        override_text(&mut self.store.path, &env.store_path);
        override_text(&mut self.store.passphrase, &env.store_passphrase);
        override_text(&mut self.database.path, &env.database_path);
    }
}

} // verus!
