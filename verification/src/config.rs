//! What a server is configured with: the admin interface and its key, the
//! two timings of the keep-open window, and the texts that stand for "open"
//! and "closed".

use vstd::prelude::*;
use rand::RngCore;
use crate::text::{lemma_padded_hex_u64, padded_hex, parse_u64, parsed_u64, push_hex16};
use crate::time::{TimeSpan, NANOS_PER_MILLI, NANOS_PER_SEC};

verus! {

/// The secret that admits a request to the admin interface.
///
/// The view is the key's text.
#[derive(Debug, PartialEq, Eq)]
pub struct ApiKey(pub String);

impl View for ApiKey {
    type V = Seq<char>;

    open spec fn view(&self) -> Seq<char> {
        self.0@
    }
}

/// The text of the key made from two random numbers: each in lower-case
/// hexadecimal digits, right-aligned in sixteen characters and padded with
/// spaces, the first number first.
pub open spec fn generated_key(high: u64, low: u64) -> Seq<char> {
    padded_hex(high as nat, 16) + padded_hex(low as nat, 16)
}

/// Draws 64 random bits from `rand`'s generator of the current thread
/// (`rand::thread_rng`, `RngCore::next_u64`). Nothing is claimed of the
/// number. The generator is seeded from the operating system on a thread's
/// first draw, and that alone can fail.
#[verifier::external_body]
fn random_u64() -> u64 {
    rand::thread_rng().next_u64()
}

impl ApiKey {
    /// The key made from two given numbers.
    pub fn from_random(high: u64, low: u64) -> (key: ApiKey)
        ensures
            key@ == generated_key(high, low),
            key@.len() == 32,
    {
        let mut text = String::new();
        push_hex16(&mut text, high);
        push_hex16(&mut text, low);
        proof {
            lemma_padded_hex_u64(high);
            lemma_padded_hex_u64(low);
        }
        ApiKey(text)
    }

    /// A fresh random key.
    pub fn generate() -> (key: ApiKey)
        ensures
            exists|high: u64, low: u64| key@ == generated_key(high, low),
            key@.len() == 32,
    {
        let high = random_u64();
        let low = random_u64();
        ApiKey::from_random(high, low)
    }
}

impl std::str::FromStr for ApiKey {
    type Err = ();

    fn from_str(s: &str) -> (key: Result<Self, ()>)
        ensures
            key matches Ok(k) && k@ == s@,
    {
        Ok(ApiKey(s.to_owned()))
    }
}

impl vstd::std_specs::convert::FromSpecImpl<&str> for ApiKey {
    /// A text does not determine the `String` that holds it, only that
    /// `String`'s view, so the conversion is stated on `from` itself.
    open spec fn obeys_from_spec() -> bool {
        false
    }

    open spec fn from_spec(v: &str) -> ApiKey {
        arbitrary()
    }
}

impl From<&str> for ApiKey {
    fn from(s: &str) -> (key: ApiKey)
        ensures
            key@ == s@,
    {
        ApiKey(s.to_owned())
    }
}

/// What reading `value` as a whole number of time units of `unit`
/// nanoseconds each gives: the span, or the message that says why `value`
/// is no such number.
pub open spec fn duration_from_text(value: Seq<char>, unit: nat) -> Result<nat, Seq<char>> {
    match parsed_u64(value) {
        Ok(count) => Ok(count as nat * unit),
        Err(error) => Err(error.message_text()),
    }
}

/// Whether `read` is what `duration_from_text` describes.
pub open spec fn reads_duration(
    read: Result<TimeSpan, String>,
    value: Seq<char>,
    unit: nat,
) -> bool {
    match duration_from_text(value, unit) {
        Ok(nanos) => read matches Ok(span) && span@ == nanos,
        Err(message) => read matches Err(text) && text@ == message,
    }
}

/// Reads a span from a text that holds a whole number of seconds.
pub fn deserialize_duration_secs_from_string(value: &str) -> (read: Result<TimeSpan, String>)
    ensures
        reads_duration(read, value@, NANOS_PER_SEC as nat),
{
    match parse_u64(value) {
        Ok(secs) => Ok(TimeSpan::from_secs(secs)),
        Err(error) => Err(error.message()),
    }
}

/// Reads a span from a text that holds a whole number of milliseconds.
pub fn deserialize_duration_millis_from_string(value: &str) -> (read: Result<TimeSpan, String>)
    ensures
        reads_duration(read, value@, NANOS_PER_MILLI as nat),
{
    match parse_u64(value) {
        Ok(millis) => Ok(TimeSpan::from_millis(millis)),
        Err(error) => Err(error.message()),
    }
}

/// How long a keep-open request lasts where the configuration does not say:
/// 300 seconds.
pub fn default_keep_open_interval() -> (interval: TimeSpan)
    ensures
        interval@ == 300 * NANOS_PER_SEC,
{
    TimeSpan::from_secs(300)
}

/// How long the expiry scheduler waits between two checks where the
/// configuration does not say: 100 milliseconds.
pub fn default_tick_interval() -> (interval: TimeSpan)
    ensures
        interval@ == 100 * NANOS_PER_MILLI,
{
    TimeSpan::from_millis(100)
}

/// The admin interface: whether it exists, its key, and the two timings.
#[derive(Debug)]
pub struct AdminConfig {
    /// The key, where one is configured.
    pub api_key: Option<ApiKey>,
    /// Whether the mutating routes exist at all.
    pub enabled: bool,
    /// How long one keep-open request lasts.
    pub keep_open_interval: TimeSpan,
    /// How long the expiry scheduler waits between two checks.
    pub tick_interval: TimeSpan,
}

impl Default for AdminConfig {
    /// No key, the admin interface off, 300 seconds, 100 milliseconds.
    fn default() -> (admin: AdminConfig)
        ensures
            admin.api_key is None,
            !admin.enabled,
            admin.keep_open_interval@ == 300 * NANOS_PER_SEC,
            admin.tick_interval@ == 100 * NANOS_PER_MILLI,
    {
        AdminConfig {
            api_key: None,
            enabled: false,
            keep_open_interval: TimeSpan::from_secs(300),
            tick_interval: TimeSpan::from_millis(100),
        }
    }
}

/// The text for an open space where the configuration gives none: `open`.
pub fn default_status_display_open() -> (text: String)
    ensures
        text@ == "open"@,
{
    "open".to_owned()
}

/// The text for a closed space where the configuration gives none:
/// `closed`.
pub fn default_status_display_closed() -> (text: String)
    ensures
        text@ == "closed"@,
{
    "closed".to_owned()
}

/// The two texts of one kind of status page.
#[derive(Debug)]
pub struct StatusDisplay {
    /// Shown while the space is open.
    pub open: String,
    /// Shown while the space is closed.
    pub closed: String,
}

impl StatusDisplay {
    /// The text that stands for the given state.
    pub open spec fn text_for(self, open: bool) -> Seq<char> {
        if open {
            self.open@
        } else {
            self.closed@
        }
    }
}

impl Default for StatusDisplay {
    /// The texts `open` and `closed`.
    fn default() -> (display: StatusDisplay)
        ensures
            display.open@ == "open"@,
            display.closed@ == "closed"@,
    {
        StatusDisplay { open: "open".to_owned(), closed: "closed".to_owned() }
    }
}

/// The texts of the plain-text status page and of the HTML one.
#[derive(Debug)]
pub struct StatusDisplayTypes {
    pub text: StatusDisplay,
    pub html: StatusDisplay,
}

impl Default for StatusDisplayTypes {
    /// `open` and `closed` for both pages.
    fn default() -> (displays: StatusDisplayTypes)
        ensures
            displays.text.open@ == "open"@,
            displays.text.closed@ == "closed"@,
            displays.html.open@ == "open"@,
            displays.html.closed@ == "closed"@,
    {
        StatusDisplayTypes { text: StatusDisplay::default(), html: StatusDisplay::default() }
    }
}

/// What the server reads of the published description of the space: its
/// name and the address of its logo. Everything else in that description
/// passes through the server unread.
#[derive(Debug)]
pub struct Publish {
    /// The name of the space.
    pub space: String,
    /// The address of the logo.
    pub logo: String,
}

/// The whole configuration of a server.
#[derive(Debug)]
pub struct SpaceConfig {
    pub publish: Publish,
    pub admin: AdminConfig,
    pub status_display: StatusDisplayTypes,
}

/// A configuration that is ready to serve from, and whether its key has to be
/// announced.
#[derive(Debug)]
pub struct Loaded {
    /// The configuration; it has a key.
    pub config: SpaceConfig,
    /// Whether the key was made up here while the admin interface is on, in
    /// which case the operator learns the key from nowhere else.
    pub announce_key: bool,
}

impl SpaceConfig {
    /// What `parsed` becomes once it has a key: itself, with `key` in place
    /// where it had none.
    pub open spec fn keyed(self, key: ApiKey) -> SpaceConfig {
        SpaceConfig {
            admin: AdminConfig {
                api_key: Some(
                    match self.admin.api_key {
                        Some(configured) => configured,
                        None => key,
                    },
                ),
                ..self.admin
            },
            ..self
        }
    }

    /// Completes a configuration as it was parsed: where it names no key,
    /// `fallback` becomes the key. The key is to be announced if it was not
    /// configured and the admin interface is on.
    pub fn with_api_key(parsed: SpaceConfig, fallback: ApiKey) -> (loaded: Loaded)
        ensures
            loaded.config == parsed.keyed(fallback),
            loaded.announce_key == (parsed.admin.api_key is None && parsed.admin.enabled),
    {
        let SpaceConfig { publish, admin, status_display } = parsed;
        let AdminConfig { api_key, enabled, keep_open_interval, tick_interval } = admin;
        let (api_key, announce_key) = match api_key {
            Some(configured) => (configured, false),
            None => (fallback, enabled),
        };
        Loaded {
            config: SpaceConfig {
                publish,
                admin: AdminConfig {
                    api_key: Some(api_key),
                    enabled,
                    keep_open_interval,
                    tick_interval,
                },
                status_display,
            },
            announce_key,
        }
    }

    /// Completes a configuration as it was parsed: where it names no key, a
    /// random one is generated. Nothing else changes.
    pub fn load(parsed: SpaceConfig) -> (loaded: Loaded)
        ensures
            loaded.config.admin.api_key matches Some(key) && loaded.config == parsed.keyed(key),
            parsed.admin.api_key is None ==> exists|high: u64, low: u64|
                loaded.config.admin.api_key->0@ == generated_key(high, low),
            loaded.announce_key == (parsed.admin.api_key is None && parsed.admin.enabled),
    {
        if parsed.admin.api_key.is_none() {
            let key = ApiKey::generate();
            SpaceConfig::with_api_key(parsed, key)
        } else {
            Loaded { config: parsed, announce_key: false }
        }
    }
}

} // verus!
