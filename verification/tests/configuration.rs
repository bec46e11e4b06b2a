use spaceapi_dezentrale_server::config::{
    default_keep_open_interval, default_status_display_closed, default_status_display_open,
    default_tick_interval, deserialize_duration_millis_from_string,
    deserialize_duration_secs_from_string, AdminConfig, ApiKey, Publish, SpaceConfig,
    StatusDisplay, StatusDisplayTypes,
};
use spaceapi_dezentrale_server::time::TimeSpan;
use std::str::FromStr;

fn parsed(api_key: Option<&str>, enabled: bool) -> SpaceConfig {
    SpaceConfig {
        publish: Publish { space: "test".to_string(), logo: "some_logo".to_string() },
        admin: AdminConfig {
            api_key: api_key.map(ApiKey::from),
            enabled,
            keep_open_interval: TimeSpan::from_secs(7),
            tick_interval: TimeSpan::from_millis(9),
        },
        status_display: StatusDisplayTypes {
            text: StatusDisplay { open: "text open".to_string(), closed: "text closed".to_string() },
            html: StatusDisplay { open: "html open".to_string(), closed: "html closed".to_string() },
        },
    }
}

fn is_generated(key: &ApiKey) -> bool {
    let text = key.0.as_str();
    let half = |part: &str| {
        let digits = part.trim_start_matches(' ');
        part.len() == 16
            && !digits.is_empty()
            && digits.chars().all(|c| c.is_ascii_digit() || ('a'..='f').contains(&c))
            && (digits == "0" || !digits.starts_with('0'))
    };
    text.len() == 32 && half(&text[..16]) && half(&text[16..])
}

#[test]
fn the_default_timings_are_300_seconds_and_100_milliseconds() {
    assert_eq!(default_keep_open_interval(), TimeSpan::from_secs(300));
    assert_eq!(default_tick_interval(), TimeSpan::from_millis(100));
    assert_eq!(default_keep_open_interval().as_secs(), 300);
    assert_eq!(default_tick_interval().as_millis(), 100);
}

#[test]
fn the_default_admin_interface_is_off_and_has_no_key() {
    let admin = AdminConfig::default();
    assert_eq!(admin.api_key, None);
    assert!(!admin.enabled);
    assert_eq!(admin.keep_open_interval, TimeSpan::from_secs(300));
    assert_eq!(admin.tick_interval, TimeSpan::from_millis(100));
}

#[test]
fn the_default_texts_are_open_and_closed() {
    assert_eq!(default_status_display_open(), "open");
    assert_eq!(default_status_display_closed(), "closed");
    let display = StatusDisplay::default();
    assert_eq!(display.open, "open");
    assert_eq!(display.closed, "closed");
    let displays = StatusDisplayTypes::default();
    assert_eq!(displays.text.open, "open");
    assert_eq!(displays.text.closed, "closed");
    assert_eq!(displays.html.open, "open");
    assert_eq!(displays.html.closed, "closed");
}

#[test]
fn seconds_are_read_from_text() {
    assert_eq!(deserialize_duration_secs_from_string("300"), Ok(TimeSpan::from_secs(300)));
    assert_eq!(deserialize_duration_secs_from_string("0"), Ok(TimeSpan::from_secs(0)));
    assert_eq!(
        deserialize_duration_secs_from_string("18446744073709551615"),
        Ok(TimeSpan::from_secs(u64::MAX))
    );
    assert_eq!(deserialize_duration_secs_from_string("5").unwrap().as_millis(), 5_000);
}

#[test]
fn milliseconds_are_read_from_text() {
    assert_eq!(deserialize_duration_millis_from_string("100"), Ok(TimeSpan::from_millis(100)));
    assert_eq!(deserialize_duration_millis_from_string("3").unwrap().as_millis(), 3);
    assert_eq!(deserialize_duration_millis_from_string("1500").unwrap().as_secs(), 1);
}

#[test]
fn a_text_that_is_no_number_gives_the_reason() {
    assert_eq!(
        deserialize_duration_secs_from_string(""),
        Err("cannot parse integer from empty string".to_string())
    );
    assert_eq!(
        deserialize_duration_secs_from_string("5s"),
        Err("invalid digit found in string".to_string())
    );
    assert_eq!(
        deserialize_duration_secs_from_string("-5"),
        Err("invalid digit found in string".to_string())
    );
    assert_eq!(
        deserialize_duration_millis_from_string("18446744073709551616"),
        Err("number too large to fit in target type".to_string())
    );
    assert_eq!(
        deserialize_duration_millis_from_string("1.5"),
        Err("invalid digit found in string".to_string())
    );
}

#[test]
fn a_key_is_made_from_any_text() {
    assert_eq!(ApiKey::from("sesame-open"), ApiKey("sesame-open".to_string()));
    assert_eq!(ApiKey::from_str("sesame"), Ok(ApiKey("sesame".to_string())));
    assert_eq!(ApiKey::from(""), ApiKey(String::new()));
    assert_eq!("sesame".parse::<ApiKey>(), Ok(ApiKey("sesame".to_string())));
}

#[test]
fn a_key_from_two_numbers_is_their_padded_hex() {
    assert_eq!(
        ApiKey::from_random(0xdead_beef, 0x1234),
        ApiKey("        deadbeef            1234".to_string())
    );
    assert_eq!(
        ApiKey::from_random(u64::MAX, 0),
        ApiKey("ffffffffffffffff               0".to_string())
    );
    for (high, low) in [(0u64, 0u64), (1, u64::MAX), (0x0fed_cba9_8765_4321, 0x10)] {
        assert_eq!(ApiKey::from_random(high, low).0, format!("{:16x}{:16x}", high, low));
    }
}

#[test]
fn a_generated_key_has_the_shape_of_two_padded_hex_numbers() {
    for _ in 0..50 {
        let key = ApiKey::generate();
        assert!(is_generated(&key), "{key:?}");
    }
}

#[test]
fn generated_keys_differ() {
    let one = ApiKey::generate();
    let two = ApiKey::generate();
    let three = ApiKey::generate();
    assert!(one != two || two != three);
}

#[test]
fn load_keeps_a_configured_key() {
    let loaded = SpaceConfig::load(parsed(Some("sesame-open"), true));
    assert_eq!(loaded.config.admin.api_key, Some(ApiKey::from("sesame-open")));
    assert!(!loaded.announce_key);
    assert!(loaded.config.admin.enabled);
    assert_eq!(loaded.config.admin.keep_open_interval, TimeSpan::from_secs(7));
    assert_eq!(loaded.config.admin.tick_interval, TimeSpan::from_millis(9));
    assert_eq!(loaded.config.publish.space, "test");
    assert_eq!(loaded.config.publish.logo, "some_logo");
    assert_eq!(loaded.config.status_display.text.open, "text open");
    assert_eq!(loaded.config.status_display.html.closed, "html closed");
}

#[test]
fn load_generates_a_missing_key_and_announces_it_with_admin_on() {
    let loaded = SpaceConfig::load(parsed(None, true));
    assert!(is_generated(loaded.config.admin.api_key.as_ref().unwrap()));
    assert!(loaded.announce_key);
    assert!(loaded.config.admin.enabled);
    assert_eq!(loaded.config.admin.keep_open_interval, TimeSpan::from_secs(7));
    assert_eq!(loaded.config.status_display.text.closed, "text closed");
}

#[test]
fn load_generates_a_missing_key_silently_with_admin_off() {
    let loaded = SpaceConfig::load(parsed(None, false));
    assert!(is_generated(loaded.config.admin.api_key.as_ref().unwrap()));
    assert!(!loaded.announce_key);
    assert!(!loaded.config.admin.enabled);
}

#[test]
fn with_api_key_uses_the_fallback_only_without_a_key() {
    let loaded = SpaceConfig::with_api_key(parsed(None, true), ApiKey::from("fallback"));
    assert_eq!(loaded.config.admin.api_key, Some(ApiKey::from("fallback")));
    assert!(loaded.announce_key);
    let loaded = SpaceConfig::with_api_key(parsed(None, false), ApiKey::from("fallback"));
    assert_eq!(loaded.config.admin.api_key, Some(ApiKey::from("fallback")));
    assert!(!loaded.announce_key);
    let loaded = SpaceConfig::with_api_key(parsed(Some("mine"), true), ApiKey::from("fallback"));
    assert_eq!(loaded.config.admin.api_key, Some(ApiKey::from("mine")));
    assert!(!loaded.announce_key);
    assert_eq!(loaded.config.publish.space, "test");
}
