use audio_controller::brightness::{clamp_brightness, init, Error, ScreenBrightness, FULL_BRIGHTNESS};
use audio_controller::clock::{millis_stamp, seconds_stamp, unix_seconds_now};
use audio_controller::crypto::{
    decode_secret, encode_hex, generate_secret_hex, Claims, SECRET_BYTES, TOKEN_LIFETIME_SECS,
};
use audio_controller::player::known_duration;
use audio_controller::player::{load_failure_message, LoadFailure};
use audio_controller::server::{
    after_response, before_request, ping_url, timeout_message, PollStep,
};
use audio_controller::shell::{
    accepts_extension, after_window_attempt, closes_with_main_window, is_custom_page,
    WindowSearch, MAX_MAIN_WINDOW_RETRIES, RETRY_DELAY_MS,
};
use audio_controller::text::{
    push_decimal, same_optional_text, same_text, starts_with, to_ascii_lower, to_lowered,
};
use audio_controller::domain::{
    clear_pending_import, get_pending_import, get_server_config, PendingImport, ServerConfig,
};

#[test]
fn hex_of_bytes() {
    assert_eq!(encode_hex(&[]), "");
    assert_eq!(encode_hex(&[0]), "00");
    assert_eq!(encode_hex(&[1, 2, 3, 15, 16]), "0102030f10");
    assert_eq!(encode_hex(&[0xab, 0xcd, 0xef, 0x09, 0xff]), "abcdef09ff");
    assert_eq!(encode_hex(b"Hello world!"), "48656c6c6f20776f726c6421");
}

#[test]
fn secret_is_64_lower_case_digits() {
    let secret = generate_secret_hex();
    assert_eq!(secret.len(), 64);
    assert!(secret.chars().all(|c| matches!(c, '0'..='9' | 'a'..='f')));
    let bytes = decode_secret(&secret).unwrap();
    assert_eq!(bytes.len(), SECRET_BYTES);
    assert_eq!(encode_hex(&bytes), secret);
}

#[test]
fn secrets_differ() {
    assert_ne!(generate_secret_hex(), generate_secret_hex());
}

#[test]
fn secret_decoding() {
    assert_eq!(decode_secret("0aff"), Some(vec![10, 255]));
    assert_eq!(decode_secret("0AfF"), Some(vec![10, 255]));
    assert_eq!(decode_secret("48656c6c6f"), Some(b"Hello".to_vec()));
    assert_eq!(decode_secret(""), Some(vec![]));
    assert_eq!(decode_secret("123"), None);
    assert_eq!(decode_secret("foo"), None);
    assert_eq!(decode_secret("zz"), None);
    assert_eq!(decode_secret("0g"), None);
    assert_eq!(decode_secret("é"), None);
    assert_eq!(decode_secret(" 0a"), None);
}

#[test]
fn claims_expire_a_day_after_issue() {
    assert_eq!(TOKEN_LIFETIME_SECS, 24 * 3600);
    let claims = Claims::issue("controller", 1_700_000_000);
    assert_eq!(claims, Claims { sub: "controller".to_string(), exp: 1_700_086_400 });
    let claims = Claims::issue("", 0);
    assert_eq!(claims.exp, 86_400);
}

#[test]
fn system_clock_in_seconds() {
    let secs = unix_seconds_now();
    assert!(secs > 978_307_200);
    assert!(secs < 978_307_200_000);
}

#[test]
fn desktop_brightness() {
    let access: ScreenBrightness = init().unwrap();
    assert_eq!(access.set_brightness(30), Ok(()));
    assert_eq!(access.set_brightness(-1), Ok(()));
    assert_eq!(access.get_brightness(), Ok(100));
    assert_eq!(FULL_BRIGHTNESS, 100);
}

#[test]
fn brightness_is_clamped() {
    assert_eq!(clamp_brightness(-5), 0);
    assert_eq!(clamp_brightness(0), 0);
    assert_eq!(clamp_brightness(37), 37);
    assert_eq!(clamp_brightness(100), 100);
    assert_eq!(clamp_brightness(101), 100);
    assert_eq!(clamp_brightness(i64::MAX), 100);
}

#[test]
fn error_wording() {
    assert_eq!(Error::UnsupportedPlatform.message(), "Platform not supported");
    assert_eq!(Error::Plugin("boom".to_string()).message(), "Plugin error: boom");
    assert_eq!(Error::Plugin(String::new()).message(), "Plugin error: ");
    assert_eq!(Error::Tauri("window gone".to_string()).message(), "window gone");
}

#[test]
fn server_config_carries_the_port() {
    assert_eq!(get_server_config(3000), Ok(ServerConfig { server_port: 3000 }));
    assert_eq!(get_server_config(0), Ok(ServerConfig { server_port: 0 }));
}

#[test]
fn pending_import_is_handed_out_once() {
    let mut state = PendingImport { file_path: Some("/tmp/deck.pptx".to_string()) };
    assert_eq!(get_pending_import(&mut state), Some("/tmp/deck.pptx".to_string()));
    assert_eq!(get_pending_import(&mut state), None);
    let mut state = PendingImport { file_path: Some("/tmp/deck.pptx".to_string()) };
    clear_pending_import(&mut state);
    assert_eq!(state, PendingImport { file_path: None });
    assert_eq!(get_pending_import(&mut state), None);
}

#[test]
fn import_extensions() {
    assert!(accepts_extension("pptx"));
    assert!(accepts_extension("PPTX"));
    assert!(accepts_extension("PpTx"));
    assert!(accepts_extension("opensong"));
    assert!(accepts_extension("OpenSong"));
    assert!(accepts_extension("churchprogram"));
    assert!(accepts_extension("CHURCHPROGRAM"));
    assert!(!accepts_extension(""));
    assert!(!accepts_extension("ppt"));
    assert!(!accepts_extension("pptxx"));
    assert!(!accepts_extension(".pptx"));
    assert!(!accepts_extension("mp3"));
    assert!(!accepts_extension("pptｘ"));
}

#[test]
fn windows_that_close_with_the_main_window() {
    assert!(closes_with_main_window("display-1"));
    assert!(closes_with_main_window("display-"));
    assert!(closes_with_main_window("custom-page-whatsapp"));
    assert!(!closes_with_main_window("main"));
    assert!(!closes_with_main_window("display"));
    assert!(!closes_with_main_window("Display-1"));
    assert!(!closes_with_main_window("a-display-1"));
    assert!(!closes_with_main_window(""));
    assert!(is_custom_page("custom-page-x"));
    assert!(!is_custom_page("display-1"));
    assert!(!is_custom_page("custom-page"));
}

#[test]
fn main_window_search_gives_up_after_ten_looks() {
    assert_eq!(MAX_MAIN_WINDOW_RETRIES, 10);
    assert_eq!(RETRY_DELAY_MS, 200);
    assert_eq!(after_window_attempt(1, true), WindowSearch::Found);
    assert_eq!(after_window_attempt(10, true), WindowSearch::Found);
    for attempt in 1..10 {
        assert_eq!(after_window_attempt(attempt, false), WindowSearch::RetryAfter(200));
    }
    assert_eq!(after_window_attempt(10, false), WindowSearch::GiveUp);
    assert_eq!(after_window_attempt(11, false), WindowSearch::GiveUp);
}

#[test]
fn text_helpers() {
    assert!(same_text("", ""));
    assert!(same_text("abc", "abc"));
    assert!(!same_text("abc", "abd"));
    assert!(!same_text("abc", "ab"));
    assert!(starts_with("hello", ""));
    assert!(starts_with("hello", "he"));
    assert!(starts_with("hello", "hello"));
    assert!(!starts_with("hello", "hello!"));
    assert!(!starts_with("hello", "el"));
    assert!(starts_with("héllo", "hé"));
    assert_eq!(to_ascii_lower('A'), 'a');
    assert_eq!(to_ascii_lower('Z'), 'z');
    assert_eq!(to_ascii_lower('a'), 'a');
    assert_eq!(to_ascii_lower('@'), '@');
    assert_eq!(to_ascii_lower('['), '[');
    assert_eq!(to_ascii_lower('É'), 'É');
    assert_eq!(to_lowered("MiXed-123 É"), "mixed-123 É");
    assert_eq!(to_lowered(""), "");
}

#[test]
fn readiness_polling() {
    assert_eq!(before_request(0, 30), PollStep::Request(500));
    assert_eq!(before_request(29_999, 30), PollStep::Request(500));
    assert_eq!(before_request(30_000, 30), PollStep::GiveUp);
    assert_eq!(before_request(0, 0), PollStep::GiveUp);
    assert_eq!(before_request(u64::MAX, u64::MAX), PollStep::Request(500));
    assert_eq!(after_response(Some(200)), PollStep::Ready);
    assert_eq!(after_response(Some(204)), PollStep::Retry(100));
    assert_eq!(after_response(Some(503)), PollStep::Retry(100));
    assert_eq!(after_response(None), PollStep::Retry(100));
}

#[test]
fn duration_falls_back_to_the_probe() {
    assert_eq!(known_duration(Some(180_000), None), 180_000);
    assert_eq!(known_duration(Some(180_000), Some(5)), 180_000);
    assert_eq!(known_duration(None, Some(179_500)), 179_500);
    assert_eq!(known_duration(None, None), 0);
    assert_eq!(known_duration(Some(0), Some(7)), 0);
}

#[test]
fn clock_readings_become_stamps() {
    assert_eq!(millis_stamp(None), 0);
    assert_eq!(millis_stamp(Some(0)), 0);
    assert_eq!(millis_stamp(Some(1_700_000_000_123)), 1_700_000_000_123);
    assert_eq!(millis_stamp(Some(u128::from(u64::MAX))), u64::MAX);
    assert_eq!(millis_stamp(Some(u128::from(u64::MAX) + 1)), 0);
    assert_eq!(millis_stamp(Some(u128::from(u64::MAX) + 8)), 7);
    assert_eq!(seconds_stamp(None), 0);
    assert_eq!(seconds_stamp(Some(0)), 0);
    assert_eq!(seconds_stamp(Some(1_700_000_000)), 1_700_000_000);
    assert_eq!(seconds_stamp(Some(u64::MAX)), u64::MAX);
}

#[test]
fn numbers_in_decimal() {
    for (n, text) in [
        (0u64, "0"),
        (9, "9"),
        (10, "10"),
        (99, "99"),
        (100, "100"),
        (3000, "3000"),
        (65535, "65535"),
        (1_000_000_007, "1000000007"),
        (u64::MAX, "18446744073709551615"),
    ] {
        let mut out = String::from("n=");
        push_decimal(&mut out, n);
        assert_eq!(out, format!("n={}", text));
    }
}

#[test]
fn optional_texts_compare_by_what_they_spell() {
    let a = Some("boom".to_string());
    let b = Some(String::from("bo") + "om");
    assert!(same_optional_text(&a, &b));
    assert!(same_optional_text(&None, &None));
    assert!(!same_optional_text(&a, &None));
    assert!(!same_optional_text(&None, &a));
    assert!(!same_optional_text(&a, &Some("bang".to_string())));
    assert!(!same_optional_text(&Some(String::new()), &None));
}

#[test]
fn load_failures_are_worded_with_the_path() {
    assert_eq!(
        load_failure_message(LoadFailure::Open, "/does/not/exist", "No such file (os error 2)"),
        "Failed to open file '/does/not/exist': No such file (os error 2)"
    );
    assert_eq!(
        load_failure_message(LoadFailure::Decode, "a b.mp3", "Unrecognized format"),
        "Failed to decode audio 'a b.mp3': Unrecognized format"
    );
    assert_eq!(
        load_failure_message(LoadFailure::Sink, "a.mp3", "NoDevice"),
        "Failed to create audio sink: NoDevice"
    );
    assert_eq!(load_failure_message(LoadFailure::Open, "", ""), "Failed to open file '': ");
}

#[test]
fn readiness_wording() {
    assert_eq!(ping_url(3000), "http://127.0.0.1:3000/ping");
    assert_eq!(ping_url(0), "http://127.0.0.1:0/ping");
    assert_eq!(ping_url(65535), "http://127.0.0.1:65535/ping");
    assert_eq!(timeout_message(30), "Server failed to become ready within 30 seconds");
    assert_eq!(timeout_message(0), "Server failed to become ready within 0 seconds");
}
