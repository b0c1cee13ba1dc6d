use daily_dashboard::greeting::{ip_lookup_step, IpLookupStep};
use daily_dashboard::greeting::{
    geo_url, greeting_message, ip_provider, no_ip_error, parse_location, public_ip_from,
    GreetingState, LocationState, IP_PROVIDER_COUNT,
};
use daily_dashboard::json::{Json, JsonNumber};
use daily_dashboard::status::LoadingStatus;

fn s(v: &str) -> Json {
    Json::Str(v.to_string())
}

fn float(v: f64) -> Json {
    Json::Number(JsonNumber::Float(v.to_bits()))
}

fn obj(members: Vec<(&str, Json)>) -> Json {
    Json::Object(members.into_iter().map(|(k, v)| (k.to_string(), v)).collect())
}

fn as_f64(n: JsonNumber) -> f64 {
    match n {
        JsonNumber::PosInt(u) => u as f64,
        JsonNumber::NegInt(i) => i as f64,
        JsonNumber::Float(bits) => f64::from_bits(bits),
    }
}

#[test]
fn parse_location_extracts_fields_on_success() {
    let json = obj(vec![
        ("status", s("success")),
        ("city", s("Mountain View")),
        ("country", s("United States")),
        ("lat", float(37.4192)),
        ("lon", float(-122.0574)),
        ("timezone", s("America/Los_Angeles")),
    ]);
    let location = parse_location(&json).expect("success response should parse");
    assert_eq!(location.city, "Mountain View");
    assert_eq!(location.country, "United States");
    assert!((as_f64(location.latitude) - 37.4192).abs() < 1e-6);
    assert!((as_f64(location.longitude) - (-122.0574)).abs() < 1e-6);
    assert_eq!(location.timezone, "America/Los_Angeles");
}

#[test]
fn parse_location_fail_status_returns_api_message() {
    let json = obj(vec![("status", s("fail")), ("message", s("invalid query"))]);
    let err = parse_location(&json).expect_err("fail status should error");
    assert!(err.contains("invalid query"), "error should include API message: {err}");
}

#[test]
fn parse_location_missing_fields_default_to_empty() {
    let json = obj(vec![("status", s("success"))]);
    let location = parse_location(&json).expect("success with missing fields should parse");
    assert_eq!(location.city, "");
    assert_eq!(location.country, "");
    assert_eq!(as_f64(location.latitude), 0.0);
    assert_eq!(as_f64(location.longitude), 0.0);
    assert_eq!(location.timezone, "");
}

#[test]
fn parse_location_error_message_exact_forms() {
    let fail = obj(vec![("status", s("fail")), ("message", s("private range"))]);
    assert_eq!(parse_location(&fail).unwrap_err(), "ip-api lookup failed: private range");
    let no_status = obj(vec![]);
    assert_eq!(parse_location(&no_status).unwrap_err(), "ip-api lookup failed: unknown error");
    assert!(parse_location(&Json::Null).is_err());
}

#[test]
fn parse_location_keeps_integer_coordinates() {
    let json = obj(vec![
        ("status", s("success")),
        ("lat", Json::Number(JsonNumber::PosInt(52))),
        ("lon", Json::Number(JsonNumber::NegInt(-3))),
    ]);
    let location = parse_location(&json).unwrap();
    assert_eq!(location.latitude, JsonNumber::PosInt(52));
    assert_eq!(location.longitude, JsonNumber::NegInt(-3));
}

#[test]
fn public_ip_is_trimmed_and_empty_bodies_are_skipped() {
    assert_eq!(public_ip_from("  203.0.113.7\n"), Some("203.0.113.7".to_string()));
    assert_eq!(public_ip_from(" \n\t"), None);
    assert_eq!(public_ip_from(""), None);
}

#[test]
fn ip_providers_are_asked_in_order() {
    assert_eq!(IP_PROVIDER_COUNT, 3);
    assert_eq!(ip_provider(0), "https://api.ipify.org");
    assert_eq!(ip_provider(1), "https://ifconfig.me/ip");
    assert_eq!(ip_provider(2), "https://icanhazip.com");
    assert_eq!(no_ip_error(), "all public-IP providers failed");
}

#[test]
fn geo_url_substitutes_the_address() {
    assert_eq!(
        geo_url("8.8.8.8"),
        "http://ip-api.com/json/8.8.8.8?fields=status,message,city,country,lat,lon,timezone"
    );
}

#[test]
fn greeting_message_upper_cases_the_name() {
    assert_eq!(greeting_message(Some("ada".to_string())), "\u{1F44B} ADA");
    assert_eq!(greeting_message(Some("straße".to_string())), "\u{1F44B} STRASSE");
    assert_eq!(greeting_message(None), "\u{1F44B} USER");
}

#[test]
fn location_display_follows_the_status() {
    let mut state = GreetingState::new();
    assert_eq!(state.location_display(), "\u{1F310} Location is loading...");
    state.finish(Err("offline".to_string()));
    assert_eq!(state.location_display(), "Location error: offline");
    assert_eq!(state.loading_status, LoadingStatus::Error("offline".to_string()));
    let location = LocationState {
        city: "Oslo".to_string(),
        country: "Norway".to_string(),
        ..LocationState::default()
    };
    state.finish(Ok(location));
    assert_eq!(state.loading_status, LoadingStatus::Loaded);
    assert_eq!(state.location_display(), "\u{1F310} Oslo, Norway");
}

#[test]
fn ip_lookup_asks_each_service_in_turn() {
    assert!(matches!(ip_lookup_step(0, None), IpLookupStep::Ask(1)));
    assert!(matches!(ip_lookup_step(1, Some("  \n")), IpLookupStep::Ask(2)));
    assert!(matches!(ip_lookup_step(1, Some(" 1.2.3.4\n")), IpLookupStep::Found(ip) if ip == "1.2.3.4"));
    assert!(matches!(ip_lookup_step(2, None), IpLookupStep::Failed(m) if m == "all public-IP providers failed"));
    assert!(matches!(ip_lookup_step(2, Some("5.6.7.8")), IpLookupStep::Found(ip) if ip == "5.6.7.8"));
}

#[test]
fn location_body_is_parsed_or_fails() {
    let mut state = GreetingState::new();
    state.finish_location_body("1.2.3.4", "nope");
    match &state.loading_status {
        LoadingStatus::Error(e) => assert!(
            e.starts_with("failed to fetch IP location: failed to parse JSON from http://ip-api.com/json/1.2.3.4?fields="),
            "{e}"
        ),
        other => panic!("unexpected status {other:?}"),
    }
    state.finish_location_body(
        "1.2.3.4",
        r#"{"status":"success","city":"Lyon","country":"France","lat":45.75,"lon":4.85,"timezone":"Europe/Paris"}"#,
    );
    assert_eq!(state.loading_status, LoadingStatus::Loaded);
    assert_eq!(state.location.city, "Lyon");
    assert_eq!(as_f64(state.location.latitude), 45.75);
}
