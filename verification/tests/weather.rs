use daily_dashboard::json::{Json, JsonNumber};
use daily_dashboard::status::LoadingStatus;
use daily_dashboard::weather::{
    bar_label, bar_text,
    day_label_of, forecast_url, parse_daily_forecast, weather_description, weather_icon,
    weekday_name, WeatherState, REFETCH_WEATHER_IN_MINS, RETRY_WEATHER_ON_ERROR_IN_MINS,
};

fn s(v: &str) -> Json {
    Json::Str(v.to_string())
}

fn float(v: f64) -> Json {
    Json::Number(JsonNumber::Float(v.to_bits()))
}

fn arr(items: Vec<Json>) -> Json {
    Json::Array(items)
}

fn obj(members: Vec<(&str, Json)>) -> Json {
    Json::Object(members.into_iter().map(|(k, v)| (k.to_string(), v)).collect())
}

fn as_f64(n: JsonNumber) -> f64 {
    match n {
        JsonNumber::PosInt(u) => u as f64,
        JsonNumber::NegInt(i) => i as f64,
        JsonNumber::Float(bits) => f64::from_bits(bits),
    }
}

#[test]
fn parse_daily_forecast_extracts_weekdays_and_temps() {
    let json = obj(vec![(
        "daily",
        obj(vec![
            ("time", arr(vec![s("2026-07-01"), s("2026-07-02"), s("2026-07-03")])),
            ("temperature_2m_max", arr(vec![float(30.0), float(28.5), float(27.0)])),
            ("temperature_2m_min", arr(vec![float(15.0), float(14.0), float(13.0)])),
        ]),
    )]);
    let (weekdays, highs, lows) = parse_daily_forecast(&json);
    assert_eq!(weekdays.len(), 3);
    assert_eq!(highs.len(), 3);
    assert_eq!(lows.len(), 3);
    // Weekday names render as 3-letter abbreviations; don't pin the exact day
    // so the test stays date-stable.
    assert!(weekdays.iter().all(|w| w.len() == 3));
    assert!((as_f64(highs[0]) - 30.0).abs() < 1e-6);
    assert!((as_f64(highs[1]) - 28.5).abs() < 1e-6);
    assert!((as_f64(lows[2]) - 13.0).abs() < 1e-6);
}

#[test]
fn parse_daily_forecast_missing_daily_returns_empty() {
    let json = obj(vec![("current", obj(vec![("temperature_2m", float(20.0))]))]);
    let (weekdays, highs, lows) = parse_daily_forecast(&json);
    assert!(weekdays.is_empty());
    assert!(highs.is_empty());
    assert!(lows.is_empty());
}

#[test]
fn parse_daily_forecast_bad_date_becomes_placeholder() {
    let json = obj(vec![(
        "daily",
        obj(vec![
            ("time", arr(vec![s("not-a-date")])),
            ("temperature_2m_max", arr(vec![float(1.0)])),
            ("temperature_2m_min", arr(vec![float(0.0)])),
        ]),
    )]);
    let (weekdays, highs, lows) = parse_daily_forecast(&json);
    assert_eq!(weekdays, vec!["???".to_string()]);
    assert!((as_f64(highs[0]) - 1.0).abs() < 1e-6);
    assert!((as_f64(lows[0]) - 0.0).abs() < 1e-6);
}

#[test]
fn parse_daily_forecast_tolerates_missing_temp_arrays() {
    let json = obj(vec![("daily", obj(vec![("time", arr(vec![s("2026-07-01")]))]))]);
    let (weekdays, highs, lows) = parse_daily_forecast(&json);
    assert_eq!(weekdays.len(), 1);
    assert!(highs.is_empty());
    assert!(lows.is_empty());
}

#[test]
fn day_labels_name_the_weekday() {
    assert_eq!(day_label_of(&s("2026-07-01")), "Wed");
    assert_eq!(day_label_of(&s("2024-02-29")), "Thu");
    assert_eq!(day_label_of(&s("2023-02-29")), "???");
    assert_eq!(day_label_of(&Json::Number(JsonNumber::PosInt(3))), "???");
    assert_eq!(weekday_name(0), "Mon");
    assert_eq!(weekday_name(6), "Sun");
}

#[test]
fn non_numbers_in_temperature_arrays_are_skipped() {
    let json = obj(vec![(
        "daily",
        obj(vec![("temperature_2m_max", arr(vec![float(1.5), Json::Null, s("x"), float(2.5)]))]),
    )]);
    let (weekdays, highs, _) = parse_daily_forecast(&json);
    assert!(weekdays.is_empty());
    assert_eq!(highs.len(), 2);
    assert_eq!(as_f64(highs[1]), 2.5);
}

#[test]
fn weather_codes_map_to_descriptions_and_icons() {
    assert_eq!(weather_description(0), "Clear sky");
    assert_eq!(weather_description(48), "Fog");
    assert_eq!(weather_description(63), "Rain");
    assert_eq!(weather_description(81), "Rain showers");
    assert_eq!(weather_description(96), "Thunderstorm");
    assert_eq!(weather_description(100), "Unknown");
    assert_eq!(weather_icon(0), "\u{2600}\u{FE0F}");
    assert_eq!(weather_icon(53), "\u{1F327}\u{FE0F}");
    assert_eq!(weather_icon(4), "\u{1F321}\u{FE0F}");
}

#[test]
fn forecast_url_carries_place_and_zone() {
    assert_eq!(
        forecast_url("52.52", "13.41", "Europe/Berlin"),
        "https://api.open-meteo.com/v1/forecast?latitude=52.52&longitude=13.41&current=temperature_2m,weather_code,wind_speed_10m&daily=temperature_2m_max,temperature_2m_min&forecast_days=7&timezone=Europe/Berlin"
    );
}

#[test]
fn weather_waits_for_location_and_refetches_after_interval() {
    let mut state = WeatherState::new();
    assert!(!state.should_fetch(false, 0));
    assert!(state.should_fetch(true, 0));
    assert!(!state.begin_fetch(false));
    assert_eq!(state.loading_status, LoadingStatus::NotStarted);
    assert!(state.begin_fetch(true));
    // No second fetch while the first one runs.
    assert!(!state.should_fetch(true, 0));
    assert!(!state.should_fetch(true, 1_000_000));
    let response = obj(vec![
        (
            "current",
            obj(vec![
                ("temperature_2m", float(21.5)),
                ("weather_code", Json::Number(JsonNumber::PosInt(3))),
                ("wind_speed_10m", float(12.0)),
            ]),
        ),
        ("daily", obj(vec![("time", arr(vec![s("2026-07-01")]))])),
    ]);
    state.apply_response("Berlin".to_string(), &response, 1_000);
    assert_eq!(state.loading_status, LoadingStatus::Loaded);
    assert_eq!(state.city, "Berlin");
    assert_eq!(as_f64(state.temperature), 21.5);
    assert_eq!(state.description, "Overcast");
    assert_eq!(state.daily_weekdays, vec!["Wed".to_string()]);
    assert!(!state.should_fetch(true, 1_000 + 60 * REFETCH_WEATHER_IN_MINS - 1));
    assert!(state.should_fetch(true, 1_000 + 60 * REFETCH_WEATHER_IN_MINS));
}

#[test]
fn weather_response_without_current_is_an_error() {
    let mut state = WeatherState::new();
    state.apply_response("X".to_string(), &obj(vec![]), 5);
    assert_eq!(
        state.loading_status,
        LoadingStatus::Error("No 'current' field in response".to_string())
    );
    assert_eq!(state.city, "");
    assert_eq!(state.last_updated_at, Some(5));
    assert!(!state.should_fetch(true, 5 + 59));
    assert!(state.should_fetch(true, 5 + 60 * RETRY_WEATHER_ON_ERROR_IN_MINS));
}

#[test]
fn weather_display_lines() {
    let mut state = WeatherState::new();
    assert_eq!(state.display(true, "0.0", None), "\u{1F304} Weather is loading...");
    state.fail_fetch("bad \"gateway\"".to_string(), 0);
    assert_eq!(state.display(false, "0.0", None), "Weather: Waiting for location data...");
    assert_eq!(state.display(true, "0.0", None), "Weather error: \"bad \\\"gateway\\\"\"");
    let response = obj(vec![(
        "current",
        obj(vec![("weather_code", Json::Number(JsonNumber::PosInt(0)))]),
    )]);
    state.apply_response("C".to_string(), &response, 0);
    assert_eq!(
        state.display(true, "18.0", Some("5.2".to_string())),
        "\u{2600}\u{FE0F}\u{2600}\u{FE0F}\u{2600}\u{FE0F} 18.0\u{B0}C Clear sky (wind: 5.2 km/h)"
    );
    assert_eq!(
        state.display(true, "18.0", None),
        "\u{2600}\u{FE0F}\u{2600}\u{FE0F}\u{2600}\u{FE0F} 18.0\u{B0}C Clear sky (wind: )"
    );
}

#[test]
fn forecast_bars_are_labelled_and_printed() {
    let days = vec!["Mon".to_string(), "Tue".to_string()];
    assert_eq!(bar_label(&days, 1), "Tue");
    assert_eq!(bar_label(&days, 2), "?");
    assert_eq!(bar_text(13, 28), "13-28\u{B0}");
    assert_eq!(bar_text(-5, 0), "-5-0\u{B0}");
    assert_eq!(bar_text(i32::MIN, i32::MAX), "-2147483648-2147483647\u{B0}");
}

#[test]
fn weather_body_is_parsed_or_fails() {
    let mut state = WeatherState::new();
    state.begin_fetch(true);
    state.apply_body("X".to_string(), "<html>", 7);
    match &state.loading_status {
        LoadingStatus::Error(e) => {
            assert!(e.starts_with("Failed to parse JSON: Error(\"expected value\", line: 1"), "{e}")
        }
        other => panic!("unexpected status {other:?}"),
    }
    assert_eq!(state.last_updated_at, Some(7));
    state.apply_body(
        "Paris".to_string(),
        r#"{"current":{"temperature_2m":-3.5,"weather_code":71},"daily":{"time":["2026-07-01"],"temperature_2m_max":[4],"temperature_2m_min":[-2]}}"#,
        100,
    );
    assert_eq!(state.loading_status, LoadingStatus::Loaded);
    assert_eq!(state.city, "Paris");
    assert_eq!(state.temperature, JsonNumber::Float((-3.5f64).to_bits()));
    assert_eq!(state.description, "Snow");
    assert_eq!(state.daily_weekdays, vec!["Wed".to_string()]);
    assert_eq!(state.daily_high_temperatures, vec![JsonNumber::PosInt(4)]);
    assert_eq!(state.daily_low_temperatures, vec![JsonNumber::NegInt(-2)]);
    assert!(!state.should_fetch(true, 100 + 60 * 9));
    assert!(state.should_fetch(true, 100 + 60 * 10));
}
