//! The Weather widget: the forecast request, its response, the refresh rule
//! and the line it shows. Temperatures and wind speeds stay the numbers the
//! service sent; they are printed outside the library.
use vstd::prelude::*;
use chrono::Datelike;
use crate::json::{
    array_in, get, json_document, number_in, parse_json, str_in, u64_in, chars_or, array_opt,
    number_opt, str_opt, u64_opt,
    Json, JsonNumber,
};
use crate::seqs::{filter_map, lemma_filter_map_take};
use crate::status::{fetch_due, LoadingStatus};
use crate::text::{concat3, decimal, decimal_string, owned, str_concat, opt_view};

verus! {

/// Minutes between refreshes.
pub const REFETCH_WEATHER_IN_MINS: i64 = 10;

/// Minutes before retrying after a failed fetch.
pub const RETRY_WEATHER_ON_ERROR_IN_MINS: i64 = 1;

/// What a WMO weather code means.
pub open spec fn description_of(code: u32) -> Seq<char> {
    if code == 0 {
        "Clear sky"@
    } else if code == 1 {
        "Mainly clear"@
    } else if code == 2 {
        "Partly cloudy"@
    } else if code == 3 {
        "Overcast"@
    } else if 45 <= code <= 48 {
        "Fog"@
    } else if 51 <= code <= 55 {
        "Drizzle"@
    } else if 61 <= code <= 65 {
        "Rain"@
    } else if 71 <= code <= 75 {
        "Snow"@
    } else if 80 <= code <= 82 {
        "Rain showers"@
    } else if 95 <= code <= 99 {
        "Thunderstorm"@
    } else {
        "Unknown"@
    }
}

/// What a WMO weather code means.
pub fn weather_description(code: u32) -> (d: &'static str)
    ensures
        d@ == description_of(code),
{
    if code == 0 {
        "Clear sky"
    } else if code == 1 {
        "Mainly clear"
    } else if code == 2 {
        "Partly cloudy"
    } else if code == 3 {
        "Overcast"
    } else if 45 <= code && code <= 48 {
        "Fog"
    } else if 51 <= code && code <= 55 {
        "Drizzle"
    } else if 61 <= code && code <= 65 {
        "Rain"
    } else if 71 <= code && code <= 75 {
        "Snow"
    } else if 80 <= code && code <= 82 {
        "Rain showers"
    } else if 95 <= code && code <= 99 {
        "Thunderstorm"
    } else {
        "Unknown"
    }
}

/// The icon of a WMO weather code.
pub open spec fn icon_of(code: u32) -> Seq<char> {
    if code == 0 {
        "\u{2600}\u{FE0F}"@
    } else if code == 1 || code == 2 {
        "\u{1F324}\u{FE0F}"@
    } else if code == 3 {
        "\u{2601}\u{FE0F}"@
    } else if 45 <= code <= 48 {
        "\u{1F32B}\u{FE0F}"@
    } else if 51 <= code <= 55 || 61 <= code <= 65 {
        "\u{1F327}\u{FE0F}"@
    } else if 71 <= code <= 75 {
        "\u{2744}\u{FE0F}"@
    } else if 80 <= code <= 82 {
        "\u{1F326}\u{FE0F}"@
    } else if 95 <= code <= 99 {
        "\u{26C8}\u{FE0F}"@
    } else {
        "\u{1F321}\u{FE0F}"@
    }
}

/// The icon of a WMO weather code.
pub fn weather_icon(code: u32) -> (i: &'static str)
    ensures
        i@ == icon_of(code),
{
    if code == 0 {
        "\u{2600}\u{FE0F}"
    } else if code == 1 || code == 2 {
        "\u{1F324}\u{FE0F}"
    } else if code == 3 {
        "\u{2601}\u{FE0F}"
    } else if 45 <= code && code <= 48 {
        "\u{1F32B}\u{FE0F}"
    } else if (51 <= code && code <= 55) || (61 <= code && code <= 65) {
        "\u{1F327}\u{FE0F}"
    } else if 71 <= code && code <= 75 {
        "\u{2744}\u{FE0F}"
    } else if 80 <= code && code <= 82 {
        "\u{1F326}\u{FE0F}"
    } else if 95 <= code && code <= 99 {
        "\u{26C8}\u{FE0F}"
    } else {
        "\u{1F321}\u{FE0F}"
    }
}

/// The day of the week (Monday is 0) of the date that `text` holds in
/// `format`, as `chrono::NaiveDate::parse_from_str` reads it; `None` when it
/// does not read as a date.
pub uninterp spec fn weekday_of_date(text: Seq<char>, format: Seq<char>) -> Option<u8>;

/// Calls `chrono::NaiveDate::parse_from_str` and reads the day of the week of
/// the date (`Datelike::weekday`, `Weekday::num_days_from_monday`).
///
/// Trusted: the result is `weekday_of_date` of the arguments, and a day of the
/// week is below 7; chrono's parsing rules are not restated.
#[verifier::external_body]
pub(crate) fn parse_weekday(text: &str, format: &str) -> (d: Option<u8>)
    ensures
        d == weekday_of_date(text@, format@),
        d matches Some(n) ==> n < 7,
{
    chrono::NaiveDate::parse_from_str(text, format).ok().map(
        |date| date.weekday().num_days_from_monday() as u8,
    )
}

/// The short names of the days of the week, from Monday.
pub open spec fn weekday_names() -> Seq<Seq<char>> {
    seq!["Mon"@, "Tue"@, "Wed"@, "Thu"@, "Fri"@, "Sat"@, "Sun"@]
}

/// The short name of day `d` of the week (Monday is 0).
pub fn weekday_name(d: u8) -> (name: &'static str)
    requires
        d < 7,
    ensures
        name@ == weekday_names()[d as int],
{
    match d {
        0 => "Mon",
        1 => "Tue",
        2 => "Wed",
        3 => "Thu",
        4 => "Fri",
        5 => "Sat",
        _ => "Sun",
    }
}

/// A forecast day whose date chrono places `d` days after a Monday is
/// labelled with chrono's English short name of that weekday: Mon, Tue,
/// Wed, Thu, Fri, Sat, Sun for `d` from 0 to 6; a value that is not a date
/// is labelled `???`.
pub proof fn lemma_day_label_names_the_weekday(date: String)
    ensures
        match weekday_of_date(date@, "%Y-%m-%d"@) {
            Some(d) => d < 7 ==> day_label(Json::Str(date)) == seq![
                "Mon"@,
                "Tue"@,
                "Wed"@,
                "Thu"@,
                "Fri"@,
                "Sat"@,
                "Sun"@,
            ][d as int],
            None => day_label(Json::Str(date)) == "???"@,
        },
{
}

/// The label of one forecast day: the weekday of its `YYYY-MM-DD` date, and
/// `???` when the value is not a string or not such a date.
pub open spec fn day_label(value: Json) -> Seq<char> {
    let text = chars_or(str_in(Some(value)), "???"@);
    match weekday_of_date(text, "%Y-%m-%d"@) {
        Some(d) => if d < 7 {
            weekday_names()[d as int]
        } else {
            "???"@
        },
        None => "???"@,
    }
}

/// The label of one forecast day.
pub fn day_label_of(value: &Json) -> (label: String)
    ensures
        label@ == day_label(*value),
{
    let text: &str = match value.as_str() {
        Some(s) => s.as_str(),
        None => "???",
    };
    match parse_weekday(text, "%Y-%m-%d") {
        Some(d) => owned(weekday_name(d)),
        None => owned("???"),
    }
}

/// The numbers among `items`, in order.
pub open spec fn numbers_among(items: Seq<Json>) -> Seq<JsonNumber> {
    filter_map(items, |j: Json| number_in(Some(j)))
}

/// The daily forecast of a response: the day labels of `daily.time`, and the
/// numbers of `daily.temperature_2m_max` and `daily.temperature_2m_min`;
/// each is empty when its array is missing, and all are when `daily` is.
pub open spec fn daily_forecast(json: Json) -> (Seq<Seq<char>>, Seq<JsonNumber>, Seq<JsonNumber>) {
    match get(json, "daily"@) {
        Some(daily) => (
            match array_in(get(daily, "time"@)) {
                Some(items) => items.map_values(|j: Json| day_label(j)),
                None => seq![],
            },
            match array_in(get(daily, "temperature_2m_max"@)) {
                Some(items) => numbers_among(items),
                None => seq![],
            },
            match array_in(get(daily, "temperature_2m_min"@)) {
                Some(items) => numbers_among(items),
                None => seq![],
            },
        ),
        None => (seq![], seq![], seq![]),
    }
}

/// The views of a sequence of strings.
pub open spec fn labels_of(v: Seq<String>) -> Seq<Seq<char>> {
    v.map_values(|s: String| s@)
}

/// The numbers among `items`, in order.
pub fn numbers_of(items: Option<&Vec<Json>>) -> (v: Vec<JsonNumber>)
    ensures
        v@ == match items {
            Some(a) => numbers_among(a@),
            None => seq![],
        },
{
    let mut v: Vec<JsonNumber> = Vec::new();
    match items {
        Some(a) => {
            let ghost f = |j: Json| number_in(Some(j));
            let mut i: usize = 0;
            assert(a@.take(0) =~= seq![]);
            while i < a.len()
                invariant
                    i <= a.len(),
                    f == (|j: Json| number_in(Some(j))),
                    v@ == filter_map(a@.take(i as int), f),
                decreases a.len() - i,
            {
                proof {
                    lemma_filter_map_take(a@, f, i as int);
                }
                match a[i].as_number() {
                    Some(n) => v.push(n),
                    None => {},
                }
                i = i + 1;
            }
            assert(a@.take(a@.len() as int) =~= a@);
        },
        None => {},
    }
    v
}

/// The day labels of `items`.
pub fn labels_of_days(items: Option<&Vec<Json>>) -> (v: Vec<String>)
    ensures
        labels_of(v@) == match items {
            Some(a) => a@.map_values(|j: Json| day_label(j)),
            None => seq![],
        },
{
    let mut v: Vec<String> = Vec::new();
    match items {
        Some(a) => {
            let mut i: usize = 0;
            while i < a.len()
                invariant
                    i <= a.len(),
                    labels_of(v@) == a@.take(i as int).map_values(|j: Json| day_label(j)),
                decreases a.len() - i,
            {
                let label = day_label_of(&a[i]);
                proof {
                    assert(a@.take(i + 1) =~= a@.take(i as int).push(a@[i as int]));
                    assert(a@.take(i as int).push(a@[i as int]).map_values(|j: Json| day_label(j))
                        =~= a@.take(i as int).map_values(|j: Json| day_label(j)).push(
                        day_label(a@[i as int]),
                    ));
                    assert(labels_of(v@.push(label)) =~= labels_of(v@).push(label@));
                }
                v.push(label);
                i = i + 1;
            }
            assert(a@.take(a@.len() as int) =~= a@);
        },
        None => {
            assert(labels_of(v@) =~= seq![]);
        },
    }
    v
}

/// The daily forecast of a response: day labels, highs and lows.
pub fn parse_daily_forecast(json: &Json) -> (r: (Vec<String>, Vec<JsonNumber>, Vec<JsonNumber>))
    ensures
        (labels_of(r.0@), r.1@, r.2@) == daily_forecast(*json),
{
    match json.get("daily") {
        Some(daily) => {
            let labels = labels_of_days(array_opt(daily.get("time")));
            let highs = numbers_of(array_opt(daily.get("temperature_2m_max")));
            let lows = numbers_of(array_opt(daily.get("temperature_2m_min")));
            (labels, highs, lows)
        },
        None => {
            let labels: Vec<String> = Vec::new();
            assert(labels_of(labels@) =~= seq![]);
            (labels, Vec::new(), Vec::new())
        },
    }
}

/// The forecast request for a place: its coordinates as they are to be
/// printed, and its time zone.
pub open spec fn forecast_url_of(latitude: Seq<char>, longitude: Seq<char>, timezone: Seq<char>) -> Seq<char> {
    "https://api.open-meteo.com/v1/forecast?latitude="@ + latitude + "&longitude="@ + longitude
        + "&current=temperature_2m,weather_code,wind_speed_10m&daily=temperature_2m_max,temperature_2m_min&forecast_days=7&timezone="@
        + timezone
}

/// The forecast request for a place.
pub fn forecast_url(latitude: &str, longitude: &str, timezone: &str) -> (url: String)
    ensures
        url@ == forecast_url_of(latitude@, longitude@, timezone@),
{
    let a = concat3("https://api.open-meteo.com/v1/forecast?latitude=", latitude, "&longitude=");
    let b = concat3(
        a.as_str(),
        longitude,
        "&current=temperature_2m,weather_code,wind_speed_10m&daily=temperature_2m_max,temperature_2m_min&forecast_days=7&timezone=",
    );
    str_concat(b.as_str(), timezone)
}

/// The Weather widget's state.
#[derive(Debug)]
pub struct WeatherState {
    pub city: String,
    pub temperature: JsonNumber,
    pub description: String,
    pub icon: String,
    pub wind_speed: Option<JsonNumber>,
    pub loading_status: LoadingStatus,
    pub daily_high_temperatures: Vec<JsonNumber>,
    pub daily_low_temperatures: Vec<JsonNumber>,
    pub daily_weekdays: Vec<String>,
    pub last_updated_at: Option<i64>,
}

/// Whether to fetch the weather on a tick: only once the location is known,
/// and then the first time, never while a fetch runs,
/// `REFETCH_WEATHER_IN_MINS` after the last update once loaded, and
/// `RETRY_WEATHER_ON_ERROR_IN_MINS` after a failure (`last` is the time of
/// the last update or failure).
pub open spec fn weather_fetch_due(
    status: LoadingStatus,
    location_ready: bool,
    now: i64,
    last: Option<i64>,
) -> bool {
    location_ready && fetch_due(
        status,
        now,
        last,
        Some(REFETCH_WEATHER_IN_MINS),
        RETRY_WEATHER_ON_ERROR_IN_MINS,
    )
}

/// A weather fetch is never started while another one runs, whatever the
/// clock says.
pub proof fn lemma_no_weather_fetch_while_loading(location_ready: bool, now: i64, last: Option<i64>)
    ensures
        !weather_fetch_due(LoadingStatus::Loading, location_ready, now, last),
{
}

/// The message when a response has no current conditions.
pub open spec fn no_current_message() -> Seq<char> {
    "No 'current' field in response"@
}

/// The readings of the state, all equal.
pub open spec fn same_weather(a: WeatherState, b: WeatherState) -> bool {
    &&& a.city == b.city
    &&& a.temperature == b.temperature
    &&& a.description == b.description
    &&& a.icon == b.icon
    &&& a.wind_speed == b.wind_speed
    &&& a.daily_high_temperatures == b.daily_high_temperatures
    &&& a.daily_low_temperatures == b.daily_low_temperatures
    &&& a.daily_weekdays == b.daily_weekdays
}

/// What taking a forecast response `json` for `city` at `now` does to the
/// state `old`, giving `new`: without current conditions it is an error
/// (failed at `now`); otherwise each current reading present replaces the
/// old one, the daily forecast is replaced when the response has one, and
/// the weather is loaded.
pub open spec fn response_applied(old: WeatherState, new: WeatherState, city: String, json: Json, now: i64) -> bool {
    &&& (get(json, "current"@) is None ==> (new.loading_status matches LoadingStatus::Error(
                m,
            ) && m@ == no_current_message()))
    &&& (get(json, "current"@) is None ==> same_weather(new, old)
                && new.last_updated_at == Some(now))
    &&& (get(json, "current"@) matches Some(current) ==> {
                &&& new.city == city
                &&& new.loading_status is Loaded
                &&& new.last_updated_at == Some(now)
                &&& new.temperature == match number_in(get(current, "temperature_2m"@)) {
                    Some(n) => n,
                    None => old.temperature,
                }
                &&& new.wind_speed == match number_in(get(current, "wind_speed_10m"@)) {
                    Some(n) => Some(n),
                    None => old.wind_speed,
                }
                &&& match u64_in(get(current, "weather_code"@)) {
                    Some(code) => new.description@ == description_of(code as u32)
                        && new.icon@ == icon_of(code as u32),
                    None => new.description == old.description && new.icon
                        == old.icon,
                }
                &&& get(json, "daily"@) is Some ==> (labels_of(new.daily_weekdays@),
                    new.daily_high_temperatures@,
                    new.daily_low_temperatures@) == daily_forecast(json)
                &&& get(json, "daily"@) is None ==> new.daily_weekdays
                    == old.daily_weekdays && new.daily_high_temperatures
                    == old.daily_high_temperatures && new.daily_low_temperatures
                    == old.daily_low_temperatures
            })
}

impl WeatherState {
    /// Nothing fetched yet.
    pub fn new() -> (s: WeatherState)
        ensures
            s.loading_status is NotStarted,
            s.city@ == Seq::<char>::empty(),
            s.description@ == Seq::<char>::empty(),
            s.icon@ == Seq::<char>::empty(),
            s.temperature == JsonNumber::PosInt(0),
            s.wind_speed is None,
            s.daily_weekdays@.len() == 0,
            s.daily_high_temperatures@.len() == 0,
            s.daily_low_temperatures@.len() == 0,
            s.last_updated_at is None,
    {
        WeatherState {
            city: String::new(),
            temperature: JsonNumber::PosInt(0),
            description: String::new(),
            icon: String::new(),
            wind_speed: None,
            loading_status: LoadingStatus::NotStarted,
            daily_high_temperatures: Vec::new(),
            daily_low_temperatures: Vec::new(),
            daily_weekdays: Vec::new(),
            last_updated_at: None,
        }
    }

    /// Whether to fetch the weather on this tick.
    pub fn should_fetch(&self, location_ready: bool, now: i64) -> (b: bool)
        ensures
            b == weather_fetch_due(self.loading_status, location_ready, now, self.last_updated_at),
    {
        location_ready && self.loading_status.is_fetch_due(
            now,
            self.last_updated_at,
            Some(REFETCH_WEATHER_IN_MINS),
            RETRY_WEATHER_ON_ERROR_IN_MINS,
        )
    }

    /// Starts a fetch; without a location it goes back to not started and
    /// tells the caller not to go on.
    pub fn begin_fetch(&mut self, location_loaded: bool) -> (go_on: bool)
        ensures
            go_on == location_loaded,
            location_loaded ==> final(self).loading_status is Loading,
            !location_loaded ==> final(self).loading_status is NotStarted,
            same_weather(*final(self), *old(self)),
            final(self).last_updated_at == old(self).last_updated_at,
    {
        self.loading_status = LoadingStatus::Loading;
        if !location_loaded {
            self.loading_status = LoadingStatus::NotStarted;
            return false;
        }
        true
    }

    /// Records that the fetch failed at `now` with `message`; the retry is
    /// timed from `now`.
    pub fn fail_fetch(&mut self, message: String, now: i64)
        ensures
            final(self).loading_status == LoadingStatus::Error(message),
            final(self).last_updated_at == Some(now),
            same_weather(*final(self), *old(self)),
    {
        self.loading_status = LoadingStatus::Error(message);
        self.last_updated_at = Some(now);
    }

    /// Takes a forecast response for `city` received at `now`
    /// (`response_applied`).
    pub fn apply_response(&mut self, city: String, json: &Json, now: i64)
        ensures
            response_applied(*old(self), *final(self), city, *json, now),
    {
        let current = match json.get("current") {
            Some(c) => c,
            None => {
                self.loading_status = LoadingStatus::Error(owned("No 'current' field in response"));
                self.last_updated_at = Some(now);
                return;
            },
        };
        self.city = city;
        match number_opt(current.get("temperature_2m")) {
            Some(n) => self.temperature = n,
            None => {},
        }
        match number_opt(current.get("wind_speed_10m")) {
            Some(n) => self.wind_speed = Some(n),
            None => {},
        }
        match u64_opt(current.get("weather_code")) {
            Some(v) => {
                let code = v as u32;
                self.description = owned(weather_description(code));
                self.icon = owned(weather_icon(code));
            },
            None => {},
        }
        if json.get("daily").is_some() {
            let (labels, highs, lows) = parse_daily_forecast(json);
            self.daily_weekdays = labels;
            self.daily_high_temperatures = highs;
            self.daily_low_temperatures = lows;
        }
        self.loading_status = LoadingStatus::Loaded;
        self.last_updated_at = Some(now);
    }
}

impl WeatherState {
    /// Takes the body of a forecast response for `city` received at `now`:
    /// a body that does not parse as JSON is an error (failed at `now`,
    /// with the parser error as `{:?}` prints it);
    /// otherwise the response is applied.
    pub fn apply_body(&mut self, city: String, body: &str, now: i64)
        ensures
            match json_document(body@) {
                Ok(j) => response_applied(*old(self), *final(self), city, j, now),
                Err((_, debugged)) => {
                    &&& final(self).loading_status matches LoadingStatus::Error(e) && e@
                        == "Failed to parse JSON: "@ + debugged
                    &&& final(self).last_updated_at == Some(now)
                    &&& same_weather(*final(self), *old(self))
                },
            },
    {
        match parse_json(body) {
            Ok(j) => self.apply_response(city, &j, now),
            Err((_, debugged)) => self.fail_fetch(
                str_concat("Failed to parse JSON: ", debugged.as_str()),
                now,
            ),
        }
    }
}

/// `s` as `{:?}` prints a string: quoted, with special chars escaped.
pub uninterp spec fn debug_text(s: Seq<char>) -> Seq<char>;

/// Formats `s` with `{:?}` (std's `Debug` for `str`).
///
/// Trusted: the result is `debug_text(s)`; std's escaping rules are not
/// restated.
#[verifier::external_body]
pub(crate) fn debug_quoted(s: &str) -> (r: String)
    ensures
        r@ == debug_text(s@),
{
    format!("{s:?}")
}

/// The weather line. `temperature` is the current temperature as it is to be
/// printed and `wind_speed` the wind speed, if any has been read.
pub open spec fn weather_line(
    status: LoadingStatus,
    location_loaded: bool,
    icon: Seq<char>,
    temperature: Seq<char>,
    description: Seq<char>,
    wind_speed: Option<Seq<char>>,
) -> Seq<char> {
    match status {
        LoadingStatus::Loaded => icon + icon + icon + " "@ + temperature + "\u{B0}C "@ + description
            + " (wind: "@ + match wind_speed {
            Some(w) => w + " km/h"@,
            None => seq![],
        } + ")"@,
        LoadingStatus::Error(e) => if location_loaded {
            "Weather error: "@ + debug_text(e@)
        } else {
            "Weather: Waiting for location data..."@
        },
        _ => "\u{1F304} Weather is loading..."@,
    }
}

impl WeatherState {
    /// The weather line.
    pub fn display(&self, location_loaded: bool, temperature: &str, wind_speed: Option<String>) -> (s:
        String)
        ensures
            s@ == weather_line(
                self.loading_status,
                location_loaded,
                self.icon@,
                temperature@,
                self.description@,
                opt_view(wind_speed),
            ),
    {
        match &self.loading_status {
            LoadingStatus::Loaded => {
                let icons = concat3(self.icon.as_str(), self.icon.as_str(), self.icon.as_str());
                let a = concat3(icons.as_str(), " ", temperature);
                let b = concat3(a.as_str(), "\u{B0}C ", self.description.as_str());
                proof {
                    reveal_strlit("");
                }
                let wind = match wind_speed {
                    Some(w) => str_concat(w.as_str(), " km/h"),
                    None => owned(""),
                };
                let c = concat3(b.as_str(), " (wind: ", wind.as_str());
                str_concat(c.as_str(), ")")
            },
            LoadingStatus::Error(e) => if location_loaded {
                let q = debug_quoted(e.as_str());
                str_concat("Weather error: ", q.as_str())
            } else {
                owned("Weather: Waiting for location data...")
            },
            _ => owned("\u{1F304} Weather is loading..."),
        }
    }
}

/// The label under the forecast bar at `index`: that day's name, or `?`
/// when there is none.
pub fn bar_label(weekdays: &Vec<String>, index: usize) -> (label: String)
    ensures
        label@ == if index < weekdays@.len() {
            weekdays@[index as int]@
        } else {
            "?"@
        },
{
    if index < weekdays.len() {
        weekdays[index].clone()
    } else {
        owned("?")
    }
}

/// A whole number in decimal, with a minus sign when negative.
pub open spec fn signed_decimal(n: int) -> Seq<char> {
    if n < 0 {
        "-"@ + decimal((-n) as nat)
    } else {
        decimal(n as nat)
    }
}

/// A whole number in decimal.
fn signed_decimal_string(n: i32) -> (s: String)
    ensures
        s@ == signed_decimal(n as int),
{
    if n < 0 {
        let magnitude: i64 = -(n as i64);
        let digits = decimal_string(magnitude as u128);
        str_concat("-", digits.as_str())
    } else {
        decimal_string(n as u128)
    }
}

/// The text on a forecast bar: the day's low and high, rounded, as
/// `low-high°`.
pub fn bar_text(low: i32, high: i32) -> (text: String)
    ensures
        text@ == signed_decimal(low as int) + "-"@ + signed_decimal(high as int) + "\u{B0}"@,
{
    let a = signed_decimal_string(low);
    let b = signed_decimal_string(high);
    let c = concat3(a.as_str(), "-", b.as_str());
    str_concat(c.as_str(), "\u{B0}")
}

} // verus!
