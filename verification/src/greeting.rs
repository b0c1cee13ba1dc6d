//! The Greeting widget: the public-IP and geolocation lookups, their
//! responses, and the lines it shows.
use vstd::prelude::*;
use crate::json::{
    chars_or, get, number_in, response_json, response_json_of, str_in, number_opt, str_opt, Json,
    JsonNumber,
};
use crate::status::LoadingStatus;
use crate::text::{
    chars_eq_str, concat3, opt_view, owned, replace, replaced, str_concat, trim, trimmed,
};

verus! {

/// The services asked for the public IP address, in order.
pub open spec fn ip_providers() -> Seq<Seq<char>> {
    seq!["https://api.ipify.org"@, "https://ifconfig.me/ip"@, "https://icanhazip.com"@]
}

/// The number of public-IP services.
pub const IP_PROVIDER_COUNT: usize = 3;

/// The public-IP service at `index`.
pub fn ip_provider(index: usize) -> (url: &'static str)
    requires
        index < IP_PROVIDER_COUNT,
    ensures
        url@ == ip_providers()[index as int],
{
    match index {
        0 => "https://api.ipify.org",
        1 => "https://ifconfig.me/ip",
        _ => "https://icanhazip.com",
    }
}

/// The address a public-IP service answered: its trimmed body, unless that
/// is empty (then the next service is asked).
pub fn public_ip_from(body: &str) -> (ip: Option<String>)
    ensures
        trimmed(body@).len() == 0 ==> ip is None,
        trimmed(body@).len() > 0 ==> (ip matches Some(a) && a@ == trimmed(body@)),
{
    let t = trim(body);
    if t.as_str().is_empty() {
        None
    } else {
        Some(t)
    }
}

/// The message when no public-IP service answered.
pub open spec fn no_ip_message() -> Seq<char> {
    "all public-IP providers failed"@
}

/// The message when no public-IP service answered.
pub fn no_ip_error() -> (m: String)
    ensures
        m@ == no_ip_message(),
{
    owned("all public-IP providers failed")
}

/// The next step of the public-IP lookup.
#[derive(Clone, Debug)]
pub enum IpLookupStep {
    /// Ask the service at this index.
    Ask(usize),
    /// The address was found.
    Found(String),
    /// Every service failed; the lookup fails with this message.
    Failed(String),
}

/// After the service at `index` answered `body` (`None` when the request
/// itself failed): the address when the body holds one, else the next
/// service, else failure once the last one has been asked.
pub fn ip_lookup_step(index: usize, body: Option<&str>) -> (step: IpLookupStep)
    requires
        index < IP_PROVIDER_COUNT,
    ensures
        match body {
            Some(b) if trimmed(b@).len() > 0 => step matches IpLookupStep::Found(ip) && ip@ == trimmed(b@),
            _ => if index + 1 < IP_PROVIDER_COUNT {
                step matches IpLookupStep::Ask(next) && next == index + 1
            } else {
                step matches IpLookupStep::Failed(m) && m@ == no_ip_message()
            },
        },
{
    match body {
        Some(b) => match public_ip_from(b) {
            Some(ip) => return IpLookupStep::Found(ip),
            None => {},
        },
        None => {},
    }
    if index + 1 < IP_PROVIDER_COUNT {
        IpLookupStep::Ask(index + 1)
    } else {
        IpLookupStep::Failed(no_ip_error())
    }
}

/// The geolocation request template; `{ip}` stands for the address.
pub open spec fn geo_template() -> Seq<char> {
    "http://ip-api.com/json/{ip}?fields=status,message,city,country,lat,lon,timezone"@
}

/// The geolocation request for `ip`.
pub fn geo_url(ip: &str) -> (url: String)
    ensures
        url@ == replaced(geo_template(), "{ip}"@, ip@),
{
    proof {
        reveal_strlit("{ip}");
    }
    replace(
        "http://ip-api.com/json/{ip}?fields=status,message,city,country,lat,lon,timezone",
        "{ip}",
        ip,
    )
}

/// Where the dashboard is. Coordinates keep the number the service sent
/// (zero when it sent none).
#[derive(Clone, Debug)]
pub struct LocationState {
    pub city: String,
    pub country: String,
    pub latitude: JsonNumber,
    pub longitude: JsonNumber,
    pub timezone: String,
}

impl Default for LocationState {
    fn default() -> (l: LocationState)
        ensures
            l@ == LocationState::default_view(),
    {
        let l = LocationState {
            city: String::new(),
            country: String::new(),
            latitude: JsonNumber::PosInt(0),
            longitude: JsonNumber::PosInt(0),
            timezone: String::new(),
        };
        assert(l@ =~= LocationState::default_view());
        l
    }
}

/// The chars of a location.
pub struct LocationView {
    pub city: Seq<char>,
    pub country: Seq<char>,
    pub latitude: JsonNumber,
    pub longitude: JsonNumber,
    pub timezone: Seq<char>,
}

impl View for LocationState {
    type V = LocationView;

    open spec fn view(&self) -> LocationView {
        LocationView {
            city: self.city@,
            country: self.country@,
            latitude: self.latitude,
            longitude: self.longitude,
            timezone: self.timezone@,
        }
    }
}

/// A coordinate: the number sent, or zero.
pub open spec fn coordinate(o: Option<JsonNumber>) -> JsonNumber {
    match o {
        Some(n) => n,
        None => JsonNumber::PosInt(0),
    }
}

/// What a geolocation response says: the location when its `status` is
/// `success` (missing fields empty or zero), and otherwise an error that
/// carries the service's `message`.
pub open spec fn location_of(json: Json) -> Result<LocationView, Seq<char>> {
    if chars_or(str_in(get(json, "status"@)), seq![]) == "success"@ {
        Ok(
            LocationView {
                city: chars_or(str_in(get(json, "city"@)), seq![]),
                country: chars_or(str_in(get(json, "country"@)), seq![]),
                latitude: coordinate(number_in(get(json, "lat"@))),
                longitude: coordinate(number_in(get(json, "lon"@))),
                timezone: chars_or(str_in(get(json, "timezone"@)), seq![]),
            },
        )
    } else {
        Err(
            "ip-api lookup failed: "@ + chars_or(str_in(get(json, "message"@)), "unknown error"@),
        )
    }
}

/// A string member of `json`, or the empty string.
fn string_member(json: &Json, key: &str) -> (s: String)
    ensures
        s@ == chars_or(str_in(get(*json, key@)), seq![]),
{
    match str_opt(json.get(key)) {
        Some(s) => s.clone(),
        None => String::new(),
    }
}

/// What a geolocation response says.
pub fn parse_location(json: &Json) -> (r: Result<LocationState, String>)
    ensures
        match r {
            Ok(l) => location_of(*json) == Ok::<LocationView, Seq<char>>(l@),
            Err(e) => location_of(*json) == Err::<LocationView, Seq<char>>(e@),
        },
{
    let status = string_member(json, "status");
    if !chars_eq_str(&crate::text::chars_of(status.as_str()), "success") {
        let message = match str_opt(json.get("message")) {
            Some(m) => m.clone(),
            None => owned("unknown error"),
        };
        return Err(str_concat("ip-api lookup failed: ", message.as_str()));
    }
    let latitude = match number_opt(json.get("lat")) {
        Some(n) => n,
        None => JsonNumber::PosInt(0),
    };
    let longitude = match number_opt(json.get("lon")) {
        Some(n) => n,
        None => JsonNumber::PosInt(0),
    };
    Ok(
        LocationState {
            city: string_member(json, "city"),
            country: string_member(json, "country"),
            latitude,
            longitude,
            timezone: string_member(json, "timezone"),
        },
    )
}

/// The Greeting widget's state, which the Weather widget reads too.
#[derive(Clone, Debug)]
pub struct GreetingState {
    pub location: LocationState,
    pub loading_status: LoadingStatus,
}

impl GreetingState {
    /// No location yet.
    pub fn new() -> (s: GreetingState)
        ensures
            s.loading_status is NotStarted,
            s.location@ == LocationState::default_view(),
    {
        GreetingState { location: LocationState::default(), loading_status: LoadingStatus::NotStarted }
    }

    /// Takes a geolocation outcome: the location, or the message of what went
    /// wrong.
    pub fn finish(&mut self, outcome: Result<LocationState, String>)
        ensures
            match outcome {
                Ok(l) => final(self).location == l && final(self).loading_status is Loaded,
                Err(m) => final(self).location == old(self).location && final(self).loading_status
                    == LoadingStatus::Error(m),
            },
    {
        match outcome {
            Ok(l) => {
                self.location = l;
                self.loading_status = LoadingStatus::Loaded;
            },
            Err(m) => {
                self.loading_status = LoadingStatus::Error(m);
            },
        }
    }

    /// The location line: loading, the city and country, or the error.
    pub fn location_display(&self) -> (s: String)
        ensures
            s@ == match self.loading_status {
                LoadingStatus::Loaded => "\u{1F310} "@ + self.location.city@ + ", "@
                    + self.location.country@,
                LoadingStatus::Error(e) => "Location error: "@ + e@,
                _ => "\u{1F310} Location is loading..."@,
            },
    {
        match &self.loading_status {
            LoadingStatus::Loaded => {
                let a = concat3("\u{1F310} ", self.location.city.as_str(), ", ");
                str_concat(a.as_str(), self.location.country.as_str())
            },
            LoadingStatus::Error(e) => str_concat("Location error: ", e.as_str()),
            _ => owned("\u{1F310} Location is loading..."),
        }
    }
}

/// What the body of the geolocation response for `ip` says: the location,
/// or what went wrong; a body that is not JSON counts as a failed fetch.
pub open spec fn location_body(ip: Seq<char>, body: Seq<char>) -> Result<LocationView, Seq<char>> {
    match response_json_of(body, replaced(geo_template(), "{ip}"@, ip)) {
        Ok(j) => location_of(j),
        Err(m) => Err("failed to fetch IP location: "@ + m),
    }
}

impl GreetingState {
    /// Takes the body of the geolocation response for `ip`.
    pub fn finish_location_body(&mut self, ip: &str, body: &str)
        ensures
            match location_body(ip@, body@) {
                Ok(l) => final(self).location@ == l && final(self).loading_status is Loaded,
                Err(m) => final(self).location == old(self).location
                    && (final(self).loading_status matches LoadingStatus::Error(e) && e@ == m),
            },
    {
        let url = geo_url(ip);
        let outcome = match response_json(body, url.as_str()) {
            Ok(j) => parse_location(&j),
            Err(m) => Err(str_concat("failed to fetch IP location: ", m.as_str())),
        };
        self.finish(outcome);
    }
}

impl LocationState {
    /// The chars of the empty location.
    pub open spec fn default_view() -> LocationView {
        LocationView {
            city: seq![],
            country: seq![],
            latitude: JsonNumber::PosInt(0),
            longitude: JsonNumber::PosInt(0),
            timezone: seq![],
        }
    }
}

/// `s` in upper case, as `str::to_uppercase` gives it (full Unicode case
/// mapping).
pub uninterp spec fn upper_cased(s: Seq<char>) -> Seq<char>;

/// Calls `str::to_uppercase`.
///
/// Trusted: the result is `upper_cased(s)`; the Unicode case mapping is not
/// restated.
#[verifier::external_body]
pub(crate) fn to_upper_case(s: &str) -> (r: String)
    ensures
        r@ == upper_cased(s@),
{
    s.to_uppercase()
}

/// The greeting line: a wave and the user's name in upper case (`User` when
/// the name is unknown).
pub fn greeting_message(username: Option<String>) -> (s: String)
    ensures
        s@ == "\u{1F44B} "@ + upper_cased(
            match opt_view(username) {
                Some(u) => u,
                None => "User"@,
            },
        ),
{
    let name = match username {
        Some(u) => u,
        None => owned("User"),
    };
    let upper = to_upper_case(name.as_str());
    str_concat("\u{1F44B} ", upper.as_str())
}

} // verus!
