//! The Inspiration widget: the daily quote response, its refresh lifecycle
//! and what the panel shows.
use vstd::prelude::*;
use crate::json::{array_of, get, response_json, response_json_of, str_in, str_opt, Json};
use crate::panel::{accent, error, hint, loading, Color, StatusPanel, StatusPanelView};
use crate::status::{fetch_due, LoadingStatus};
use crate::text::{owned, str_concat};

verus! {

/// Minutes before retrying after an error; a loaded quote is kept.
pub const RETRY_INSPIRATION_ON_ERROR_IN_MINS: i64 = 1;

/// What a quote response says: the text and author of its first element,
/// or what is wrong with it.
pub open spec fn quote_of(json: Json) -> Result<(Seq<char>, Seq<char>), Seq<char>> {
    match array_of(json) {
        Some(items) => if items.len() == 0 {
            Err("unexpected quote response format"@)
        } else {
            match str_in(get(items[0], "q"@)) {
                None => Err("missing quote text"@),
                Some(text) => match str_in(get(items[0], "a"@)) {
                    None => Err("missing quote author"@),
                    Some(author) => if text.len() == 0 {
                        Err("empty quote text"@)
                    } else {
                        Ok((text, author))
                    },
                },
            }
        },
        None => Err("unexpected quote response format"@),
    }
}

/// What a quote response says.
pub fn parse_quote(json: &Json) -> (r: Result<(String, String), String>)
    ensures
        match r {
            Ok((text, author)) => quote_of(*json) == Ok::<(Seq<char>, Seq<char>), Seq<char>>(
                (text@, author@),
            ),
            Err(e) => quote_of(*json) == Err::<(Seq<char>, Seq<char>), Seq<char>>(e@),
        },
{
    let items = match json.as_array() {
        Some(items) => items,
        None => return Err(owned("unexpected quote response format")),
    };
    if items.len() == 0 {
        return Err(owned("unexpected quote response format"));
    }
    let entry = &items[0];
    let text = match str_opt(entry.get("q")) {
        Some(t) => t,
        None => return Err(owned("missing quote text")),
    };
    let author = match str_opt(entry.get("a")) {
        Some(a) => a,
        None => return Err(owned("missing quote author")),
    };
    if text.as_str().is_empty() {
        return Err(owned("empty quote text"));
    }
    Ok((text.clone(), author.clone()))
}

/// The Inspiration widget's state.
#[derive(Debug)]
pub struct InspirationState {
    pub loading_status: LoadingStatus,
    pub quote_text: String,
    pub quote_author: String,
    pub last_updated_at: Option<i64>,
}

impl InspirationState {
    /// No quote yet.
    pub fn new() -> (s: InspirationState)
        ensures
            s.loading_status is NotStarted,
            s.quote_text@ == Seq::<char>::empty(),
            s.quote_author@ == Seq::<char>::empty(),
            s.last_updated_at is None,
    {
        InspirationState {
            loading_status: LoadingStatus::NotStarted,
            quote_text: String::new(),
            quote_author: String::new(),
            last_updated_at: None,
        }
    }

    /// On each tick: starts a fetch when one is due (first time, and
    /// `RETRY_INSPIRATION_ON_ERROR_IN_MINS` after an error; never again once
    /// loaded) and tells whether it did.
    pub fn begin_fetch_if_due(&mut self, now: i64) -> (started: bool)
        ensures
            started == fetch_due(
                old(self).loading_status,
                now,
                old(self).last_updated_at,
                None,
                RETRY_INSPIRATION_ON_ERROR_IN_MINS,
            ),
            started ==> final(self).loading_status is Loading,
            !started ==> final(self).loading_status == old(self).loading_status,
            final(self).quote_text == old(self).quote_text,
            final(self).quote_author == old(self).quote_author,
            final(self).last_updated_at == old(self).last_updated_at,
    {
        self.loading_status.begin_fetch_if_due(
            now,
            self.last_updated_at,
            None,
            RETRY_INSPIRATION_ON_ERROR_IN_MINS,
        )
    }

    /// Takes the outcome of the fetch finished at `now`: the quote's text and
    /// author, or the message of what went wrong.
    pub fn finish_fetch(&mut self, outcome: Result<(String, String), String>, now: i64)
        ensures
            final(self).last_updated_at == Some(now),
            match outcome {
                Ok((text, author)) => final(self).quote_text == text && final(self).quote_author
                    == author && final(self).loading_status is Loaded,
                Err(m) => final(self).loading_status == LoadingStatus::Error(m)
                    && final(self).quote_text == old(self).quote_text && final(self).quote_author
                    == old(self).quote_author,
            },
    {
        match outcome {
            Ok((text, author)) => {
                self.quote_text = text;
                self.quote_author = author;
                self.loading_status = LoadingStatus::Loaded;
            },
            Err(m) => {
                self.loading_status = LoadingStatus::Error(m);
            },
        }
        self.last_updated_at = Some(now);
    }
}

/// The quote of the day.
pub open spec fn quote_url_of() -> Seq<char> {
    "https://zenquotes.io/api/today"@
}

/// The quote of the day.
pub fn quote_url() -> (url: &'static str)
    ensures
        url@ == quote_url_of(),
{
    "https://zenquotes.io/api/today"
}

/// What a quote response body says: the quote, or what is wrong with it; a
/// body that is not JSON counts as a failed fetch.
pub open spec fn quote_body(body: Seq<char>) -> Result<(Seq<char>, Seq<char>), Seq<char>> {
    match response_json_of(body, quote_url_of()) {
        Ok(j) => quote_of(j),
        Err(m) => Err("failed to fetch quote: "@ + m),
    }
}

impl InspirationState {
    /// Takes the body of the quote response received at `now`.
    pub fn apply_body(&mut self, body: &str, now: i64)
        ensures
            final(self).last_updated_at == Some(now),
            match quote_body(body@) {
                Ok((text, author)) => final(self).quote_text@ == text && final(self).quote_author@
                    == author && final(self).loading_status is Loaded,
                Err(m) => final(self).loading_status matches LoadingStatus::Error(e) && e@ == m
                    && final(self).quote_text == old(self).quote_text && final(self).quote_author
                    == old(self).quote_author,
            },
    {
        let outcome = match response_json(body, quote_url()) {
            Ok(j) => parse_quote(&j),
            Err(m) => Err(str_concat("failed to fetch quote: ", m.as_str())),
        };
        self.finish_fetch(outcome, now);
    }
}

/// What the Inspiration panel shows.
#[derive(Clone, Debug)]
pub enum QuotePanel {
    Status(StatusPanel),
    Quote { title: String, text: String, author: String },
}

/// The panel's title.
pub open spec fn quote_title() -> Seq<char> {
    "\u{2728} Daily Inspiration"@
}

/// The status panel shown instead of the quote, for every state but loaded.
pub open spec fn quote_status(status: LoadingStatus) -> Option<StatusPanelView> {
    match status {
        LoadingStatus::NotStarted => Some(
            StatusPanelView {
                title: quote_title(),
                border: accent(),
                message: "Fetching today's quote..."@,
                message_color: hint(),
            },
        ),
        LoadingStatus::Loading => Some(
            StatusPanelView {
                title: "\u{2728} Daily Inspiration \u{2014} Loading..."@,
                border: loading(),
                message: "Fetching today's quote..."@,
                message_color: hint(),
            },
        ),
        LoadingStatus::Error(e) => Some(
            StatusPanelView {
                title: "\u{2728} Daily Inspiration \u{2014} Error: "@ + e@,
                border: error(),
                message: "Couldn't load today's quote: "@ + e@,
                message_color: Color::LightRed,
            },
        ),
        LoadingStatus::Loaded => None,
    }
}

impl InspirationState {
    /// What the Inspiration panel shows.
    pub fn panel(&self) -> (p: QuotePanel)
        ensures
            match quote_status(self.loading_status) {
                Some(v) => p matches QuotePanel::Status(s) && s@ == v,
                None => p matches QuotePanel::Quote { title, text, author } && title@ == quote_title()
                    && text@ == self.quote_text@ && author@ == self.quote_author@,
            },
    {
        match &self.loading_status {
            LoadingStatus::NotStarted => QuotePanel::Status(
                StatusPanel::new(
                    owned("\u{2728} Daily Inspiration"),
                    Color::Cyan,
                    owned("Fetching today's quote..."),
                    Color::DarkGray,
                ),
            ),
            LoadingStatus::Loading => QuotePanel::Status(
                StatusPanel::new(
                    owned("\u{2728} Daily Inspiration \u{2014} Loading..."),
                    Color::Yellow,
                    owned("Fetching today's quote..."),
                    Color::DarkGray,
                ),
            ),
            LoadingStatus::Error(e) => {
                QuotePanel::Status(
                    StatusPanel::new(
                        str_concat("\u{2728} Daily Inspiration \u{2014} Error: ", e.as_str()),
                        Color::Red,
                        str_concat("Couldn't load today's quote: ", e.as_str()),
                        Color::LightRed,
                    ),
                )
            },
            LoadingStatus::Loaded => QuotePanel::Quote {
                title: owned("\u{2728} Daily Inspiration"),
                text: self.quote_text.clone(),
                author: self.quote_author.clone(),
            },
        }
    }
}

} // verus!
