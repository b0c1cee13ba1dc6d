//! The News widget: the feed response, the refresh lifecycle, the selection
//! and what the table shows.
use vstd::prelude::*;
use crate::input::{move_selection, moved_selection};
use crate::json::{array_in, get, response_json, response_json_of, str_in, array_opt, str_opt, Json};
use crate::panel::{accent, error, Color};
use crate::seqs::{at_most, filter_map, lemma_filter_map_take};
use crate::status::{fetch_due, LoadingStatus};
use crate::text::{concat3, decimal, decimal_string, owned, str_concat, trim_char, trimmed_of, opt_view};

verus! {

/// At most this many articles are read from each category.
pub const MAX_NUMBER_OF_ARTICLES_FROM_EACH_CATEGORY: usize = 30;

/// At most this many articles are kept in all.
pub const MAX_NUMBER_OF_ARTICLES: usize = 200;

/// Minutes between refreshes once loaded.
pub const FETCH_INTERVAL_MINS: i64 = 30;

/// Minutes before retrying after an error.
pub const RETRY_NEWS_ON_ERROR_IN_MINS: i64 = 1;

/// The feed's categories, in the order the table lists them.
pub open spec fn news_categories() -> Seq<Seq<char>> {
    seq!["Business"@, "Technology"@, "Sports"@, "Politics"@, "Health"@, "Entertainment"@]
}

/// The name of the category at `index` in the table's order.
pub fn news_category(index: usize) -> (name: &'static str)
    requires
        index < 6,
    ensures
        name@ == news_categories()[index as int],
{
    match index {
        0 => "Business",
        1 => "Technology",
        2 => "Sports",
        3 => "Politics",
        4 => "Health",
        _ => "Entertainment",
    }
}

/// One headline.
#[derive(Clone, Debug)]
pub struct NewsArticle {
    pub title: String,
    pub link: String,
    pub source: String,
    pub category: String,
}

/// The chars of a headline.
pub struct NewsArticleView {
    pub title: Seq<char>,
    pub link: Seq<char>,
    pub source: Seq<char>,
    pub category: Seq<char>,
}

impl View for NewsArticle {
    type V = NewsArticleView;

    open spec fn view(&self) -> NewsArticleView {
        NewsArticleView {
            title: self.title@,
            link: self.link@,
            source: self.source@,
            category: self.category@,
        }
    }
}

/// The views of a sequence of articles.
pub open spec fn article_views(v: Seq<NewsArticle>) -> Seq<NewsArticleView> {
    v.map_values(|a: NewsArticle| a@)
}

/// The headline that one feed entry of `category` describes: it needs string
/// `title`, `link` and `source` members, each stripped of surrounding quotes.
pub open spec fn article_of(item: Json, category: Seq<char>) -> Option<NewsArticleView> {
    match (str_in(get(item, "title"@)), str_in(get(item, "link"@)), str_in(get(item, "source"@))) {
        (Some(title), Some(link), Some(source)) => Some(
            NewsArticleView {
                title: trimmed_of(title, '"'),
                link: trimmed_of(link, '"'),
                source: trimmed_of(source, '"'),
                category,
            },
        ),
        _ => None,
    }
}

/// The headlines of one category: among its first entries, those that are
/// well formed.
pub open spec fn category_articles(json: Json, category: Seq<char>) -> Seq<NewsArticleView> {
    match array_in(get(json, category)) {
        Some(items) => filter_map(
            at_most(items, MAX_NUMBER_OF_ARTICLES_FROM_EACH_CATEGORY as nat),
            |j: Json| article_of(j, category),
        ),
        None => seq![],
    }
}

/// The headlines of `categories`, one category after the other.
pub open spec fn articles_in(json: Json, categories: Seq<Seq<char>>) -> Seq<NewsArticleView>
    decreases categories.len(),
{
    if categories.len() == 0 {
        seq![]
    } else {
        articles_in(json, categories.drop_last()) + category_articles(json, categories.last())
    }
}

/// The headlines of a feed response, in category order, at most
/// `MAX_NUMBER_OF_ARTICLES` of them.
pub open spec fn feed_articles(json: Json) -> Seq<NewsArticleView> {
    at_most(articles_in(json, news_categories()), MAX_NUMBER_OF_ARTICLES as nat)
}

/// The headline that one feed entry of `category` describes.
pub fn parse_article(item: &Json, category: &str) -> (a: Option<NewsArticle>)
    ensures
        match a {
            Some(x) => article_of(*item, category@) == Some(x@),
            None => article_of(*item, category@) is None,
        },
{
    let title = match str_opt(item.get("title")) {
        Some(t) => t,
        None => return None,
    };
    let link = match str_opt(item.get("link")) {
        Some(l) => l,
        None => return None,
    };
    let source = match str_opt(item.get("source")) {
        Some(s) => s,
        None => return None,
    };
    Some(
        NewsArticle {
            title: trim_char(title.as_str(), '"'),
            link: trim_char(link.as_str(), '"'),
            source: trim_char(source.as_str(), '"'),
            category: owned(category),
        },
    )
}

/// The headlines of a feed are those of its six sections, one section
/// after the other.
proof fn lemma_feed_by_sections(json: Json)
    ensures
        articles_in(json, news_categories()) == category_articles(json, news_categories()[0])
            + category_articles(json, news_categories()[1]) + category_articles(
            json,
            news_categories()[2],
        ) + category_articles(json, news_categories()[3]) + category_articles(
            json,
            news_categories()[4],
        ) + category_articles(json, news_categories()[5]),
{
    let c = news_categories();
    reveal_with_fuel(articles_in, 7);
    assert(c.take(1).drop_last() =~= c.take(0));
    assert(c.take(2).drop_last() =~= c.take(1));
    assert(c.take(3).drop_last() =~= c.take(2));
    assert(c.take(4).drop_last() =~= c.take(3));
    assert(c.take(5).drop_last() =~= c.take(4));
    assert(c.take(6).drop_last() =~= c.take(5));
    assert(c.take(6) =~= c);
    assert(articles_in(json, c.take(0)) == Seq::<NewsArticleView>::empty());
    assert(articles_in(json, c.take(1)) == articles_in(json, c.take(0)) + category_articles(json, c[0]));
    assert(articles_in(json, c.take(2)) == articles_in(json, c.take(1)) + category_articles(json, c[1]));
    assert(articles_in(json, c.take(3)) == articles_in(json, c.take(2)) + category_articles(json, c[2]));
    assert(articles_in(json, c.take(4)) == articles_in(json, c.take(3)) + category_articles(json, c[3]));
    assert(articles_in(json, c.take(5)) == articles_in(json, c.take(4)) + category_articles(json, c[4]));
    assert(articles_in(json, c.take(6)) == articles_in(json, c.take(5)) + category_articles(json, c[5]));
    assert(Seq::<NewsArticleView>::empty() + category_articles(json, c[0]) =~= category_articles(json, c[0]));
}

/// The headlines of one section that holds the single entry `item`, or no
/// entries at all.
proof fn lemma_section_articles(json: Json, name: Seq<char>, item: Option<Json>)
    requires
        match item {
            Some(x) => array_in(get(json, name)) == Some(seq![x]),
            None => get(json, name) is None,
        },
    ensures
        category_articles(json, name) == match item {
            Some(x) => match article_of(x, name) {
                Some(a) => seq![a],
                None => seq![],
            },
            None => seq![],
        },
{
    match item {
        Some(x) => {
            let items = seq![x];
            assert(at_most(items, MAX_NUMBER_OF_ARTICLES_FROM_EACH_CATEGORY as nat) == items);
            assert(items.drop_last() =~= Seq::<Json>::empty());
            assert(items.last() == x);
            let f = |j: Json| article_of(j, name);
            assert(filter_map(items.drop_last(), f) == Seq::<NewsArticleView>::empty());
            assert(filter_map(items, f) == match f(x) {
                Some(a) => Seq::<NewsArticleView>::empty().push(a),
                None => Seq::<NewsArticleView>::empty(),
            });
            assert(Seq::<NewsArticleView>::empty().push(article_of(x, name).unwrap()) =~= seq![article_of(x, name).unwrap()]);
        },
        None => {},
    }
}

/// The feed reads the sections Business, Technology, Sports, Politics,
/// Health and Entertainment, in that order: when the feed has entries only
/// in the sections at `i` and then `j` of that list, one each, and both are
/// well formed, the headlines are exactly those two, the first one first,
/// each tagged with its section's name.
pub proof fn lemma_feed_reads_each_section_in_order(
    json: Json,
    i: int,
    j: int,
    first: Json,
    second: Json,
)
    requires
        0 <= i < j < 6,
        array_in(get(json, seq!["Business"@, "Technology"@, "Sports"@, "Politics"@, "Health"@, "Entertainment"@][i])) == Some(seq![first]),
        array_in(get(json, seq!["Business"@, "Technology"@, "Sports"@, "Politics"@, "Health"@, "Entertainment"@][j])) == Some(seq![second]),
        i != 0 && j != 0 ==> get(json, "Business"@) is None,
        i != 1 && j != 1 ==> get(json, "Technology"@) is None,
        i != 2 && j != 2 ==> get(json, "Sports"@) is None,
        i != 3 && j != 3 ==> get(json, "Politics"@) is None,
        i != 4 && j != 4 ==> get(json, "Health"@) is None,
        i != 5 && j != 5 ==> get(json, "Entertainment"@) is None,
        article_of(first, seq!["Business"@, "Technology"@, "Sports"@, "Politics"@, "Health"@, "Entertainment"@][i]) is Some,
        article_of(second, seq!["Business"@, "Technology"@, "Sports"@, "Politics"@, "Health"@, "Entertainment"@][j]) is Some,
    ensures
        feed_articles(json) == seq![
            article_of(first, seq!["Business"@, "Technology"@, "Sports"@, "Politics"@, "Health"@, "Entertainment"@][i]).unwrap(),
            article_of(second, seq!["Business"@, "Technology"@, "Sports"@, "Politics"@, "Health"@, "Entertainment"@][j]).unwrap(),
        ],
{
    let c = news_categories();
    let s: Seq<Seq<char>> = seq!["Business"@, "Technology"@, "Sports"@, "Politics"@, "Health"@, "Entertainment"@];
    assert(c =~= s);
    lemma_feed_by_sections(json);
    let a = article_of(first, s[i]).unwrap();
    let b = article_of(second, s[j]).unwrap();
    let part = |k: int| if k == i { seq![a] } else if k == j { seq![b] } else { Seq::<NewsArticleView>::empty() };
    assert forall|k: int| 0 <= k < 6 implies category_articles(json, #[trigger] s[k]) == part(k) by {
        if k == i {
            lemma_section_articles(json, s[k], Some(first));
        } else if k == j {
            lemma_section_articles(json, s[k], Some(second));
        } else {
            lemma_section_articles(json, s[k], None);
        }
    }
    let total = part(0) + part(1) + part(2) + part(3) + part(4) + part(5);
    assert(articles_in(json, c) == total) by {
        assert(category_articles(json, s[0]) == part(0));
        assert(category_articles(json, s[1]) == part(1));
        assert(category_articles(json, s[2]) == part(2));
        assert(category_articles(json, s[3]) == part(3));
        assert(category_articles(json, s[4]) == part(4));
        assert(category_articles(json, s[5]) == part(5));
    }
    assert(total =~= seq![a, b]);
}

/// The headlines of a feed response.
pub fn parse_articles(json: &Json) -> (articles: Vec<NewsArticle>)
    ensures
        article_views(articles@) == feed_articles(*json),
        articles@.len() <= MAX_NUMBER_OF_ARTICLES,
{
    let mut articles: Vec<NewsArticle> = Vec::new();
    let mut k: usize = 0;
    assert(news_categories().take(0) =~= seq![]);
    assert(article_views(articles@) =~= seq![]);
    while k < 6
        invariant
            k <= 6,
            article_views(articles@) == articles_in(*json, news_categories().take(k as int)),
        decreases 6 - k,
    {
        let category = news_category(k);
        let ghost before = article_views(articles@);
        proof {
            assert(news_categories().take(k + 1).drop_last() =~= news_categories().take(k as int));
        }
        match array_opt(json.get(category)) {
            Some(items) => {
                let limit = if items.len() < MAX_NUMBER_OF_ARTICLES_FROM_EACH_CATEGORY {
                    items.len()
                } else {
                    MAX_NUMBER_OF_ARTICLES_FROM_EACH_CATEGORY
                };
                let ghost window = at_most(items@, MAX_NUMBER_OF_ARTICLES_FROM_EACH_CATEGORY as nat);
                let ghost f = |j: Json| article_of(j, category@);
                assert(window.len() == limit);
                let mut j: usize = 0;
                assert(window.take(0) =~= seq![]);
                assert(before + filter_map(window.take(0), f) =~= before);
                while j < limit
                    invariant
                        j <= limit,
                        limit <= items@.len(),
                        window == at_most(items@, MAX_NUMBER_OF_ARTICLES_FROM_EACH_CATEGORY as nat),
                        window.len() == limit,
                        f == (|j: Json| article_of(j, category@)),
                        article_views(articles@) == before + filter_map(window.take(j as int), f),
                    decreases limit - j,
                {
                    proof {
                        lemma_filter_map_take(window, f, j as int);
                        assert(window[j as int] == items@[j as int]);
                    }
                    match parse_article(&items[j], category) {
                        Some(a) => {
                            proof {
                                assert(article_views(articles@.push(a)) =~= article_views(
                                    articles@,
                                ).push(a@));
                            }
                            articles.push(a);
                        },
                        None => {},
                    }
                    j = j + 1;
                }
                assert(window.take(limit as int) =~= window);
            },
            None => {
                assert(before + seq![] =~= before);
            },
        }
        k = k + 1;
    }
    assert(news_categories().take(6) =~= news_categories());
    if articles.len() > MAX_NUMBER_OF_ARTICLES {
        articles.truncate(MAX_NUMBER_OF_ARTICLES);
        assert(article_views(articles@) =~= articles_in(*json, news_categories()).take(
            MAX_NUMBER_OF_ARTICLES as int,
        ));
    }
    articles
}

/// The News widget's state.
#[derive(Debug)]
pub struct NewsState {
    pub loading_status: LoadingStatus,
    pub news_articles: Vec<NewsArticle>,
    pub last_updated_at: Option<i64>,
    pub selected: Option<usize>,
}

/// The error shown when a feed response holds no headline.
pub open spec fn no_articles_message() -> Seq<char> {
    "no articles found in response"@
}

impl NewsState {
    /// Nothing fetched yet; the first row is selected.
    pub fn new() -> (s: NewsState)
        ensures
            s.loading_status is NotStarted,
            s.news_articles@.len() == 0,
            s.last_updated_at is None,
            s.selected == Some(0usize),
    {
        NewsState {
            loading_status: LoadingStatus::NotStarted,
            news_articles: Vec::new(),
            last_updated_at: None,
            selected: Some(0),
        }
    }

    /// On each tick: starts a fetch when one is due (first time, every
    /// `FETCH_INTERVAL_MINS` once loaded, `RETRY_NEWS_ON_ERROR_IN_MINS`
    /// after an error) and tells whether it did.
    pub fn begin_fetch_if_due(&mut self, now: i64) -> (started: bool)
        ensures
            started == fetch_due(
                old(self).loading_status,
                now,
                old(self).last_updated_at,
                Some(FETCH_INTERVAL_MINS),
                RETRY_NEWS_ON_ERROR_IN_MINS,
            ),
            started ==> final(self).loading_status is Loading,
            !started ==> final(self).loading_status == old(self).loading_status,
            final(self).news_articles == old(self).news_articles,
            final(self).last_updated_at == old(self).last_updated_at,
            final(self).selected == old(self).selected,
    {
        self.loading_status.begin_fetch_if_due(
            now,
            self.last_updated_at,
            Some(FETCH_INTERVAL_MINS),
            RETRY_NEWS_ON_ERROR_IN_MINS,
        )
    }

    /// Records that the fetch failed at `now` with `message`.
    pub fn fail_fetch(&mut self, message: String, now: i64)
        ensures
            final(self).loading_status == LoadingStatus::Error(message),
            final(self).last_updated_at == Some(now),
            final(self).news_articles == old(self).news_articles,
            final(self).selected == old(self).selected,
    {
        self.loading_status = LoadingStatus::Error(message);
        self.last_updated_at = Some(now);
    }

    /// Takes the headlines fetched at `now`; none at all is an error.
    pub fn finish_fetch(&mut self, articles: Vec<NewsArticle>, now: i64)
        ensures
            final(self).last_updated_at == Some(now),
            final(self).selected == old(self).selected,
            articles@.len() == 0 ==> (final(self).loading_status matches LoadingStatus::Error(e)
                && e@ == no_articles_message()),
            articles@.len() == 0 ==> final(self).news_articles == old(self).news_articles,
            articles@.len() > 0 ==> final(self).loading_status is Loaded && final(self).news_articles
                == articles,
    {
        if articles.len() == 0 {
            self.loading_status = LoadingStatus::Error(owned("no articles found in response"));
        } else {
            self.news_articles = articles;
            self.loading_status = LoadingStatus::Loaded;
        }
        self.last_updated_at = Some(now);
    }

    /// Moves the selection by `delta` rows, within the table.
    pub fn move_selection(&mut self, delta: i32)
        ensures
            final(self).selected == moved_selection(
                old(self).selected,
                old(self).news_articles@.len() as usize,
                delta,
            ),
            final(self).news_articles == old(self).news_articles,
            final(self).loading_status == old(self).loading_status,
            final(self).last_updated_at == old(self).last_updated_at,
    {
        self.selected = move_selection(self.selected, self.news_articles.len(), delta);
    }

    /// The link of the selected headline, which Enter opens, stripped of
    /// surrounding quotes.
    pub fn selected_link(&self) -> (link: Option<String>)
        ensures
            opt_view(link) == match self.selected {
                Some(i) => if i < self.news_articles@.len() {
                    Some(trimmed_of(self.news_articles@[i as int].link@, '"'))
                } else {
                    None
                },
                None => None,
            },
    {
        match self.selected {
            Some(i) => if i < self.news_articles.len() {
                Some(trim_char(self.news_articles[i].link.as_str(), '"'))
            } else {
                None
            },
            None => None,
        }
    }
}

/// The headline feed.
pub open spec fn news_feed_url_of() -> Seq<char> {
    "https://ok.surf/api/v1/cors/news-feed"@
}

/// The headline feed.
pub fn news_feed_url() -> (url: &'static str)
    ensures
        url@ == news_feed_url_of(),
{
    "https://ok.surf/api/v1/cors/news-feed"
}

impl NewsState {
    /// Takes the body of a feed response received at `now`: a body that is
    /// not JSON, or that holds no headline, is an error; otherwise its
    /// headlines are shown.
    pub fn apply_body(&mut self, body: &str, now: i64)
        ensures
            final(self).last_updated_at == Some(now),
            final(self).selected == old(self).selected,
            match response_json_of(body@, news_feed_url_of()) {
                Err(m) => final(self).loading_status matches LoadingStatus::Error(e) && e@ == m
                    && final(self).news_articles == old(self).news_articles,
                Ok(j) => if feed_articles(j).len() == 0 {
                    final(self).loading_status matches LoadingStatus::Error(e) && e@
                        == no_articles_message() && final(self).news_articles
                        == old(self).news_articles
                } else {
                    final(self).loading_status is Loaded && article_views(final(self).news_articles@)
                        == feed_articles(j)
                },
            },
    {
        match response_json(body, news_feed_url()) {
            Ok(j) => {
                let articles = parse_articles(&j);
                self.finish_fetch(articles, now);
            },
            Err(m) => self.fail_fetch(m, now),
        }
    }
}

/// One table row.
#[derive(Clone, Debug)]
pub struct NewsRow {
    pub title: String,
    pub source: String,
    pub category: String,
    pub selected: bool,
}

/// What the News panel shows: a bare frame with a status title, or the table.
#[derive(Clone, Debug)]
pub enum NewsPanel {
    Frame { title: String, border: Color },
    Table { title: String, rows: Vec<NewsRow> },
}

/// The table's title: the number of headlines and the time of the last
/// update (`Unknown` when there is none).
pub open spec fn table_title(count: nat, updated: Option<Seq<char>>) -> Seq<char> {
    "\u{1F4F0} News ("@ + decimal(count) + " articles) \u{B7} Updated: "@ + match updated {
        Some(u) => u,
        None => "Unknown"@,
    }
}

impl NewsState {
    /// What the News panel shows; `updated` is the time of the last update as
    /// it is to be printed.
    pub fn panel(&self, updated: Option<String>) -> (p: NewsPanel)
        ensures
            match self.loading_status {
                LoadingStatus::NotStarted => p matches NewsPanel::Frame { title, border } && title@
                    == "\u{1F4F0} News"@ && border == accent(),
                LoadingStatus::Loading => p matches NewsPanel::Frame { title, border } && title@
                    == "\u{1F4F0} News \u{2014} Loading..."@ && border == accent(),
                LoadingStatus::Error(e) => p matches NewsPanel::Frame { title, border } && title@
                    == "\u{1F4F0} News \u{2014} Error: "@ + e@ && border == error(),
                LoadingStatus::Loaded => p matches NewsPanel::Table { title, rows } && {
                    &&& title@ == table_title(self.news_articles@.len(), opt_view(updated))
                    &&& rows@.len() == self.news_articles@.len()
                    &&& forall|i: int|
                        #![trigger rows@[i]]
                        0 <= i < rows@.len() ==> {
                            &&& rows@[i].title@ == self.news_articles@[i].title@
                            &&& rows@[i].source@ == self.news_articles@[i].source@
                            &&& rows@[i].category@ == self.news_articles@[i].category@
                            &&& rows@[i].selected == (self.selected == Some(i as usize))
                        }
                },
            },
    {
        match &self.loading_status {
            LoadingStatus::NotStarted => NewsPanel::Frame {
                title: owned("\u{1F4F0} News"),
                border: Color::Cyan,
            },
            LoadingStatus::Loading => NewsPanel::Frame {
                title: owned("\u{1F4F0} News \u{2014} Loading..."),
                border: Color::Cyan,
            },
            LoadingStatus::Error(e) => NewsPanel::Frame {
                title: str_concat("\u{1F4F0} News \u{2014} Error: ", e.as_str()),
                border: Color::Red,
            },
            LoadingStatus::Loaded => {
                let when = match updated {
                    Some(u) => u,
                    None => owned("Unknown"),
                };
                let head = concat3(
                    "\u{1F4F0} News (",
                    decimal_string(self.news_articles.len() as u128).as_str(),
                    " articles) \u{B7} Updated: ",
                );
                let title = str_concat(head.as_str(), when.as_str());
                let mut rows: Vec<NewsRow> = Vec::new();
                let mut i: usize = 0;
                while i < self.news_articles.len()
                    invariant
                        i <= self.news_articles@.len(),
                        rows@.len() == i,
                        forall|k: int|
                            #![trigger rows@[k]]
                            0 <= k < i ==> {
                                &&& rows@[k].title@ == self.news_articles@[k].title@
                                &&& rows@[k].source@ == self.news_articles@[k].source@
                                &&& rows@[k].category@ == self.news_articles@[k].category@
                                &&& rows@[k].selected == (self.selected == Some(k as usize))
                            },
                    decreases self.news_articles@.len() - i,
                {
                    let a = &self.news_articles[i];
                    let is_selected = match self.selected {
                        Some(s) => s == i,
                        None => false,
                    };
                    let row = NewsRow {
                        title: a.title.clone(),
                        source: a.source.clone(),
                        category: a.category.clone(),
                        selected: is_selected,
                    };
                    assert(row.title@ == self.news_articles@[i as int].title@);
                    assert(row.source@ == self.news_articles@[i as int].source@);
                    assert(row.category@ == self.news_articles@[i as int].category@);
                    assert(row.selected == (self.selected == Some(i)));
                    rows.push(row);
                    i = i + 1;
                }
                NewsPanel::Table { title, rows }
            },
        }
    }
}

} // verus!
