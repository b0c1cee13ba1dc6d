use daily_dashboard::json::Json;
use daily_dashboard::news::{
    news_category, parse_article, parse_articles, NewsArticle, NewsPanel, NewsState,
    FETCH_INTERVAL_MINS, MAX_NUMBER_OF_ARTICLES, MAX_NUMBER_OF_ARTICLES_FROM_EACH_CATEGORY,
};
use daily_dashboard::panel::Color;
use daily_dashboard::status::LoadingStatus;

fn s(v: &str) -> Json {
    Json::Str(v.to_string())
}

fn obj(members: Vec<(&str, Json)>) -> Json {
    Json::Object(members.into_iter().map(|(k, v)| (k.to_string(), v)).collect())
}

fn item(title: &str) -> Json {
    obj(vec![("title", s(title)), ("link", s("l")), ("source", s("s"))])
}

fn article(title: &str) -> NewsArticle {
    NewsArticle {
        title: title.to_string(),
        link: format!("\"https://example.com/{title}\""),
        source: "src".to_string(),
        category: "Business".to_string(),
    }
}

#[test]
fn parse_articles_preserves_category_order() {
    let json = obj(vec![
        ("Entertainment", Json::Array(vec![item("E1")])),
        ("Business", Json::Array(vec![item("B1")])),
    ]);
    let articles = parse_articles(&json);
    assert_eq!(articles.len(), 2);
    assert_eq!(articles[0].category, "Business");
    assert_eq!(articles[0].title, "B1");
    assert_eq!(articles[1].category, "Entertainment");
}

#[test]
fn parse_articles_skips_entries_missing_required_fields() {
    let json = obj(vec![(
        "Business",
        Json::Array(vec![
            obj(vec![("title", s("Good")), ("link", s("l")), ("source", s("s"))]),
            obj(vec![("title", s("NoLink")), ("source", s("s"))]),
            obj(vec![("link", s("l")), ("source", s("s"))]),
            obj(vec![("title", s("NoSource")), ("link", s("l"))]),
        ]),
    )]);
    let articles = parse_articles(&json);
    assert_eq!(articles.len(), 1);
    assert_eq!(articles[0].title, "Good");
}

#[test]
fn parse_articles_caps_each_category_at_limit() {
    let many: Vec<Json> = (0..40).map(|i| item(&format!("T{i}"))).collect();
    let json = obj(vec![("Business", Json::Array(many))]);
    let articles = parse_articles(&json);
    assert_eq!(articles.len(), MAX_NUMBER_OF_ARTICLES_FROM_EACH_CATEGORY);
    assert_eq!(articles[0].title, "T0");
    assert_eq!(
        articles.last().unwrap().title,
        format!("T{}", MAX_NUMBER_OF_ARTICLES_FROM_EACH_CATEGORY - 1)
    );
}

#[test]
fn parse_articles_ignores_empty_and_unknown_categories() {
    let json = obj(vec![
        ("Business", Json::Array(vec![])),
        ("Weather", Json::Array(vec![item("X")])),
    ]);
    let articles = parse_articles(&json);
    assert!(articles.is_empty());
}

#[test]
fn parse_articles_takes_every_category_in_order() {
    let members: Vec<(&str, Json)> = (0..6)
        .map(|c| {
            let name = news_category(c);
            let items: Vec<Json> = (0..40).map(|i| item(&format!("{name}{i}"))).collect();
            (name, Json::Array(items))
        })
        .collect();
    let articles = parse_articles(&obj(members));
    assert_eq!(articles.len(), 6 * MAX_NUMBER_OF_ARTICLES_FROM_EACH_CATEGORY);
    assert!(articles.len() <= MAX_NUMBER_OF_ARTICLES);
    assert_eq!(articles[0].title, "Business0");
    assert_eq!(articles[30].title, "Technology0");
    assert_eq!(articles[179].title, "Entertainment29");
}

#[test]
fn parse_article_strips_quotes() {
    let a = parse_article(
        &obj(vec![("title", s("\"Q\"")), ("link", s("\"l\"")), ("source", s("s\""))]),
        "Sports",
    )
    .unwrap();
    assert_eq!(a.title, "Q");
    assert_eq!(a.link, "l");
    assert_eq!(a.source, "s");
    assert_eq!(a.category, "Sports");
    assert!(parse_article(&s("x"), "Sports").is_none());
}

#[test]
fn news_fetch_schedule() {
    let mut state = NewsState::new();
    assert!(state.begin_fetch_if_due(0));
    assert!(!state.begin_fetch_if_due(1));
    state.finish_fetch(vec![], 100);
    assert!(matches!(&state.loading_status, LoadingStatus::Error(e) if e == "no articles found in response"));
    assert!(!state.begin_fetch_if_due(159));
    assert!(state.begin_fetch_if_due(160));
    state.finish_fetch(vec![article("A")], 200);
    assert_eq!(state.loading_status, LoadingStatus::Loaded);
    assert!(!state.begin_fetch_if_due(200 + 60 * FETCH_INTERVAL_MINS - 1));
    assert!(state.begin_fetch_if_due(200 + 60 * FETCH_INTERVAL_MINS));
    state.fail_fetch("timeout".to_string(), 300);
    assert_eq!(state.news_articles.len(), 1);
    assert_eq!(state.last_updated_at, Some(300));
}

#[test]
fn news_selection_and_link() {
    let mut state = NewsState::new();
    assert_eq!(state.selected_link(), None);
    state.finish_fetch(vec![article("A"), article("B")], 0);
    assert_eq!(state.selected_link(), Some("https://example.com/A".to_string()));
    state.move_selection(1);
    state.move_selection(1);
    assert_eq!(state.selected, Some(1));
    assert_eq!(state.selected_link(), Some("https://example.com/B".to_string()));
    state.move_selection(-5);
    assert_eq!(state.selected, Some(0));
}

#[test]
fn news_panel_titles_and_rows() {
    let mut state = NewsState::new();
    assert!(matches!(state.panel(None), NewsPanel::Frame { title, border }
        if title == "\u{1F4F0} News" && border == Color::Cyan));
    state.fail_fetch("x".to_string(), 0);
    assert!(matches!(state.panel(None), NewsPanel::Frame { title, border }
        if title == "\u{1F4F0} News \u{2014} Error: x" && border == Color::Red));
    state.finish_fetch(vec![article("A"), article("B")], 0);
    match state.panel(Some("12:00:00".to_string())) {
        NewsPanel::Table { title, rows } => {
            assert_eq!(title, "\u{1F4F0} News (2 articles) \u{B7} Updated: 12:00:00");
            assert_eq!(rows.len(), 2);
            assert!(rows[0].selected && !rows[1].selected);
            assert_eq!(rows[1].title, "B");
        }
        other => panic!("unexpected panel {other:?}"),
    }
    match state.panel(None) {
        NewsPanel::Table { title, .. } => {
            assert_eq!(title, "\u{1F4F0} News (2 articles) \u{B7} Updated: Unknown")
        }
        other => panic!("unexpected panel {other:?}"),
    }
}

#[test]
fn feed_body_is_parsed_or_fails() {
    let mut state = NewsState::new();
    state.apply_body("oops", 10);
    match &state.loading_status {
        LoadingStatus::Error(e) => assert!(
            e.starts_with("failed to parse JSON from https://ok.surf/api/v1/cors/news-feed: "),
            "{e}"
        ),
        other => panic!("unexpected status {other:?}"),
    }
    state.apply_body(r#"{"Sports":[{"title":"Goal","link":"l","source":"s"}]}"#, 20);
    assert_eq!(state.loading_status, LoadingStatus::Loaded);
    assert_eq!(state.news_articles[0].title, "Goal");
    assert_eq!(state.news_articles[0].category, "Sports");
    state.apply_body("{}", 30);
    assert!(matches!(&state.loading_status, LoadingStatus::Error(e) if e == "no articles found in response"));
    assert_eq!(state.news_articles.len(), 1);
}
