use std::collections::HashMap;

use daily_dashboard::input::{is_search_activation_key, InputMode, KeyCode, KeyModifiers, KeyPress};
use daily_dashboard::json::{Json, JsonNumber};
use daily_dashboard::panel::Color;
use daily_dashboard::status::LoadingStatus;
use daily_dashboard::wikipedia::{
    apply_extracts, enter_action, extracts_url, input_title, join_ids, parse_extracts_query,
    parse_search_results, search_url, strip_search_html, wiki_page_url, EnterAction,
    ExtractPanel, ResultsPanel, WikiResult, WikipediaData, MAX_RESULTS,
};

fn s(v: &str) -> Json {
    Json::Str(v.to_string())
}

fn num(v: u64) -> Json {
    Json::Number(JsonNumber::PosInt(v))
}

fn arr(items: Vec<Json>) -> Json {
    Json::Array(items)
}

fn obj(members: Vec<(&str, Json)>) -> Json {
    Json::Object(members.into_iter().map(|(k, v)| (k.to_string(), v)).collect())
}

fn result(title: &str, page_id: u64) -> WikiResult {
    WikiResult {
        title: title.to_string(),
        page_id,
        snippet_plain: format!("about {title}"),
        page_url: Some(format!("https://en.wikipedia.org/wiki/{title}")),
        ..WikiResult::default()
    }
}

#[test]
fn parse_search_results_extracts_title_pageid_and_snippet() {
    let json = obj(vec![(
        "query",
        obj(vec![(
            "search",
            arr(vec![
                obj(vec![
                    ("ns", num(0)),
                    ("title", s("Rust (programming language)")),
                    ("pageid", num(12345)),
                    ("wordcount", num(12000)),
                    (
                        "snippet",
                        s("Rust is a <span class=\"searchmatch\">multi-paradigm</span> language."),
                    ),
                ]),
                obj(vec![
                    ("ns", num(0)),
                    ("title", s("Rust")),
                    ("pageid", num(67890)),
                    ("snippet", s("Rust may refer to:")),
                ]),
            ]),
        )]),
    )]);
    let results = parse_search_results(&json);
    assert_eq!(results.len(), 2);
    assert_eq!(results[0].title, "Rust (programming language)");
    assert_eq!(results[0].page_id, 12345);
    assert_eq!(results[0].wordcount, Some(12000));
    assert_eq!(results[0].snippet_plain, "Rust is a multi-paradigm language.");
    assert!(results[0]
        .page_url
        .as_deref()
        .unwrap()
        .starts_with("https://en.wikipedia.org/wiki/Rust"));
    assert_eq!(results[1].title, "Rust");
    assert_eq!(results[1].page_id, 67890);
    assert!(results[1].wordcount.is_none());
}

#[test]
fn parse_search_results_skips_missing_fields_and_handles_empty() {
    let json = obj(vec![(
        "query",
        obj(vec![(
            "search",
            arr(vec![
                obj(vec![("title", s("No pageid"))]),
                obj(vec![("pageid", num(1))]),
                obj(vec![("title", s("Ok")), ("pageid", num(2)), ("snippet", s("hi"))]),
            ]),
        )]),
    )]);
    let results = parse_search_results(&json);
    assert_eq!(results.len(), 1);
    assert_eq!(results[0].title, "Ok");
    assert_eq!(results[0].page_id, 2);

    let empty = obj(vec![("query", obj(vec![("search", arr(vec![]))]))]);
    assert!(parse_search_results(&empty).is_empty());

    let missing = obj(vec![("batchcomplete", Json::Bool(true))]);
    assert!(parse_search_results(&missing).is_empty());
}

#[test]
fn strip_search_html_removes_tags_and_common_entities() {
    assert_eq!(
        strip_search_html("<span class=\"searchmatch\">Nelson</span> Rolihlahla &amp; friends&#039;"),
        "Nelson Rolihlahla & friends'"
    );
    assert_eq!(strip_search_html("plain text"), "plain text");
    assert_eq!(strip_search_html(""), "");
}

#[test]
fn parse_extracts_query_maps_page_id_to_description_and_extract() {
    let json = obj(vec![(
        "query",
        obj(vec![(
            "pages",
            arr(vec![
                obj(vec![
                    ("pageid", num(12345)),
                    ("title", s("Rust")),
                    ("description", s("General-purpose programming language")),
                    ("extract", s("Rust is a systems programming language.")),
                ]),
                obj(vec![("pageid", num(99)), ("title", s("Empty")), ("extract", s(""))]),
                obj(vec![
                    ("pageid", num(7)),
                    ("title", s("No description")),
                    ("extract", s("Just an extract.")),
                ]),
            ]),
        )]),
    )]);
    let extracts = parse_extracts_query(&json);
    assert_eq!(extracts.len(), 2);
    let (desc, extract) = extracts.get(&12345).expect("page 12345");
    assert_eq!(desc.as_deref(), Some("General-purpose programming language"));
    assert_eq!(extract, "Rust is a systems programming language.");
    let (desc7, extract7) = extracts.get(&7).expect("page 7");
    assert!(desc7.is_none());
    assert_eq!(extract7, "Just an extract.");
    assert!(!extracts.contains_key(&99));
}

#[test]
fn apply_extracts_fills_matching_results() {
    let mut results = vec![
        WikiResult {
            title: "A".into(),
            page_id: 1,
            snippet_plain: "snip".into(),
            page_url: Some("https://en.wikipedia.org/wiki/A".into()),
            wordcount: None,
            description: None,
            extract: Some("snip".into()),
        },
        WikiResult {
            title: "B".into(),
            page_id: 2,
            snippet_plain: String::new(),
            page_url: Some("https://en.wikipedia.org/wiki/B".into()),
            wordcount: None,
            description: None,
            extract: None,
        },
    ];
    let mut map = HashMap::new();
    map.insert(1, (Some("desc".into()), "full extract".into()));
    apply_extracts(&mut results, &map);
    assert_eq!(results[0].description.as_deref(), Some("desc"));
    assert_eq!(results[0].extract.as_deref(), Some("full extract"));
    assert!(results[1].extract.is_none());
}

#[test]
fn enter_action_searches_until_query_matches_loaded_results() {
    assert_eq!(enter_action("rust", "", false), EnterAction::Search);
    assert_eq!(enter_action("rust", "rust", false), EnterAction::Search);
    assert_eq!(enter_action("rust", "rust", true), EnterAction::Open);
    assert_eq!(enter_action("rustc", "rust", true), EnterAction::Search);
    assert_eq!(enter_action("  rust  ", "rust", true), EnterAction::Open);
}

#[test]
fn is_search_activation_key_matches_slash_without_modifiers() {
    let slash = KeyPress::new(KeyCode::Char('/'), KeyModifiers::none());
    assert!(is_search_activation_key(&slash));

    let esc = KeyPress::new(KeyCode::Esc, KeyModifiers::none());
    assert!(!is_search_activation_key(&esc));

    let ctrl_slash =
        KeyPress::new(KeyCode::Char('/'), KeyModifiers { control: true, ..KeyModifiers::none() });
    assert!(!is_search_activation_key(&ctrl_slash));

    let n = KeyPress::new(KeyCode::Char('n'), KeyModifiers::none());
    assert!(!is_search_activation_key(&n));
}

#[test]
fn draw_not_started_shows_search_hint() {
    let wiki = WikipediaData::new();
    let (title, _) = input_title(InputMode::Normal);
    let message = match wiki.results_panel() {
        ResultsPanel::Status(p) => p.message,
        other => panic!("unexpected panel {other:?}"),
    };
    let content = format!("{title}{message}");
    assert!(
        content.contains("press / to search") || content.contains("Press / to type"),
        "expected search hint in buffer, got: {content}"
    );
}

#[test]
fn search_urls_carry_the_query() {
    let url = search_url("rust lang").unwrap();
    assert!(url.starts_with("https://en.wikipedia.org/w/api.php?action=query&list=search"));
    assert!(url.contains(&format!("srlimit={MAX_RESULTS}")));
    assert!(url.ends_with("srsearch=rust+lang"));
    assert_eq!(join_ids(&vec![1, 22, 333]), "1|22|333");
    assert_eq!(join_ids(&vec![]), "");
    let extracts = extracts_url(&vec![5, 6]).unwrap();
    assert!(extracts.ends_with("pageids=5%7C6"));
    assert!(extracts.contains("prop=extracts%7Cdescription"));
}

#[test]
fn page_urls_use_underscores() {
    assert_eq!(
        wiki_page_url("Nelson Mandela").as_deref(),
        Some("https://en.wikipedia.org/wiki/Nelson_Mandela")
    );
    assert_eq!(
        wiki_page_url("AC/DC").as_deref(),
        Some("https://en.wikipedia.org/wiki/AC%2FDC")
    );
}

#[test]
fn search_results_are_capped() {
    let items: Vec<Json> = (0..20)
        .map(|i| obj(vec![("title", s(&format!("T{i}"))), ("pageid", num(i))]))
        .collect();
    let json = obj(vec![("query", obj(vec![("search", arr(items))]))]);
    let results = parse_search_results(&json);
    assert_eq!(results.len(), MAX_RESULTS);
    assert_eq!(results[MAX_RESULTS - 1].title, "T14");
    assert!(results[0].extract.is_none());
}

#[test]
fn stale_responses_are_ignored() {
    let mut data = WikipediaData::new();
    assert_eq!(data.begin_search("   "), None);
    let first = data.begin_search(" rust ").unwrap();
    assert_eq!(data.query, "rust");
    assert_eq!(data.begin_search("other"), None);
    data.fail_search(first, "timeout".to_string());
    let second = data.begin_search("rust lang").unwrap();
    assert_ne!(first, second);
    assert_eq!(data.finish_search(first, vec![result("Old", 1)]), None);
    assert_eq!(data.loading_status, LoadingStatus::Loading);
    assert!(data.results.is_empty());
    let ids = data.finish_search(second, vec![result("A", 10), result("B", 11)]).unwrap();
    assert_eq!(ids, vec![10, 11]);
    assert_eq!(data.extract_status, LoadingStatus::Loading);
    let mut extracts = HashMap::new();
    extracts.insert(11, (None, "B text".to_string()));
    data.finish_extracts(first, &extracts);
    assert_eq!(data.extract_status, LoadingStatus::Loading);
    data.finish_extracts(second, &extracts);
    assert_eq!(data.extract_status, LoadingStatus::Loaded);
    assert_eq!(data.results[1].extract.as_deref(), Some("B text"));
}

#[test]
fn empty_search_is_an_error() {
    let mut data = WikipediaData::new();
    let g = data.begin_search("zzzz").unwrap();
    assert_eq!(data.finish_search(g, vec![]), None);
    assert_eq!(data.loading_status, LoadingStatus::Error("No results for \"zzzz\"".to_string()));
    match data.results_panel() {
        ResultsPanel::Status(p) => {
            assert_eq!(p.message, "No results for \"zzzz\"\n\nNo results for \"zzzz\"");
            assert_eq!(p.message_color, Color::Red);
        }
        other => panic!("unexpected panel {other:?}"),
    }
}

#[test]
fn selection_enter_and_result_list() {
    let mut data = WikipediaData::new();
    let g = data.begin_search("rust").unwrap();
    data.finish_search(g, vec![result("A", 1), result("B", 2), result("C", 3)]);
    assert_eq!(data.enter_action_for("rust "), EnterAction::Open);
    assert_eq!(data.enter_action_for("rusty"), EnterAction::Search);
    data.move_selection(1);
    assert_eq!(data.selected, Some(1));
    assert_eq!(
        data.selected_page_url().as_deref(),
        Some("https://en.wikipedia.org/wiki/B")
    );
    data.move_selection(10);
    assert_eq!(data.selected, Some(2));
    match data.results_panel() {
        ResultsPanel::List { title, items, selected } => {
            assert_eq!(title, "Results (3/3)");
            assert_eq!(items.len(), 3);
            assert_eq!(items[0].snippet_line.as_deref(), Some("  about A"));
            assert_eq!(selected, Some(2));
        }
        other => panic!("unexpected panel {other:?}"),
    }
    match data.extract_panel() {
        ExtractPanel::Status(p) => {
            assert_eq!(p.title, "Extract \u{2014} C");
            assert_eq!(p.message, "Loading full extract...\n\nabout C");
            assert_eq!(p.message_color, Color::Yellow);
        }
        other => panic!("unexpected panel {other:?}"),
    }
    let mut extracts = HashMap::new();
    extracts.insert(3, (Some("third".to_string()), "Para one\n\nPara two".to_string()));
    data.finish_extracts(g, &extracts);
    match data.extract_panel() {
        ExtractPanel::Article { title, description, paragraphs } => {
            assert_eq!(title, "Extract \u{2014} C");
            assert_eq!(description.as_deref(), Some("third"));
            assert_eq!(paragraphs, vec!["Para one".to_string(), "Para two".to_string()]);
        }
        other => panic!("unexpected panel {other:?}"),
    }
}

#[test]
fn wikipedia_input_title_by_mode() {
    assert_eq!(
        input_title(InputMode::Normal),
        ("\u{1F4DA} Wikipedia \u{2014} press / to search", Color::Cyan)
    );
    assert_eq!(
        input_title(InputMode::Editing).0,
        "\u{1F4DA} Wikipedia \u{2014} \u{2191}/\u{2193} results \u{B7} Enter search/open \u{B7} Esc done"
    );
}

#[test]
fn plain_snippets_pass_through_unchanged() {
    for text in ["Rust may refer to:", "a; b = c", "\u{1F980} crab"] {
        assert_eq!(strip_search_html(text), text);
    }
    assert_eq!(strip_search_html("a &lt;b&gt; &quot;c&quot; &nbsp;d"), "a <b> \"c\"  d");
    assert_eq!(strip_search_html("x <unclosed tag"), "x ");
}

#[test]
fn apply_extracts_fills_only_the_first_result_of_a_page() {
    let mut results = vec![result("A", 1), result("A again", 1), result("B", 2)];
    let mut map = HashMap::new();
    map.insert(1, (None, "one".to_string()));
    apply_extracts(&mut results, &map);
    assert_eq!(results[0].extract.as_deref(), Some("one"));
    assert_eq!(results[1].extract, None);
    assert_eq!(results[2].extract, None);
}

#[test]
fn search_and_extract_bodies_are_parsed() {
    let mut data = WikipediaData::new();
    let g = data.begin_search("rust").unwrap();
    let url = "https://en.wikipedia.org/w/api.php?x";
    assert_eq!(data.finish_search_body(g, url, "not json"), None);
    match &data.loading_status {
        LoadingStatus::Error(e) => {
            assert!(e.starts_with("failed to parse JSON from https://en.wikipedia.org/w/api.php?x: "), "{e}")
        }
        other => panic!("unexpected status {other:?}"),
    }
    let g = data.begin_search("rust").unwrap();
    let body = r#"{"query":{"search":[{"title":"Rust","pageid":5,"snippet":"a <b>lang</b>"}]}}"#;
    assert_eq!(data.finish_search_body(g, url, body), Some(vec![5]));
    assert_eq!(data.results[0].snippet_plain, "a lang");
    assert_eq!(data.finish_search_body(g + 1, url, body), None);
    data.finish_extracts_body(g, url, "{");
    assert!(matches!(data.extract_status, LoadingStatus::Error(_)));
    data.finish_extracts_body(
        g,
        url,
        r#"{"query":{"pages":[{"pageid":5,"extract":"Rust is a language.","description":"PL"}]}}"#,
    );
    assert_eq!(data.extract_status, LoadingStatus::Loaded);
    assert_eq!(data.results[0].extract.as_deref(), Some("Rust is a language."));
    assert_eq!(data.results[0].description.as_deref(), Some("PL"));
}
