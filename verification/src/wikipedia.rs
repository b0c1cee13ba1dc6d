//! The Wikipedia widget: search and extract requests, their responses, the
//! search lifecycle and what the result and extract panes show.
use vstd::prelude::*;
use std::collections::HashMap;
use crate::input::InputMode;
use crate::json::{
    array_in, get, get_in, opt_json, str_in, u64_in, array_opt, get_opt, str_opt, u64_opt, Json,
    chars_or, response_json, response_json_of,
};
use crate::panel::{accent, error, hint, loading, Color, StatusPanel, StatusPanelView};
use crate::seqs::{at_most, filter_map, lemma_filter_map_take};
use crate::status::LoadingStatus;
use crate::text::{
    lemma_replaced_absent,
    chars_of, clone_opt, concat3, decimal, decimal_string, opt_view, owned, pieces,
    replace, replace_chars, replaced, split_chars, str_concat, string_of, trimmed, trim, views_of,
    str_eq,
};
use crate::urls::{path_url, query_url, url_with_path_segments, url_with_query_pairs};

verus! {

broadcast use vstd::std_specs::hash::group_hash_axioms;

/// At most this many search results are kept.
pub const MAX_RESULTS: usize = 15;

/// The search API endpoint.
pub open spec fn search_api() -> Seq<char> {
    "https://en.wikipedia.org/w/api.php"@
}

/// The site that article pages live on.
pub open spec fn wiki_origin() -> Seq<char> {
    "https://en.wikipedia.org"@
}

/// The query of a full-text search for `query`.
pub open spec fn search_pairs(query: Seq<char>) -> Seq<(Seq<char>, Seq<char>)> {
    seq![
        ("action"@, "query"@),
        ("list"@, "search"@),
        ("format"@, "json"@),
        ("formatversion"@, "2"@),
        ("srlimit"@, decimal(MAX_RESULTS as nat)),
        ("srsearch"@, query),
    ]
}

/// The URL of a full-text search for `query`.
pub fn search_url(query: &str) -> (url: Option<String>)
    ensures
        opt_view(url) == url_with_query_pairs(search_api(), search_pairs(query@)),
{
    let mut pairs: Vec<(String, String)> = Vec::new();
    pairs.push((owned("action"), owned("query")));
    pairs.push((owned("list"), owned("search")));
    pairs.push((owned("format"), owned("json")));
    pairs.push((owned("formatversion"), owned("2")));
    pairs.push((owned("srlimit"), decimal_string(MAX_RESULTS as u128)));
    pairs.push((owned("srsearch"), owned(query)));
    assert(pairs.deep_view() =~= search_pairs(query@));
    query_url("https://en.wikipedia.org/w/api.php", &pairs)
}

/// Page ids in decimal, separated by `|`.
pub open spec fn joined_ids(ids: Seq<u64>) -> Seq<char>
    decreases ids.len(),
{
    if ids.len() == 0 {
        seq![]
    } else if ids.len() == 1 {
        decimal(ids[0] as nat)
    } else {
        joined_ids(ids.drop_last()).push('|') + decimal(ids.last() as nat)
    }
}

/// Page ids in decimal, separated by `|`.
pub fn join_ids(ids: &Vec<u64>) -> (s: String)
    ensures
        s@ == joined_ids(ids@),
{
    let mut out: Vec<char> = Vec::new();
    let mut i: usize = 0;
    while i < ids.len()
        invariant
            i <= ids.len(),
            out@ == joined_ids(ids@.take(i as int)),
        decreases ids.len() - i,
    {
        proof {
            assert(ids@.take(i + 1).drop_last() =~= ids@.take(i as int));
        }
        if i > 0 {
            out.push('|');
        }
        let digits = crate::text::decimal_chars(ids[i] as u128);
        crate::text::append_chars(&mut out, &digits);
        i = i + 1;
    }
    assert(ids@.take(ids@.len() as int) =~= ids@);
    string_of(&out)
}

/// The query that asks for the lead extracts and descriptions of `ids`.
pub open spec fn extracts_pairs(ids: Seq<u64>) -> Seq<(Seq<char>, Seq<char>)> {
    seq![
        ("action"@, "query"@),
        ("format"@, "json"@),
        ("formatversion"@, "2"@),
        ("prop"@, "extracts|description"@),
        ("exintro"@, "1"@),
        ("explaintext"@, "1"@),
        ("pageids"@, joined_ids(ids)),
    ]
}

/// The extracts request for `ids` asks the search API for the lead section
/// (`exintro=1`) of each page as plain text (`explaintext=1`), with its
/// description, for exactly those page ids in decimal joined by `|`, with
/// the query pairs in this order.
pub proof fn lemma_extracts_request_asks_for_plain_lead_text(ids: Seq<u64>)
    ensures
        extracts_pairs(ids) == seq![
            ("action"@, "query"@),
            ("format"@, "json"@),
            ("formatversion"@, "2"@),
            ("prop"@, "extracts|description"@),
            ("exintro"@, "1"@),
            ("explaintext"@, "1"@),
            ("pageids"@, joined_ids(ids)),
        ],
        extracts_pairs(ids).contains(("explaintext"@, "1"@)),
        search_api() == "https://en.wikipedia.org/w/api.php"@,
{
    assert(extracts_pairs(ids)[5] == ("explaintext"@, "1"@));
}

/// The ids joined by `|` read back, in order, as the ids: joining one more
/// id appends `|` and its decimal numeral, and a single id is its numeral.
pub proof fn lemma_joined_ids_extend(ids: Seq<u64>, id: u64)
    ensures
        joined_ids(seq![id]) == decimal(id as nat),
        ids.len() > 0 ==> joined_ids(ids.push(id)) == joined_ids(ids) + "|"@ + decimal(id as nat),
{
    reveal_strlit("|");
    assert(ids.push(id).drop_last() =~= ids);
    assert(joined_ids(ids).push('|') =~= joined_ids(ids) + "|"@);
}

/// The URL that asks for the lead extracts and descriptions of `page_ids`.
pub fn extracts_url(page_ids: &Vec<u64>) -> (url: Option<String>)
    ensures
        opt_view(url) == url_with_query_pairs(search_api(), extracts_pairs(page_ids@)),
{
    let mut pairs: Vec<(String, String)> = Vec::new();
    pairs.push((owned("action"), owned("query")));
    pairs.push((owned("format"), owned("json")));
    pairs.push((owned("formatversion"), owned("2")));
    pairs.push((owned("prop"), owned("extracts|description")));
    pairs.push((owned("exintro"), owned("1")));
    pairs.push((owned("explaintext"), owned("1")));
    pairs.push((owned("pageids"), join_ids(page_ids)));
    assert(pairs.deep_view() =~= extracts_pairs(page_ids@));
    query_url("https://en.wikipedia.org/w/api.php", &pairs)
}

/// The path segments of the article page titled `title`: spaces become
/// underscores.
pub open spec fn page_segments(title: Seq<char>) -> Seq<Seq<char>> {
    seq!["wiki"@, replaced(title, " "@, "_"@)]
}

/// The URL of the article page titled `title`.
pub open spec fn page_url_of(title: Seq<char>) -> Option<Seq<char>> {
    url_with_path_segments(wiki_origin(), page_segments(title))
}

/// The URL of the article page titled `title`.
pub fn wiki_page_url(title: &str) -> (url: Option<String>)
    ensures
        opt_view(url) == page_url_of(title@),
{
    proof {
        reveal_strlit(" ");
    }
    let mut segments: Vec<String> = Vec::new();
    segments.push(owned("wiki"));
    segments.push(replace(title, " ", "_"));
    assert(segments.deep_view() =~= page_segments(title@));
    path_url("https://en.wikipedia.org", &segments)
}

/// `s` with its markup tags dropped: everything from `<` to the next `>`,
/// given whether the text before `s` left a tag open.
pub open spec fn untagged_from(s: Seq<char>, in_tag: bool) -> Seq<char>
    decreases s.len(),
{
    if s.len() == 0 {
        seq![]
    } else if s[0] == '<' {
        untagged_from(s.drop_first(), true)
    } else if s[0] == '>' {
        untagged_from(s.drop_first(), false)
    } else if !in_tag {
        seq![s[0]] + untagged_from(s.drop_first(), false)
    } else {
        untagged_from(s.drop_first(), true)
    }
}

/// `s` with the entities that search snippets use decoded, in this order:
/// `&quot;`, `&amp;`, `&lt;`, `&gt;`, `&#039;`, `&nbsp;`.
pub open spec fn decoded(s: Seq<char>) -> Seq<char> {
    replaced(
        replaced(
            replaced(
                replaced(replaced(replaced(s, "&quot;"@, "\""@), "&amp;"@, "&"@), "&lt;"@, "<"@),
                "&gt;"@,
                ">"@,
            ),
            "&#039;"@,
            "'"@,
        ),
        "&nbsp;"@,
        " "@,
    )
}

/// The plain text of a search snippet.
pub open spec fn plain_text(html: Seq<char>) -> Seq<char> {
    decoded(untagged_from(html, false))
}

/// Text without `<` or `>` has no tag to drop.
proof fn lemma_untagged_plain(s: Seq<char>)
    requires
        forall|i: int| 0 <= i < s.len() ==> s[i] != '<' && s[i] != '>',
    ensures
        untagged_from(s, false) == s,
    decreases s.len(),
{
    if s.len() > 0 {
        lemma_untagged_plain(s.drop_first());
        assert(seq![s[0]] + s.drop_first() =~= s);
    }
}

/// A snippet without markup (`<`, `>`) and without entities (`&`) is its own
/// plain text.
pub proof fn lemma_plain_text_unchanged(s: Seq<char>)
    requires
        forall|i: int| 0 <= i < s.len() ==> s[i] != '<' && s[i] != '>' && s[i] != '&',
    ensures
        plain_text(s) == s,
{
    lemma_untagged_plain(s);
    reveal_strlit("&quot;");
    reveal_strlit("&amp;");
    reveal_strlit("&lt;");
    reveal_strlit("&gt;");
    reveal_strlit("&#039;");
    reveal_strlit("&nbsp;");
    lemma_replaced_absent(s, "&quot;"@, "\""@);
    lemma_replaced_absent(s, "&amp;"@, "&"@);
    lemma_replaced_absent(s, "&lt;"@, "<"@);
    lemma_replaced_absent(s, "&gt;"@, ">"@);
    lemma_replaced_absent(s, "&#039;"@, "'"@);
    lemma_replaced_absent(s, "&nbsp;"@, " "@);
}

/// `v` with `pat` replaced by `rep`.
fn replace_in(v: Vec<char>, pat: &str, rep: &str) -> (r: Vec<char>)
    requires
        pat@.len() > 0,
    ensures
        r@ == replaced(v@, pat@, rep@),
{
    let p = chars_of(pat);
    let q = chars_of(rep);
    replace_chars(&v, &p, &q)
}

/// The plain text of a search snippet: tags dropped, common entities decoded.
pub fn strip_search_html(html: &str) -> (text: String)
    ensures
        text@ == plain_text(html@),
{
    let s = chars_of(html);
    let mut out: Vec<char> = Vec::new();
    let mut in_tag = false;
    let mut i: usize = 0;
    assert(s@.skip(0) =~= s@);
    assert(out@ + untagged_from(s@, false) =~= untagged_from(s@, false));
    while i < s.len()
        invariant
            i <= s.len(),
            out@ + untagged_from(s@.skip(i as int), in_tag) == untagged_from(s@, false),
        decreases s.len() - i,
    {
        let c = s[i];
        proof {
            assert(s@.skip(i as int).drop_first() =~= s@.skip(i + 1));
        }
        if c == '<' {
            in_tag = true;
        } else if c == '>' {
            in_tag = false;
        } else if !in_tag {
            proof {
                assert(out@.push(c) + untagged_from(s@.skip(i + 1), false) =~= out@ + (seq![c]
                    + untagged_from(s@.skip(i + 1), false)));
            }
            out.push(c);
        }
        i = i + 1;
    }
    proof {
        assert(out@ + seq![] =~= out@);
        reveal_strlit("&quot;");
        reveal_strlit("&amp;");
        reveal_strlit("&lt;");
        reveal_strlit("&gt;");
        reveal_strlit("&#039;");
        reveal_strlit("&nbsp;");
    }
    let a = replace_in(out, "&quot;", "\"");
    let b = replace_in(a, "&amp;", "&");
    let c = replace_in(b, "&lt;", "<");
    let d = replace_in(c, "&gt;", ">");
    let e = replace_in(d, "&#039;", "'");
    let f = replace_in(e, "&nbsp;", " ");
    string_of(&f)
}

/// One search result.
#[derive(Clone, Debug, Default)]
pub struct WikiResult {
    pub title: String,
    pub page_id: u64,
    pub snippet_plain: String,
    pub page_url: Option<String>,
    pub wordcount: Option<u64>,
    pub description: Option<String>,
    pub extract: Option<String>,
}

/// The chars of a search result.
pub struct WikiResultView {
    pub title: Seq<char>,
    pub page_id: u64,
    pub snippet_plain: Seq<char>,
    pub page_url: Option<Seq<char>>,
    pub wordcount: Option<u64>,
    pub description: Option<Seq<char>>,
    pub extract: Option<Seq<char>>,
}

impl View for WikiResult {
    type V = WikiResultView;

    open spec fn view(&self) -> WikiResultView {
        WikiResultView {
            title: self.title@,
            page_id: self.page_id,
            snippet_plain: self.snippet_plain@,
            page_url: opt_view(self.page_url),
            wordcount: self.wordcount,
            description: opt_view(self.description),
            extract: opt_view(self.extract),
        }
    }
}

/// The views of a sequence of results.
pub open spec fn result_views(v: Seq<WikiResult>) -> Seq<WikiResultView> {
    v.map_values(|r: WikiResult| r@)
}

/// The result that one element of a search response describes: it needs a
/// string `title` and an integer `pageid`; the `snippet` defaults to empty.
/// The snippet's plain text also stands in for the extract until the extract
/// arrives.
pub open spec fn search_item(item: Json) -> Option<WikiResultView> {
    match (str_in(get(item, "title"@)), u64_in(get(item, "pageid"@))) {
        (Some(title), Some(page_id)) => {
            let snippet = plain_text(chars_or(str_in(get(item, "snippet"@)), seq![]));
            Some(
                WikiResultView {
                    title,
                    page_id,
                    snippet_plain: snippet,
                    page_url: page_url_of(title),
                    wordcount: u64_in(get(item, "wordcount"@)),
                    description: None,
                    extract: if snippet.len() > 0 {
                        Some(snippet)
                    } else {
                        None
                    },
                },
            )
        },
        _ => None,
    }
}

/// The results of a search response: the well-formed elements of
/// `/query/search`, at most `MAX_RESULTS` of them.
pub open spec fn search_results(json: Json) -> Seq<WikiResultView> {
    match array_in(get_in(get(json, "query"@), "search"@)) {
        Some(items) => at_most(filter_map(items, |j: Json| search_item(j)), MAX_RESULTS as nat),
        None => seq![],
    }
}

/// The view of an optional result.
pub open spec fn opt_result(r: Option<WikiResult>) -> Option<WikiResultView> {
    match r {
        Some(x) => Some(x@),
        None => None,
    }
}

/// The result that one element of a search response describes.
pub fn parse_search_item(item: &Json) -> (r: Option<WikiResult>)
    ensures
        opt_result(r) == search_item(*item),
{
    let title = match str_opt(item.get("title")) {
        Some(t) => t,
        None => return None,
    };
    let page_id = match u64_opt(item.get("pageid")) {
        Some(id) => id,
        None => return None,
    };
    proof {
        reveal_strlit("");
    }
    let snippet_html: &str = match str_opt(item.get("snippet")) {
        Some(s) => s.as_str(),
        None => "",
    };
    let snippet_plain = strip_search_html(snippet_html);
    let page_url = wiki_page_url(title.as_str());
    let wordcount = u64_opt(item.get("wordcount"));
    let extract = if snippet_plain.as_str().is_empty() {
        None
    } else {
        Some(snippet_plain.clone())
    };
    Some(
        WikiResult {
            title: title.clone(),
            page_id,
            snippet_plain,
            page_url,
            wordcount,
            description: None,
            extract,
        },
    )
}

/// The results of a search response.
pub fn parse_search_results(json: &Json) -> (results: Vec<WikiResult>)
    ensures
        result_views(results@) == search_results(*json),
        results@.len() <= MAX_RESULTS,
{
    let items = match array_opt(get_opt(json.get("query"), "search")) {
        Some(items) => items,
        None => {
            let empty: Vec<WikiResult> = Vec::new();
            assert(result_views(empty@) =~= seq![]);
            return empty;
        },
    };
    let ghost f = |j: Json| search_item(j);
    let mut results: Vec<WikiResult> = Vec::new();
    let mut i: usize = 0;
    while i < items.len()
        invariant
            i <= items.len(),
            f == (|j: Json| search_item(j)),
            result_views(results@) == filter_map(items@.take(i as int), f),
        decreases items.len() - i,
    {
        proof {
            lemma_filter_map_take(items@, f, i as int);
        }
        match parse_search_item(&items[i]) {
            Some(r) => {
                proof {
                    assert(result_views(results@.push(r)) =~= result_views(results@).push(r@));
                }
                results.push(r);
            },
            None => {},
        }
        i = i + 1;
    }
    assert(items@.take(items@.len() as int) =~= items@);
    if results.len() > MAX_RESULTS {
        results.truncate(MAX_RESULTS);
        assert(result_views(results@) =~= filter_map(items@, f).take(MAX_RESULTS as int));
    }
    results
}

/// The lead extract of one page of an extracts response: it needs an integer
/// `pageid` and a non-empty `extract`; an empty `description` counts as none.
pub open spec fn page_extract(page: Json) -> Option<(u64, (Option<Seq<char>>, Seq<char>))> {
    match (u64_in(get(page, "pageid"@)), str_in(get(page, "extract"@))) {
        (Some(id), Some(extract)) => if extract.len() > 0 {
            Some((id, (non_empty(str_in(get(page, "description"@))), extract)))
        } else {
            None
        },
        _ => None,
    }
}

/// `o` unless it holds the empty string.
pub open spec fn non_empty(o: Option<Seq<char>>) -> Option<Seq<char>> {
    match o {
        Some(s) => if s.len() > 0 {
            Some(s)
        } else {
            None
        },
        None => None,
    }
}

/// The extracts of `entries` by page id; a later page wins over an earlier
/// one with the same id.
pub open spec fn extract_map(entries: Seq<(u64, (Option<Seq<char>>, Seq<char>))>) -> Map<
    u64,
    (Option<Seq<char>>, Seq<char>),
>
    decreases entries.len(),
{
    if entries.len() == 0 {
        Map::empty()
    } else {
        extract_map(entries.drop_last()).insert(entries.last().0, entries.last().1)
    }
}

/// The extracts of an extracts response, by page id, from `/query/pages`.
pub open spec fn query_extracts(json: Json) -> Map<u64, (Option<Seq<char>>, Seq<char>)> {
    match array_in(get_in(get(json, "query"@), "pages"@)) {
        Some(pages) => extract_map(filter_map(pages, |p: Json| page_extract(p))),
        None => Map::empty(),
    }
}

/// The chars of a map of extracts.
pub open spec fn extracts_view(m: Map<u64, (Option<String>, String)>) -> Map<
    u64,
    (Option<Seq<char>>, Seq<char>),
> {
    m.map_values(|v: (Option<String>, String)| (opt_view(v.0), v.1@))
}

/// The extract of one page of an extracts response.
pub fn parse_page_extract(page: &Json) -> (r: Option<(u64, (Option<String>, String))>)
    ensures
        match r {
            Some((id, (d, e))) => page_extract(*page) == Some((id, (opt_view(d), e@))),
            None => page_extract(*page) is None,
        },
{
    let id = match u64_opt(page.get("pageid")) {
        Some(id) => id,
        None => return None,
    };
    let extract = match str_opt(page.get("extract")) {
        Some(e) => e,
        None => return None,
    };
    if extract.as_str().is_empty() {
        return None;
    }
    let description = match str_opt(page.get("description")) {
        Some(d) => if d.as_str().is_empty() {
            None
        } else {
            Some(d.clone())
        },
        None => None,
    };
    Some((id, (description, extract.clone())))
}

/// The extracts of an extracts response, by page id.
pub fn parse_extracts_query(json: &Json) -> (m: HashMap<u64, (Option<String>, String)>)
    ensures
        extracts_view(m@) == query_extracts(*json),
{
    let mut m: HashMap<u64, (Option<String>, String)> = HashMap::new();
    let pages = match array_opt(get_opt(json.get("query"), "pages")) {
        Some(pages) => pages,
        None => {
            assert(extracts_view(m@) =~= Map::empty());
            return m;
        },
    };
    let ghost f = |p: Json| page_extract(p);
    let mut i: usize = 0;
    assert(extracts_view(m@) =~= Map::empty());
    while i < pages.len()
        invariant
            i <= pages.len(),
            f == (|p: Json| page_extract(p)),
            extracts_view(m@) == extract_map(filter_map(pages@.take(i as int), f)),
        decreases pages.len() - i,
    {
        proof {
            lemma_filter_map_take(pages@, f, i as int);
        }
        match parse_page_extract(&pages[i]) {
            Some((id, entry)) => {
                let ghost before = m@;
                let ghost entry_view = (opt_view(entry.0), entry.1@);
                m.insert(id, entry);
                proof {
                    let fm = filter_map(pages@.take(i as int), f);
                    assert(fm.push((id, entry_view)).drop_last() =~= fm);
                    assert(extracts_view(m@) =~= extracts_view(before).insert(id, entry_view));
                }
            },
            None => {},
        }
        i = i + 1;
    }
    assert(pages@.take(pages@.len() as int) =~= pages@);
    m
}

/// `r` with the extract of its page filled in from `extracts`, when there is
/// one.
pub open spec fn with_extract(
    r: WikiResultView,
    extracts: Map<u64, (Option<Seq<char>>, Seq<char>)>,
) -> WikiResultView {
    if extracts.contains_key(r.page_id) {
        WikiResultView {
            description: extracts[r.page_id].0,
            extract: Some(extracts[r.page_id].1),
            ..r
        }
    } else {
        r
    }
}

impl WikiResult {
    /// This result with the given description and extract.
    pub fn with_extract(&self, description: &Option<String>, extract: &String) -> (r: WikiResult)
        ensures
            r@ == (WikiResultView {
                description: opt_view(*description),
                extract: Some(extract@),
                ..self@
            }),
    {
        WikiResult {
            title: self.title.clone(),
            page_id: self.page_id,
            snippet_plain: self.snippet_plain.clone(),
            page_url: clone_opt(&self.page_url),
            wordcount: self.wordcount,
            description: clone_opt(description),
            extract: Some(extract.clone()),
        }
    }
}

/// Whether the result at `k` is the first of `rs` with its page id.
pub open spec fn first_with_id(rs: Seq<WikiResultView>, k: int) -> bool {
    forall|j: int| 0 <= j < k ==> #[trigger] rs[j].page_id != rs[k].page_id
}

/// `rs` with the extracts of `extracts` filled in: each page's extract goes
/// to the first result with that page id; the other results stay as they
/// were.
pub open spec fn extracts_applied(
    rs: Seq<WikiResultView>,
    extracts: Map<u64, (Option<Seq<char>>, Seq<char>)>,
) -> Seq<WikiResultView> {
    Seq::new(
        rs.len(),
        |k: int|
            if first_with_id(rs, k) {
                with_extract(rs[k], extracts)
            } else {
                rs[k]
            },
    )
}

/// Fills in the description and extract of the first result of each page
/// that has one in `extracts`; the other results stay as they were.
pub fn apply_extracts(results: &mut Vec<WikiResult>, extracts: &HashMap<u64, (Option<String>, String)>)
    ensures
        result_views(final(results)@) == extracts_applied(
            result_views(old(results)@),
            extracts_view(extracts@),
        ),
{
    let ghost m = extracts_view(extracts@);
    let ghost before = result_views(old(results)@);
    let ghost target = extracts_applied(before, m);
    let mut i: usize = 0;
    while i < results.len()
        invariant
            i <= results.len(),
            results@.len() == old(results)@.len(),
            before.len() == results@.len(),
            m == extracts_view(extracts@),
            before == result_views(old(results)@),
            target == extracts_applied(before, m),
            forall|k: int| 0 <= k < i ==> #[trigger] results@[k]@ == target[k],
            forall|k: int| i <= k < results@.len() ==> #[trigger] results@[k] == old(results)@[k],
            forall|k: int| 0 <= k < results@.len() ==> #[trigger] results@[k].page_id == before[k].page_id,
        decreases results.len() - i,
    {
        let id = results[i].page_id;
        let mut first = true;
        let mut j: usize = 0;
        while j < i
            invariant
                j <= i,
                i < results@.len(),
                id == before[i as int].page_id,
                before.len() == results@.len(),
                forall|k: int| 0 <= k < results@.len() ==> #[trigger] results@[k].page_id == before[k].page_id,
                first <==> (forall|k: int| 0 <= k < j ==> #[trigger] before[k].page_id != id),
            decreases i - j,
        {
            if results[j].page_id == id {
                first = false;
            }
            j = j + 1;
        }
        assert(first == first_with_id(before, i as int));
        if first {
            match extracts.get(&id) {
                Some(entry) => {
                    let updated = results[i].with_extract(&entry.0, &entry.1);
                    results.set(i, updated);
                },
                None => {},
            }
        }
        i = i + 1;
    }
    assert(result_views(results@) =~= target);
}

/// What Enter does while the search field is being edited.
#[derive(Clone, Copy, Debug, PartialEq, Eq, Structural)]
pub enum EnterAction {
    Search,
    Open,
}

/// Enter opens the selected result when results are loaded for exactly the
/// (trimmed) text in the field, and searches otherwise.
pub open spec fn enter_action_spec(input: Seq<char>, last_query: Seq<char>, has_loaded_results: bool) -> EnterAction {
    if has_loaded_results && trimmed(input) == last_query {
        EnterAction::Open
    } else {
        EnterAction::Search
    }
}

/// What Enter does while the search field is being edited.
pub fn enter_action(input: &str, last_query: &str, has_loaded_results: bool) -> (a: EnterAction)
    ensures
        a == enter_action_spec(input@, last_query@, has_loaded_results),
{
    if has_loaded_results {
        let t = trim(input);
        if str_eq(t.as_str(), last_query) {
            return EnterAction::Open;
        }
    }
    EnterAction::Search
}

/// The generation after `g`: one more, wrapping around.
pub open spec fn next_generation(g: u64) -> u64 {
    if g == u64::MAX {
        0
    } else {
        (g + 1) as u64
    }
}

/// The search state that the widget shares with its background requests.
/// Every search gets a new generation; a response is applied only while its
/// generation is still the current one.
#[derive(Debug)]
pub struct WikipediaData {
    pub loading_status: LoadingStatus,
    pub query: String,
    pub results: Vec<WikiResult>,
    pub selected: Option<usize>,
    pub extract_status: LoadingStatus,
    pub fetch_generation: u64,
}

/// Whether a search for `input` is refused: the trimmed text is empty, or a
/// search is already running.
pub open spec fn search_refused(input: Seq<char>, status: LoadingStatus) -> bool {
    trimmed(input).len() == 0 || status is Loading
}

/// The error shown when a search finds nothing.
pub open spec fn no_results_message(query: Seq<char>) -> Seq<char> {
    "No results for \""@ + query + "\""@
}

/// The page ids of `results`, in order.
pub open spec fn page_ids_of(results: Seq<WikiResult>) -> Seq<u64> {
    results.map_values(|r: WikiResult| r.page_id)
}

impl WikipediaData {
    /// No search yet.
    pub fn new() -> (d: WikipediaData)
        ensures
            d.loading_status is NotStarted,
            d.query@ == Seq::<char>::empty(),
            d.results@.len() == 0,
            d.selected is None,
            d.extract_status is NotStarted,
            d.fetch_generation == 0,
    {
        WikipediaData {
            loading_status: LoadingStatus::NotStarted,
            query: String::new(),
            results: Vec::new(),
            selected: None,
            extract_status: LoadingStatus::NotStarted,
            fetch_generation: 0,
        }
    }

    /// Starts a search for the trimmed `input`, unless it is empty or a
    /// search is already running. Returns the new search's generation.
    pub fn begin_search(&mut self, input: &str) -> (generation: Option<u64>)
        ensures
            search_refused(input@, old(self).loading_status) ==> generation is None && *final(self) == *old(self),
            !search_refused(input@, old(self).loading_status) ==> {
                &&& generation == Some(next_generation(old(self).fetch_generation))
                &&& final(self).fetch_generation == next_generation(old(self).fetch_generation)
                &&& final(self).query@ == trimmed(input@)
                &&& final(self).results@.len() == 0
                &&& final(self).selected == Some(0usize)
                &&& final(self).extract_status is NotStarted
                &&& final(self).loading_status is Loading
            },
    {
        let query = trim(input);
        if query.as_str().is_empty() || self.loading_status.is_loading() {
            return None;
        }
        self.query = query;
        self.results = Vec::new();
        self.selected = Some(0);
        self.extract_status = LoadingStatus::NotStarted;
        self.loading_status = LoadingStatus::Loading;
        self.fetch_generation = self.fetch_generation.wrapping_add(1);
        Some(self.fetch_generation)
    }

    /// Takes the results of the search of `generation`. A stale response
    /// changes nothing; no results is an error; otherwise the results are
    /// shown, the first one selected, and the page ids whose extracts to
    /// fetch are returned.
    pub fn finish_search(&mut self, generation: u64, results: Vec<WikiResult>) -> (page_ids: Option<
        Vec<u64>,
    >)
        ensures
            generation != old(self).fetch_generation ==> page_ids is None && *final(self) == *old(self),
            generation == old(self).fetch_generation && results@.len() == 0 ==> {
                &&& page_ids is None
                &&& final(self).loading_status matches LoadingStatus::Error(e) && e@
                    == no_results_message(old(self).query@)
                &&& final(self).query == old(self).query
                &&& final(self).results == old(self).results
                &&& final(self).selected == old(self).selected
                &&& final(self).extract_status == old(self).extract_status
                &&& final(self).fetch_generation == old(self).fetch_generation
            },
            generation == old(self).fetch_generation && results@.len() > 0 ==> {
                &&& page_ids matches Some(ids) && ids@ == page_ids_of(results@)
                &&& final(self).results == results
                &&& final(self).selected == Some(0usize)
                &&& final(self).loading_status is Loaded
                &&& final(self).extract_status is Loading
                &&& final(self).query == old(self).query
                &&& final(self).fetch_generation == old(self).fetch_generation
            },
    {
        if generation != self.fetch_generation {
            return None;
        }
        if results.len() == 0 {
            self.loading_status = LoadingStatus::Error(
                concat3("No results for \"", self.query.as_str(), "\""),
            );
            return None;
        }
        let mut ids: Vec<u64> = Vec::new();
        let mut i: usize = 0;
        while i < results.len()
            invariant
                i <= results.len(),
                ids@ == page_ids_of(results@.take(i as int)),
            decreases results.len() - i,
        {
            proof {
                assert(page_ids_of(results@.take(i as int)).push(results@[i as int].page_id)
                    =~= page_ids_of(results@.take(i + 1)));
            }
            ids.push(results[i].page_id);
            i = i + 1;
        }
        assert(results@.take(results@.len() as int) =~= results@);
        self.results = results;
        self.selected = Some(0);
        self.loading_status = LoadingStatus::Loaded;
        self.extract_status = LoadingStatus::Loading;
        Some(ids)
    }

    /// Records that the search of `generation` failed with `message`, unless
    /// a newer search has started since.
    pub fn fail_search(&mut self, generation: u64, message: String)
        ensures
            generation != old(self).fetch_generation ==> *final(self) == *old(self),
            generation == old(self).fetch_generation ==> {
                &&& final(self).loading_status == LoadingStatus::Error(message)
                &&& final(self).query == old(self).query
                &&& final(self).results == old(self).results
                &&& final(self).selected == old(self).selected
                &&& final(self).extract_status == old(self).extract_status
                &&& final(self).fetch_generation == old(self).fetch_generation
            },
    {
        if generation == self.fetch_generation {
            self.loading_status = LoadingStatus::Error(message);
        }
    }

    /// Records that the extracts for the search of `generation` failed with
    /// `message`, unless a newer search has started since.
    pub fn fail_extracts(&mut self, generation: u64, message: String)
        ensures
            generation != old(self).fetch_generation ==> *final(self) == *old(self),
            generation == old(self).fetch_generation ==> {
                &&& final(self).extract_status == LoadingStatus::Error(message)
                &&& final(self).loading_status == old(self).loading_status
                &&& final(self).query == old(self).query
                &&& final(self).results == old(self).results
                &&& final(self).selected == old(self).selected
                &&& final(self).fetch_generation == old(self).fetch_generation
            },
    {
        if generation == self.fetch_generation {
            self.extract_status = LoadingStatus::Error(message);
        }
    }

    /// Fills in the extracts that arrived for the search of `generation`,
    /// unless a newer search has started since.
    pub fn finish_extracts(
        &mut self,
        generation: u64,
        extracts: &HashMap<u64, (Option<String>, String)>,
    )
        ensures
            generation != old(self).fetch_generation ==> *final(self) == *old(self),
            generation == old(self).fetch_generation ==> {
                &&& result_views(final(self).results@) == extracts_applied(
                    result_views(old(self).results@),
                    extracts_view(extracts@),
                )
                &&& final(self).extract_status is Loaded
                &&& final(self).loading_status == old(self).loading_status
                &&& final(self).query == old(self).query
                &&& final(self).selected == old(self).selected
                &&& final(self).fetch_generation == old(self).fetch_generation
            },
    {
        if generation == self.fetch_generation {
            apply_extracts(&mut self.results, extracts);
            self.extract_status = LoadingStatus::Loaded;
        }
    }

    /// Moves the selection by `delta` results, within the list.
    pub fn move_selection(&mut self, delta: i32)
        ensures
            final(self).selected == crate::input::moved_selection(
                old(self).selected,
                old(self).results@.len() as usize,
                delta,
            ),
            final(self).results == old(self).results,
            final(self).loading_status == old(self).loading_status,
            final(self).extract_status == old(self).extract_status,
            final(self).query == old(self).query,
            final(self).fetch_generation == old(self).fetch_generation,
    {
        self.selected = crate::input::move_selection(self.selected, self.results.len(), delta);
    }

    /// The selected result, when the selection points into the list.
    pub open spec fn selected_view(self) -> Option<WikiResultView> {
        match self.selected {
            Some(i) => if i < self.results@.len() {
                Some(self.results@[i as int]@)
            } else {
                None
            },
            None => None,
        }
    }

    /// The selected result, when the selection points into the list.
    pub fn selected_result(&self) -> (r: Option<&WikiResult>)
        ensures
            match r {
                Some(x) => self.selected_view() == Some(x@),
                None => self.selected_view() is None,
            },
    {
        match self.selected {
            Some(i) => if i < self.results.len() {
                Some(&self.results[i])
            } else {
                None
            },
            None => None,
        }
    }

    /// The page URL of the selected result, which Enter opens.
    pub fn selected_page_url(&self) -> (url: Option<String>)
        ensures
            opt_view(url) == match self.selected_view() {
                Some(r) => r.page_url,
                None => None,
            },
    {
        match self.selected_result() {
            Some(r) => clone_opt(&r.page_url),
            None => None,
        }
    }

    /// What Enter does with `input` in the search field: open the selected
    /// result when results for exactly that query are shown, search
    /// otherwise.
    pub fn enter_action_for(&self, input: &str) -> (a: EnterAction)
        ensures
            a == enter_action_spec(
                input@,
                self.query@,
                self.loading_status is Loaded && self.results@.len() > 0,
            ),
    {
        let has_results = self.loading_status.is_loaded() && self.results.len() > 0;
        enter_action(input, self.query.as_str(), has_results)
    }
}

/// The page ids of the results, in order.
pub open spec fn view_ids(rs: Seq<WikiResultView>) -> Seq<u64> {
    rs.map_values(|r: WikiResultView| r.page_id)
}

impl WikipediaData {
    /// Takes the body of the response to the search of `generation`, fetched
    /// from `url`. A stale response changes nothing; a body that is not JSON
    /// fails the search; otherwise its results are taken as by
    /// `finish_search`, and the page ids whose extracts to fetch are returned.
    pub fn finish_search_body(&mut self, generation: u64, url: &str, body: &str) -> (page_ids:
        Option<Vec<u64>>)
        ensures
            generation != old(self).fetch_generation ==> page_ids is None && *final(self) == *old(self),
            generation == old(self).fetch_generation ==> {
                &&& final(self).query == old(self).query
                &&& final(self).fetch_generation == old(self).fetch_generation
                &&& match response_json_of(body@, url@) {
                    Err(m) => {
                        &&& page_ids is None
                        &&& final(self).loading_status matches LoadingStatus::Error(e) && e@ == m
                        &&& final(self).results == old(self).results
                        &&& final(self).selected == old(self).selected
                        &&& final(self).extract_status == old(self).extract_status
                    },
                    Ok(j) => if search_results(j).len() == 0 {
                        &&& page_ids is None
                        &&& final(self).loading_status matches LoadingStatus::Error(e) && e@
                            == no_results_message(old(self).query@)
                        &&& final(self).results == old(self).results
                        &&& final(self).selected == old(self).selected
                        &&& final(self).extract_status == old(self).extract_status
                    } else {
                        &&& page_ids matches Some(ids) && ids@ == view_ids(search_results(j))
                        &&& result_views(final(self).results@) == search_results(j)
                        &&& final(self).selected == Some(0usize)
                        &&& final(self).loading_status is Loaded
                        &&& final(self).extract_status is Loading
                    },
                }
            },
    {
        if generation != self.fetch_generation {
            return None;
        }
        match response_json(body, url) {
            Err(m) => {
                self.fail_search(generation, m);
                None
            },
            Ok(j) => {
                let results = parse_search_results(&j);
                proof {
                    assert(page_ids_of(results@) =~= view_ids(result_views(results@)));
                }
                self.finish_search(generation, results)
            },
        }
    }

    /// Takes the body of the extracts response for the search of
    /// `generation`, fetched from `url`. A stale response changes nothing; a
    /// body that is not JSON fails the extracts; otherwise they are filled in
    /// as by `finish_extracts`.
    pub fn finish_extracts_body(&mut self, generation: u64, url: &str, body: &str)
        ensures
            generation != old(self).fetch_generation ==> *final(self) == *old(self),
            generation == old(self).fetch_generation ==> {
                &&& final(self).loading_status == old(self).loading_status
                &&& final(self).query == old(self).query
                &&& final(self).selected == old(self).selected
                &&& final(self).fetch_generation == old(self).fetch_generation
                &&& match response_json_of(body@, url@) {
                    Err(m) => final(self).extract_status matches LoadingStatus::Error(e) && e@ == m
                        && final(self).results == old(self).results,
                    Ok(j) => final(self).extract_status is Loaded && result_views(final(self).results@)
                        == extracts_applied(result_views(old(self).results@), query_extracts(j)),
                }
            },
    {
        if generation != self.fetch_generation {
            return;
        }
        match response_json(body, url) {
            Err(m) => self.fail_extracts(generation, m),
            Ok(j) => {
                let extracts = parse_extracts_query(&j);
                self.finish_extracts(generation, &extracts);
            },
        }
    }
}

/// A new search makes every response to the previous one stale: its
/// generation differs from the one before.
pub proof fn lemma_new_search_supersedes_old_responses(g: u64)
    ensures
        next_generation(g) != g,
{
}

/// One row of the result list: the title, and the snippet when there is one.
#[derive(Clone, Debug)]
pub struct ResultItem {
    pub title: String,
    pub snippet_line: Option<String>,
}

/// What the result pane shows.
#[derive(Clone, Debug)]
pub enum ResultsPanel {
    Status(StatusPanel),
    List { title: String, items: Vec<ResultItem>, selected: Option<usize> },
}

/// The status pane shown instead of the result list, for every state but
/// loaded.
pub open spec fn results_status(status: LoadingStatus, query: Seq<char>) -> Option<StatusPanelView> {
    match status {
        LoadingStatus::NotStarted => Some(
            StatusPanelView {
                title: "Results"@,
                border: accent(),
                message: "Press / to type a query, then Enter to search."@,
                message_color: hint(),
            },
        ),
        LoadingStatus::Loading => Some(
            StatusPanelView {
                title: "Results"@,
                border: accent(),
                message: "Searching \""@ + query + "\"..."@,
                message_color: loading(),
            },
        ),
        LoadingStatus::Error(e) => Some(
            StatusPanelView {
                title: "Results"@,
                border: accent(),
                message: "No results for \""@ + query + "\"\n\n"@ + e@,
                message_color: error(),
            },
        ),
        LoadingStatus::Loaded => None,
    }
}

/// The title of the result list: the selected position (counting from one)
/// and the number of results.
pub open spec fn list_title(selected: Option<usize>, len: nat) -> Seq<char> {
    let position: nat = match selected {
        Some(i) => (i + 1) as nat,
        None => 1,
    };
    "Results ("@ + decimal(position) + "/"@ + decimal(len) + ")"@
}

/// The snippet row of a result, indented, when the snippet is not empty.
pub open spec fn snippet_line(r: WikiResultView) -> Option<Seq<char>> {
    if r.snippet_plain.len() > 0 {
        Some("  "@ + r.snippet_plain)
    } else {
        None
    }
}

/// A status pane with the accent border.
fn accent_panel(title: String, message: String, message_color: Color) -> (p: StatusPanel)
    ensures
        p@ == (StatusPanelView { title: title@, border: accent(), message: message@, message_color }),
{
    StatusPanel::new(title, Color::Cyan, message, message_color)
}

impl WikipediaData {
    /// What the result pane shows.
    pub fn results_panel(&self) -> (p: ResultsPanel)
        ensures
            match results_status(self.loading_status, self.query@) {
                Some(v) => p matches ResultsPanel::Status(s) && s@ == v,
                None => p matches ResultsPanel::List { title, items, selected } && {
                    &&& title@ == list_title(self.selected, self.results@.len())
                    &&& selected == self.selected
                    &&& items@.len() == self.results@.len()
                    &&& forall|i: int|
                        0 <= i < items@.len() ==> #[trigger] items@[i].title@
                            == self.results@[i].title@ && opt_view(items@[i].snippet_line)
                            == snippet_line(self.results@[i]@)
                },
            },
    {
        match &self.loading_status {
            LoadingStatus::NotStarted => ResultsPanel::Status(
                accent_panel(
                    owned("Results"),
                    owned("Press / to type a query, then Enter to search."),
                    Color::DarkGray,
                ),
            ),
            LoadingStatus::Loading => ResultsPanel::Status(
                accent_panel(
                    owned("Results"),
                    concat3("Searching \"", self.query.as_str(), "\"..."),
                    Color::Yellow,
                ),
            ),
            LoadingStatus::Error(e) => {
                let head = concat3("No results for \"", self.query.as_str(), "\"\n\n");
                ResultsPanel::Status(
                    accent_panel(owned("Results"), str_concat(head.as_str(), e.as_str()), Color::Red),
                )
            },
            LoadingStatus::Loaded => {
                let position: u128 = match self.selected {
                    Some(i) => i as u128 + 1,
                    None => 1,
                };
                let a = concat3("Results (", decimal_string(position).as_str(), "/");
                let title = concat3(
                    a.as_str(),
                    decimal_string(self.results.len() as u128).as_str(),
                    ")",
                );
                let mut items: Vec<ResultItem> = Vec::new();
                let mut i: usize = 0;
                while i < self.results.len()
                    invariant
                        i <= self.results@.len(),
                        items@.len() == i,
                        forall|k: int|
                            0 <= k < i ==> #[trigger] items@[k].title@ == self.results@[k].title@
                                && opt_view(items@[k].snippet_line) == snippet_line(
                                self.results@[k]@,
                            ),
                    decreases self.results@.len() - i,
                {
                    let r = &self.results[i];
                    let line = if r.snippet_plain.as_str().is_empty() {
                        None
                    } else {
                        Some(str_concat("  ", r.snippet_plain.as_str()))
                    };
                    let item = ResultItem { title: r.title.clone(), snippet_line: line };
                    assert(item.title@ == self.results@[i as int].title@);
                    assert(opt_view(item.snippet_line) == snippet_line(self.results@[i as int]@));
                    items.push(item);
                    i = i + 1;
                }
                ResultsPanel::List { title, items, selected: self.selected }
            },
        }
    }
}

/// The title of the extract pane: the selected result's title, if any.
pub open spec fn extract_title(selected: Option<WikiResultView>) -> Seq<char> {
    match selected {
        Some(r) => "Extract \u{2014} "@ + r.title,
        None => "Extract"@,
    }
}

/// What the extract pane says while the extracts load: the snippet, when the
/// selected result has one.
pub open spec fn loading_extract_message(selected: Option<WikiResultView>) -> Seq<char> {
    match selected {
        Some(r) => if r.snippet_plain.len() > 0 {
            "Loading full extract...\n\n"@ + r.snippet_plain
        } else {
            "Loading extracts..."@
        },
        None => "Loading extracts..."@,
    }
}

/// The text of a result's article: its extract, or its snippet when the
/// extract is missing or empty.
pub open spec fn article_text(r: WikiResultView) -> Seq<char> {
    match r.extract {
        Some(e) => if e.len() > 0 {
            e
        } else {
            r.snippet_plain
        },
        None => r.snippet_plain,
    }
}

/// The status pane shown instead of the article, for every state but both
/// the results and the extracts loaded.
pub open spec fn extract_status_panel(
    status: LoadingStatus,
    extract_status: LoadingStatus,
    selected: Option<WikiResultView>,
) -> Option<StatusPanelView> {
    let title = extract_title(selected);
    let idle = StatusPanelView {
        title,
        border: accent(),
        message: "Select a result to read its extract."@,
        message_color: hint(),
    };
    if status is Loaded {
        match extract_status {
            LoadingStatus::Loading => Some(
                StatusPanelView {
                    title,
                    border: accent(),
                    message: loading_extract_message(selected),
                    message_color: loading(),
                },
            ),
            LoadingStatus::Error(e) => Some(
                StatusPanelView { title, border: accent(), message: e@, message_color: error() },
            ),
            LoadingStatus::Loaded => None,
            LoadingStatus::NotStarted => Some(idle),
        }
    } else {
        Some(idle)
    }
}

/// What the extract pane shows.
#[derive(Clone, Debug)]
pub enum ExtractPanel {
    Status(StatusPanel),
    /// The selected article: its description and the paragraphs of its
    /// extract (none when nothing is selected).
    Article { title: String, description: Option<String>, paragraphs: Vec<String> },
}

/// The views of a sequence of strings.
pub open spec fn string_views(v: Seq<String>) -> Seq<Seq<char>> {
    v.map_values(|s: String| s@)
}

impl WikipediaData {
    /// What the extract pane shows.
    pub fn extract_panel(&self) -> (p: ExtractPanel)
        ensures
            match extract_status_panel(self.loading_status, self.extract_status, self.selected_view()) {
                Some(v) => p matches ExtractPanel::Status(s) && s@ == v,
                None => p matches ExtractPanel::Article { title, description, paragraphs } && {
                    &&& title@ == extract_title(self.selected_view())
                    &&& match self.selected_view() {
                        Some(r) => opt_view(description) == r.description && string_views(
                            paragraphs@,
                        ) == pieces(article_text(r), "\n\n"@),
                        None => description is None && paragraphs@.len() == 0,
                    }
                },
            },
    {
        let selected = self.selected_result();
        let title = match selected {
            Some(r) => str_concat("Extract \u{2014} ", r.title.as_str()),
            None => owned("Extract"),
        };
        let loaded = self.loading_status.is_loaded();
        if loaded {
            match &self.extract_status {
                LoadingStatus::Loading => {
                    let message = match selected {
                        Some(r) => if r.snippet_plain.as_str().is_empty() {
                            owned("Loading extracts...")
                        } else {
                            str_concat("Loading full extract...\n\n", r.snippet_plain.as_str())
                        },
                        None => owned("Loading extracts..."),
                    };
                    return ExtractPanel::Status(accent_panel(title, message, Color::Yellow));
                },
                LoadingStatus::Error(e) => {
                    return ExtractPanel::Status(accent_panel(title, e.clone(), Color::Red));
                },
                LoadingStatus::Loaded => {
                    match selected {
                        Some(r) => {
                            let text: &String = match &r.extract {
                                Some(e) => if e.as_str().is_empty() {
                                    &r.snippet_plain
                                } else {
                                    e
                                },
                                None => &r.snippet_plain,
                            };
                            let chars = chars_of(text.as_str());
                            proof {
                                reveal_strlit("\n\n");
                            }
                            let pat = chars_of("\n\n");
                            let parts = split_chars(&chars, &pat);
                            let mut paragraphs: Vec<String> = Vec::new();
                            let mut i: usize = 0;
                            while i < parts.len()
                                invariant
                                    i <= parts@.len(),
                                    string_views(paragraphs@) == views_of(parts@.take(i as int)),
                                decreases parts@.len() - i,
                            {
                                proof {
                                    assert(views_of(parts@.take(i + 1)) =~= views_of(
                                        parts@.take(i as int),
                                    ).push(parts@[i as int]@));
                                }
                                let para = string_of(&parts[i]);
                                proof {
                                    assert(string_views(paragraphs@.push(para)) =~= string_views(
                                        paragraphs@,
                                    ).push(para@));
                                }
                                paragraphs.push(para);
                                i = i + 1;
                            }
                            assert(parts@.take(parts@.len() as int) =~= parts@);
                            return ExtractPanel::Article {
                                title,
                                description: clone_opt(&r.description),
                                paragraphs,
                            };
                        },
                        None => {
                            return ExtractPanel::Article {
                                title,
                                description: None,
                                paragraphs: Vec::new(),
                            };
                        },
                    }
                },
                LoadingStatus::NotStarted => {},
            }
        }
        ExtractPanel::Status(
            accent_panel(title, owned("Select a result to read its extract."), Color::DarkGray),
        )
    }
}

/// The title and colour of the search box: a hint to press `/` while it is
/// idle, the editing keys while it takes input.
pub fn input_title(mode: InputMode) -> (t: (&'static str, Color))
    ensures
        mode == InputMode::Normal ==> t.0@ == "\u{1F4DA} Wikipedia \u{2014} press / to search"@
            && t.1 == accent(),
        mode == InputMode::Editing ==> t.0@
            == "\u{1F4DA} Wikipedia \u{2014} \u{2191}/\u{2193} results \u{B7} Enter search/open \u{B7} Esc done"@
            && t.1 == Color::Blue,
{
    match mode {
        InputMode::Normal => ("\u{1F4DA} Wikipedia \u{2014} press / to search", Color::Cyan),
        InputMode::Editing => (
            "\u{1F4DA} Wikipedia \u{2014} \u{2191}/\u{2193} results \u{B7} Enter search/open \u{B7} Esc done",
            Color::Blue,
        ),
    }
}

} // verus!
