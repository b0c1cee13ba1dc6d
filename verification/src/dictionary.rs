//! The Dictionary widget: the lookup request, the entries of a response,
//! the lookup lifecycle and the lines of the definition pane.
use vstd::prelude::*;
use crate::input::InputMode;
use crate::json::{array_in, array_of, chars_or, get, json_document, parse_json, str_in, array_opt, str_opt, Json};
use crate::panel::{accent, Color};
use crate::seqs::{filter_map, find_map, lemma_filter_map_take};
use crate::status::LoadingStatus;
use crate::text::{
    clone_opt, concat3, opt_view, owned, replace, replaced, str_concat, trim, trimmed,
};

verus! {

/// One definition, with its example sentence when there is one.
#[derive(Clone, Debug, Default)]
pub struct Definition {
    pub definition: String,
    pub example: Option<String>,
}

/// The definitions of one part of speech.
#[derive(Clone, Debug, Default)]
pub struct Meaning {
    pub part_of_speech: String,
    pub definitions: Vec<Definition>,
}

/// One dictionary entry.
#[derive(Clone, Debug, Default)]
pub struct DictionaryEntry {
    pub word: String,
    pub phonetic: Option<String>,
    pub meanings: Vec<Meaning>,
}

/// The chars of a definition.
pub struct DefinitionView {
    pub definition: Seq<char>,
    pub example: Option<Seq<char>>,
}

/// The chars of a meaning.
pub struct MeaningView {
    pub part_of_speech: Seq<char>,
    pub definitions: Seq<DefinitionView>,
}

/// The chars of an entry.
pub struct EntryView {
    pub word: Seq<char>,
    pub phonetic: Option<Seq<char>>,
    pub meanings: Seq<MeaningView>,
}

impl View for Definition {
    type V = DefinitionView;

    open spec fn view(&self) -> DefinitionView {
        DefinitionView { definition: self.definition@, example: opt_view(self.example) }
    }
}

impl View for Meaning {
    type V = MeaningView;

    open spec fn view(&self) -> MeaningView {
        MeaningView {
            part_of_speech: self.part_of_speech@,
            definitions: self.definitions@.map_values(|d: Definition| d@),
        }
    }
}

impl View for DictionaryEntry {
    type V = EntryView;

    open spec fn view(&self) -> EntryView {
        EntryView {
            word: self.word@,
            phonetic: opt_view(self.phonetic),
            meanings: self.meanings@.map_values(|m: Meaning| m@),
        }
    }
}

/// The views of a sequence of entries.
pub open spec fn entry_views(v: Seq<DictionaryEntry>) -> Seq<EntryView> {
    v.map_values(|e: DictionaryEntry| e@)
}

/// The definition that one element of `definitions` gives: a missing or empty
/// `definition` drops it.
pub open spec fn definition_of(d: Json) -> Option<DefinitionView> {
    let text = chars_or(str_in(get(d, "definition"@)), seq![]);
    if text.len() == 0 {
        None
    } else {
        Some(DefinitionView { definition: text, example: str_in(get(d, "example"@)) })
    }
}

/// The meaning that one element of `meanings` gives: one without any
/// definition is dropped; the part of speech defaults to empty.
pub open spec fn meaning_of(m: Json) -> Option<MeaningView> {
    let definitions = match array_in(get(m, "definitions"@)) {
        Some(items) => filter_map(items, |d: Json| definition_of(d)),
        None => seq![],
    };
    if definitions.len() == 0 {
        None
    } else {
        Some(
            MeaningView {
                part_of_speech: chars_or(str_in(get(m, "partOfSpeech"@)), seq![]),
                definitions,
            },
        )
    }
}

/// The pronunciation of an entry: its `phonetic` string, or else the first
/// `text` among its `phonetics`.
pub open spec fn phonetic_of(entry: Json) -> Option<Seq<char>> {
    match str_in(get(entry, "phonetic"@)) {
        Some(p) => Some(p),
        None => match array_in(get(entry, "phonetics"@)) {
            Some(items) => find_map(items, |p: Json| str_in(get(p, "text"@))),
            None => None,
        },
    }
}

/// The entry that one element of a response gives; it needs a string
/// `word`.
pub open spec fn entry_of(entry: Json) -> Option<EntryView> {
    match str_in(get(entry, "word"@)) {
        Some(word) => Some(
            EntryView {
                word,
                phonetic: phonetic_of(entry),
                meanings: match array_in(get(entry, "meanings"@)) {
                    Some(items) => filter_map(items, |m: Json| meaning_of(m)),
                    None => seq![],
                },
            },
        ),
        None => None,
    }
}

/// The view of an optional entry.
pub open spec fn opt_entry(e: Option<DictionaryEntry>) -> Option<EntryView> {
    match e {
        Some(x) => Some(x@),
        None => None,
    }
}

/// The definition that one element of `definitions` gives.
pub fn parse_definition(d: &Json) -> (r: Option<Definition>)
    ensures
        match r {
            Some(x) => definition_of(*d) == Some(x@),
            None => definition_of(*d) is None,
        },
{
    let text = match str_opt(d.get("definition")) {
        Some(t) => t,
        None => return None,
    };
    if text.as_str().is_empty() {
        return None;
    }
    let example = match str_opt(d.get("example")) {
        Some(e) => Some(e.clone()),
        None => None,
    };
    Some(Definition { definition: text.clone(), example })
}

/// The meaning that one element of `meanings` gives.
pub fn parse_meaning(m: &Json) -> (r: Option<Meaning>)
    ensures
        match r {
            Some(x) => meaning_of(*m) == Some(x@),
            None => meaning_of(*m) is None,
        },
{
    let mut definitions: Vec<Definition> = Vec::new();
    let ghost target = match array_in(get(*m, "definitions"@)) {
        Some(items) => filter_map(items, |d: Json| definition_of(d)),
        None => seq![],
    };
    match array_opt(m.get("definitions")) {
        Some(items) => {
            let ghost f = |d: Json| definition_of(d);
            let mut i: usize = 0;
            assert(items@.take(0) =~= seq![]);
            assert(definitions@.map_values(|d: Definition| d@) =~= seq![]);
            while i < items.len()
                invariant
                    i <= items.len(),
                    f == (|d: Json| definition_of(d)),
                    definitions@.map_values(|d: Definition| d@) == filter_map(
                        items@.take(i as int),
                        f,
                    ),
                decreases items.len() - i,
            {
                proof {
                    lemma_filter_map_take(items@, f, i as int);
                }
                match parse_definition(&items[i]) {
                    Some(d) => {
                        proof {
                            assert(definitions@.push(d).map_values(|x: Definition| x@)
                                =~= definitions@.map_values(|x: Definition| x@).push(d@));
                        }
                        definitions.push(d);
                    },
                    None => {},
                }
                i = i + 1;
            }
            assert(items@.take(items@.len() as int) =~= items@);
        },
        None => {
            assert(definitions@.map_values(|d: Definition| d@) =~= seq![]);
        },
    }
    if definitions.len() == 0 {
        return None;
    }
    let part_of_speech = match str_opt(m.get("partOfSpeech")) {
        Some(p) => p.clone(),
        None => String::new(),
    };
    Some(Meaning { part_of_speech, definitions })
}

/// The pronunciation of an entry.
pub fn parse_phonetic(entry: &Json) -> (r: Option<String>)
    ensures
        opt_view(r) == phonetic_of(*entry),
{
    match str_opt(entry.get("phonetic")) {
        Some(p) => return Some(p.clone()),
        None => {},
    }
    let items = match array_opt(entry.get("phonetics")) {
        Some(items) => items,
        None => return None,
    };
    let ghost f = |p: Json| str_in(get(p, "text"@));
    let mut i: usize = 0;
    assert(items@.skip(0) =~= items@);
    while i < items.len()
        invariant
            i <= items.len(),
            str_in(get(*entry, "phonetic"@)) is None,
            array_in(get(*entry, "phonetics"@)) == Some(items@),
            f == (|p: Json| str_in(get(p, "text"@))),
            find_map(items@, f) == find_map(items@.skip(i as int), f),
        decreases items.len() - i,
    {
        proof {
            assert(items@.skip(i as int).drop_first() =~= items@.skip(i + 1));
            assert(items@.skip(i as int)[0] == items@[i as int]);
        }
        match str_opt(items[i].get("text")) {
            Some(t) => {
                assert(f(items@[i as int]) == Some(t@));
                return Some(t.clone());
            },
            None => {},
        }
        i = i + 1;
    }
    None
}

/// The entry that one element of a response gives.
pub fn parse_entry(entry: &Json) -> (r: Option<DictionaryEntry>)
    ensures
        opt_entry(r) == entry_of(*entry),
{
    let word = match str_opt(entry.get("word")) {
        Some(w) => w.clone(),
        None => return None,
    };
    let phonetic = parse_phonetic(entry);
    let mut meanings: Vec<Meaning> = Vec::new();
    match array_opt(entry.get("meanings")) {
        Some(items) => {
            let ghost f = |m: Json| meaning_of(m);
            let mut i: usize = 0;
            assert(items@.take(0) =~= seq![]);
            assert(meanings@.map_values(|m: Meaning| m@) =~= seq![]);
            while i < items.len()
                invariant
                    i <= items.len(),
                    f == (|m: Json| meaning_of(m)),
                    meanings@.map_values(|m: Meaning| m@) == filter_map(items@.take(i as int), f),
                decreases items.len() - i,
            {
                proof {
                    lemma_filter_map_take(items@, f, i as int);
                }
                match parse_meaning(&items[i]) {
                    Some(m) => {
                        proof {
                            assert(meanings@.push(m).map_values(|x: Meaning| x@) =~= meanings@.map_values(
                                |x: Meaning| x@,
                            ).push(m@));
                        }
                        meanings.push(m);
                    },
                    None => {},
                }
                i = i + 1;
            }
            assert(items@.take(items@.len() as int) =~= items@);
        },
        None => {
            assert(meanings@.map_values(|m: Meaning| m@) =~= seq![]);
        },
    }
    Some(DictionaryEntry { word, phonetic, meanings })
}

/// The message when a lookup finds no definition.
pub open spec fn no_definitions() -> Seq<char> {
    "No definitions found"@
}

/// What a lookup response yields: the entries of a non-empty array, an error
/// when none of them parses, and otherwise the response's `resolution`
/// message (or the default one).
pub open spec fn response_entries(json: Json) -> Result<Seq<EntryView>, Seq<char>> {
    match array_of(json) {
        Some(items) => if items.len() > 0 {
            let entries = filter_map(items, |e: Json| entry_of(e));
            if entries.len() == 0 {
                Err(no_definitions())
            } else {
                Ok(entries)
            }
        } else {
            Err(chars_or(str_in(get(json, "resolution"@)), no_definitions()))
        },
        None => Err(chars_or(str_in(get(json, "resolution"@)), no_definitions())),
    }
}

/// The words of the elements of `items` that have a string `word`, in order.
pub open spec fn words_of(items: Seq<Json>) -> Seq<Seq<char>>
    decreases items.len(),
{
    if items.len() == 0 {
        seq![]
    } else {
        match str_in(get(items.last(), "word"@)) {
            Some(w) => words_of(items.drop_last()).push(w),
            None => words_of(items.drop_last()),
        }
    }
}

/// The entries parsed from `items` carry exactly the words of its elements
/// that have one, in order.
proof fn lemma_entry_words(items: Seq<Json>)
    ensures
        filter_map(items, |e: Json| entry_of(e)).map_values(|e: EntryView| e.word) == words_of(items),
    decreases items.len(),
{
    if items.len() > 0 {
        lemma_entry_words(items.drop_last());
        let f = |e: Json| entry_of(e);
        let rest = filter_map(items.drop_last(), f);
        match f(items.last()) {
            Some(x) => {
                assert(rest.push(x).map_values(|e: EntryView| e.word) =~= rest.map_values(
                    |e: EntryView| e.word,
                ).push(x.word));
            },
            None => {},
        }
    }
}

/// A lookup keeps every entry of the response: for a non-empty array, a
/// successful lookup has one entry per element with a string `word`, with
/// that word, in the array's order, and the lookup fails only when no
/// element has one.
pub proof fn lemma_lookup_keeps_every_entry(json: Json)
    ensures
        match array_of(json) {
            Some(items) => items.len() > 0 ==> match response_entries(json) {
                Ok(es) => es.map_values(|e: EntryView| e.word) == words_of(items),
                Err(_) => words_of(items).len() == 0,
            },
            None => true,
        },
{
    match array_of(json) {
        Some(items) => {
            lemma_entry_words(items);
            let es = filter_map(items, |e: Json| entry_of(e));
            if es.len() == 0 {
                assert(es.map_values(|e: EntryView| e.word).len() == 0);
            }
        },
        None => {},
    }
}

/// What a lookup response yields.
pub fn entries_from_response(json: &Json) -> (r: Result<Vec<DictionaryEntry>, String>)
    ensures
        match r {
            Ok(v) => response_entries(*json) == Ok::<Seq<EntryView>, Seq<char>>(entry_views(v@)),
            Err(e) => response_entries(*json) == Err::<Seq<EntryView>, Seq<char>>(e@),
        },
{
    let items = match json.as_array() {
        Some(items) => if items.len() > 0 {
            items
        } else {
            return Err(resolution_message(json));
        },
        None => return Err(resolution_message(json)),
    };
    let ghost f = |e: Json| entry_of(e);
    let mut entries: Vec<DictionaryEntry> = Vec::new();
    let mut i: usize = 0;
    assert(items@.take(0) =~= seq![]);
    assert(entry_views(entries@) =~= seq![]);
    while i < items.len()
        invariant
            i <= items.len(),
            f == (|e: Json| entry_of(e)),
            entry_views(entries@) == filter_map(items@.take(i as int), f),
        decreases items.len() - i,
    {
        proof {
            lemma_filter_map_take(items@, f, i as int);
        }
        match parse_entry(&items[i]) {
            Some(e) => {
                proof {
                    assert(entry_views(entries@.push(e)) =~= entry_views(entries@).push(e@));
                }
                entries.push(e);
            },
            None => {},
        }
        i = i + 1;
    }
    assert(items@.take(items@.len() as int) =~= items@);
    if entries.len() == 0 {
        Err(owned("No definitions found"))
    } else {
        Ok(entries)
    }
}

/// The response's `resolution` message, or the default one.
fn resolution_message(json: &Json) -> (m: String)
    ensures
        m@ == chars_or(str_in(get(*json, "resolution"@)), no_definitions()),
{
    match str_opt(json.get("resolution")) {
        Some(r) => r.clone(),
        None => owned("No definitions found"),
    }
}

/// The lookup URL for `word`: spaces become `%20`.
pub open spec fn lookup_url_of(word: Seq<char>) -> Seq<char> {
    "https://api.dictionaryapi.dev/api/v2/entries/en/"@ + replaced(word, " "@, "%20"@)
}

/// The lookup URL for `word`.
pub fn lookup_url(word: &str) -> (url: String)
    ensures
        url@ == lookup_url_of(word@),
{
    proof {
        reveal_strlit(" ");
    }
    let encoded = replace(word, " ", "%20");
    str_concat("https://api.dictionaryapi.dev/api/v2/entries/en/", encoded.as_str())
}

/// The Dictionary widget's state.
#[derive(Debug)]
pub struct DictionaryData {
    pub loading_status: LoadingStatus,
    pub search_word: String,
    pub entries: Vec<DictionaryEntry>,
    pub last_updated_at: Option<i64>,
}

impl DictionaryData {
    /// Nothing looked up yet.
    pub fn new() -> (d: DictionaryData)
        ensures
            d.loading_status is NotStarted,
            d.search_word@ == Seq::<char>::empty(),
            d.entries@.len() == 0,
            d.last_updated_at is None,
    {
        DictionaryData {
            loading_status: LoadingStatus::NotStarted,
            search_word: String::new(),
            entries: Vec::new(),
            last_updated_at: None,
        }
    }

    /// Starts looking up the trimmed `input`, unless it is empty; returns
    /// the word to look up.
    pub fn begin_lookup(&mut self, input: &str) -> (word: Option<String>)
        ensures
            trimmed(input@).len() == 0 ==> word is None && *final(self) == *old(self),
            trimmed(input@).len() > 0 ==> {
                &&& word matches Some(w) && w@ == trimmed(input@)
                &&& final(self).search_word@ == trimmed(input@)
                &&& final(self).entries@.len() == 0
                &&& final(self).loading_status is Loading
                &&& final(self).last_updated_at == old(self).last_updated_at
            },
    {
        let word = trim(input);
        if word.as_str().is_empty() {
            return None;
        }
        self.search_word = word.clone();
        self.entries = Vec::new();
        self.loading_status = LoadingStatus::Loading;
        Some(word)
    }

    /// Takes the outcome of the lookup finished at `now`: the entries, or the
    /// message of what went wrong.
    pub fn finish_lookup(&mut self, outcome: Result<Vec<DictionaryEntry>, String>, now: i64)
        ensures
            final(self).search_word == old(self).search_word,
            match outcome {
                Ok(entries) => final(self).entries == entries && final(self).last_updated_at == Some(
                    now,
                ) && final(self).loading_status is Loaded,
                Err(message) => final(self).loading_status == LoadingStatus::Error(message)
                    && final(self).entries == old(self).entries && final(self).last_updated_at
                    == old(self).last_updated_at,
            },
    {
        match outcome {
            Ok(entries) => {
                self.entries = entries;
                self.last_updated_at = Some(now);
                self.loading_status = LoadingStatus::Loaded;
            },
            Err(message) => {
                self.loading_status = LoadingStatus::Error(message);
            },
        }
    }
}

impl DictionaryData {
    /// Takes the body of the lookup response for the current word, received
    /// at `now`: a body that is not JSON fails with the lookup URL; otherwise
    /// the response's entries, or its error, are taken.
    pub fn finish_lookup_body(&mut self, body: &str, now: i64)
        ensures
            final(self).search_word == old(self).search_word,
            match json_document(body@) {
                Err(_) => {
                    &&& final(self).loading_status matches LoadingStatus::Error(e) && e@
                        == "failed to parse JSON from "@ + lookup_url_of(old(self).search_word@)
                    &&& final(self).entries == old(self).entries
                    &&& final(self).last_updated_at == old(self).last_updated_at
                },
                Ok(j) => match response_entries(j) {
                    Ok(es) => entry_views(final(self).entries@) == es && final(self).last_updated_at
                        == Some(now) && final(self).loading_status is Loaded,
                    Err(m) => final(self).loading_status matches LoadingStatus::Error(e) && e@ == m
                        && final(self).entries == old(self).entries
                        && final(self).last_updated_at == old(self).last_updated_at,
                },
            },
    {
        let outcome = match parse_json(body) {
            Ok(j) => entries_from_response(&j),
            Err(_) => {
                let url = lookup_url(self.search_word.as_str());
                Err(str_concat("failed to parse JSON from ", url.as_str()))
            },
        };
        self.finish_lookup(outcome, now);
    }
}

/// One line of the definition pane.
#[derive(Clone, Debug)]
pub enum DefinitionLine {
    /// The word, with its pronunciation when there is one.
    Heading { word: String, phonetic: Option<String> },
    Blank,
    PartOfSpeech(String),
    Definition(String),
    Example(String),
}

/// The chars of a line of the definition pane.
pub enum LineView {
    Heading { word: Seq<char>, phonetic: Option<Seq<char>> },
    Blank,
    PartOfSpeech(Seq<char>),
    Definition(Seq<char>),
    Example(Seq<char>),
}

impl View for DefinitionLine {
    type V = LineView;

    open spec fn view(&self) -> LineView {
        match self {
            DefinitionLine::Heading { word, phonetic } => LineView::Heading {
                word: word@,
                phonetic: opt_view(*phonetic),
            },
            DefinitionLine::Blank => LineView::Blank,
            DefinitionLine::PartOfSpeech(s) => LineView::PartOfSpeech(s@),
            DefinitionLine::Definition(s) => LineView::Definition(s@),
            DefinitionLine::Example(s) => LineView::Example(s@),
        }
    }
}

/// The views of a sequence of lines.
pub open spec fn line_views(v: Seq<DefinitionLine>) -> Seq<LineView> {
    v.map_values(|l: DefinitionLine| l@)
}

/// The lines of one definition: the definition, then its example if any.
pub open spec fn definition_lines_of(d: DefinitionView) -> Seq<LineView> {
    match d.example {
        Some(e) => seq![LineView::Definition(d.definition), LineView::Example(e)],
        None => seq![LineView::Definition(d.definition)],
    }
}

/// The lines of several definitions, one after the other.
pub open spec fn definitions_lines(ds: Seq<DefinitionView>) -> Seq<LineView>
    decreases ds.len(),
{
    if ds.len() == 0 {
        seq![]
    } else {
        definitions_lines(ds.drop_last()) + definition_lines_of(ds.last())
    }
}

/// The lines of one meaning: its part of speech, its definitions, a blank.
pub open spec fn meaning_lines(m: MeaningView) -> Seq<LineView> {
    seq![LineView::PartOfSpeech(m.part_of_speech)] + definitions_lines(m.definitions) + seq![
        LineView::Blank,
    ]
}

/// The lines of several meanings, one after the other.
pub open spec fn meanings_lines(ms: Seq<MeaningView>) -> Seq<LineView>
    decreases ms.len(),
{
    if ms.len() == 0 {
        seq![]
    } else {
        meanings_lines(ms.drop_last()) + meaning_lines(ms.last())
    }
}

/// The lines of one entry: its heading, a blank, its meanings.
pub open spec fn entry_lines(e: EntryView) -> Seq<LineView> {
    seq![LineView::Heading { word: e.word, phonetic: e.phonetic }, LineView::Blank]
        + meanings_lines(e.meanings)
}

/// The lines of several entries, one after the other.
pub open spec fn entries_lines(es: Seq<EntryView>) -> Seq<LineView>
    decreases es.len(),
{
    if es.len() == 0 {
        seq![]
    } else {
        entries_lines(es.drop_last()) + entry_lines(es.last())
    }
}

/// Appends the lines of `d`.
fn push_definition_lines(lines: &mut Vec<DefinitionLine>, d: &Definition)
    ensures
        line_views(final(lines)@) == line_views(old(lines)@) + definition_lines_of(d@),
{
    let ghost before = line_views(lines@);
    lines.push(DefinitionLine::Definition(d.definition.clone()));
    match &d.example {
        Some(e) => {
            lines.push(DefinitionLine::Example(e.clone()));
        },
        None => {},
    }
    assert(line_views(lines@) =~= before + definition_lines_of(d@));
}

/// Appends the lines of `m`.
fn push_meaning_lines(lines: &mut Vec<DefinitionLine>, m: &Meaning)
    ensures
        line_views(final(lines)@) == line_views(old(lines)@) + meaning_lines(m@),
{
    let ghost before = line_views(lines@);
    lines.push(DefinitionLine::PartOfSpeech(m.part_of_speech.clone()));
    let ghost ds = m@.definitions;
    let mut i: usize = 0;
    assert(line_views(lines@) =~= before + seq![LineView::PartOfSpeech(m@.part_of_speech)]
        + definitions_lines(ds.take(0)));
    while i < m.definitions.len()
        invariant
            i <= m.definitions@.len(),
            ds == m.definitions@.map_values(|d: Definition| d@),
            line_views(lines@) == before + seq![LineView::PartOfSpeech(m@.part_of_speech)]
                + definitions_lines(ds.take(i as int)),
        decreases m.definitions@.len() - i,
    {
        proof {
            assert(ds.take(i + 1).drop_last() =~= ds.take(i as int));
        }
        push_definition_lines(lines, &m.definitions[i]);
        i = i + 1;
    }
    assert(ds.take(ds.len() as int) =~= ds);
    let ghost mid = line_views(lines@);
    lines.push(DefinitionLine::Blank);
    assert(line_views(lines@) =~= mid.push(LineView::Blank));
    assert(line_views(lines@) =~= before + meaning_lines(m@));
}

/// Appends the lines of `e`.
fn push_entry_lines(lines: &mut Vec<DefinitionLine>, e: &DictionaryEntry)
    ensures
        line_views(final(lines)@) == line_views(old(lines)@) + entry_lines(e@),
{
    let ghost before = line_views(lines@);
    lines.push(
        DefinitionLine::Heading { word: e.word.clone(), phonetic: clone_opt(&e.phonetic) },
    );
    lines.push(DefinitionLine::Blank);
    let ghost ms = e@.meanings;
    let ghost head = seq![LineView::Heading { word: e@.word, phonetic: e@.phonetic }, LineView::Blank];
    let mut i: usize = 0;
    assert(line_views(lines@) =~= before + head + meanings_lines(ms.take(0)));
    while i < e.meanings.len()
        invariant
            i <= e.meanings@.len(),
            ms == e.meanings@.map_values(|m: Meaning| m@),
            line_views(lines@) == before + head + meanings_lines(ms.take(i as int)),
        decreases e.meanings@.len() - i,
    {
        proof {
            assert(ms.take(i + 1).drop_last() =~= ms.take(i as int));
        }
        push_meaning_lines(lines, &e.meanings[i]);
        i = i + 1;
    }
    assert(ms.take(ms.len() as int) =~= ms);
    assert(line_views(lines@) =~= before + entry_lines(e@));
}

/// The lines of the definition pane for `entries`: for each entry its
/// heading and a blank; for each meaning its part of speech, its definitions
/// each followed by its example, and a blank.
pub fn definition_lines(entries: &Vec<DictionaryEntry>) -> (lines: Vec<DefinitionLine>)
    ensures
        line_views(lines@) == entries_lines(entry_views(entries@)),
{
    let mut lines: Vec<DefinitionLine> = Vec::new();
    let ghost es = entry_views(entries@);
    let mut i: usize = 0;
    assert(line_views(lines@) =~= entries_lines(es.take(0)));
    while i < entries.len()
        invariant
            i <= entries@.len(),
            es == entry_views(entries@),
            line_views(lines@) == entries_lines(es.take(i as int)),
        decreases entries@.len() - i,
    {
        proof {
            assert(es.take(i + 1).drop_last() =~= es.take(i as int));
        }
        push_entry_lines(&mut lines, &entries[i]);
        i = i + 1;
    }
    assert(es.take(es.len() as int) =~= es);
    lines
}

/// The text of a line as the pane prints it.
pub open spec fn line_text(l: LineView) -> Seq<char> {
    match l {
        LineView::Heading { word, phonetic } => match phonetic {
            Some(p) => word + " "@ + p,
            None => word,
        },
        LineView::Blank => seq![],
        LineView::PartOfSpeech(s) => s,
        LineView::Definition(s) => "  \u{2022} "@ + s,
        LineView::Example(s) => "      "@ + s,
    }
}

impl DefinitionLine {
    /// The text of this line as the pane prints it.
    pub fn text(&self) -> (t: String)
        ensures
            t@ == line_text(self@),
    {
        match self {
            DefinitionLine::Heading { word, phonetic } => match phonetic {
                Some(p) => concat3(word.as_str(), " ", p.as_str()),
                None => word.clone(),
            },
            DefinitionLine::Blank => {
                proof {
                    reveal_strlit("");
                }
                owned("")
            },
            DefinitionLine::PartOfSpeech(s) => s.clone(),
            DefinitionLine::Definition(s) => str_concat("  \u{2022} ", s.as_str()),
            DefinitionLine::Example(s) => str_concat("      ", s.as_str()),
        }
    }
}

/// What the definition pane shows.
#[derive(Clone, Debug)]
pub enum DefinitionPanel {
    /// A hint, before any lookup.
    Hint(String),
    /// The word being looked up.
    LookingUp(String),
    /// A failed lookup: the heading and the error message.
    NotFound { heading: String, message: String },
    Entries(Vec<DefinitionLine>),
}

impl DictionaryData {
    /// What the definition pane shows.
    pub fn panel(&self) -> (p: DefinitionPanel)
        ensures
            match self.loading_status {
                LoadingStatus::NotStarted => p matches DefinitionPanel::Hint(h) && h@
                    == "Press Esc to type a word above, then Enter to look it up."@,
                LoadingStatus::Loading => p matches DefinitionPanel::LookingUp(m) && m@
                    == "Looking up \""@ + self.search_word@ + "\"..."@,
                LoadingStatus::Error(e) => p matches DefinitionPanel::NotFound { heading, message }
                    && heading@ == "No results for \""@ + self.search_word@ + "\""@ && message@
                    == e@,
                LoadingStatus::Loaded => p matches DefinitionPanel::Entries(lines) && line_views(
                    lines@,
                ) == entries_lines(entry_views(self.entries@)),
            },
    {
        match &self.loading_status {
            LoadingStatus::NotStarted => DefinitionPanel::Hint(
                owned("Press Esc to type a word above, then Enter to look it up."),
            ),
            LoadingStatus::Loading => DefinitionPanel::LookingUp(
                concat3("Looking up \"", self.search_word.as_str(), "\"..."),
            ),
            LoadingStatus::Error(e) => DefinitionPanel::NotFound {
                heading: concat3("No results for \"", self.search_word.as_str(), "\""),
                message: e.clone(),
            },
            LoadingStatus::Loaded => DefinitionPanel::Entries(definition_lines(&self.entries)),
        }
    }
}

/// The title of the Dictionary's input field and its color, by mode.
pub fn input_title(mode: InputMode) -> (t: (&'static str, Color))
    ensures
        mode == InputMode::Normal ==> t.0@ == "\u{1F50D} Dictionary \u{2014} press Esc to type a word"@
            && t.1 == accent(),
        mode == InputMode::Editing ==> t.0@
            == "\u{1F50D} Dictionary \u{2014} Enter to search \u{B7} Esc to done"@ && t.1
            == Color::Blue,
{
    match mode {
        InputMode::Normal => ("\u{1F50D} Dictionary \u{2014} press Esc to type a word", Color::Cyan),
        InputMode::Editing => (
            "\u{1F50D} Dictionary \u{2014} Enter to search \u{B7} Esc to done",
            Color::Blue,
        ),
    }
}

} // verus!
