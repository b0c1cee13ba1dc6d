# daily_dashboard

A terminal dashboard: calendar and greeting, weather, a daily quote, a
dictionary, a Wikipedia search, a daily picture and news headlines.

- `src/` is the verified library: the response bodies and their parsing,
  the fetch schedules and state machines of every widget, key handling, URL
  building and what each panel shows. Verus proves each function against
  its contract. The calls into outside crates (JSON text parsing with
  `serde_json`, URL serialisation with `reqwest::Url`, date parsing with
  `chrono`, image decoding with `image`, and from std Unicode case mapping,
  `{:?}` escaping and building a `String` from chars)
  are trusted wrappers: their contracts are believed,
  not proved.
- `app/` is the program around it: the terminal loop, HTTP requests and
  drawing with ratatui.
- `tests/` runs the library on concrete values.

Instants are seconds since the Unix epoch; JSON numbers keep the form they
were written in (floats by their bit pattern) and are only formatted in
`app/`.
