# open_eyes

An assistant for open government data: it crawls a CKAN portal (GovData.de by
default), loads the CSV and JSON resources it finds into SQLite tables, and
answers questions about them by asking a language model to pick tables, write
a query and summarize the rows.

The library under `src/` is written in Verus: each function states what it
computes, and Verus proves it.

- `text`, `arrays`: character-level text operations (trimming, splitting,
  SQL and JSON literals, decimal numerals) and reading list columns back.
- `config`, `errors`, `models`: settings with their defaults and overrides,
  error messages, and the records exchanged.
- `crawl`, `ingest`, `store`: paging through the portal, the statements that
  store packages, loading a resource into a table, and the store's schema and
  replies.
- `llm`, `chat`, `charts`: the model's prompts, reading its replies, the
  steps of answering a question, and the non-numeric parts of a chart.
- `dashboard`, `ui`: the dashboard's queries and records, and what its
  screens decide (texts, chat panel, catalogue pages, navigation, previews).

`app/` is the command-line program around the library: it reads the
configuration, talks to SQLite, the portal and the model endpoint, and hands
the library plain values. `tests/` holds the tests.
