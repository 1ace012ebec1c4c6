# Rustico

Rustico watches Anime News Network RSS feeds and AniList's airing schedule
and announces new articles and newly aired episodes on Discord webhooks,
as Components V2 messages.

## Layout

- `src/` — the library, verified with Verus: configuration and its
  defaults, the seen-item memory (`state`), choosing and formatting
  articles (`sources/ann`) and episodes (`anilist`), the message layout and
  templates, the JSON payloads, HTML cleaning (`utils`), delivery and retry
  decisions (`discord`) and the health API replies (`api`). Calls into
  `scraper`, `regex`, `rss`, `base64`, `chrono` and `serde_json` stand
  behind small trusted wrappers whose contracts are documented where they
  are declared.
- `app/` — the program around it: reading the environment and
  `config/messages.yaml`, HTTP requests, the send loop, the state file, the
  cron schedule and the health API server.
- `tests/` — tests of the library on concrete values.

## Properties proved

Among others: each check announces an item at most once and remembers it;
a second check over the same items announces nothing; the seen lists stay
bounded and without repetition; failed deliveries are retried after 1 s,
2 s and 4 s and rate-limited ones up to three attempts; accepted settings
carry only Discord webhook URLs and an interval of at least one minute.
