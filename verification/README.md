# music_importer

A local service that imports songs from Suno song pages: it admits only song
page addresses on `suno.com` (or a subdomain), fetches the page, extracts the
title, lyrics and audio address, optionally saves the audio, and stores the
import in SQLite behind a small HTTP API.

- `src/` — the library, verified with Verus:
  - `text.rs`: whitespace (Unicode `White_Space`), trimming, word splitting,
    `normalize_text`, prefix/suffix tests, decimal rendering, with the laws of
    normalisation and trimming;
  - `external.rs`: the calls into `url`, `scraper` and `serde_json`, with the
    contracts Verus trusts;
  - `importer.rs`: `ImportError`, URL admission (`validate_suno_song_url`);
  - `metadata.rs`: reading a song page and building `SongMetadata`;
  - `models.rs`: the data types exchanged with the HTTP layer;
  - `api.rs`: the decisions of the endpoints, including the step function
    that drives an import request.
- `app/` — the program: HTTP server (axum), page and audio downloads
  (reqwest), SQLite storage (rusqlite), logging.
- `tests/` — tests of the library against the real outside crates.
