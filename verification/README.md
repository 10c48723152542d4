# media_vault

A movie library kept on a 115 cloud drive: it scans the drive for videos, parses their
file names into codes, asks scrape sources for each movie, keeps actresses, groups and
play progress in SQLite, and stores secrets encrypted under a machine key.

## Layout

- `src/` — the library, written in Verus. Every function states its result in a
  contract and is proved against it; where a result rests on the clock or on chance
  (the time, an encryption nonce), the contract states what holds whatever they give,
  and the computation on what they gave is a function of its own with an exact contract.
  - `filename_parser`, `text`, `url_encoding`, `fields`: parsing and text rules.
  - `scrape`, `metatube`, `sources`, `pages`, `javbus`, `jav321`, `jphoo`, `tmdb`,
    `html`, `json_reply`, `genre_translation`: what each scrape source is asked and what
    its page or reply gives, the ranking of answers and the genre translation flow.
  - `pan115`, `scanner`: the drive session, its replies, and the scan decisions (what
    each mode does with each file found, and the counts).
  - `actress_folder`, `actress_listing`, `sql`, `records`, `image_cache`: actresses,
    their folders, the SQL the listings run, and the records the commands answer with.
  - `crypto`, `secure_config`, `config`, `logger`, `error`: encryption, configuration,
    masking of secrets in logs, and the error codes.
- `tests/` — tests of the library on concrete values.
- `app/` — the shell around the library: the database connection, HTTP requests, file
  system work, the logger and the MetaTube process.

The outside crates the library calls (`aes-gcm`, `base64`, `sha2`, `rand`, `scraper`,
`serde_json`) are reached through small trusted wrappers whose contracts say what each
call is relied on for.
