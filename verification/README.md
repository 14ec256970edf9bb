# telegram_mp3_bot

A Telegram bot that converts YouTube videos to MP3 through a RapidAPI
conversion service, with a weekly quota of free downloads per chat and
premium chats without a limit.

Layout:

- `src/` — the verified library (Verus):
  - `usage_manager.rs` — per-chat download records, quota checks, premium
    flags, and the laws they obey (weekly limit, resets, premium);
  - `bot.rs` — what the bot answers to each text message and command;
  - `converter.rs` — video ids, request details, the polling protocol of the
    conversion service and the download decisions;
  - `gemini.rs` — the Gemini request address and the reading of its reply;
  - `text.rs` — decimal rendering, integer/boolean parsing, word splitting,
    substring search, padding and hexadecimal;
  - `clock.rs` — the current ISO week.
- `app/` — the program: Telegram, HTTP, files and the JSON store.
- `tests/` — tests of the library.

`Cargo.toml` names `takecell` only to hold it below 0.1.2: teloxide depends
on it, and 0.1.2 needs a newer Rust compiler than the one this crate is
built with. No code here uses it.
