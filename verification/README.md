# Congmiao FeedBot

A Telegram bot that answers links to X, YouTube, Pixiv, Bilibili and Netease Cloud Music with the
text, the pictures, the videos and the music behind them.

What the bot decides is a library that is verified with [Verus](https://github.com/verus-lang/verus):
every function states in its contract what it returns, and the proofs are checked with the code.

- `src/` is the library. It works on plain values and does no input or output.
  - `config`, `credentials`, `cache`, `storage`: the settings, the logins, the memory of the bot.
  - `provider`: which platform a link belongs to, which addresses are asked, and what the answers
    mean.
  - `media`: how a file is fetched, converted and measured until Telegram takes it.
  - `telegram`: what a message asks for, what is sent in answer, captions, albums, inline answers
    and the login by QR code.
  - `login`, `json`, `text`, `model`: the shared ground.
  - `outside`: what the library takes from other crates. Their contracts are trusted, not proved.
- `tests/` runs the library on concrete values.
- `app/` is the program around it: the network, the database, FFmpeg, yt-dlp and Telegram itself.

Functions whose name begins with `law_` are proofs of what holds of several functions together,
such as that a caption is never longer than its limit, that fetching the device cookies of Bilibili
never loses a login cookie, or that an album never has a group of one.

The code calls nothing of `takecell`. Its line in `Cargo.toml` holds that dependency of `teloxide`
at 0.1.1, as 0.1.2 needs Rust 1.96.
