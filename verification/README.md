# modbot

A Telegram group-moderation bot (notes, filters, welcome and goodbye
messages, rules, warnings, bans, mutes, purges, pins, approvals, antiflood,
AFK) whose decision logic is a library verified with Verus.

## Layout

- `src/` — the verified library.
  - `text.rs` — characters, words, trimming, replacing, integer parsing and
    decimal printing, each against a specification over `Seq<char>`.
  - `markup.rs` — buttons, inline keyboards, users; URL buttons keep only
    URLs that `url::Url::parse` accepts.
  - `utils/` — the content syntax: `{button:label|url}` rows, `{admin}`-style
    tags, `%%%` random parts, fillings such as `{first}` and `{mention}`,
    durations, reply targets and target resolution.
  - `plugins/` — one module per command group. Each command is a function
    from the message (and the answers to the questions it asks, such as
    whether the sender may restrict members) to an outcome: a reply, a
    question to answer first, or the action to carry out.
  - `laws.rs` — properties of the library as a whole, proved.
- `tests/` — the library's tests.
- `app/` — the Telegram side: command parsing and routing, the Bot API
  calls, in-memory stores and the rendering of translated texts.

## Dependencies

`takecell` is not called by this crate: it comes in through `teloxide-core`.
`Cargo.toml` holds it below 0.1.2, whose releases ask for a newer Rust
compiler than the one this crate is built with.
