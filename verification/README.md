# youtube-lounge-rs

A client for the YouTube Lounge API (controlling playback on TVs and other
connected screens), whose logic is a library verified with Verus.

## Layout

- `src/` — the verified library. Every function states its behaviour in
  `requires`/`ensures` over mathematical models, and the laws of the library
  are public proof functions.
  - `codec.rs` — framing of the event stream (`<length>\n<content>`),
    incremental decoding, with the round-trip laws.
  - `events.rs` — processing of decoded event batches: which events are
    reported, the CPN pairing of records and states into playback sessions,
    the remembered event id.
  - `protocol.rs` — the parameters of every request and the meaning of every
    response status (pairing, token refresh, bind, poll, commands, terminate).
  - `manager.rs` — the decisions of the background connection manager:
    which cycle runs next, what follows each outcome, the backoff bounds.
  - `commands.rs`, `form.rs` — playback commands and their form encoding.
  - `state.rs` — connection states and the session bookkeeping (ids, request
    counters).
  - `models.rs`, `error.rs`, `settings.rs`, `utils/` — the data model, errors,
    tunables and value parsing.
  - `text.rs` — the string toolkit the rest is built on (trimming, decimal
    parsing and formatting), with its round-trip laws.
- `app/` — the asynchronous client around the library: HTTP requests, the
  background task, JSON decoding with serde, the environment settings, and
  what involves floats or random numbers.
- `tests/` — tests of the library on concrete values.
