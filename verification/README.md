# Slipmat

The rules behind a player for Apple Music on Linux: what the daemon answers its
clients, what the window does about what the player reports, what the terminal
draws, and what the session bus is told. All of it is written in Verus, and each
function states what it returns or changes.

## How it is laid out

- `src/` is the library. It does no input or output. What has to happen outside of
  it is left as a list: commands for the player (`Deck::outbox`), tasks
  (`serve::Task`), effects (`app::model::Effect`) or requests (`climat::client::App`).
  - `queue`, `deck`: building a queue, retrying a refused one, confirming a start.
  - `daemon`, `serve`, `supervise`, `ipc`: the daemon and its contract with clients.
  - `rest`: the daemon puts its player down after five idle minutes, and starts it
    again when something is asked of it.
  - `mpris`, `mpris_player`: the player on the session bus.
  - `view`, `sort`, `order`, `compare`, `library`: what is shown, and in which order.
  - `app`: the window's model.
  - `climat`: the terminal client and its screen.
  - `text`, `markup`, `ids`, `volume`, `music`, `protocol`: what the others are made
    of.
  - Files named `laws.rs` or `*_laws.rs` hold what is true of several functions at
    once, stated as public proof functions.
- `app/` holds the programs: `climat`, the player for the terminal, and `slipmatd`,
  the daemon. One binary is both, by the name it is started under. The process that
  plays is started as `slipmat-sidecar`, and the music service is asked through
  `slipmat-service`; `SLIPMAT_SIDECAR` and `SLIPMAT_SERVICE` name others.
- `tests/` runs the library on concrete values.

## What is trusted

- `text`: `String::push`, `String::pop`, `str::trim`, `str::to_lowercase` and
  `str::to_uppercase`.
- `mpris`: `mpris_server::TrackId::try_from` takes exactly the object paths.
- `climat::screen`: `ratatui`'s `Layout::split` gives one pane for each constraint,
  within the area and at its full width. A handful of them come in order, and are
  as high as they were asked to be where there is room for all.

A volume is carried as the bits of an `f64` and compared, never computed with.
What needs floating point (the bars, the meters, whether two volumes differ by more
than rounding) is in `app/` and handed to the library as integers or booleans.
