# Lumastra Discord RPC

A tray app that shows what you are playing on a self-hosted Lumastra server in
your Discord status. It broadcasts your own sessions only, of the media types
you switched on, and nothing while presence is paused, nor while the server has
not confirmed which account is signed in.

The rules it goes by are a library, written in Verus and proved; the app around
it does the talking.

## Layout

- `src/` — the library.
  - `api` — sessions as the server lists them, requests, and what replies mean.
  - `auth` — device authorization, token stores, signing in and out.
  - `config` — user settings. `files` — replacing a file as a whole.
  - `mapper` — which session is broadcast, and what it looks like;
    `mapper/laws.rs` says what holds of every presence.
  - `poller` — one poll cycle, decision by decision; `poller/laws.rs` says what
    holds of every cycle.
  - `presence` — the Discord payload, and when it is sent.
  - `media`, `text`, `urls` — shared ground.
- `tests/` — the library on concrete values.
- `app/` — windows and tray, sockets, files, keychain and HTTP.

## How the library and the app work together

Where a decision depends on the outside world, the library returns a step that
says what to do, and a function takes in the outcome: `poller::Step` for a poll
cycle, `auth::login::LoginStep` for signing in, `auth::tokens::StoreStep` for
persisting tokens, `files::SaveStage` for writing a file, and
`presence::client::ApplyStep` for the Discord socket. The app loops over the
steps.

Two calls leave the library directly: `url` parses and joins addresses, and
`discord-rich-presence` builds the payload. What is claimed of them stands in
the `ensures` of the small functions that make the calls, in `src/urls.rs` and
`src/presence/activity.rs`.
