# slashook

A library for Discord bots that receive interactions (slash commands, components, modals,
autocomplete) and application events over a webhook, with a client for Discord's REST API.

The library's logic is written in Verus and proved against its contracts:

- `src/structs/`: Discord's objects, with their builders, flags, number codes and CDN urls.
- `src/commands/`: commands and their conversion into application commands; the responses a
  command gives; reading a command's input (options, select values, modal fields, context
  targets) out of an interaction.
- `src/webhook/`: checking a request's Ed25519 signature and deciding how it is answered.
- `src/rest/`: the urls, routes, authorization and uploaded files of requests to the API.
- `src/events/`: reading the input of an event.
- `src/text.rs`, `src/keyed.rs`: text and keyed-list helpers the rest is stated with.

`app/` is the runtime around it, in plain Rust: the web server (rocket), the REST client
(reqwest), the command and event registries that run user code (tokio), the extension traits
that call the API for each resource (`app/api.rs`), and the serde form of the objects
(`app/wire.rs`, converted by `app/bridge.rs`).

`tests/` holds the tests of the library.
