# mimo

A keyboard- and mouse-driven terminal manager for the Mihomo (Clash Meta)
proxy core, with one-shot command-line commands beside the interface.

## Layout

- `src/` — the verified library (Verus): the interface's decisions, the
  parsers, the download strategy and the rules of the commands, each with its
  contract:
  - `update.rs`: the interface as a state machine, `update(state, action, now)`
    giving the next state, whether to quit, and the outside work to do;
  - `mouse.rs`: hit-testing of mouse events against the drawn layout;
  - `state.rs`: the interface state, its start-up value and its queries;
  - `parser.rs`: subscription decoding and share-link parsing;
  - `profiles.rs`, `profile_meta.rs`: the profile index and listings;
  - `settings.rs`, `api.rs`, `mihomo_core.rs`, `commands.rs`: configuration,
    REST/WebSocket addresses, core/system-proxy/TUN decisions, and the words
    of the command-line commands;
  - `text.rs`, `sort.rs`, `models.rs`, `api_models.rs`, `theme.rs`, `i18n.rs`,
    `layout.rs`: shared helpers and data.
- `app/` — the program: command-line parsing, files, processes, HTTP and
  WebSocket traffic, the terminal loop and the drawing. It hands the library
  plain values and carries out the work the library asks for; what remains
  there is the sequencing of outside calls (which command runs after which,
  retrying an outside call, reporting progress) and the output.
- `tests/` — tests of the library on concrete values.
