# clash_tui

A terminal dashboard for Clash/Mihomo proxy cores, whose core logic is
written in Verus and proved against its contracts.

## Layout

- `src/` — the verified library.
  - `config.rs`, `config_laws.rs`, `repair_laws.rs` — the configuration
    file as a model: adding, editing and removing subscriptions, routing
    them through the `Proxy` group, the default route, and the laws these
    edits obey.
  - `yaml.rs`, `subscription.rs` — YAML documents and how the text of a
    downloaded subscription or a cached provider file is reduced to its
    proxies.
  - `json.rs` — reading the text of the core's JSON answers into proxies
    and subscriptions.
  - `commands/` — key bindings, the command executor and its laws.
  - `dashboard.rs`, `panels.rs`, `view.rs`, `ui.rs` — what the dashboard
    decides between its calls to the core, and what each tab shows.
  - `scheduler.rs`, `updater.rs` — when subscriptions are updated, and
    how an update is judged.
  - `instance.rs`, `core_manager.rs`, `client.rs`, `args.rs`, `text.rs`,
    `sort.rs`, `state.rs`, `context.rs`, `clock.rs` — supporting pieces.
- `app/` — the program around the library: command line, terminal
  drawing, HTTP calls, files on disk and background tasks.
- `tests/` — tests of the library on concrete values.

Calls into outside crates (`reqwest::Url`, `md5`, `chrono`, `serde_yaml`,
`serde_json`) and a few standard-library functions are made through small trusted wrappers whose
contracts are stated next to them.
