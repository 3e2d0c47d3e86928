# WordPick core

The verified core of WordPick, a system-wide text-selection assistant:
select text in any application, a small toolbar appears, and translate /
explain / follow-up questions are answered by an OpenAI-compatible model the
user configures.

`src/` is the library, written in Verus; every function carries a contract
and the library's laws are proof functions checked by Verus:

- `position` — where a popup opens: below, above, right, left, at the
  anchor, else clamped into the work area.
- `selection` — selections, the blacklist, and the debouncing dispatcher
  that turns selection events into toolbar actions.
- `state` — toolbar buttons and the context handed to the chat panel.
- `config` — the built-in configuration, `${ENV}` placeholders, and what
  loading `config.toml` decides.
- `llm` — prompts, API key resolution, HTTP status handling, the retry
  policy and the stop switches of requests in flight.
- `sse` — framing of the server-sent event stream.
- `secure` — key masking and the onboarding check.
- `windows`, `tray`, `providers` — window recipes, the tray icon and menu,
  and the built-in provider templates.

`app/` is the desktop shell (Tauri windows, tray, shortcuts, platform
selection watchers, the configuration file, the keychain and the HTTP
client); it performs the I/O and leaves every decision to the library.

`tests/` runs the library on concrete values.
