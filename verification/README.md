# asus_steuerung

Decision logic of the ASUS settings pages (OLED care, Splendid colour profiles,
Fn lock), verified with Verus.

- `src/` — the verified library. Each page is a state machine: from its state and a
  message it computes the next state and the action to perform (a process call with
  its exact arguments, or a log line); process outcomes are turned into the page's
  feedback messages by verified functions.
  - `oled_care.rs`, `splendid.rs`, `fn_key.rs`: the three pages, with their laws.
  - `prozess.rs`: process outcomes, error messages, the qdbus fallback.
  - `text.rs`: decimal formatting and substring search.
- `tests/` — tests on concrete values.
- `app/` — the relm4/GTK components that run the processes, read the configuration
  file and show the widgets, calling the library for every decision.
