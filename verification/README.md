# Budget Explorer

An agentic command-line assistant for YNAB budgets: a local language model
(through Ollama) answers questions about a budget by calling tools that read
the YNAB API.

The decision-making core is a Verus library; the program around it does the
I/O.

- `src/` — the verified library
  - `ynab/` — the budget data model, money formatting, per-payee and
    per-category summaries, date filtering, name search, newest-first ordering
    and the API endpoint paths.
  - `tools/` — the tool registry offered to the model and the API request each
    tool call makes.
  - `ai/` — messages, the system prompt, goals, and the agent: conversation
    memory, reading tool calls out of replies, and `AgentRun`, the state
    machine that decides, event by event, whether to ask the model, run a tool
    or finish.
  - `profile.rs` — the user profile, the onboarding wizard's state machine and
    the profile update.
  - `cli.rs`, `config.rs` — env-file parsing, chat input, listing lines, the
    default configuration.
  - `text.rs`, `json.rs` — character-sequence primitives, and JSON read through
    `serde_json`.
- `app/` — the program: command-line parsing, HTTP clients for YNAB and
  Ollama, files, terminal I/O, and the JSON shapes of the API.
- `tests/` — tests of the library.
