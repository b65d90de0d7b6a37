# devflow

The core of Devflow, a desktop tool for AI-assisted iterative code development
with an integrated diff review, written as a library whose behaviour is stated
in `requires` / `ensures` contracts and proved with Verus.

## Layout

- `src/agent/` — the agent: conversation types, the Anthropic and Gemini message
  formats and stream assembly, context compaction, project memory (AGENTS.md),
  the sub-agent loop, run state, usage counting, and the tools (their inputs and
  definitions, path checks, file edits, notebook edits, search results, shell
  outcomes, the session's todos and plan approval).
- `src/git/` — repository status, unified-diff parsing, WSL paths and the
  highlighted diff view.
- `src/evals/` — the evaluation cases, how a run is judged against its expected
  behaviour, and the reports.
- `src/config/`, `src/template/` — project and application settings, and the
  review/commit message templates.
- `src/text.rs`, `src/text_map.rs`, `src/text_order.rs` — verified text
  operations used throughout.
- `src/bindings.rs` — the calls into other crates, each with the contract that
  the rest of the library relies on.
- `app/` — the command-line program around the library: file system, processes,
  serialisation.
- `tests/` — tests of the library on concrete values.

Properties that relate several operations are stated as proof functions named
`law_*`, next to the operations they speak of.
