# judge

Shared mechanics for model-backed judge adapters, verified with Verus.

- `src/` is the verified library: validated names and references
  (`names`, `authorization`), provider call records (`message`), the provider
  client trait and fixture (`client`), the OpenAI Codex call steps and their
  argument and prompt construction (`codex`), the supervision of a bounded
  provider child process (`child`), the OpenAI-compatible request and response
  shapes (`compatible`), and text helpers (`text`).
- `app/` performs what the library decides: it reads the process
  environment, runs and signals child processes, and talks HTTP.
- `tests/` exercise the library on concrete values.

The process-running Codex client is `CodexProcessClient` in `app/`, and the
environment-backed secret resolver is `ProcessEnvironmentResolver` there;
`OpenAiCodexProviderClient` and `EnvironmentSecretResolver` in the library
hold only their decisions. Secret-bearing types have no `Debug`; their
`debug_text()` gives a rendering with every secret withheld.
