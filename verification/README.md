# shorts_tauri_app

The logic of a desktop application that turns a YouTube video into ranked
short clips through the MuAPI service, gated by a license, with a support
desk for the license worker. The logic is written in Verus, and Verus
proves each function against its contract. Where a result comes from an
outside crate (a JSON parse, a hash, a URL parse, the clock), the contract
names that result or states what holds of every outcome rather than
describing it.

## Layout

- `src/` — the verified library.
  - `config`, `dotenv`, `health` — settings from the environment and the
    secure store, their validation, and the health report.
  - `licensing`, `auth_worker`, `secret_store` — the license worker client:
    retry and circuit-breaker policy, Devolens replies, signed session
    tokens, idempotency keys, and where credentials are read from.
  - `pipeline`, `generate`, `highlights`, `provider_json`, `muapi` — the
    generation pipeline as a state machine, progress events, highlight
    parsing, de-duplication and ranking, and the MuAPI request decisions.
  - `bridge`, `python_runtime`, `process_supervisor`, `tool_resolver` —
    running the local Python bridge and finding external tools.
  - `admin`, `privacy` — the support desk's and the customer's requests
    to the license worker.
  - `api_profiles`, `runtime_paths`, `fs_output` — saved API keys, the
    runtime directory and its confined file commands, result output.
  - `text`, `numbers`, `hex`, `json`, `errors` — shared helpers.
- `tests/` — tests run against the compiled library.
- `app/` — a command-line shell: environment, files, processes, HTTP, and
  the JSON encodings of the library's types. It hands the library what it
  read and acts on what the library decides; the loops it runs (polling,
  retries, the process watchdog) take each decision from the library.

## Checking

The library is checked with Verus; the tests run with the library's outside
crates (`serde_json`, `sha2`, `reqwest`) linked.
