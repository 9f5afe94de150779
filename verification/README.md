# codex_transfer

The logic by which Codex requests are transferred to other upstreams, written and
proved in Verus.

* `src/` is the library. Its contracts are stated over mathematical values: JSON
  documents (`json::Json`), headers as maps, texts as sequences of characters.
  Functions named `law_...` state what holds of the library as a whole.
* `app/` does the input and output: streams, files, the clock of a connection, and
  the debugger of Codex Desktop.
* `tests/` runs the library with the crates that it relies on.

What is relied on without proof is declared in `json` (serde_json), `headers`
(http), `text` (std), and, for one function each, in `chatgpt_auth` (base64), `cdp`
(http) and `failure_event` (the clock).
