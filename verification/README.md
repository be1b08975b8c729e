# aivyx_vision

Sanitized, LLM-prompted SVG generation and the `mold serve` image backend of
the Aivyx-Vision toolset, with its decision logic verified by Verus.

- `src/` — the verified library.
  - `svg`: extracting the `<svg>...</svg>` block from a completion, the
    prompt sent to the completion backend, sanitizing through svg-hush.
  - `vision`: the backend-agnostic request/asset/error model and a scripted
    test double of a generation backend.
  - `gpu_lock_client`, `mold_client`: endpoints of aivyx-broker's GPU lock and
    of `mold serve`, and what each of their answers means.
  - `provider`: the mold backend's configuration, request translation and
    error mapping.
  - `image_job`: one image generation as a state machine — lock, generate,
    release exactly once, write — with its lock discipline proved.
  - `text`: character-level helpers (search, decimal text, `u64` parsing).
  - `foreign`: declarations of standard and outside types carried through.
- `app/` — the asynchronous side: the `TextCompleter` and
  `GenerationProvider` traits, the HTTP exchanges (reqwest), file writes,
  and error types with `std::error::Error`.
- `tests/` — tests of the library.
