# copilot_provider

The GitHub Copilot provider of a model host, written in Rust and verified with Verus.

The host calls the model through the Copilot SDK and stays in charge: the SDK runs without the
tools, the configuration and the permissions of the machine, and only the tools that the host
declares are offered to the model. A tool that the model calls is not run: the call is captured and
handed back to the host.

- `src/` is the library. Every decision of a call is in it: the catalog entry, the system message
  and the prompt, the declared tools, how the client and the session are set up, what is done after
  what, which events reach the host, and the answer. Contracts and laws stand beside the code.
- `app/` starts the SDK, runs the steps of a call and touches the environment.
- `tests/` runs the library against the outside crates.

JSON text, tool patterns, call identifiers and the texts of SDK errors come from `serde_json`,
`github-copilot-sdk` and `uuid`. What the proofs take from them is written down at the items marked
`external_body`, and at one `assume_specification`, in `src/json.rs`, `src/encode.rs`,
`src/error.rs` and `src/tools.rs`.
