# da_harness

A harness that runs LLM-driven agent loops with tool calling and structured JSON request/response
schemas, verified with Verus.

The library under `src/` decides and its host acts. Both loops are state machines on plain values:

- `multi_tool`: the model drives itself by calling named tools. `multi_tool::session` holds the
  machine, `multi_tool::tool` and `multi_tool::history` the rules for tools that rewrite the history,
  and `multi_tool::laws` and `multi_tool::run_laws` what holds of every step and of every run.
- `single_tool`: each turn the model answers a typed request with a typed response.
  `single_tool::agent_loop` holds the machine, `single_tool::prompt` the prompt,
  `single_tool::compaction` the compaction of long histories, and `single_tool::laws` and
  `single_tool::run_laws` what holds of every step and of every run.
- `client` and `models`: the requests to an OpenAI-compatible endpoint and what its answers hold.
- `schema`: the JSON schemas of tools, requests and responses.
- `fences`: JSON inside a reply of the model.

JSON values and schemas are those of `serde_json` and `schemars`. The functions that call these
crates are in `json` and `schema`, each with a contract that says what the call does.

`app/` is the host on tokio: it sends the requests, reads the channel, runs the handlers and calls
the callbacks. `tests/` runs the machines on one thread.
