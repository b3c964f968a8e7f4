# cli_mcp_contract

A guarded MCP adapter for the `dpm` migration tool, with its logic verified
by Verus.

- `src/` is the verified library:
  - `json.rs`: the JSON documents that the protocol exchanges, and their model;
  - `protocol.rs`: the session lifecycle (`initialize` first, then the tool
    methods) and every reply, as a step from session and message to the next
    session and an answer;
  - `tools.rs`: the three tools, their descriptors, and the command line that
    a call runs, with the exact-confirmation guard of `dpm_apply`;
  - `execution.rs`: how the adapter waits for a command and what a finished
    or timed-out run reports;
  - `repository.rs` and `certify.rs`: the rules of the repository check and
    of the certification run;
  - `text.rs`: character-level helpers.
- `app/` holds the programs: the adapter over stdio (it parses and writes
  JSON with `serde_json` and runs the commands), the repository check and the
  certification run. The first argument picks one.
- `tests/` runs the library on concrete inputs.
