# codex_logic

The decision logic of the Codex agent, written in Verus and proved against its
contracts.

- `src/` is the verified library. Each module states its behaviour over
  mathematical models (`Seq`, `Map`, spec enums) and proves it:
  plugin identifiers (`plugin_id`), the login callback state (`login`),
  world-state sections and their plan (`world_state`, `world_state_plan`),
  realtime context messages and their byte-bounded chunking (`realtime`,
  `json`), channel detection of streamed messages (`bem`), the active-turn
  registry (`active_turn_registry`, `assoc`), managed requirements
  (`requirements`), MCP runtime inputs, tool exposure and configuration checks
  (`mcp_runtime`, `mcp_tool_exposure`, `mcp_config`), image preparation
  (`image_preparation`), network-policy decisions (`network_policy`),
  execution environments (`environment`), and the archive commands with their
  session lookup (`session_archive`, `session_lookup`).
- `tests/` runs the library on concrete values.
- `app/` is the unverified shell around it: terminal prompts, reading
  `config.toml`, the process-exec helper, the asynchronous network-policy round
  trip, the driver of the session lookup, and the serialised forms of the
  library's types.
