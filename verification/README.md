# obsidian-mcp

An MCP server that lets AI assistants read and write an Obsidian vault through
the Obsidian Local REST API plugin.

## Layout

- `src/` — the verified library (Verus).
  - `types.rs`: patch operation, target type and patch parameters, with their wire names.
  - `http.rs`: plain-value HTTP requests and replies.
  - `client.rs`: the REST API client. For each operation it builds the one request
    to send (method, URL, headers, body) and interprets the reply; contracts pin
    every request and outcome exactly.
  - `server.rs`: the sixteen MCP tools. `prepare` turns a tool call into its request
    (or refuses it, e.g. a non-TABLE Dataview query), `complete` turns the reply into
    the tool's text or error.
  - `error.rs`, `config.rs`, `text.rs`, `json.rs`: error messages, start-up settings,
    string utilities, and the serde_json calls.
- `app/` — the program: command line, the HTTP exchanges (reqwest), and the MCP
  protocol (rmcp) over stdio or streamable HTTP.
- `tests/` — tests of the library.

## Options

| Flag | Env Var | Default |
|------|---------|---------|
| `--api-url` | `OBSIDIAN_API_URL` | `https://127.0.0.1:27124` |
| `--api-key` | `OBSIDIAN_API_KEY` | *(required)* |
| `--transport` | `MCP_TRANSPORT` | `stdio` (`stdio` or `http`) |
| `--port` | `MCP_PORT` | `3000` |
| `--host` | `MCP_HOST` | `127.0.0.1` |
