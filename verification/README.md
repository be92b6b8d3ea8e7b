# obscura_mcp

The request handling of an MCP (Model Context Protocol) server that drives a
headless browser, with machine-checked proofs of its behaviour.

- `src/` is the proved library:
  - `json.rs`: JSON values and their mathematical reading;
  - `text.rs`: trimming, joining and decimal numbers;
  - `encode.rs`: JSON string literals (through `serde_json`);
  - `rpc.rs`: JSON-RPC responses and the framing of the line transport;
  - `catalog.rs`: the tools and the `tools/list` result;
  - `scripts.rs`: the page scripts the tools run;
  - `dom.rs`: readable text of a document tree and the snapshot report;
  - `session.rs`: the browser session state, browser tasks and the reports
    made from what the browser observed;
  - `tools.rs`: argument checking and the first step of each tool;
  - `server.rs`: method dispatch and tool-call responses;
  - `laws.rs`: properties that hold across calls.
- `app/` runs the server: standard input and output, JSON parsing and
  printing, and the browser work itself.
