# mcp-crm

A CRM server for the Model Context Protocol with one schema for contacts,
companies, deals, activities, pipelines and notes over four services:
Salesforce, HubSpot, Zoho CRM and Pipedrive.

## Layout

- `src/` — the library, verified with Verus.
  - `json.rs` — a JSON document model with the accessors the record mappers use.
  - `text.rs` — numerals, integer parsing, substring search, quoting, trimming.
  - `urlencoding.rs` — percent-encoding of SOQL queries, with its round-trip law.
  - `http.rs` — requests, replies, and the `Step` an operation takes next.
  - `types.rs` — the unified records.
  - `hubspot.rs`, `pipedrive.rs`, `salesforce.rs`, `zoho_crm.rs` — each
    operation of each backend as a function from the replies received so far
    to the next request or the result, with contracts over the JSON replies.
  - `server.rs` — tool inputs, backend selection, health and manifest verdicts.
- `app/` — the executable: environment, HTTP transport (reqwest), the MCP tool
  router (rmcp), serde copies of the records, and the health check.
- `tests/` — tests of the library on concrete replies.

Every operation is driven the same way: the caller asks the backend for the
next step with the replies it has so far, sends the request it gets, and
appends the reply, until the step is a result.
