# api-proxy

A proxy for the eSIM number stock services of Nar and Bakcell. It asks an
operator's stock service for numbers, keeps only the entries with the requested
prefix and rewrites the pagination (`total`, `has_next`) to match.

- `src/` is the verified library: the JSON model and the rewriting of a stock
  page (`json`, `stock`), decimal notation and header text (`text`), request
  headers and cookies (`headers`), query parameters (`params`), User-Agents and
  the User-Agent file format (`agents`, `lines`), and the steps of one lookup
  (`exchange`, `embedded`), which say what to do next after each outside event.
- `app/` runs the HTTP server (`/nar/stock`, `/bakcell/stock`) and the C
  interface (`nar_proxy`, `bakcell_proxy`, `free_string`); it performs the
  pauses and HTTP requests a lookup asks for and converts JSON to and from
  serde_json.
