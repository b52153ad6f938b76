# hotshot_query_service

The verified core of a query service for a HotShot ledger.

`src/` is the verified library, with its contracts and proofs:

- `availability`: identifiers of leaves and blocks, the records served for them, and the error
  events that report missing ones.
- `data_source::sql`: construction of the SQL queries that read leaves and blocks (where clauses
  with numbered placeholders, proved to select exactly the heights of their range), interpretation
  of block rows, the decisions of the streams that yield leaves and blocks in chronological order,
  and of the block fetch that reports a missing block and waits for it.
- `data_source::versioned_channel`: a message buffer whose messages are delivered only when
  committed, and dropped when reverted.
- `data_source::update`: pairing the leaves of a decide event with the certificates that justify
  them, oldest first, and what becomes of their blocks.
- `fetcher`: keys of fetch requests, the set of fetches in flight (no duplicate fetches), the
  retry discipline of a fetch task, combining providers, checking a block retrieved from another
  query service, and a gate for tests that holds requests until the next unblock. The set of
  fetches in flight is a vector without duplicates rather than a `HashSet`: the hash-set
  contracts hold only for keys known to follow the hash-table key model, which block hashes are
  not.
- `status`, `error`, `query_error`: status data read from consensus metrics, and the errors of
  the API with their HTTP status codes.

`app/` holds the asynchronous plumbing that runs around it: broadcast channels, the background
fetcher task and the provider combinators, database access through `tokio-postgres` with the
leaf and block stream sources and the block fetcher, the update from consensus events, the
status data source's success rate, and serializable forms of the API types.

Not present in either part:

- the HTTP side: the REST API definitions (`define_api`) and the HTTP client of the query-service
  provider need the `tide-disco` and `surf-disco` crates, which this project does not depend on.
  The provider is written against a small client interface (`BlockClient`, `LeafClient`) instead.
- the Prometheus registry: metrics export and the handle that HotShot populates. The status
  queries read a model of the consensus gauges (`PrometheusMetrics`).
- HotShot's own types: leaves, certificates, blocks and consensus events are type parameters,
  described by small traits in `app/` (`DecidedLeaf`, `LeafFacts`, `BlockFacts`).
- the availability API's own error type, and so the `Availability` variant of `Error`.
