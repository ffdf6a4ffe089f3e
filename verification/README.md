# mason_registry_api

The logic of an edge-cached HTTP API for the Mason registry, verified with
Verus: query parameters, upstream endpoints and headers, the classification
of upstream failures, the decoding of GitHub GraphQL responses, pagination,
semantic-version ordering of version lists, and the Renovate badge.

- `src/` is the verified library.
- `tests/` exercise it on concrete values.
- `app/` performs the HTTP requests, the JSON (de)serialization and builds
  the responses of the serverless functions around the library.
